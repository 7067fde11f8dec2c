//! Captured frames, capture regions and the choice of capture mechanism.

use vstd::prelude::*;
use crate::encoding::{encode_png, png_encoding};
use crate::pixels::{copy_region, lemma_region_rows_len, lemma_region_rows_pixel, pixel_offset, region_rows};
use crate::platform::Platform;
use crate::text::{append_str, concat2, decimal, decimal_string, owned};

verus! {

broadcast use vstd::string::group_string_axioms;

/// The mechanism that captures the screen.
#[derive(Clone, Copy, Debug, PartialEq, Eq, Structural)]
pub enum CaptureBackendKind {
    WindowsGraphicsCapture,
    MacOsNative,
    WaylandPortal,
    X11,
    Unsupported,
}

/// The name shown for a capture mechanism.
pub open spec fn backend_name(kind: CaptureBackendKind) -> Seq<char> {
    match kind {
        CaptureBackendKind::WindowsGraphicsCapture => "Windows / WGC"@,
        CaptureBackendKind::MacOsNative => "macOS native capture"@,
        CaptureBackendKind::WaylandPortal => "Wayland XDG Screenshot portal"@,
        CaptureBackendKind::X11 => "X11 native capture"@,
        CaptureBackendKind::Unsupported => "Unsupported platform"@,
    }
}

impl CaptureBackendKind {
    /// The name shown for the mechanism.
    pub fn name(&self) -> (r: &'static str)
        ensures
            r@ == backend_name(*self),
    {
        match self {
            CaptureBackendKind::WindowsGraphicsCapture => "Windows / WGC",
            CaptureBackendKind::MacOsNative => "macOS native capture",
            CaptureBackendKind::WaylandPortal => "Wayland XDG Screenshot portal",
            CaptureBackendKind::X11 => "X11 native capture",
            CaptureBackendKind::Unsupported => "Unsupported platform",
        }
    }
}

/// The capture mechanism of a platform: on Linux the Wayland portal in a
/// Wayland session (`WAYLAND_DISPLAY` set), else X11 when `DISPLAY` is set.
pub open spec fn backend_for(platform: Platform, wayland_display: bool, x_display: bool) -> CaptureBackendKind {
    match platform {
        Platform::Windows => CaptureBackendKind::WindowsGraphicsCapture,
        Platform::MacOs => CaptureBackendKind::MacOsNative,
        Platform::Linux => if wayland_display {
            CaptureBackendKind::WaylandPortal
        } else if x_display {
            CaptureBackendKind::X11
        } else {
            CaptureBackendKind::Unsupported
        },
        Platform::Other => CaptureBackendKind::Unsupported,
    }
}

/// Capture works on every known desktop platform, each with its own
/// mechanism: Windows always uses WGC and macOS always its native capture,
/// whatever display variables are set; only Linux looks at them, preferring
/// the Wayland portal to X11; and capture is unsupported exactly on an
/// unknown platform or on Linux with no display at all.
pub proof fn each_platform_has_its_own_backend(platform: Platform, wayland: bool, x: bool, wayland2: bool, x2: bool)
    ensures
        platform != Platform::Linux ==> backend_for(platform, wayland, x) == backend_for(platform, wayland2, x2),
        (backend_for(platform, wayland, x) == CaptureBackendKind::WindowsGraphicsCapture) <==> platform == Platform::Windows,
        (backend_for(platform, wayland, x) == CaptureBackendKind::MacOsNative) <==> platform == Platform::MacOs,
        (backend_for(platform, wayland, x) == CaptureBackendKind::WaylandPortal) <==> (platform == Platform::Linux && wayland),
        (backend_for(platform, wayland, x) == CaptureBackendKind::X11) <==> (platform == Platform::Linux && !wayland && x),
        (backend_for(platform, wayland, x) == CaptureBackendKind::Unsupported) <==> (platform == Platform::Other
            || (platform == Platform::Linux && !wayland && !x)),
{
}

/// Each capture mechanism is reported under a name of its own.
pub proof fn backend_names_tell_backends_apart(a: CaptureBackendKind, b: CaptureBackendKind)
    ensures
        backend_name(a) == backend_name(b) ==> a == b,
{
    reveal_strlit("Windows / WGC");
    reveal_strlit("macOS native capture");
    reveal_strlit("Wayland XDG Screenshot portal");
    reveal_strlit("X11 native capture");
    reveal_strlit("Unsupported platform");
    assert("Windows / WGC"@.len() == 13 && "macOS native capture"@.len() == 20 && "Wayland XDG Screenshot portal"@.len() == 29 && "X11 native capture"@.len() == 18 && "Unsupported platform"@.len() == 20);
    assert("Windows / WGC"@ != "Unsupported platform"@);
    assert("macOS native capture"@ != "Unsupported platform"@) by {
        assert("macOS native capture"@[0] != "Unsupported platform"@[0]);
    }
}

/// The capture mechanism on `platform`, given whether `WAYLAND_DISPLAY` and
/// `DISPLAY` are set.
pub fn detected_backend(platform: Platform, wayland_display: bool, x_display: bool) -> (r:
    CaptureBackendKind)
    ensures
        r == backend_for(platform, wayland_display, x_display),
{
    match platform {
        Platform::Windows => CaptureBackendKind::WindowsGraphicsCapture,
        Platform::MacOs => CaptureBackendKind::MacOsNative,
        Platform::Linux => if wayland_display {
            CaptureBackendKind::WaylandPortal
        } else if x_display {
            CaptureBackendKind::X11
        } else {
            CaptureBackendKind::Unsupported
        },
        Platform::Other => CaptureBackendKind::Unsupported,
    }
}

/// A rectangle of pixels.
#[derive(Clone, Copy, Debug, PartialEq, Eq, Structural)]
pub struct CaptureRect {
    pub x: u32,
    pub y: u32,
    pub width: u32,
    pub height: u32,
}

/// The smaller of two integers.
pub open spec fn min_int(a: int, b: int) -> int {
    if a <= b {
        a
    } else {
        b
    }
}

/// The part of `rect` inside a frame of the given size, if it is not empty.
pub open spec fn clamp_rect(rect: CaptureRect, frame_width: u32, frame_height: u32) -> Option<
    CaptureRect,
> {
    let x = min_int(rect.x as int, frame_width as int);
    let y = min_int(rect.y as int, frame_height as int);
    let right = min_int(rect.x + rect.width, frame_width as int);
    let bottom = min_int(rect.y + rect.height, frame_height as int);
    if right > x && bottom > y {
        Some(
            CaptureRect {
                x: x as u32,
                y: y as u32,
                width: (right - x) as u32,
                height: (bottom - y) as u32,
            },
        )
    } else {
        None
    }
}

/// Pixel `(px, py)` lies in `rect`.
pub open spec fn covers(rect: CaptureRect, px: int, py: int) -> bool {
    &&& rect.x <= px < rect.x + rect.width
    &&& rect.y <= py < rect.y + rect.height
}

/// Clamping keeps exactly the pixels of the rectangle that lie in the
/// frame, and finds nothing only when no pixel of it does.
pub proof fn clamp_keeps_exactly_the_overlap(rect: CaptureRect, frame_width: u32, frame_height: u32, px: int, py: int)
    ensures
        clamp_rect(rect, frame_width, frame_height) is Some ==> (covers(
            clamp_rect(rect, frame_width, frame_height)->0,
            px,
            py,
        ) <==> (covers(rect, px, py) && 0 <= px < frame_width && 0 <= py < frame_height)),
        clamp_rect(rect, frame_width, frame_height) is None ==> !(covers(rect, px, py) && 0 <= px
            < frame_width && 0 <= py < frame_height),
{
}

impl CaptureRect {
    /// The rectangle with top-left pixel `(x, y)` and the given size.
    pub fn new(x: u32, y: u32, width: u32, height: u32) -> (r: Self)
        ensures
            r == (CaptureRect { x, y, width, height }),
    {
        CaptureRect { x, y, width, height }
    }

    /// The part of the rectangle inside a frame of the given size; `None`
    /// when they do not overlap.
    pub fn clamped_to(self, frame_width: u32, frame_height: u32) -> (r: Option<Self>)
        ensures
            r == clamp_rect(self, frame_width, frame_height),
            r matches Some(c) ==> c.width > 0 && c.height > 0 && c.x + c.width <= frame_width
                && c.y + c.height <= frame_height,
    {
        let x = if self.x < frame_width { self.x } else { frame_width };
        let y = if self.y < frame_height { self.y } else { frame_height };
        let right = if self.x as u64 + self.width as u64 <= frame_width as u64 {
            self.x + self.width
        } else {
            frame_width
        };
        let bottom = if self.y as u64 + self.height as u64 <= frame_height as u64 {
            self.y + self.height
        } else {
            frame_height
        };
        if right > x && bottom > y {
            Some(CaptureRect { x, y, width: right - x, height: bottom - y })
        } else {
            None
        }
    }
}

/// Why a capture failed.
#[derive(Debug)]
pub enum CaptureError {
    /// The platform capture mechanism failed.
    Backend(String),
    /// The Wayland screenshot portal failed.
    Portal(String),
    /// There is no monitor to capture.
    NoMonitor,
    /// A pixel buffer does not hold `width * height` RGBA pixels.
    InvalidFrame { width: u32, height: u32, actual_len: usize, expected_len: usize },
    /// A region lies outside the frame.
    InvalidRegion(CaptureRect),
    /// Writing the capture failed; the text describes the failure.
    Io(String),
    /// Encoding the capture failed; the text describes the failure.
    Image(String),
}

/// The message shown for a capture error.
pub open spec fn capture_error_text(e: CaptureError) -> Seq<char> {
    match e {
        CaptureError::Backend(m) => "capture backend failed: "@ + m@,
        CaptureError::Portal(m) => "Wayland portal capture failed: "@ + m@,
        CaptureError::NoMonitor => "no monitor is available for capture"@,
        CaptureError::InvalidFrame { width, height, actual_len, expected_len } => "invalid RGBA frame "@
            + decimal(width as nat) + "x"@ + decimal(height as nat) + ": got "@ + decimal(
            actual_len as nat,
        ) + " bytes, expected "@ + decimal(expected_len as nat),
        CaptureError::InvalidRegion(r) => "invalid capture region "@ + decimal(r.x as nat) + ","@
            + decimal(r.y as nat) + " "@ + decimal(r.width as nat) + "x"@ + decimal(r.height as nat),
        CaptureError::Io(m) => "failed to write capture: "@ + m@,
        CaptureError::Image(m) => "failed to encode capture: "@ + m@,
    }
}

impl CaptureError {
    /// The message shown for the error.
    pub fn message(&self) -> (r: String)
        ensures
            r@ == capture_error_text(*self),
    {
        match self {
            CaptureError::Backend(m) => concat2("capture backend failed: ", m.as_str()),
            CaptureError::Portal(m) => concat2("Wayland portal capture failed: ", m.as_str()),
            CaptureError::NoMonitor => owned("no monitor is available for capture"),
            CaptureError::InvalidFrame { width, height, actual_len, expected_len } => {
                let mut s = owned("invalid RGBA frame ");
                let w = decimal_string(*width as u64);
                let h = decimal_string(*height as u64);
                let a = decimal_string(*actual_len as u64);
                let e = decimal_string(*expected_len as u64);
                append_str(&mut s, w.as_str());
                append_str(&mut s, "x");
                append_str(&mut s, h.as_str());
                append_str(&mut s, ": got ");
                append_str(&mut s, a.as_str());
                append_str(&mut s, " bytes, expected ");
                append_str(&mut s, e.as_str());
                s
            },
            CaptureError::InvalidRegion(r) => {
                let mut s = owned("invalid capture region ");
                let x = decimal_string(r.x as u64);
                let y = decimal_string(r.y as u64);
                let w = decimal_string(r.width as u64);
                let h = decimal_string(r.height as u64);
                append_str(&mut s, x.as_str());
                append_str(&mut s, ",");
                append_str(&mut s, y.as_str());
                append_str(&mut s, " ");
                append_str(&mut s, w.as_str());
                append_str(&mut s, "x");
                append_str(&mut s, h.as_str());
                s
            },
            CaptureError::Io(m) => concat2("failed to write capture: ", m.as_str()),
            CaptureError::Image(m) => concat2("failed to encode capture: ", m.as_str()),
        }
    }
}

/// The plain content of a frame.
pub ghost struct FrameView {
    pub width: u32,
    pub height: u32,
    pub rgba: Seq<u8>,
}

/// A captured image: `width * height` RGBA pixels, neither side empty.
#[derive(Debug)]
pub struct CapturedFrame {
    width: u32,
    height: u32,
    rgba: Vec<u8>,
}

impl View for CapturedFrame {
    type V = FrameView;

    closed spec fn view(&self) -> FrameView {
        FrameView { width: self.width, height: self.height, rgba: self.rgba@ }
    }
}

/// The frame that `new` builds from these parts, or its error.
pub open spec fn frame_from(width: u32, height: u32, rgba: Seq<u8>) -> Result<FrameView, CaptureError> {
    if width == 0 || height == 0 || rgba.len() != width * height * 4 {
        Err(
            CaptureError::InvalidFrame {
                width,
                height,
                actual_len: rgba.len() as usize,
                expected_len: (width * height * 4) as usize,
            },
        )
    } else {
        Ok(FrameView { width, height, rgba })
    }
}

/// `r` is the outcome `spec` describes.
pub open spec fn frame_result_is(r: Result<CapturedFrame, CaptureError>, spec: Result<FrameView, CaptureError>) -> bool {
    match (r, spec) {
        (Ok(frame), Ok(v)) => frame@ == v,
        (Err(e), Err(f)) => e == f,
        _ => false,
    }
}

/// The region `c` of the frame `f`, which lies inside it.
pub open spec fn cropped_view(f: FrameView, c: CaptureRect) -> FrameView {
    FrameView {
        width: c.width,
        height: c.height,
        rgba: region_rows(f.rgba, f.width as int, c.x as int, c.y as int, c.width as int, c.height as int),
    }
}

impl CapturedFrame {
    /// A frame is never empty and holds exactly its pixels.
    #[verifier::type_invariant]
    closed spec fn frame_invariant(self) -> bool {
        &&& self.width > 0
        &&& self.height > 0
        &&& self.rgba@.len() == self.width * self.height * 4
    }

    /// The frame of `width * height` RGBA pixels `rgba`; refused when a side
    /// is zero or the buffer does not hold exactly that many pixels.
    pub fn new(width: u32, height: u32, rgba: Vec<u8>) -> (r: Result<Self, CaptureError>)
        requires
            width * height * 4 <= usize::MAX,
        ensures
            frame_result_is(r, frame_from(width, height, rgba@)),
    {
        let expected_len = width as usize * height as usize * 4;
        if width == 0 || height == 0 || rgba.len() != expected_len {
            return Err(
                CaptureError::InvalidFrame { width, height, actual_len: rgba.len(), expected_len },
            );
        }
        Ok(CapturedFrame { width, height, rgba })
    }

    /// The frame's width in pixels.
    pub fn width(&self) -> (r: u32)
        ensures
            r == self@.width,
            r > 0,
    {
        proof {
            use_type_invariant(self);
        }
        self.width
    }

    /// The frame's height in pixels.
    pub fn height(&self) -> (r: u32)
        ensures
            r == self@.height,
            r > 0,
    {
        proof {
            use_type_invariant(self);
        }
        self.height
    }

    /// The frame's RGBA bytes, row after row.
    pub fn rgba(&self) -> (r: &[u8])
        ensures
            r@ == self@.rgba,
            r@.len() == self@.width * self@.height * 4,
    {
        proof {
            use_type_invariant(self);
        }
        self.rgba.as_slice()
    }

    /// The part of the frame inside `rect`, as a frame of its own; refused
    /// when `rect` does not overlap the frame.
    pub fn crop(&self, rect: CaptureRect) -> (r: Result<Self, CaptureError>)
        ensures
            match clamp_rect(rect, self@.width, self@.height) {
                None => (r matches Err(e) && e == CaptureError::InvalidRegion(rect)),
                Some(c) => (r matches Ok(frame) && frame@ == cropped_view(self@, c)),
            },
    {
        proof {
            use_type_invariant(self);
        }
        let c = match rect.clamped_to(self.width, self.height) {
            Some(c) => c,
            None => return Err(CaptureError::InvalidRegion(rect)),
        };
        proof {
            assert((c.y + c.height - 1) * self.width <= (self.height - 1) * self.width) by (nonlinear_arith)
                requires
                    c.y + c.height <= self.height,
                    c.height > 0,
            ;
            assert((self.height - 1) * self.width + self.width == self.width * self.height)
                by (nonlinear_arith);
            assert(((c.y + c.height - 1) * self.width + c.x + c.width) * 4 <= self.rgba@.len());
            assert(c.width * c.height * 4 <= self.width * self.height * 4) by (nonlinear_arith)
                requires
                    c.width <= self.width,
                    c.height <= self.height,
            ;
        }
        let rgba = copy_region(self.rgba.as_slice(), self.width, c.x, c.y, c.x + c.width, c.y + c.height);
        proof {
            assert forall|r: int| 0 <= r < c.height implies 0 <= #[trigger] pixel_offset(
                self.width as int,
                c.x as int,
                c.y + r,
            ) && pixel_offset(self.width as int, c.x as int, c.y + r) + c.width * 4
                <= self.rgba@.len() by {
                assert(0 <= (c.y + r) * self.width) by (nonlinear_arith)
                    requires
                        0 <= c.y + r,
                ;
                assert((c.y + r) * self.width <= (self.height - 1) * self.width) by (nonlinear_arith)
                    requires
                        c.y + r <= self.height - 1,
                ;
                assert((self.height - 1) * self.width * 4 + self.width * 4 == self.width
                    * self.height * 4) by (nonlinear_arith);
            }
            lemma_region_rows_len(self.rgba@, self.width as int, c.x as int, c.y as int, c.width as int, c.height as int);
        }
        let frame = CapturedFrame { width: c.width, height: c.height, rgba };
        Ok(frame)
    }
}

/// A crop holds the frame's own pixels: byte `c` of pixel `(x, y)` of the
/// region cut from a frame is byte `c` of the frame's pixel at the
/// region's corner moved by `(x, y)`.
pub proof fn crop_keeps_the_selected_pixels(f: FrameView, rect: CaptureRect, x: int, y: int, c: int)
    requires
        f.rgba.len() == f.width * f.height * 4,
        clamp_rect(rect, f.width, f.height) is Some,
        0 <= x < (clamp_rect(rect, f.width, f.height)->0).width,
        0 <= y < (clamp_rect(rect, f.width, f.height)->0).height,
        0 <= c < 4,
    ensures
        ({
            let r = clamp_rect(rect, f.width, f.height)->0;
            cropped_view(f, r).rgba[pixel_offset(r.width as int, x, y) + c] == f.rgba[pixel_offset(
                f.width as int,
                r.x + x,
                r.y + y,
            ) + c]
        }),
{
    let r = clamp_rect(rect, f.width, f.height)->0;
    assert forall|row: int| 0 <= row < r.height implies 0 <= #[trigger] pixel_offset(
        f.width as int,
        r.x as int,
        r.y + row,
    ) && pixel_offset(f.width as int, r.x as int, r.y + row) + r.width * 4 <= f.rgba.len() by {
        assert(0 <= (r.y + row) * f.width) by (nonlinear_arith)
            requires
                0 <= r.y + row,
        ;
        assert(((r.y + row) * f.width + r.x + r.width) * 4 <= f.width * f.height * 4) by (nonlinear_arith)
            requires
                r.y + row + 1 <= f.height,
                r.x + r.width <= f.width,
        ;
    }
    lemma_region_rows_pixel(f.rgba, f.width as int, r.x as int, r.y as int, r.width as int, r.height as int, x, y, c);
}

impl CapturedFrame {
    /// The frame as a PNG file, ready to be written to disk; an encoder
    /// failure is reported as an image error.
    pub fn png_bytes(&self) -> (r: Result<Vec<u8>, CaptureError>)
        ensures
            r is Ok <==> png_encoding(self@.width, self@.height, self@.rgba) is Some,
            r matches Ok(bytes) ==> png_encoding(self@.width, self@.height, self@.rgba) == Some(
                bytes@,
            ),
            r matches Err(e) ==> e is Image,
    {
        proof {
            use_type_invariant(self);
        }
        match encode_png(self.width, self.height, self.rgba.as_slice()) {
            Ok(bytes) => Ok(bytes),
            Err(message) => Err(CaptureError::Image(message)),
        }
    }
}

/// How a region capture continues.
#[derive(Debug)]
pub enum RegionCapture {
    /// The frame is frozen on screen and the user still has to select a
    /// rectangle in it (Windows, macOS, X11).
    NeedsSelection(CapturedFrame),
    /// The platform already let the user select the region (Wayland portal).
    Selected(CapturedFrame),
}

/// Whether a region capture lets the platform select the region, which is
/// what the Wayland portal does.
pub fn platform_selects_region(kind: CaptureBackendKind) -> (r: bool)
    ensures
        r == (kind == CaptureBackendKind::WaylandPortal),
{
    kind == CaptureBackendKind::WaylandPortal
}

/// The index of the monitor to capture, given which monitors report being
/// the primary one: the first primary monitor, else the first monitor.
pub fn primary_monitor_index(is_primary: &[bool]) -> (r: Result<usize, CaptureError>)
    ensures
        is_primary@.len() == 0 ==> (r matches Err(e) && e == CaptureError::NoMonitor),
        is_primary@.len() > 0 ==> (r matches Ok(i) && i < is_primary@.len() && (
        (is_primary@[i as int] && forall|j: int| 0 <= j < i ==> !is_primary@[j])
            || (i == 0 && forall|j: int| 0 <= j < is_primary@.len() ==> !is_primary@[j]))),
{
    if is_primary.len() == 0 {
        return Err(CaptureError::NoMonitor);
    }
    let mut i: usize = 0;
    while i < is_primary.len()
        invariant
            i <= is_primary@.len(),
            forall|j: int| 0 <= j < i ==> !is_primary@[j],
        decreases is_primary.len() - i,
    {
        if is_primary[i] {
            return Ok(i);
        }
        i += 1;
    }
    Ok(0)
}

/// The capture mechanism behind the screen captures of this application.
#[derive(Clone, Copy, Debug)]
pub struct XcapCaptureBackend;

impl XcapCaptureBackend {
    /// The capture mechanism in use, as `detected_backend` finds it.
    pub fn kind(&self, platform: Platform, wayland_display: bool, x_display: bool) -> (r:
        CaptureBackendKind)
        ensures
            r == backend_for(platform, wayland_display, x_display),
    {
        detected_backend(platform, wayland_display, x_display)
    }

    /// Whether the platform has a capture mechanism.
    pub fn is_available(&self, platform: Platform, wayland_display: bool, x_display: bool) -> (r:
        bool)
        ensures
            r == (backend_for(platform, wayland_display, x_display)
                != CaptureBackendKind::Unsupported),
    {
        self.kind(platform, wayland_display, x_display) != CaptureBackendKind::Unsupported
    }

    /// `Ok` when a monitor can be captured here, else the error a capture
    /// reports.
    pub fn check_available(&self, platform: Platform, wayland_display: bool, x_display: bool) -> (r:
        Result<(), CaptureError>)
        ensures
            backend_for(platform, wayland_display, x_display) != CaptureBackendKind::Unsupported
                ==> r is Ok,
            backend_for(platform, wayland_display, x_display) == CaptureBackendKind::Unsupported
                ==> (r matches Err(CaptureError::Backend(m))
                && m@ == "the current operating system has no configured capture backend"@),
    {
        if self.is_available(platform, wayland_display, x_display) {
            Ok(())
        } else {
            Err(CaptureError::Backend(owned("the current operating system has no configured capture backend")))
        }
    }
}

} // verus!
