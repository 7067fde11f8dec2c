//! Annotation colours and tools, and the pixel operations of the renderer
//! that work on whole pixels.

use vstd::prelude::*;
use crate::text::{append_str, decimal, decimal_string, owned, str_eq};

verus! {

broadcast use vstd::string::group_string_axioms;

/// An RGBA colour.
#[derive(Clone, Copy, Debug, PartialEq, Eq, Structural)]
pub struct Color {
    pub r: u8,
    pub g: u8,
    pub b: u8,
    pub a: u8,
}

impl Color {
    /// The opaque colour with the given red, green and blue.
    pub fn rgb(r: u8, g: u8, b: u8) -> (c: Self)
        ensures
            c == (Color { r, g, b, a: 255 }),
    {
        Color { r, g, b, a: 255 }
    }

    /// The palette's red.
    pub fn red() -> (c: Self)
        ensures
            c == (Color { r: 239, g: 68, b: 68, a: 255 }),
    {
        Color::rgb(239, 68, 68)
    }

    /// The palette's orange.
    pub fn orange() -> (c: Self)
        ensures
            c == (Color { r: 249, g: 115, b: 22, a: 255 }),
    {
        Color::rgb(249, 115, 22)
    }

    /// The palette's yellow.
    pub fn yellow() -> (c: Self)
        ensures
            c == (Color { r: 234, g: 179, b: 8, a: 255 }),
    {
        Color::rgb(234, 179, 8)
    }

    /// The palette's green.
    pub fn green() -> (c: Self)
        ensures
            c == (Color { r: 34, g: 197, b: 94, a: 255 }),
    {
        Color::rgb(34, 197, 94)
    }

    /// The palette's blue.
    pub fn blue() -> (c: Self)
        ensures
            c == (Color { r: 59, g: 130, b: 246, a: 255 }),
    {
        Color::rgb(59, 130, 246)
    }

    /// The palette's purple.
    pub fn purple() -> (c: Self)
        ensures
            c == (Color { r: 139, g: 92, b: 246, a: 255 }),
    {
        Color::rgb(139, 92, 246)
    }

    /// The palette's white.
    pub fn white() -> (c: Self)
        ensures
            c == (Color { r: 255, g: 255, b: 255, a: 255 }),
    {
        Color::rgb(255, 255, 255)
    }

    /// The palette's black, a very dark blue-grey.
    pub fn black() -> (c: Self)
        ensures
            c == (Color { r: 17, g: 24, b: 39, a: 255 }),
    {
        Color::rgb(17, 24, 39)
    }
}

/// The colours of the palette, in the order the editor offers them.
pub open spec fn palette() -> Seq<Color> {
    seq![
        Color { r: 239, g: 68, b: 68, a: 255 },
        Color { r: 249, g: 115, b: 22, a: 255 },
        Color { r: 234, g: 179, b: 8, a: 255 },
        Color { r: 34, g: 197, b: 94, a: 255 },
        Color { r: 59, g: 130, b: 246, a: 255 },
        Color { r: 139, g: 92, b: 246, a: 255 },
        Color { r: 255, g: 255, b: 255, a: 255 },
        Color { r: 17, g: 24, b: 39, a: 255 },
    ]
}

/// The palette colour at position `index`; red for any other index.
pub fn color_from_index(index: i32) -> (c: Color)
    ensures
        0 <= index < 8 ==> c == palette()[index as int],
        !(0 <= index < 8) ==> c == palette()[0],
{
    match index {
        0 => Color::red(),
        1 => Color::orange(),
        2 => Color::yellow(),
        3 => Color::green(),
        4 => Color::blue(),
        5 => Color::purple(),
        6 => Color::white(),
        7 => Color::black(),
        _ => Color::red(),
    }
}

/// The palette position of `color`; 0 (red) for a colour not in the palette.
pub fn color_index(color: Color) -> (i: i32)
    ensures
        0 <= i < 8,
        (exists|j: int| 0 <= j < 8 && palette()[j] == color) ==> palette()[i as int] == color,
        !(exists|j: int| 0 <= j < 8 && palette()[j] == color) ==> i == 0,
{
    let i = if color == Color::orange() {
        1
    } else if color == Color::yellow() {
        2
    } else if color == Color::green() {
        3
    } else if color == Color::blue() {
        4
    } else if color == Color::purple() {
        5
    } else if color == Color::white() {
        6
    } else if color == Color::black() {
        7
    } else {
        0
    };
    proof {
        if i == 0 && color != palette()[0] {
            assert forall|j: int| 0 <= j < 8 implies palette()[j] != color by {}
        }
    }
    i
}

/// The palette colours are all different, so the position `color_index`
/// reads back from the colour `color_from_index` chose is the one chosen.
pub proof fn palette_positions_round_trip(index: int)
    requires
        0 <= index < 8,
    ensures
        forall|j: int| 0 <= j < 8 && palette()[j] == palette()[index] ==> j == index,
{
}

/// An annotation tool of the editor.
#[derive(Clone, Copy, Debug, PartialEq, Eq, Structural)]
pub enum ToolKind {
    Rectangle,
    Ellipse,
    Arrow,
    Line,
    Pen,
    Text,
    Mosaic,
    Blur,
}

/// The id of a tool, as the interface names it.
pub open spec fn tool_id(tool: ToolKind) -> Seq<char> {
    match tool {
        ToolKind::Rectangle => "rectangle"@,
        ToolKind::Ellipse => "ellipse"@,
        ToolKind::Arrow => "arrow"@,
        ToolKind::Line => "line"@,
        ToolKind::Pen => "pen"@,
        ToolKind::Text => "text"@,
        ToolKind::Mosaic => "mosaic"@,
        ToolKind::Blur => "blur"@,
    }
}

/// The tools, in the order the editor lists them.
pub open spec fn all_tools() -> Seq<ToolKind> {
    seq![
        ToolKind::Rectangle,
        ToolKind::Ellipse,
        ToolKind::Arrow,
        ToolKind::Line,
        ToolKind::Pen,
        ToolKind::Text,
        ToolKind::Mosaic,
        ToolKind::Blur,
    ]
}

/// The first tool, in list order, whose id is `id`.
pub open spec fn tool_with_id(id: Seq<char>) -> Option<ToolKind> {
    if id == "rectangle"@ {
        Some(ToolKind::Rectangle)
    } else if id == "ellipse"@ {
        Some(ToolKind::Ellipse)
    } else if id == "arrow"@ {
        Some(ToolKind::Arrow)
    } else if id == "line"@ {
        Some(ToolKind::Line)
    } else if id == "pen"@ {
        Some(ToolKind::Pen)
    } else if id == "text"@ {
        Some(ToolKind::Text)
    } else if id == "mosaic"@ {
        Some(ToolKind::Mosaic)
    } else if id == "blur"@ {
        Some(ToolKind::Blur)
    } else {
        None
    }
}

impl ToolKind {
    /// Every tool, in the order the editor lists them.
    pub fn all() -> (r: [ToolKind; 8])
        ensures
            r@ == all_tools(),
    {
        let r = [
            ToolKind::Rectangle,
            ToolKind::Ellipse,
            ToolKind::Arrow,
            ToolKind::Line,
            ToolKind::Pen,
            ToolKind::Text,
            ToolKind::Mosaic,
            ToolKind::Blur,
        ];
        assert(r@ =~= all_tools());
        r
    }

    /// The tool's id.
    pub fn id(self) -> (r: &'static str)
        ensures
            r@ == tool_id(self),
    {
        match self {
            ToolKind::Rectangle => "rectangle",
            ToolKind::Ellipse => "ellipse",
            ToolKind::Arrow => "arrow",
            ToolKind::Line => "line",
            ToolKind::Pen => "pen",
            ToolKind::Text => "text",
            ToolKind::Mosaic => "mosaic",
            ToolKind::Blur => "blur",
        }
    }

    /// The tool whose id is `id`, if any.
    pub fn from_id(id: &str) -> (r: Option<Self>)
        ensures
            r == tool_with_id(id@),
    {
        let tools = ToolKind::all();
        let mut i: usize = 0;
        while i < 8
            invariant
                i <= 8,
                tools@ == all_tools(),
                forall|j: int| 0 <= j < i ==> tool_id(#[trigger] all_tools()[j]) != id@,
            decreases 8 - i,
        {
            let tool = tools[i];
            if str_eq(tool.id(), id) {
                return Some(tool);
            }
            i += 1;
        }
        None
    }
}

/// Reading a tool's id gives the tool back.
pub proof fn tool_id_round_trip(tool: ToolKind)
    ensures
        tool_with_id(tool_id(tool)) == Some(tool),
{
    reveal_strlit("rectangle");
    reveal_strlit("ellipse");
    reveal_strlit("arrow");
    reveal_strlit("line");
    reveal_strlit("pen");
    reveal_strlit("text");
    reveal_strlit("mosaic");
    reveal_strlit("blur");
    assert("rectangle"@.len() == 9 && "ellipse"@.len() == 7 && "arrow"@.len() == 5);
    assert("line"@.len() == 4 && "pen"@.len() == 3 && "text"@.len() == 4);
    assert("mosaic"@.len() == 6 && "blur"@.len() == 4);
    assert("line"@ != "text"@) by {
        assert("line"@[0] != "text"@[0]);
    }
    assert("line"@ != "blur"@) by {
        assert("line"@[0] != "blur"@[0]);
    }
    assert("text"@ != "blur"@) by {
        assert("text"@[0] != "blur"@[0]);
    }
}

/// Why rendering failed.
#[derive(Clone, Debug, PartialEq, Eq, Structural)]
pub enum RenderError {
    /// A pixel buffer does not hold `width * height` RGBA pixels.
    InvalidBuffer { width: u32, height: u32, actual_len: usize, expected_len: usize },
    /// No font could be loaded for text annotations.
    FontUnavailable,
}

/// The message shown for a render error.
pub open spec fn render_error_text(e: RenderError) -> Seq<char> {
    match e {
        RenderError::InvalidBuffer { width, height, actual_len, expected_len } => "invalid RGBA buffer "@
            + decimal(width as nat) + "x"@ + decimal(height as nat) + ": got "@ + decimal(
            actual_len as nat,
        ) + " bytes, expected "@ + decimal(expected_len as nat),
        RenderError::FontUnavailable => "no usable system font was found; set AZUSA_LENS_FONT to a TTF/OTF font file"@,
    }
}

impl RenderError {
    /// The message shown for the error.
    pub fn message(&self) -> (r: String)
        ensures
            r@ == render_error_text(*self),
    {
        match self {
            RenderError::InvalidBuffer { width, height, actual_len, expected_len } => {
                let mut s = owned("invalid RGBA buffer ");
                let w = decimal_string(*width as u64);
                let h = decimal_string(*height as u64);
                let a = decimal_string(*actual_len as u64);
                let e = decimal_string(*expected_len as u64);
                append_str(&mut s, w.as_str());
                append_str(&mut s, "x");
                append_str(&mut s, h.as_str());
                append_str(&mut s, ": got ");
                append_str(&mut s, a.as_str());
                append_str(&mut s, " bytes, expected ");
                append_str(&mut s, e.as_str());
                s
            },
            RenderError::FontUnavailable => owned(
                "no usable system font was found; set AZUSA_LENS_FONT to a TTF/OTF font file",
            ),
        }
    }
}

/// `Ok` when `pixels` holds exactly `width * height` RGBA pixels and
/// neither side is zero.
pub fn validate_buffer(pixels: &[u8], width: u32, height: u32) -> (r: Result<(), RenderError>)
    requires
        width * height * 4 <= usize::MAX,
    ensures
        (width > 0 && height > 0 && pixels@.len() == width * height * 4) ==> r is Ok,
        !(width > 0 && height > 0 && pixels@.len() == width * height * 4) ==> r == Err::<(), RenderError>(
            RenderError::InvalidBuffer {
                width,
                height,
                actual_len: pixels@.len() as usize,
                expected_len: (width * height * 4) as usize,
            },
        ),
{
    let expected_len = width as usize * height as usize * 4;
    if width == 0 || height == 0 || pixels.len() != expected_len {
        return Err(
            RenderError::InvalidBuffer { width, height, actual_len: pixels.len(), expected_len },
        );
    }
    Ok(())
}

/// One channel of `source` laid with opacity `alpha` (0 to 255) over `dest`.
pub open spec fn blend_channel(source: u8, dest: u8, alpha: int) -> u8 {
    ((source * alpha + dest * (255 - alpha)) / 255) as u8
}

/// The pixel at byte `index` with `color` laid over it at opacity `alpha`,
/// becoming opaque.
pub open spec fn blended(pixels: Seq<u8>, index: int, color: Color, alpha: int) -> Seq<u8> {
    pixels.update(index, blend_channel(color.r, pixels[index], alpha)).update(
        index + 1,
        blend_channel(color.g, pixels[index + 1], alpha),
    ).update(index + 2, blend_channel(color.b, pixels[index + 2], alpha)).update(index + 3, 255)
}

/// The blend of one channel, in `u16` arithmetic.
fn blend_u16(source: u8, dest: u8, alpha: u16) -> (r: u8)
    requires
        alpha <= 255,
    ensures
        r == blend_channel(source, dest, alpha as int),
{
    let inverse = 255 - alpha;
    proof {
        assert(source * alpha <= 255 * 255) by (nonlinear_arith)
            requires
                source <= 255,
                alpha <= 255,
        ;
        assert(dest * inverse <= 255 * 255) by (nonlinear_arith)
            requires
                dest <= 255,
                inverse <= 255,
        ;
        assert(source * alpha + dest * inverse <= 255 * 255) by (nonlinear_arith)
            requires
                source <= 255,
                dest <= 255,
                alpha + inverse == 255,
        ;
    }
    ((source as u16 * alpha + dest as u16 * inverse) / 255) as u8
}

/// Lays `color` over pixel `(x, y)` of an image `width` pixels wide, at the
/// colour's opacity scaled by `coverage`; the pixel becomes opaque.
pub fn blend_pixel(pixels: &mut [u8], width: u32, x: u32, y: u32, color: Color, coverage: u8)
    requires
        (y * width + x) * 4 + 3 < old(pixels)@.len(),
        (y * width + x) * 4 <= u32::MAX,
    ensures
        final(pixels)@ == blended(
            old(pixels)@,
            (y * width + x) * 4,
            color,
            (color.a * coverage) / 255,
        ),
{
    proof {
        assert(y * width <= (y * width + x) * 4) by (nonlinear_arith)
            requires
                0 <= x,
                0 <= y * width,
        ;
        assert(0 <= y * width) by (nonlinear_arith);
    }
    let index = ((y * width + x) * 4) as usize;
    proof {
        assert(color.a * coverage <= 255 * 255) by (nonlinear_arith)
            requires
                color.a <= 255,
                coverage <= 255,
        ;
    }
    let source_alpha: u16 = (color.a as u16) * (coverage as u16) / 255;
    pixels[index] = blend_u16(color.r, pixels[index], source_alpha);
    pixels[index + 1] = blend_u16(color.g, pixels[index + 1], source_alpha);
    pixels[index + 2] = blend_u16(color.b, pixels[index + 2], source_alpha);
    pixels[index + 3] = 255;
}

/// Lays `color` over pixel `(x, y)` of an image `width` pixels wide, at the
/// colour's own opacity; the pixel becomes opaque.
pub fn blend_rgba_pixel(pixels: &mut [u8], width: u32, x: u32, y: u32, color: Color)
    requires
        (y * width + x) * 4 + 3 < old(pixels)@.len(),
        (y * width + x) * 4 <= u32::MAX,
    ensures
        final(pixels)@ == blended(old(pixels)@, (y * width + x) * 4, color, color.a as int),
{
    proof {
        assert(0 <= y * width) by (nonlinear_arith);
    }
    let index = ((y * width + x) * 4) as usize;
    let alpha = color.a as u16;
    pixels[index] = blend_u16(color.r, pixels[index], alpha);
    pixels[index + 1] = blend_u16(color.g, pixels[index + 1], alpha);
    pixels[index + 2] = blend_u16(color.b, pixels[index + 2], alpha);
    pixels[index + 3] = 255;
}

} // verus!
