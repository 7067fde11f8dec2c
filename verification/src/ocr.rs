//! OCR tasks, input images and errors, and the text an OCR result carries.

use vstd::prelude::*;
use crate::text::{
    append_str, concat2, decimal, decimal_string, join, join_strings, owned, str_eq, views,
};

verus! {

broadcast use vstd::string::group_string_axioms;

/// What an OCR run is asked to produce.
#[derive(Clone, Copy, Debug, PartialEq, Eq, Structural, Hash)]
pub enum OcrTaskKind {
    Text,
    Document,
    Table,
    Figure,
}

/// The stored name of a task.
pub open spec fn task_name(task: OcrTaskKind) -> Seq<char> {
    match task {
        OcrTaskKind::Text => "text"@,
        OcrTaskKind::Document => "document"@,
        OcrTaskKind::Table => "table"@,
        OcrTaskKind::Figure => "figure"@,
    }
}

/// The task a stored name stands for.
pub open spec fn task_from_name(value: Seq<char>) -> Option<OcrTaskKind> {
    if value == "text"@ {
        Some(OcrTaskKind::Text)
    } else if value == "document"@ {
        Some(OcrTaskKind::Document)
    } else if value == "table"@ {
        Some(OcrTaskKind::Table)
    } else if value == "figure"@ {
        Some(OcrTaskKind::Figure)
    } else {
        None
    }
}

/// The name of a task shown to the user.
pub open spec fn task_title(task: OcrTaskKind) -> Seq<char> {
    match task {
        OcrTaskKind::Text => "Text OCR"@,
        OcrTaskKind::Document => "Document to Markdown"@,
        OcrTaskKind::Table => "Table recognition"@,
        OcrTaskKind::Figure => "Figure recognition"@,
    }
}

impl OcrTaskKind {
    /// Every task, in the order they are offered.
    pub fn all() -> (r: [OcrTaskKind; 4])
        ensures
            r@ == seq![OcrTaskKind::Text, OcrTaskKind::Document, OcrTaskKind::Table, OcrTaskKind::Figure],
    {
        [OcrTaskKind::Text, OcrTaskKind::Document, OcrTaskKind::Table, OcrTaskKind::Figure]
    }

    /// The stored name of the task.
    pub fn as_str(self) -> (r: &'static str)
        ensures
            r@ == task_name(self),
    {
        match self {
            OcrTaskKind::Text => "text",
            OcrTaskKind::Document => "document",
            OcrTaskKind::Table => "table",
            OcrTaskKind::Figure => "figure",
        }
    }

    /// The task named `value`, if any.
    pub fn from_value(value: &str) -> (r: Option<Self>)
        ensures
            r == task_from_name(value@),
    {
        if str_eq(value, "text") {
            Some(OcrTaskKind::Text)
        } else if str_eq(value, "document") {
            Some(OcrTaskKind::Document)
        } else if str_eq(value, "table") {
            Some(OcrTaskKind::Table)
        } else if str_eq(value, "figure") {
            Some(OcrTaskKind::Figure)
        } else {
            None
        }
    }

    /// The name of the task shown to the user.
    pub fn display_name(self) -> (r: &'static str)
        ensures
            r@ == task_title(self),
    {
        match self {
            OcrTaskKind::Text => "Text OCR",
            OcrTaskKind::Document => "Document to Markdown",
            OcrTaskKind::Table => "Table recognition",
            OcrTaskKind::Figure => "Figure recognition",
        }
    }

    /// The extension of the file a task's output is saved in: plain text
    /// for text, Markdown for the others.
    pub fn output_extension(self) -> (r: &'static str)
        ensures
            self == OcrTaskKind::Text ==> r@ == "txt"@,
            self != OcrTaskKind::Text ==> r@ == "md"@,
    {
        match self {
            OcrTaskKind::Text => "txt",
            _ => "md",
        }
    }
}

/// Reading a task's stored name gives the task back.
pub proof fn task_name_round_trip(task: OcrTaskKind)
    ensures
        task_from_name(task_name(task)) == Some(task),
{
    reveal_strlit("text");
    reveal_strlit("document");
    reveal_strlit("table");
    reveal_strlit("figure");
    assert("document"@.len() != "text"@.len());
    assert("table"@.len() != "text"@.len());
    assert("figure"@.len() != "text"@.len());
    assert("table"@.len() != "document"@.len());
    assert("figure"@.len() != "document"@.len());
    assert("figure"@.len() != "table"@.len());
}

/// Why OCR failed.
#[derive(Clone, Debug, PartialEq, Eq)]
pub enum OcrError {
    InvalidImage(String),
    Model(String),
    Download(String),
    Cancelled(String),
    Backend(String),
}

/// The message shown for an OCR error.
pub open spec fn ocr_error_text(e: OcrError) -> Seq<char> {
    match e {
        OcrError::InvalidImage(m) => "invalid OCR image: "@ + m@,
        OcrError::Model(m) => "OCR model error: "@ + m@,
        OcrError::Download(m) => "OCR model download error: "@ + m@,
        OcrError::Cancelled(m) => "OCR operation cancelled: "@ + m@,
        OcrError::Backend(m) => "OCR backend error: "@ + m@,
    }
}

impl OcrError {
    /// The message shown for the error.
    pub fn message(&self) -> (r: String)
        ensures
            r@ == ocr_error_text(*self),
    {
        match self {
            OcrError::InvalidImage(m) => concat2("invalid OCR image: ", m.as_str()),
            OcrError::Model(m) => concat2("OCR model error: ", m.as_str()),
            OcrError::Download(m) => concat2("OCR model download error: ", m.as_str()),
            OcrError::Cancelled(m) => concat2("OCR operation cancelled: ", m.as_str()),
            OcrError::Backend(m) => concat2("OCR backend error: ", m.as_str()),
        }
    }
}

/// The error of an engine asked for a task other than plain text, which
/// is all an engine does unless it says otherwise.
pub fn unsupported_task_error(engine_name: &str, task: OcrTaskKind) -> (r: OcrError)
    ensures
        r matches OcrError::Model(m) && m@ == engine_name@ + " does not support "@ + task_title(task),
{
    let mut m = owned(engine_name);
    append_str(&mut m, " does not support ");
    append_str(&mut m, task.display_name());
    OcrError::Model(m)
}

/// The plain content of an OCR image.
pub ghost struct ImageView {
    pub width: u32,
    pub height: u32,
    pub rgba: Seq<u8>,
}

/// An image to recognise: `width * height` RGBA pixels, neither side empty.
#[derive(Debug)]
pub struct OcrImage {
    width: u32,
    height: u32,
    rgba: Vec<u8>,
}

impl OcrImage {
    /// An image is never empty, holds exactly its pixels, and its byte
    /// count fits in `u32`.
    #[verifier::type_invariant]
    closed spec fn image_invariant(self) -> bool {
        &&& self.width > 0
        &&& self.height > 0
        &&& self.rgba@.len() == self.width * self.height * 4
        &&& self.width * self.height * 4 <= u32::MAX
    }
}

impl Clone for OcrImage {
    fn clone(&self) -> (r: Self)
        ensures
            r@ == self@,
    {
        proof {
            use_type_invariant(self);
        }
        let rgba = self.rgba.clone();
        assert(rgba@ =~= self.rgba@);
        OcrImage { width: self.width, height: self.height, rgba }
    }
}

impl View for OcrImage {
    type V = ImageView;

    closed spec fn view(&self) -> ImageView {
        ImageView { width: self.width, height: self.height, rgba: self.rgba@ }
    }
}

/// The message of an RGBA buffer of the wrong length.
pub open spec fn buffer_length_text(len: nat, width: nat, height: nat) -> Seq<char> {
    "RGBA buffer length "@ + decimal(len) + " does not match "@ + decimal(width) + "×"@ + decimal(
        height,
    ) + "×4 ("@ + decimal(width * height * 4) + ")"@
}

impl OcrImage {
    /// The image of `width * height` RGBA pixels `rgba`; refused when a side
    /// is zero, when the byte count does not fit in `u32`, or when the
    /// buffer does not hold exactly that many pixels.
    pub fn new(width: u32, height: u32, rgba: Vec<u8>) -> (r: Result<Self, OcrError>)
        ensures
            (width == 0 || height == 0) ==> (r matches Err(OcrError::InvalidImage(m))
                && m@ == "OCR image dimensions must be non-zero"@),
            (width > 0 && height > 0 && width * height * 4 > u32::MAX) ==> (r matches Err(
                OcrError::InvalidImage(m),
            ) && m@ == "OCR image dimensions overflow"@),
            (width > 0 && height > 0 && width * height * 4 <= u32::MAX && rgba@.len() != width
                * height * 4) ==> (r matches Err(OcrError::InvalidImage(m)) && m@
                == buffer_length_text(rgba@.len(), width as nat, height as nat)),
            (width > 0 && height > 0 && rgba@.len() == width * height * 4 && width * height * 4
                <= u32::MAX) ==> (r matches Ok(image) && image@ == (ImageView {
                width,
                height,
                rgba: rgba@,
            })),
    {
        if width == 0 || height == 0 {
            return Err(OcrError::InvalidImage(owned("OCR image dimensions must be non-zero")));
        }
        let pixels = match width.checked_mul(height) {
            Some(p) => p,
            None => {
                proof {
                    assert(width * height * 4 > u32::MAX) by (nonlinear_arith)
                        requires
                            width * height > u32::MAX,
                    ;
                }
                return Err(OcrError::InvalidImage(owned("OCR image dimensions overflow")));
            },
        };
        let expected = match pixels.checked_mul(4) {
            Some(e) => e,
            None => return Err(OcrError::InvalidImage(owned("OCR image dimensions overflow"))),
        };
        proof {
            assert(pixels * 4 == width * height * 4);
        }
        if rgba.len() != expected as usize {
            let mut m = owned("RGBA buffer length ");
            let len_text = decimal_string(rgba.len() as u64);
            let w = decimal_string(width as u64);
            let h = decimal_string(height as u64);
            let e = decimal_string(expected as u64);
            append_str(&mut m, len_text.as_str());
            append_str(&mut m, " does not match ");
            append_str(&mut m, w.as_str());
            append_str(&mut m, "×");
            append_str(&mut m, h.as_str());
            append_str(&mut m, "×4 (");
            append_str(&mut m, e.as_str());
            append_str(&mut m, ")");
            return Err(OcrError::InvalidImage(m));
        }
        Ok(OcrImage { width, height, rgba })
    }

    /// The image's width in pixels.
    pub fn width(&self) -> (r: u32)
        ensures
            r == self@.width,
    {
        self.width
    }

    /// The image's height in pixels.
    pub fn height(&self) -> (r: u32)
        ensures
            r == self@.height,
    {
        self.height
    }

    /// The image's RGBA bytes, row after row.
    pub fn rgba(&self) -> (r: &[u8])
        ensures
            r@ == self@.rgba,
            r@.len() == self@.width * self@.height * 4,
    {
        proof {
            use_type_invariant(self);
        }
        self.rgba.as_slice()
    }
}

/// The texts of `texts` that are not empty, in order.
pub open spec fn nonempty_texts(texts: Seq<Seq<char>>) -> Seq<Seq<char>>
    decreases texts.len(),
{
    if texts.len() == 0 {
        Seq::empty()
    } else if texts.last().len() > 0 {
        nonempty_texts(texts.drop_last()).push(texts.last())
    } else {
        nonempty_texts(texts.drop_last())
    }
}

/// The plain text of an OCR result: the non-empty texts of its blocks, one
/// per line.
pub fn plain_text_of(texts: &Vec<String>) -> (r: String)
    ensures
        r@ == join(nonempty_texts(views(texts@)), "\n"@),
{
    let mut kept: Vec<String> = Vec::new();
    let mut i: usize = 0;
    while i < texts.len()
        invariant
            i <= texts@.len(),
            views(kept@) == nonempty_texts(views(texts@).take(i as int)),
        decreases texts.len() - i,
    {
        let ghost before = views(texts@).take(i as int);
        assert(views(texts@).take(i + 1).drop_last() =~= before);
        if texts[i].unicode_len() > 0 {
            kept.push(owned(texts[i].as_str()));
            assert(views(kept@) =~= nonempty_texts(before).push(texts@[i as int]@));
        }
        i += 1;
    }
    assert(views(texts@).take(texts@.len() as int) =~= views(texts@));
    join_strings(&kept, "\n")
}

/// `v` clamped to `low..=high`.
pub open spec fn clamp_int(v: int, low: int, high: int) -> int {
    if v < low {
        low
    } else if v > high {
        high
    } else {
        v
    }
}

/// The box of `width` by `height` pixels at `(left, top)`, grown by
/// `padding` on every side and clipped to the image, as left, top, width
/// and height; `None` when nothing of it is left or a size is zero.
pub open spec fn padded_bounds(
    image_width: u32,
    image_height: u32,
    left: i32,
    top: i32,
    width: u32,
    height: u32,
    padding: u32,
) -> Option<(u32, u32, u32, u32)> {
    let x0 = clamp_int(left - padding, 0, image_width as int);
    let y0 = clamp_int(top - padding, 0, image_height as int);
    let x1 = clamp_int(left + width + padding, 0, image_width as int);
    let y1 = clamp_int(top + height + padding, 0, image_height as int);
    if image_width == 0 || image_height == 0 || width == 0 || height == 0 || x1 <= x0 || y1 <= y0 {
        None
    } else {
        Some((x0 as u32, y0 as u32, (x1 - x0) as u32, (y1 - y0) as u32))
    }
}

/// `v` clamped to `low..=high`.
fn clamp_i64(v: i64, low: i64, high: i64) -> (r: i64)
    requires
        low <= high,
    ensures
        r == clamp_int(v as int, low as int, high as int),
{
    if v < low {
        low
    } else if v > high {
        high
    } else {
        v
    }
}

/// The crop of a detected text box with `padding` pixels around it, clipped
/// to the image.
pub fn padded_crop_bounds(
    image_width: u32,
    image_height: u32,
    left: i32,
    top: i32,
    width: u32,
    height: u32,
    padding: u32,
) -> (r: Option<(u32, u32, u32, u32)>)
    ensures
        r == padded_bounds(image_width, image_height, left, top, width, height, padding),
{
    if image_width == 0 || image_height == 0 || width == 0 || height == 0 {
        return None;
    }
    let image_width = image_width as i64;
    let image_height = image_height as i64;
    let padding = padding as i64;
    let raw_left = left as i64;
    let raw_top = top as i64;
    let raw_right = raw_left + width as i64;
    let raw_bottom = raw_top + height as i64;
    let x0 = clamp_i64(raw_left - padding, 0, image_width);
    let y0 = clamp_i64(raw_top - padding, 0, image_height);
    let x1 = clamp_i64(raw_right + padding, 0, image_width);
    let y1 = clamp_i64(raw_bottom + padding, 0, image_height);
    if x1 <= x0 || y1 <= y0 {
        return None;
    }
    Some((x0 as u32, y0 as u32, (x1 - x0) as u32, (y1 - y0) as u32))
}

} // verus!
