//! OCR through vision models served by a local Ollama: the models, the
//! server address, the reading of generated text and of DeepSeek-OCR's
//! grounding tags.

use vstd::prelude::*;
use crate::encoding::{base64_encode, base64_standard, encode_png, png_encoding};
use crate::ocr::{OcrError, OcrImage};
use crate::text::{
    append_str, chars_of, concat2, find, find_from, is_prefix_of, lemma_find_from_complete,
    lower_chars, opt_str_chars, owned, remove_all, remove_all_str, starts_with, str_eq,
    string_from_range, strip_suffix, strip_suffix_str, to_ascii_lower, trim, trim_bounds,
    trimmed,
};

verus! {

broadcast use vstd::string::group_string_axioms;

/// The catalog id of GLM-OCR.
pub const GLM_ENGINE_ID: &'static str = "glm-ocr-ollama";
/// The name shown for GLM-OCR.
pub const GLM_ENGINE_NAME: &'static str = "GLM-OCR · local via Ollama";
/// The version shown for GLM-OCR.
pub const GLM_MODEL_VERSION: &'static str = "Ollama · glm-ocr:latest";
/// The languages GLM-OCR reads.
pub const GLM_LANGUAGE_SUMMARY: &'static str = "Chinese, English and multilingual document OCR";
/// The approximate download size of GLM-OCR, in bytes.
pub const GLM_MODEL_DOWNLOAD_SIZE: u64 = 2_200_000_000;

/// The catalog id of DeepSeek-OCR.
pub const DEEPSEEK_ENGINE_ID: &'static str = "deepseek-ocr-ollama";
/// The name shown for DeepSeek-OCR.
pub const DEEPSEEK_ENGINE_NAME: &'static str = "DeepSeek-OCR · local via Ollama";
/// The version shown for DeepSeek-OCR.
pub const DEEPSEEK_MODEL_VERSION: &'static str = "Ollama · deepseek-ocr:latest";
/// The languages DeepSeek-OCR reads.
pub const DEEPSEEK_LANGUAGE_SUMMARY: &'static str = "Multilingual document OCR with grounding boxes";
/// The approximate download size of DeepSeek-OCR, in bytes.
pub const DEEPSEEK_MODEL_DOWNLOAD_SIZE: u64 = 6_700_000_000;

/// A vision model that Ollama runs for OCR.
#[derive(Clone, Copy, Debug, PartialEq, Eq, Structural)]
pub enum OllamaOcrModel {
    Glm,
    DeepSeek,
}

/// The catalog id of an Ollama model.
pub open spec fn ollama_engine_id(model: OllamaOcrModel) -> Seq<char> {
    match model {
        OllamaOcrModel::Glm => GLM_ENGINE_ID@,
        OllamaOcrModel::DeepSeek => DEEPSEEK_ENGINE_ID@,
    }
}

impl OllamaOcrModel {
    /// The catalog id of the model.
    pub fn engine_id(self) -> (r: &'static str)
        ensures
            r@ == ollama_engine_id(self),
            self == OllamaOcrModel::Glm ==> r@ == GLM_ENGINE_ID@,
            self == OllamaOcrModel::DeepSeek ==> r@ == DEEPSEEK_ENGINE_ID@,
    {
        match self {
            OllamaOcrModel::Glm => GLM_ENGINE_ID,
            OllamaOcrModel::DeepSeek => DEEPSEEK_ENGINE_ID,
        }
    }

    /// The name shown for the model.
    pub fn display_name(self) -> (r: &'static str)
        ensures
            self == OllamaOcrModel::Glm ==> r@ == GLM_ENGINE_NAME@,
            self == OllamaOcrModel::DeepSeek ==> r@ == DEEPSEEK_ENGINE_NAME@,
    {
        match self {
            OllamaOcrModel::Glm => GLM_ENGINE_NAME,
            OllamaOcrModel::DeepSeek => DEEPSEEK_ENGINE_NAME,
        }
    }

    /// The model's name in Ollama.
    pub fn ollama_model(self) -> (r: &'static str)
        ensures
            self == OllamaOcrModel::Glm ==> r@ == "glm-ocr:latest"@,
            self == OllamaOcrModel::DeepSeek ==> r@ == "deepseek-ocr:latest"@,
    {
        match self {
            OllamaOcrModel::Glm => "glm-ocr:latest",
            OllamaOcrModel::DeepSeek => "deepseek-ocr:latest",
        }
    }

    /// The prompt the model is given with an image.
    pub fn prompt(self) -> (r: &'static str)
        ensures
            self == OllamaOcrModel::Glm ==> r@ == "Text Recognition:"@,
            self == OllamaOcrModel::DeepSeek ==> r@ == "<|grounding|>OCR this image."@,
    {
        match self {
            OllamaOcrModel::Glm => "Text Recognition:",
            OllamaOcrModel::DeepSeek => "<|grounding|>OCR this image.",
        }
    }
}

/// An OCR engine backed by one Ollama model.
#[derive(Clone, Copy, Debug)]
pub struct OllamaOcrEngine {
    model: OllamaOcrModel,
}

impl OllamaOcrEngine {
    /// The engine of `model`.
    pub fn new(model: OllamaOcrModel) -> (r: Self)
        ensures
            r.model() == model,
    {
        OllamaOcrEngine { model }
    }

    /// The model the engine runs.
    pub closed spec fn model(&self) -> OllamaOcrModel {
        self.model
    }

    /// The model the engine runs.
    pub fn ollama_model(&self) -> (r: OllamaOcrModel)
        ensures
            r == self.model(),
    {
        self.model
    }

    /// The error of recognising while the model is missing or Ollama is down.
    pub fn unavailable_error(&self) -> (r: OcrError)
        ensures
            r matches OcrError::Model(m) && (self.model() == OllamaOcrModel::Glm ==> m@
                == GLM_ENGINE_NAME@ + " is not installed or Ollama is not running; open Settings > OCR models and download it first"@)
                && (self.model() == OllamaOcrModel::DeepSeek ==> m@ == DEEPSEEK_ENGINE_NAME@
                + " is not installed or Ollama is not running; open Settings > OCR models and download it first"@),
    {
        OcrError::Model(
            concat2(
                self.model.display_name(),
                " is not installed or Ollama is not running; open Settings > OCR models and download it first",
            ),
        )
    }
}

/// Whether an installed model name denotes the expected one, `:latest`
/// being the tag a bare name stands for.
pub open spec fn names_match(installed: Seq<char>, expected: Seq<char>) -> bool {
    ||| installed == expected
    ||| strip_suffix(installed, ":latest"@) == Some(expected)
    ||| strip_suffix(expected, ":latest"@) == Some(installed)
}

/// Whether the installed model `installed` is the model `expected`.
pub fn model_names_match(installed: &str, expected: &str) -> (r: bool)
    ensures
        r == names_match(installed@, expected@),
{
    if str_eq(installed, expected) {
        return true;
    }
    match strip_suffix_str(installed, ":latest") {
        Some(base) => {
            if str_eq(base.as_str(), expected) {
                return true;
            }
        },
        None => {},
    }
    match strip_suffix_str(expected, ":latest") {
        Some(base) => str_eq(base.as_str(), installed),
        None => false,
    }
}

/// Whether any of the model names Ollama lists is `model`.
pub fn any_model_matches(installed: &Vec<String>, model: OllamaOcrModel) -> (r: bool)
    ensures
        r == exists|i: int|
            0 <= i < installed@.len() && names_match(
                #[trigger] installed@[i]@,
                model.ollama_model_name(),
            ),
{
    let expected = model.ollama_model();
    let mut i: usize = 0;
    while i < installed.len()
        invariant
            i <= installed@.len(),
            expected@ == model.ollama_model_name(),
            forall|j: int| 0 <= j < i ==> !names_match(#[trigger] installed@[j]@, model.ollama_model_name()),
        decreases installed.len() - i,
    {
        if model_names_match(installed[i].as_str(), expected) {
            return true;
        }
        i += 1;
    }
    false
}

impl OllamaOcrModel {
    /// The model's name in Ollama.
    pub open spec fn ollama_model_name(self) -> Seq<char> {
        match self {
            OllamaOcrModel::Glm => "glm-ocr:latest"@,
            OllamaOcrModel::DeepSeek => "deepseek-ocr:latest"@,
        }
    }
}

/// The Ollama server address: `host` (the `OLLAMA_HOST` setting) or the
/// local default, without trailing slashes, with `http://` in front unless
/// it names its scheme.
pub open spec fn base_url(host: Option<Seq<char>>) -> Seq<char> {
    let value = without_trailing_slashes(
        match host {
            Some(h) => h,
            None => "http://127.0.0.1:11434"@,
        },
    );
    if is_prefix_of("http://"@, value) || is_prefix_of("https://"@, value) {
        value
    } else {
        "http://"@ + value
    }
}

/// `s` without the slashes it ends with.
pub open spec fn without_trailing_slashes(s: Seq<char>) -> Seq<char>
    decreases s.len(),
{
    if s.len() > 0 && s.last() == '/' {
        without_trailing_slashes(s.drop_last())
    } else {
        s
    }
}

/// The Ollama server address, given the `OLLAMA_HOST` setting if it is set.
pub fn ollama_base_url(host: Option<&str>) -> (r: String)
    ensures
        r@ == base_url(opt_str_chars(host)),
{
    let raw = match host {
        Some(h) => owned(h),
        None => owned("http://127.0.0.1:11434"),
    };
    let v = chars_of(raw.as_str());
    let mut end = v.len();
    assert(v@.subrange(0, v@.len() as int) =~= v@);
    while end > 0 && v[end - 1] == '/'
        invariant
            end <= v@.len(),
            without_trailing_slashes(v@) == without_trailing_slashes(v@.subrange(0, end as int)),
        decreases end,
    {
        assert(v@.subrange(0, end as int).drop_last() =~= v@.subrange(0, end - 1));
        end -= 1;
    }
    let value = string_from_range(v.as_slice(), 0, end);
    let vc = chars_of(value.as_str());
    if starts_with(vc.as_slice(), chars_of("http://").as_slice()) || starts_with(
        vc.as_slice(),
        chars_of("https://").as_slice(),
    ) {
        value
    } else {
        concat2("http://", value.as_str())
    }
}

/// The address of the Ollama API endpoint `endpoint`.
pub fn ollama_url(endpoint: &str, host: Option<&str>) -> (r: String)
    ensures
        r@ == base_url(opt_str_chars(host)) + "/api/"@ + endpoint@,
{
    let mut url = ollama_base_url(host);
    append_str(&mut url, "/api/");
    append_str(&mut url, endpoint);
    url
}

/// The error of a model download through Ollama that failed.
pub fn ollama_download_error(action: &str, model: OllamaOcrModel, error: &str, base: &str) -> (r:
    OcrError)
    ensures
        r matches OcrError::Download(m) && m@ == "failed to "@ + action@ + " "@ + (
        if model == OllamaOcrModel::Glm {
            GLM_ENGINE_NAME@
        } else {
            DEEPSEEK_ENGINE_NAME@
        }) + " through Ollama at "@ + base@ + ": "@ + error@
            + ". Install/start Ollama and try again from Settings > OCR models"@,
{
    let mut m = owned("failed to ");
    append_str(&mut m, action);
    append_str(&mut m, " ");
    append_str(&mut m, model.display_name());
    append_str(&mut m, " through Ollama at ");
    append_str(&mut m, base);
    append_str(&mut m, ": ");
    append_str(&mut m, error);
    append_str(&mut m, ". Install/start Ollama and try again from Settings > OCR models");
    OcrError::Download(m)
}

/// The error of an Ollama request that failed.
pub fn ollama_backend_error(action: &str, model: OllamaOcrModel, error: &str, base: &str) -> (r:
    OcrError)
    ensures
        r matches OcrError::Backend(m) && m@ == "failed to "@ + action@ + " "@ + (
        if model == OllamaOcrModel::Glm {
            GLM_ENGINE_NAME@
        } else {
            DEEPSEEK_ENGINE_NAME@
        }) + " through Ollama at "@ + base@ + ": "@ + error@,
{
    let mut m = owned("failed to ");
    append_str(&mut m, action);
    append_str(&mut m, " ");
    append_str(&mut m, model.display_name());
    append_str(&mut m, " through Ollama at ");
    append_str(&mut m, base);
    append_str(&mut m, ": ");
    append_str(&mut m, error);
    OcrError::Backend(m)
}

/// Generated text without grounding markers and surrounding whitespace.
pub open spec fn cleaned_text(text: Seq<char>) -> Seq<char> {
    trim(remove_all(text, "<|grounding|>"@))
}

/// Generated text without grounding markers and surrounding whitespace.
pub fn clean_generated_text(text: &str) -> (r: String)
    ensures
        r@ == cleaned_text(text@),
{
    let removed = remove_all_str(text, "<|grounding|>");
    trimmed(removed.as_str())
}

/// Whether a grounding label names a kind of layout region rather than
/// the text itself.
pub open spec fn layout_label(label: Seq<char>) -> bool {
    let l = to_ascii_lower(trim(label));
    ||| l == "title"@
    ||| l == "text"@
    ||| l == "image"@
    ||| l == "table"@
    ||| l == "formula"@
    ||| l == "header"@
    ||| l == "footer"@
    ||| l == "page_number"@
    ||| l == "reference"@
    ||| l == "figure"@
    ||| l == "caption"@
}

/// Whether `label` names a kind of layout region.
pub fn is_layout_label(label: &str) -> (r: bool)
    ensures
        r == layout_label(label@),
{
    let t = trimmed(label);
    let lower_v = lower_chars(chars_of(t.as_str()).as_slice());
    let mut l = String::new();
    crate::text::append_chars(&mut l, lower_v.as_slice());
    assert(l@ =~= to_ascii_lower(trim(label@)));
    let s = l.as_str();
    str_eq(s, "title") || str_eq(s, "text") || str_eq(s, "image") || str_eq(s, "table") || str_eq(
        s,
        "formula",
    ) || str_eq(s, "header") || str_eq(s, "footer") || str_eq(s, "page_number") || str_eq(
        s,
        "reference",
    ) || str_eq(s, "figure") || str_eq(s, "caption")
}

/// A region DeepSeek-OCR reported: its text and its box coordinates as
/// written (a JSON list of `[x1, y1, x2, y2]` boxes on a 0 to 999 scale).
#[derive(Clone, Debug)]
pub struct GroundingSegment {
    pub text: String,
    pub coordinates: String,
}

/// The text and coordinates of each segment.
pub open spec fn segment_views(s: Seq<GroundingSegment>) -> Seq<(Seq<char>, Seq<char>)> {
    s.map_values(|g: GroundingSegment| (g.text@, g.coordinates@))
}

/// The regions of `raw` from position `cursor` on.  A region is
/// `<|ref|>label<|/ref|><|det|>coordinates<|/det|>` followed by content up
/// to the next `<|ref|>`; its text is that content when the label only
/// names a layout kind and the content is not empty, else the label.  A
/// label without coordinates is skipped, an unclosed tag ends the scan,
/// and regions without text are dropped.
pub open spec fn grounding_from(raw: Seq<char>, cursor: int) -> Seq<(Seq<char>, Seq<char>)>
    decreases raw.len() - cursor,
{
    if cursor < 0 || cursor > raw.len() {
        Seq::empty()
    } else {
        match find_from(raw, "<|ref|>"@, cursor) {
            None => Seq::empty(),
            Some(r) => {
                let ref_start = r + "<|ref|>"@.len();
                match find_from(raw, "<|/ref|>"@, ref_start) {
                    None => Seq::empty(),
                    Some(e) => {
                        let label = trim(raw.subrange(ref_start, e));
                        let after_ref = e + "<|/ref|>"@.len();
                        proof {
                            reveal_strlit("<|ref|>");
                            reveal_strlit("<|/ref|>");
                            lemma_find_from_complete(raw, "<|ref|>"@, cursor);
                            lemma_find_from_complete(raw, "<|/ref|>"@, ref_start);
                        }
                        match find_from(raw, "<|det|>"@, after_ref) {
                            None => grounding_from(raw, after_ref),
                            Some(d) => {
                                let det_start = d + "<|det|>"@.len();
                                match find_from(raw, "<|/det|>"@, det_start) {
                                    None => Seq::empty(),
                                    Some(f) => {
                                        let coordinates = trim(raw.subrange(det_start, f));
                                        let after_det = f + "<|/det|>"@.len();
                                        let next_ref = match find_from(raw, "<|ref|>"@, after_det) {
                                            Some(n) => n,
                                            None => raw.len() as int,
                                        };
                                        let trailing = cleaned_text(raw.subrange(after_det, next_ref));
                                        let text = if layout_label(label) && trailing.len() > 0 {
                                            trailing
                                        } else {
                                            label
                                        };
                                        proof {
                                            reveal_strlit("<|det|>");
                                            reveal_strlit("<|/det|>");
                                            lemma_find_from_complete(raw, "<|det|>"@, after_ref);
                                            lemma_find_from_complete(raw, "<|/det|>"@, det_start);
                                        }
                                        let rest = grounding_from(raw, after_det);
                                        if text.len() > 0 {
                                            seq![(text, coordinates)] + rest
                                        } else {
                                            rest
                                        }
                                    },
                                }
                            },
                        }
                    },
                }
            },
        }
    }
}

/// The trimmed text of `v[from..to]`.
fn trimmed_range(v: &[char], from: usize, to: usize) -> (r: String)
    requires
        from <= to <= v@.len(),
    ensures
        r@ == trim(v@.subrange(from as int, to as int)),
{
    let part = string_from_range(v, from, to);
    trimmed(part.as_str())
}

/// The regions that DeepSeek-OCR reported in its output `raw`.
pub fn parse_grounding_segments(raw: &str) -> (r: Vec<GroundingSegment>)
    ensures
        segment_views(r@) == grounding_from(raw@, 0),
{
    let v = chars_of(raw);
    let ref_open = chars_of("<|ref|>");
    let ref_close = chars_of("<|/ref|>");
    let det_open = chars_of("<|det|>");
    let det_close = chars_of("<|/det|>");
    proof {
        reveal_strlit("<|ref|>");
        reveal_strlit("<|/ref|>");
        reveal_strlit("<|det|>");
        reveal_strlit("<|/det|>");
    }
    let mut out: Vec<GroundingSegment> = Vec::new();
    let mut cursor: usize = 0;
    assert(segment_views(out@) + grounding_from(raw@, 0) =~= grounding_from(raw@, 0));
    loop
        invariant
            v@ == raw@,
            ref_open@ == "<|ref|>"@,
            ref_close@ == "<|/ref|>"@,
            det_open@ == "<|det|>"@,
            det_close@ == "<|/det|>"@,
            cursor <= v@.len(),
            segment_views(out@) + grounding_from(raw@, cursor as int) == grounding_from(raw@, 0),
        decreases v@.len() - cursor,
    {
        let r = match find(v.as_slice(), ref_open.as_slice(), cursor) {
            Some(r) => r,
            None => {
                assert(grounding_from(raw@, cursor as int) =~= Seq::<(Seq<char>, Seq<char>)>::empty());
                assert(segment_views(out@) + Seq::<(Seq<char>, Seq<char>)>::empty() =~= segment_views(out@));
                return out;
            },
        };
        proof {
            reveal_strlit("<|ref|>");
            reveal_strlit("<|/ref|>");
            reveal_strlit("<|det|>");
            reveal_strlit("<|/det|>");
            lemma_find_from_complete(v@, ref_open@, cursor as int);
        }
        assert(r + ref_open.len() <= v.len());
        let ref_start: usize = r + ref_open.len();
        let e = match find(v.as_slice(), ref_close.as_slice(), ref_start) {
            Some(e) => e,
            None => {
                assert(segment_views(out@) + Seq::<(Seq<char>, Seq<char>)>::empty() =~= segment_views(out@));
                return out;
            },
        };
        proof {
            lemma_find_from_complete(v@, ref_close@, ref_start as int);
        }
        let label = trimmed_range(v.as_slice(), ref_start, e);
        assert(e + ref_close.len() <= v.len());
        let after_ref: usize = e + ref_close.len();
        let d = match find(v.as_slice(), det_open.as_slice(), after_ref) {
            Some(d) => d,
            None => {
                assert(after_ref > cursor);
                cursor = after_ref;
                continue;
            },
        };
        proof {
            lemma_find_from_complete(v@, det_open@, after_ref as int);
        }
        assert(d + det_open.len() <= v.len());
        let det_start: usize = d + det_open.len();
        let f = match find(v.as_slice(), det_close.as_slice(), det_start) {
            Some(f) => f,
            None => {
                assert(segment_views(out@) + Seq::<(Seq<char>, Seq<char>)>::empty() =~= segment_views(out@));
                return out;
            },
        };
        proof {
            lemma_find_from_complete(v@, det_close@, det_start as int);
        }
        let coordinates = trimmed_range(v.as_slice(), det_start, f);
        assert(f + det_close.len() <= v.len());
        let after_det: usize = f + det_close.len();
        let next_ref = match find(v.as_slice(), ref_open.as_slice(), after_det) {
            Some(n) => n,
            None => v.len(),
        };
        proof {
            lemma_find_from_complete(v@, ref_open@, after_det as int);
        }
        let trailing_raw = string_from_range(v.as_slice(), after_det, next_ref);
        let trailing = clean_generated_text(trailing_raw.as_str());
        let text = if is_layout_label(label.as_str()) && trailing.unicode_len() > 0 {
            trailing
        } else {
            label
        };
        let ghost before = segment_views(out@);
        let ghost rest = grounding_from(raw@, after_det as int);
        if text.unicode_len() > 0 {
            let ghost item = (text@, coordinates@);
            out.push(GroundingSegment { text, coordinates });
            assert(segment_views(out@) =~= before.push(item));
            assert(before.push(item) + rest =~= before + (seq![item] + rest));
        }
        cursor = after_det;
    }
}

/// An OCR image as a PNG file in Base64, the form Ollama takes images in.
pub fn encode_png_base64(input: &OcrImage) -> (r: Result<String, OcrError>)
    ensures
        r is Ok <==> png_encoding(input@.width, input@.height, input@.rgba) is Some,
        r matches Ok(text) ==> text@ == base64_standard(
            png_encoding(input@.width, input@.height, input@.rgba)->0,
        ),
        r matches Err(e) ==> (e matches OcrError::Backend(m) && is_prefix_of(
            "failed to encode OCR image: "@,
            m@,
        )),
{
    let rgba = input.rgba();
    match encode_png(input.width(), input.height(), rgba) {
        Ok(bytes) => Ok(base64_encode(bytes.as_slice())),
        Err(message) => {
            let m = concat2("failed to encode OCR image: ", message.as_str());
            assert(m@.subrange(0, "failed to encode OCR image: "@.len() as int) =~= "failed to encode OCR image: "@);
            Err(OcrError::Backend(m))
        },
    }
}

} // verus!
