//! The decisions of installing and removing OCR models: what to do with
//! each model file given what is on disk and what was downloaded, where a
//! download is kept until it is complete, and how an install or removal is
//! routed.  Reading the disk and the network happens outside; these
//! functions take their results.

use vstd::prelude::*;
use crate::dialogs::{last_dot, name_end, name_start};
use crate::ocr::OcrError;
use crate::ocr_models::{
    model_route, route_of, size_matches, tier_download_size, tier_model_sizes,
    unexpected_size_error, PPOCR_MEDIUM_ENGINE_NAME, PPOCR_SMALL_ENGINE_NAME, PPOCR_TINY_ENGINE_NAME,
    unknown_model_error, FastModelPaths, ModelFileStep, ModelRoute, PpOcrTier, MIN_CHARSET_SIZE,
    MODEL_BASE_URL,
};
use crate::progress::cancellation_outcome;
use crate::text::{
    append_str, chars_of, concat2, concat3, decimal, owned, string_from_range, views,
};

verus! {

broadcast use vstd::string::group_string_axioms;

/// The file a download is written to before it replaces `path`:
/// `Path::with_extension` with the file's extension followed by `.part`
/// (`download.part` when it has none).  So `.part` is appended to the file
/// name when it has an extension and `.download.part` when it has none,
/// whatever followed the file name is dropped, and a path without a file
/// name (empty, a root, or ending in `..`) stays as it is.
pub open spec fn partial_path(path: Seq<char>, sep: char) -> Seq<char> {
    let end = name_end(path, path.len() as int, sep);
    let start = name_start(path, end, sep);
    let name = path.subrange(start, end);
    if end == 0 || name == ".."@ {
        path
    } else {
        match last_dot(name, name.len() as int) {
            Some(_) => path.subrange(0, end) + ".part"@,
            None => path.subrange(0, end) + ".download.part"@,
        }
    }
}

/// The file a download of `path` is written to, `sep` being the main path
/// separator.
pub fn partial_download_path(path: &str, sep: char) -> (r: String)
    ensures
        r@ == partial_path(path@, sep),
{
    let p = chars_of(path);
    let n = p.len();
    let mut end = n;
    while end > 0 && ((p[end - 1] == '/' || p[end - 1] == sep) || (p[end - 1] == '.' && (end == 1
        || (p[end - 2] == '/' || p[end - 2] == sep))))
        invariant
            end <= n == p@.len(),
            name_end(p@, n as int, sep) == name_end(p@, end as int, sep),
        decreases end,
    {
        end -= 1;
    }
    let mut start = end;
    while start > 0 && !(p[start - 1] == '/' || p[start - 1] == sep)
        invariant
            start <= end <= n == p@.len(),
            name_start(p@, end as int, sep) == name_start(p@, start as int, sep),
        decreases start,
    {
        start -= 1;
    }
    let name = string_from_range(p.as_slice(), start, end);
    let name_chars = chars_of(name.as_str());
    let is_parent = name_chars.len() == 2 && name_chars[0] == '.' && name_chars[1] == '.';
    proof {
        reveal_strlit("..");
        if name@ == ".."@ {
            assert(name@[0] == '.' && name@[1] == '.');
        }
        if is_parent {
            assert(name@ =~= ".."@);
        }
    }
    if end == 0 || is_parent {
        return owned(path);
    }
    let mut dot = name_chars.len();
    while dot > 1 && name_chars[dot - 1] != '.'
        invariant
            dot <= name_chars@.len(),
            last_dot(name_chars@, name_chars@.len() as int) == last_dot(name_chars@, dot as int),
        decreases dot,
    {
        dot -= 1;
    }
    let mut r = string_from_range(p.as_slice(), 0, end);
    if dot > 1 {
        append_str(&mut r, ".part");
    } else {
        append_str(&mut r, ".download.part");
    }
    r
}

/// What to do next with one model file.
#[derive(Clone, Debug)]
pub enum ModelFileAction {
    /// The install was cancelled: stop with this error.
    Stop(OcrError),
    /// The file is already complete: keep it; `progress` bytes of the whole
    /// download now count as done.
    Keep { progress: u64 },
    /// Download `url` into `partial` (removing any earlier `partial` first).
    Download { url: String, partial: String },
    /// The download is complete: move `partial` onto the file's path;
    /// `progress` bytes of the whole download now count as done.
    Install { partial: String, progress: u64 },
    /// The download has the wrong size: delete `partial` and fail with
    /// `error`.
    Discard { partial: String, error: OcrError },
}

/// The error of a cancelled install.
pub open spec fn cancelled_error(e: OcrError) -> bool {
    e matches OcrError::Cancelled(m) && m@ == "model download was cancelled"@
}

/// What to do with the file of `step`.  `existing_len` is the size of the
/// regular file at its path (`None` when there is none), `downloaded_len`
/// the size of the partial file once a download of it has ended (`None`
/// before the download), and `sep` the main path separator.  A cancelled
/// install stops before anything else; a file that already has its size is
/// kept without a download; a download counts only when it has the size
/// the file must have.
pub fn model_file_action(
    step: &ModelFileStep,
    cancelled: bool,
    existing_len: Option<u64>,
    downloaded_len: Option<u64>,
    sep: char,
) -> (r: ModelFileAction)
    requires
        step.progress_base + step.progress_span <= u64::MAX,
    ensures
        cancelled ==> (r matches ModelFileAction::Stop(e) && cancelled_error(e)),
        !cancelled && downloaded_len is None && size_matches(existing_len, step.expected_size)
            ==> r == (ModelFileAction::Keep { progress: (step.progress_base + step.progress_span) as u64 }),
        !cancelled && downloaded_len is None && !size_matches(existing_len, step.expected_size)
            ==> (r matches ModelFileAction::Download { url, partial } && url@ == MODEL_BASE_URL@
            + "/"@ + step.file_name@ && partial@ == partial_path(step.path@, sep)),
        !cancelled && downloaded_len is Some ==> ({
            let d = downloaded_len->0;
            if (match step.expected_size {
                Some(e) => d == e,
                None => d >= step.minimum_size,
            }) {
                r matches ModelFileAction::Install { partial, progress } && partial@ == partial_path(
                    step.path@,
                    sep,
                ) && progress == step.progress_base + step.progress_span
            } else {
                r matches ModelFileAction::Discard { partial, error } && partial@ == partial_path(
                    step.path@,
                    sep,
                ) && (error matches OcrError::Download(m) && m@ == "downloaded "@ + step.file_name@
                    + " has unexpected size "@ + decimal(d as nat) + " bytes"@)
            }
        }),
{
    if cancelled {
        return match cancellation_outcome(true) {
            Err(e) => ModelFileAction::Stop(e),
            Ok(()) => ModelFileAction::Stop(OcrError::Cancelled(owned("model download was cancelled"))),
        };
    }
    let progress = step.progress_base + step.progress_span;
    match downloaded_len {
        None => {
            let complete = match existing_len {
                None => false,
                Some(len) => match step.expected_size {
                    Some(e) => len == e,
                    None => len >= MIN_CHARSET_SIZE,
                },
            };
            if complete {
                ModelFileAction::Keep { progress }
            } else {
                ModelFileAction::Download {
                    url: concat3(MODEL_BASE_URL, "/", step.file_name),
                    partial: partial_download_path(step.path.as_str(), sep),
                }
            }
        },
        Some(d) => {
            let valid = match step.expected_size {
                Some(e) => d == e,
                None => d >= step.minimum_size,
            };
            let partial = partial_download_path(step.path.as_str(), sep);
            if valid {
                ModelFileAction::Install { partial, progress }
            } else {
                ModelFileAction::Discard { partial, error: unexpected_size_error(step.file_name, d) }
            }
        },
    }
}

/// The bytes of the whole download that count as done once `downloaded`
/// bytes of a file accounting for `span` bytes from `base` have arrived.
pub open spec fn accounted_bytes(base: int, span: int, downloaded: int) -> int {
    if span == 0 {
        base
    } else if downloaded < span {
        base + downloaded
    } else {
        base + span
    }
}

/// While a file arrives its progress never goes back, never leaves the
/// file's share of the download, and reaches the end of that share once
/// the file is complete.
pub proof fn download_progress_never_decreases(base: int, span: int, d1: int, d2: int)
    requires
        0 <= span,
        0 <= d1 <= d2,
    ensures
        base <= accounted_bytes(base, span, d1) <= accounted_bytes(base, span, d2) <= base + span,
        d2 >= span ==> accounted_bytes(base, span, d2) == base + span,
{
}

/// The share of the whole download that each file of a tier accounts for,
/// in install order: where its progress starts and how many bytes it spans.
pub open spec fn install_plan(t: PpOcrTier) -> Seq<(int, int)> {
    let (detection, recognition) = tier_model_sizes(t);
    seq![(0, detection as int), (detection as int, recognition as int), (detection + recognition, 0)]
}

/// The files of a tier are installed one after the other, the first
/// starting at no progress, each starting where the one before ends, and
/// the last ending at the size of the whole download.
pub proof fn install_progress_covers_the_download(t: PpOcrTier)
    ensures
        install_plan(t)[0].0 == 0,
        install_plan(t)[0].0 + install_plan(t)[0].1 == install_plan(t)[1].0,
        install_plan(t)[1].0 + install_plan(t)[1].1 == install_plan(t)[2].0,
        install_plan(t)[2].0 + install_plan(t)[2].1 == tier_download_size(t),
{
    crate::ocr_models::download_size_is_both_models(t);
}

/// The detail shown while a model file downloads.
pub fn file_progress_detail(file_name: &str) -> (r: String)
    ensures
        r@ == "Downloading "@ + file_name@,
{
    concat2("Downloading ", file_name)
}

/// The name a tier is shown by.
pub open spec fn tier_display_name(t: PpOcrTier) -> Seq<char> {
    match t {
        PpOcrTier::Tiny => PPOCR_TINY_ENGINE_NAME@,
        PpOcrTier::Small => PPOCR_SMALL_ENGINE_NAME@,
        PpOcrTier::Medium => PPOCR_MEDIUM_ENGINE_NAME@,
    }
}

/// The detail shown once every file of `tier` is installed.
pub fn tier_installed_detail(tier: PpOcrTier) -> (r: String)
    ensures
        r@ == tier_display_name(tier) + " downloaded"@,
{
    concat2(tier.display_name(), " downloaded")
}

/// How an install or removal of the model `model_id` is carried out: with
/// its PP-OCRv6 files or through Ollama; an unknown model is an error.
pub fn model_action_route(model_id: &str) -> (r: Result<ModelRoute, OcrError>)
    ensures
        match route_of(model_id@) {
            Some(route) => r == Ok::<ModelRoute, OcrError>(route),
            None => r matches Err(OcrError::Model(m)) && m@ == "unknown OCR model: "@ + model_id@,
        },
{
    match model_route(model_id) {
        Some(route) => Ok(route),
        None => Err(unknown_model_error(model_id)),
    }
}

impl FastModelPaths {
    /// The files removing the model deletes, in this order; after them the
    /// directory is removed only if it is left empty, so that a directory
    /// shared with other files keeps them.
    pub fn removal_files(&self) -> (r: Vec<String>)
        ensures
            views(r@) == seq![self.detection@, self.recognition@, self.charset@],
    {
        let r = vec![owned(self.detection.as_str()), owned(self.recognition.as_str()), owned(self.charset.as_str())];
        assert(views(r@) =~= seq![self.detection@, self.recognition@, self.charset@]);
        r
    }
}

/// The error of a model file that could not be removed (a file that is
/// already gone is no error).
pub fn remove_file_error(path: &str, error: &str) -> (r: OcrError)
    ensures
        r matches OcrError::Model(m) && m@ == "failed to remove OCR model file "@ + path@ + ": "@
            + error@,
{
    let mut m = concat3("failed to remove OCR model file ", path, ": ");
    append_str(&mut m, error);
    OcrError::Model(m)
}

/// The error of a model file that could not be moved into place.
pub fn install_file_error(path: &str, error: &str) -> (r: OcrError)
    ensures
        r matches OcrError::Model(m) && m@ == "failed to install OCR model "@ + path@ + ": "@
            + error@,
{
    let mut m = concat3("failed to install OCR model ", path, ": ");
    append_str(&mut m, error);
    OcrError::Model(m)
}

} // verus!
