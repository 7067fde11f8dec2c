//! The OCR models the application offers: the three PP-OCRv6 tiers run
//! locally and the two vision models served by Ollama; where their files
//! live, when they count as installed, and which one is active.

use vstd::prelude::*;
use crate::ocr::OcrError;
use crate::ollama::{
    ollama_engine_id, OllamaOcrModel, DEEPSEEK_ENGINE_ID, DEEPSEEK_ENGINE_NAME, DEEPSEEK_LANGUAGE_SUMMARY,
    DEEPSEEK_MODEL_DOWNLOAD_SIZE, DEEPSEEK_MODEL_VERSION, GLM_ENGINE_ID, GLM_ENGINE_NAME,
    GLM_LANGUAGE_SUMMARY, GLM_MODEL_DOWNLOAD_SIZE, GLM_MODEL_VERSION,
};
use crate::paths::{cache_dir, config_dir, join_path, joined, main_separator};
use crate::text::{
    append_str, concat2, concat3, decimal, decimal_string, opt_chars, opt_str_chars, owned,
    str_eq, trim, trimmed,
};

verus! {

broadcast use vstd::string::group_string_axioms;

/// The catalog id of PP-OCRv6 Tiny.
pub const PPOCR_TINY_ENGINE_ID: &'static str = "ppocrv6-tiny-mnn";
/// The name shown for PP-OCRv6 Tiny.
pub const PPOCR_TINY_ENGINE_NAME: &'static str = "PP-OCRv6 Tiny · fastest local";
/// The model version of PP-OCRv6 Tiny.
pub const PPOCR_TINY_MODEL_VERSION: &'static str = "ppocrv6-tiny-ocr-rs-v2.4.1";
/// The languages PP-OCRv6 Tiny reads.
pub const PPOCR_TINY_LANGUAGE_SUMMARY: &'static str = "Simplified/Traditional Chinese, English and 46 Latin-script languages; no Japanese";
/// The download size of PP-OCRv6 Tiny, in bytes.
pub const PPOCR_TINY_MODEL_DOWNLOAD_SIZE: u64 = 3_153_512;

/// The catalog id of PP-OCRv6 Small.
pub const PPOCR_SMALL_ENGINE_ID: &'static str = "ppocrv6-small-mnn";
/// The name shown for PP-OCRv6 Small.
pub const PPOCR_SMALL_ENGINE_NAME: &'static str = "PP-OCRv6 Small · balanced local";
/// The model version of PP-OCRv6 Small.
pub const PPOCR_SMALL_MODEL_VERSION: &'static str = "ppocrv6-small-ocr-rs-v2.4.1";
/// The languages PP-OCRv6 Small reads.
pub const PPOCR_SMALL_LANGUAGE_SUMMARY: &'static str = "Simplified/Traditional Chinese, English, Japanese and 46 Latin-script languages";
/// The download size of PP-OCRv6 Small, in bytes.
pub const PPOCR_SMALL_MODEL_DOWNLOAD_SIZE: u64 = 15_611_984;

/// The catalog id of PP-OCRv6 Medium.
pub const PPOCR_MEDIUM_ENGINE_ID: &'static str = "ppocrv6-medium-mnn";
/// The name shown for PP-OCRv6 Medium.
pub const PPOCR_MEDIUM_ENGINE_NAME: &'static str = "PP-OCRv6 Medium · accuracy inference";
/// The model version of PP-OCRv6 Medium.
pub const PPOCR_MEDIUM_MODEL_VERSION: &'static str = "ppocrv6-medium-inference-ocr-rs-v2.4.1";
/// The languages PP-OCRv6 Medium reads.
pub const PPOCR_MEDIUM_LANGUAGE_SUMMARY: &'static str = "Simplified/Traditional Chinese, English, Japanese and 46 Latin-script languages";
/// The download size of PP-OCRv6 Medium, in bytes.
pub const PPOCR_MEDIUM_MODEL_DOWNLOAD_SIZE: u64 = 69_460_824;

/// The catalog id of the default local model (Small).
pub const FAST_ENGINE_ID: &'static str = "ppocrv6-small-mnn";
/// The name shown for the default local model.
pub const FAST_ENGINE_NAME: &'static str = "PP-OCRv6 Small · balanced local";
/// The model version of the default local model.
pub const FAST_MODEL_VERSION: &'static str = "ppocrv6-small-ocr-rs-v2.4.1";
/// The languages the default local model reads.
pub const FAST_LANGUAGE_SUMMARY: &'static str = "Simplified/Traditional Chinese, English, Japanese and 46 Latin-script languages";
/// The download size of the default local model, in bytes.
pub const FAST_MODEL_DOWNLOAD_SIZE: u64 = 15_611_984;

/// Where the model files are downloaded from.
pub const MODEL_BASE_URL: &'static str = "https://raw.githubusercontent.com/zibo-chen/rust-paddle-ocr/v2.4.1/models";

/// The smallest character set file that counts as complete, in bytes.
pub const MIN_CHARSET_SIZE: u64 = 1024;

/// A size of the PP-OCRv6 model.
#[derive(Clone, Copy, Debug, PartialEq, Eq, Structural)]
pub enum PpOcrTier {
    Tiny,
    Small,
    Medium,
}

/// The catalog id of a tier.
pub open spec fn tier_id(t: PpOcrTier) -> Seq<char> {
    match t {
        PpOcrTier::Tiny => PPOCR_TINY_ENGINE_ID@,
        PpOcrTier::Small => PPOCR_SMALL_ENGINE_ID@,
        PpOcrTier::Medium => PPOCR_MEDIUM_ENGINE_ID@,
    }
}

/// The tier with catalog id `id`.
pub open spec fn tier_of(id: Seq<char>) -> Option<PpOcrTier> {
    if id == PPOCR_TINY_ENGINE_ID@ {
        Some(PpOcrTier::Tiny)
    } else if id == PPOCR_SMALL_ENGINE_ID@ {
        Some(PpOcrTier::Small)
    } else if id == PPOCR_MEDIUM_ENGINE_ID@ {
        Some(PpOcrTier::Medium)
    } else {
        None
    }
}

/// The file names of a tier's detection model, recognition model and
/// character set.
pub open spec fn tier_files(t: PpOcrTier) -> (Seq<char>, Seq<char>, Seq<char>) {
    match t {
        PpOcrTier::Tiny => ("PP-OCRv6_tiny_det.mnn"@, "PP-OCRv6_tiny_rec.mnn"@, "ppocr_keys_v6_tiny.txt"@),
        PpOcrTier::Small => ("PP-OCRv6_small_det.mnn"@, "PP-OCRv6_small_rec.mnn"@, "ppocr_keys_v6_small.txt"@),
        PpOcrTier::Medium => ("PP-OCRv6_medium_det.mnn"@, "PP-OCRv6_medium_rec.mnn"@, "ppocr_keys_v6_medium.txt"@),
    }
}

/// The sizes of a tier's detection and recognition models, in bytes.
pub open spec fn tier_model_sizes(t: PpOcrTier) -> (u64, u64) {
    match t {
        PpOcrTier::Tiny => (901_896, 2_251_616),
        PpOcrTier::Small => (4_965_224, 10_646_760),
        PpOcrTier::Medium => (31_078_716, 38_382_108),
    }
}

/// The download size of a tier, in bytes.
pub open spec fn tier_download_size(t: PpOcrTier) -> u64 {
    match t {
        PpOcrTier::Tiny => PPOCR_TINY_MODEL_DOWNLOAD_SIZE,
        PpOcrTier::Small => PPOCR_SMALL_MODEL_DOWNLOAD_SIZE,
        PpOcrTier::Medium => PPOCR_MEDIUM_MODEL_DOWNLOAD_SIZE,
    }
}

impl PpOcrTier {
    /// The tier with catalog id `model_id`, if it is one.
    pub fn from_engine_id(model_id: &str) -> (r: Option<Self>)
        ensures
            r == tier_of(model_id@),
    {
        if str_eq(model_id, PPOCR_TINY_ENGINE_ID) {
            Some(PpOcrTier::Tiny)
        } else if str_eq(model_id, PPOCR_SMALL_ENGINE_ID) {
            Some(PpOcrTier::Small)
        } else if str_eq(model_id, PPOCR_MEDIUM_ENGINE_ID) {
            Some(PpOcrTier::Medium)
        } else {
            None
        }
    }

    /// The tier's catalog id.
    pub fn engine_id(self) -> (r: &'static str)
        ensures
            r@ == tier_id(self),
    {
        match self {
            PpOcrTier::Tiny => PPOCR_TINY_ENGINE_ID,
            PpOcrTier::Small => PPOCR_SMALL_ENGINE_ID,
            PpOcrTier::Medium => PPOCR_MEDIUM_ENGINE_ID,
        }
    }

    /// The name shown for the tier.
    pub fn display_name(self) -> (r: &'static str)
        ensures
            self == PpOcrTier::Tiny ==> r@ == PPOCR_TINY_ENGINE_NAME@,
            self == PpOcrTier::Small ==> r@ == PPOCR_SMALL_ENGINE_NAME@,
            self == PpOcrTier::Medium ==> r@ == PPOCR_MEDIUM_ENGINE_NAME@,
    {
        match self {
            PpOcrTier::Tiny => PPOCR_TINY_ENGINE_NAME,
            PpOcrTier::Small => PPOCR_SMALL_ENGINE_NAME,
            PpOcrTier::Medium => PPOCR_MEDIUM_ENGINE_NAME,
        }
    }

    /// The model version of the tier, which names its download directory.
    pub fn model_version(self) -> (r: &'static str)
        ensures
            self == PpOcrTier::Tiny ==> r@ == PPOCR_TINY_MODEL_VERSION@,
            self == PpOcrTier::Small ==> r@ == PPOCR_SMALL_MODEL_VERSION@,
            self == PpOcrTier::Medium ==> r@ == PPOCR_MEDIUM_MODEL_VERSION@,
    {
        match self {
            PpOcrTier::Tiny => PPOCR_TINY_MODEL_VERSION,
            PpOcrTier::Small => PPOCR_SMALL_MODEL_VERSION,
            PpOcrTier::Medium => PPOCR_MEDIUM_MODEL_VERSION,
        }
    }

    /// The languages the tier reads.
    pub fn language_summary(self) -> (r: &'static str)
        ensures
            self == PpOcrTier::Tiny ==> r@ == PPOCR_TINY_LANGUAGE_SUMMARY@,
            self == PpOcrTier::Small ==> r@ == PPOCR_SMALL_LANGUAGE_SUMMARY@,
            self == PpOcrTier::Medium ==> r@ == PPOCR_MEDIUM_LANGUAGE_SUMMARY@,
    {
        match self {
            PpOcrTier::Tiny => PPOCR_TINY_LANGUAGE_SUMMARY,
            PpOcrTier::Small => PPOCR_SMALL_LANGUAGE_SUMMARY,
            PpOcrTier::Medium => PPOCR_MEDIUM_LANGUAGE_SUMMARY,
        }
    }

    /// The number of bytes a download of the tier fetches.
    pub fn download_size(self) -> (r: u64)
        ensures
            r == tier_download_size(self),
    {
        match self {
            PpOcrTier::Tiny => PPOCR_TINY_MODEL_DOWNLOAD_SIZE,
            PpOcrTier::Small => PPOCR_SMALL_MODEL_DOWNLOAD_SIZE,
            PpOcrTier::Medium => PPOCR_MEDIUM_MODEL_DOWNLOAD_SIZE,
        }
    }

    /// The file name of the tier's detection model.
    pub fn detection_model_name(self) -> (r: &'static str)
        ensures
            r@ == tier_files(self).0,
    {
        match self {
            PpOcrTier::Tiny => "PP-OCRv6_tiny_det.mnn",
            PpOcrTier::Small => "PP-OCRv6_small_det.mnn",
            PpOcrTier::Medium => "PP-OCRv6_medium_det.mnn",
        }
    }

    /// The file name of the tier's recognition model.
    pub fn recognition_model_name(self) -> (r: &'static str)
        ensures
            r@ == tier_files(self).1,
    {
        match self {
            PpOcrTier::Tiny => "PP-OCRv6_tiny_rec.mnn",
            PpOcrTier::Small => "PP-OCRv6_small_rec.mnn",
            PpOcrTier::Medium => "PP-OCRv6_medium_rec.mnn",
        }
    }

    /// The file name of the tier's character set.
    pub fn charset_name(self) -> (r: &'static str)
        ensures
            r@ == tier_files(self).2,
    {
        match self {
            PpOcrTier::Tiny => "ppocr_keys_v6_tiny.txt",
            PpOcrTier::Small => "ppocr_keys_v6_small.txt",
            PpOcrTier::Medium => "ppocr_keys_v6_medium.txt",
        }
    }

    /// The size of the tier's detection model, in bytes.
    pub fn detection_model_size(self) -> (r: u64)
        ensures
            r == tier_model_sizes(self).0,
    {
        match self {
            PpOcrTier::Tiny => 901_896,
            PpOcrTier::Small => 4_965_224,
            PpOcrTier::Medium => 31_078_716,
        }
    }

    /// The size of the tier's recognition model, in bytes.
    pub fn recognition_model_size(self) -> (r: u64)
        ensures
            r == tier_model_sizes(self).1,
    {
        match self {
            PpOcrTier::Tiny => 2_251_616,
            PpOcrTier::Small => 10_646_760,
            PpOcrTier::Medium => 38_382_108,
        }
    }
}

/// A tier's download is exactly its two model files.
pub proof fn download_size_is_both_models(t: PpOcrTier)
    ensures
        tier_download_size(t) == tier_model_sizes(t).0 + tier_model_sizes(t).1,
{
}

/// Reading a tier's catalog id gives the tier back.
pub proof fn tier_id_round_trip(t: PpOcrTier)
    ensures
        tier_of(tier_id(t)) == Some(t),
{
    reveal_strlit("ppocrv6-tiny-mnn");
    reveal_strlit("ppocrv6-small-mnn");
    reveal_strlit("ppocrv6-medium-mnn");
    assert("ppocrv6-tiny-mnn"@.len() != "ppocrv6-small-mnn"@.len());
    assert("ppocrv6-tiny-mnn"@.len() != "ppocrv6-medium-mnn"@.len());
    assert("ppocrv6-small-mnn"@.len() != "ppocrv6-medium-mnn"@.len());
}

/// The files of one tier's model.
#[derive(Clone, Debug)]
pub struct FastModelPaths {
    pub tier: PpOcrTier,
    pub directory: String,
    pub detection: String,
    pub recognition: String,
    pub charset: String,
}

/// The files of `tier` in `directory`, `sep` being the main path separator.
pub open spec fn model_paths_in(paths: FastModelPaths, directory: Seq<char>, tier: PpOcrTier, sep: char) -> bool {
    &&& paths.tier == tier
    &&& paths.directory@ == directory
    &&& paths.detection@ == joined(directory, tier_files(tier).0, sep)
    &&& paths.recognition@ == joined(directory, tier_files(tier).1, sep)
    &&& paths.charset@ == joined(directory, tier_files(tier).2, sep)
}

/// The default download directory of a tier: `AzusaLens/ocr/<version>`
/// under the cache directory, or under the temporary directory when the
/// user has none.
pub open spec fn default_model_dir(cache: Option<Seq<char>>, temp: Seq<char>, version: Seq<char>, sep: char) -> Seq<char> {
    let base = match cache {
        Some(c) => c,
        None => temp,
    };
    joined(joined(joined(base, "AzusaLens"@, sep), "ocr"@, sep), version, sep)
}

/// A file of `actual` bytes (`None`: no such file) has the size a model
/// expects: exactly `expected` when that is known, else at least a complete
/// character set.
pub open spec fn size_matches(actual: Option<u64>, expected: Option<u64>) -> bool {
    match actual {
        None => false,
        Some(len) => match expected {
            Some(e) => len == e,
            None => len >= MIN_CHARSET_SIZE,
        },
    }
}

/// Whether a file of `actual` bytes (`None` when it is missing or not a
/// file) has the size expected of it.
pub fn file_has_size(actual: Option<u64>, expected: Option<u64>) -> (r: bool)
    ensures
        r == size_matches(actual, expected),
{
    match actual {
        None => false,
        Some(len) => match expected {
            Some(e) => len == e,
            None => len >= MIN_CHARSET_SIZE,
        },
    }
}

/// One file of a model download: where it goes, its name on the server,
/// the size it must have (exact, or a minimum when unknown), and the part
/// of the download's progress it accounts for.
#[derive(Clone, Debug)]
pub struct ModelFileStep {
    pub path: String,
    pub file_name: &'static str,
    pub expected_size: Option<u64>,
    pub minimum_size: u64,
    pub progress_base: u64,
    pub progress_span: u64,
}

impl FastModelPaths {
    /// The files of `tier` in `directory`, `sep` being the main path separator.
    pub fn in_directory(directory: String, tier: PpOcrTier, sep: char) -> (r: Self)
        ensures
            model_paths_in(r, directory@, tier, sep),
    {
        let detection = join_path(directory.as_str(), tier.detection_model_name(), sep);
        let recognition = join_path(directory.as_str(), tier.recognition_model_name(), sep);
        let charset = join_path(directory.as_str(), tier.charset_name(), sep);
        FastModelPaths { tier, directory, detection, recognition, charset }
    }

    /// The files of `tier` in `directory`.
    pub fn from_directory_for(directory: String, tier: PpOcrTier) -> (r: Self)
        ensures
            exists|sep: char| (sep == '/' || sep == '\\') && model_paths_in(r, directory@, tier, sep),
    {
        let sep = main_separator();
        FastModelPaths::in_directory(directory, tier, sep)
    }

    /// The files of the default tier (Small) in `directory`.
    pub fn from_directory(directory: String) -> (r: Self)
        ensures
            exists|sep: char| (sep == '/' || sep == '\\') && model_paths_in(r, directory@, PpOcrTier::Small, sep),
    {
        FastModelPaths::from_directory_for(directory, PpOcrTier::Small)
    }

    /// The files of `tier` where this user keeps them: in `override_dir`
    /// (the `AZUSA_LENS_OCR_MODEL_DIR` setting) if given, else in the
    /// tier's default download directory; `temp_dir` is the temporary
    /// directory, used when the user has no cache directory.
    pub fn discover_for(tier: PpOcrTier, override_dir: Option<String>, temp_dir: &str) -> (r: Self)
        ensures
            exists|directory: Seq<char>, sep: char|
                (sep == '/' || sep == '\\') && model_paths_in(r, directory, tier, sep) && (match override_dir {
                    Some(d) => directory == d@,
                    None => exists|cache: Option<Seq<char>>| directory == default_model_dir(cache, temp_dir@, r.tier_version(), sep),
                }),
    {
        let sep = main_separator();
        let ghost requested = opt_chars(override_dir);
        let ghost mut cache_seen: Option<Seq<char>> = None;
        let directory = match override_dir {
            Some(d) => d,
            None => {
                let cache = cache_dir();
                proof {
                    cache_seen = opt_chars(cache);
                }
                let base = match cache {
                    Some(c) => c,
                    None => owned(temp_dir),
                };
                let app = join_path(base.as_str(), "AzusaLens", sep);
                let ocr = join_path(app.as_str(), "ocr", sep);
                join_path(ocr.as_str(), tier.model_version(), sep)
            },
        };
        let r = FastModelPaths::in_directory(directory, tier, sep);
        proof {
            if requested is None {
                assert(r.directory@ == default_model_dir(cache_seen, temp_dir@, r.tier_version(), sep));
            }
        }
        assert((sep == '/' || sep == '\\') && model_paths_in(r, r.directory@, tier, sep) && (match override_dir {
            Some(d) => r.directory@ == d@,
            None => exists|cache: Option<Seq<char>>| r.directory@ == default_model_dir(cache, temp_dir@, r.tier_version(), sep),
        }));
        r
    }

    /// The files of the default tier (Small) where this user keeps them.
    pub fn discover(override_dir: Option<String>, temp_dir: &str) -> (r: Self)
        ensures
            exists|directory: Seq<char>, sep: char|
                (sep == '/' || sep == '\\') && model_paths_in(r, directory, PpOcrTier::Small, sep) && (match override_dir {
                    Some(d) => directory == d@,
                    None => exists|cache: Option<Seq<char>>| directory == default_model_dir(cache, temp_dir@, r.tier_version(), sep),
                }),
    {
        FastModelPaths::discover_for(PpOcrTier::Small, override_dir, temp_dir)
    }

    /// The model version of the tier of these files.
    pub open spec fn tier_version(self) -> Seq<char> {
        tier_version_of(self.tier)
    }

    /// Whether the model is installed, given the sizes of its detection
    /// model, recognition model and character set files (`None` for a
    /// missing file): both models of their exact size and a complete
    /// character set.
    pub fn are_ready(&self, detection_len: Option<u64>, recognition_len: Option<u64>, charset_len: Option<u64>) -> (r: bool)
        ensures
            r == (size_matches(detection_len, Some(tier_model_sizes(self.tier).0))
                && size_matches(recognition_len, Some(tier_model_sizes(self.tier).1))
                && size_matches(charset_len, None)),
    {
        file_has_size(detection_len, Some(self.tier.detection_model_size()))
            && file_has_size(recognition_len, Some(self.tier.recognition_model_size()))
            && file_has_size(charset_len, None)
    }

    /// The files an install fetches, in order: the detection model, the
    /// recognition model, then the character set, each accounting for its
    /// own size of the download's progress (the character set for none).
    pub fn install_steps(&self) -> (r: Vec<ModelFileStep>)
        ensures
            r@.len() == 3,
            r@[0].path@ == self.detection@ && r@[0].file_name@ == tier_files(self.tier).0
                && r@[0].expected_size == Some(tier_model_sizes(self.tier).0)
                && r@[0].minimum_size == tier_model_sizes(self.tier).0 && r@[0].progress_base == 0
                && r@[0].progress_span == tier_model_sizes(self.tier).0,
            r@[1].path@ == self.recognition@ && r@[1].file_name@ == tier_files(self.tier).1
                && r@[1].expected_size == Some(tier_model_sizes(self.tier).1)
                && r@[1].minimum_size == tier_model_sizes(self.tier).1
                && r@[1].progress_base == tier_model_sizes(self.tier).0
                && r@[1].progress_span == tier_model_sizes(self.tier).1,
            r@[2].path@ == self.charset@ && r@[2].file_name@ == tier_files(self.tier).2
                && r@[2].expected_size is None && r@[2].minimum_size == MIN_CHARSET_SIZE
                && r@[2].progress_base == tier_model_sizes(self.tier).0 + tier_model_sizes(self.tier).1
                && r@[2].progress_span == 0,
            forall|i: int|
                0 <= i < 3 ==> (#[trigger] r@[i].progress_base as int, r@[i].progress_span as int)
                    == crate::model_install::install_plan(self.tier)[i],
    {
        let detection_size = self.tier.detection_model_size();
        let recognition_size = self.tier.recognition_model_size();
        let mut steps: Vec<ModelFileStep> = Vec::new();
        steps.push(ModelFileStep {
            path: owned(self.detection.as_str()),
            file_name: self.tier.detection_model_name(),
            expected_size: Some(detection_size),
            minimum_size: detection_size,
            progress_base: 0,
            progress_span: detection_size,
        });
        steps.push(ModelFileStep {
            path: owned(self.recognition.as_str()),
            file_name: self.tier.recognition_model_name(),
            expected_size: Some(recognition_size),
            minimum_size: recognition_size,
            progress_base: detection_size,
            progress_span: recognition_size,
        });
        steps.push(ModelFileStep {
            path: owned(self.charset.as_str()),
            file_name: self.tier.charset_name(),
            expected_size: None,
            minimum_size: MIN_CHARSET_SIZE,
            progress_base: detection_size + recognition_size,
            progress_span: 0,
        });
        steps
    }
}

/// The model version of a tier.
pub open spec fn tier_version_of(t: PpOcrTier) -> Seq<char> {
    match t {
        PpOcrTier::Tiny => PPOCR_TINY_MODEL_VERSION@,
        PpOcrTier::Small => PPOCR_SMALL_MODEL_VERSION@,
        PpOcrTier::Medium => PPOCR_MEDIUM_MODEL_VERSION@,
    }
}

/// The address a model file is downloaded from.
pub fn model_url(file_name: &str) -> (r: String)
    ensures
        r@ == MODEL_BASE_URL@ + "/"@ + file_name@,
{
    concat3(MODEL_BASE_URL, "/", file_name)
}

/// Whether a downloaded file of `downloaded` bytes is complete: exactly the
/// expected size when it is known, else at least `minimum` bytes.
pub fn download_size_is_valid(downloaded: u64, expected: Option<u64>, minimum: u64) -> (r: bool)
    ensures
        r == match expected {
            Some(e) => downloaded == e,
            None => downloaded >= minimum,
        },
{
    match expected {
        Some(e) => downloaded == e,
        None => downloaded >= minimum,
    }
}

/// The error of a downloaded file of the wrong size.
pub fn unexpected_size_error(file_name: &str, downloaded: u64) -> (r: OcrError)
    ensures
        r matches OcrError::Download(m) && m@ == "downloaded "@ + file_name@ + " has unexpected size "@
            + decimal(downloaded as nat) + " bytes"@,
{
    let mut m = owned("downloaded ");
    append_str(&mut m, file_name);
    append_str(&mut m, " has unexpected size ");
    let n = decimal_string(downloaded);
    append_str(&mut m, n.as_str());
    append_str(&mut m, " bytes");
    OcrError::Download(m)
}

/// How many bytes of the whole download count as done once `downloaded`
/// bytes of a file have arrived: the file's share, capped at its span.
pub fn download_progress(base: u64, span: u64, downloaded: u64) -> (r: u64)
    requires
        base + span <= u64::MAX,
    ensures
        span == 0 ==> r == base,
        span > 0 ==> r == base + if downloaded < span { downloaded } else { span },
{
    if span == 0 {
        base
    } else {
        base + if downloaded < span { downloaded } else { span }
    }
}

/// The error of recognising with a tier that is not installed.
pub fn tier_not_installed_error(tier: PpOcrTier) -> (r: OcrError)
    ensures
        r matches OcrError::Model(m) && (tier == PpOcrTier::Tiny ==> m@ == PPOCR_TINY_ENGINE_NAME@
            + " is not installed; download and enable it in Settings > OCR models"@) && (tier
            == PpOcrTier::Small ==> m@ == PPOCR_SMALL_ENGINE_NAME@
            + " is not installed; download and enable it in Settings > OCR models"@) && (tier
            == PpOcrTier::Medium ==> m@ == PPOCR_MEDIUM_ENGINE_NAME@
            + " is not installed; download and enable it in Settings > OCR models"@),
{
    OcrError::Model(concat2(tier.display_name(), " is not installed; download and enable it in Settings > OCR models"))
}

/// A model the user can download and enable.
#[derive(Clone, Copy, Debug, PartialEq, Eq)]
pub struct OcrModelDescriptor {
    pub id: &'static str,
    pub name: &'static str,
    pub version: &'static str,
    pub languages: &'static str,
    pub download_size_bytes: u64,
}

/// The plain content of a model descriptor.
pub ghost struct DescriptorView {
    pub id: Seq<char>,
    pub name: Seq<char>,
    pub version: Seq<char>,
    pub languages: Seq<char>,
    pub download_size_bytes: u64,
}

/// The plain content of `d`.
pub open spec fn descriptor_view(d: OcrModelDescriptor) -> DescriptorView {
    DescriptorView {
        id: d.id@,
        name: d.name@,
        version: d.version@,
        languages: d.languages@,
        download_size_bytes: d.download_size_bytes,
    }
}

/// The models offered, in the order they are listed: the three PP-OCRv6
/// tiers from the fastest up, then GLM-OCR and DeepSeek-OCR.
pub open spec fn catalog_views() -> Seq<DescriptorView> {
    seq![
        DescriptorView { id: PPOCR_TINY_ENGINE_ID@, name: PPOCR_TINY_ENGINE_NAME@, version: PPOCR_TINY_MODEL_VERSION@, languages: PPOCR_TINY_LANGUAGE_SUMMARY@, download_size_bytes: PPOCR_TINY_MODEL_DOWNLOAD_SIZE },
        DescriptorView { id: PPOCR_SMALL_ENGINE_ID@, name: PPOCR_SMALL_ENGINE_NAME@, version: PPOCR_SMALL_MODEL_VERSION@, languages: PPOCR_SMALL_LANGUAGE_SUMMARY@, download_size_bytes: PPOCR_SMALL_MODEL_DOWNLOAD_SIZE },
        DescriptorView { id: PPOCR_MEDIUM_ENGINE_ID@, name: PPOCR_MEDIUM_ENGINE_NAME@, version: PPOCR_MEDIUM_MODEL_VERSION@, languages: PPOCR_MEDIUM_LANGUAGE_SUMMARY@, download_size_bytes: PPOCR_MEDIUM_MODEL_DOWNLOAD_SIZE },
        DescriptorView { id: GLM_ENGINE_ID@, name: GLM_ENGINE_NAME@, version: GLM_MODEL_VERSION@, languages: GLM_LANGUAGE_SUMMARY@, download_size_bytes: GLM_MODEL_DOWNLOAD_SIZE },
        DescriptorView { id: DEEPSEEK_ENGINE_ID@, name: DEEPSEEK_ENGINE_NAME@, version: DEEPSEEK_MODEL_VERSION@, languages: DEEPSEEK_LANGUAGE_SUMMARY@, download_size_bytes: DEEPSEEK_MODEL_DOWNLOAD_SIZE },
    ]
}

/// The position in the catalog of the model with id `id`.
pub open spec fn catalog_index(id: Seq<char>) -> Option<int> {
    if id == PPOCR_TINY_ENGINE_ID@ {
        Some(0)
    } else if id == PPOCR_SMALL_ENGINE_ID@ {
        Some(1)
    } else if id == PPOCR_MEDIUM_ENGINE_ID@ {
        Some(2)
    } else if id == GLM_ENGINE_ID@ {
        Some(3)
    } else if id == DEEPSEEK_ENGINE_ID@ {
        Some(4)
    } else {
        None
    }
}

/// Looking a model up in the catalog finds the entry with the id asked
/// for, every entry is found by its own id at its own position, exactly
/// the ids that have a route are in the catalog, and a PP-OCRv6 entry
/// gives its tier's download size.
pub proof fn catalog_lookup_finds_the_requested_model(id: Seq<char>, i: int, tier: PpOcrTier)
    ensures
        catalog_index(id) == Some(i) ==> 0 <= i < 5 && catalog_views()[i].id == id,
        0 <= i < 5 ==> catalog_index(catalog_views()[i].id) == Some(i),
        catalog_index(id) is Some <==> route_of(id) is Some,
        route_of(id) == Some(ModelRoute::PaddleOcr(tier)) ==> catalog_views()[catalog_index(id)->0].download_size_bytes
            == tier_download_size(tier),
{
    reveal_strlit("ppocrv6-tiny-mnn");
    reveal_strlit("ppocrv6-small-mnn");
    reveal_strlit("ppocrv6-medium-mnn");
    reveal_strlit("glm-ocr-ollama");
    reveal_strlit("deepseek-ocr-ollama");
    assert("ppocrv6-tiny-mnn"@.len() == 16 && "ppocrv6-small-mnn"@.len() == 17);
    assert("ppocrv6-medium-mnn"@.len() == 18 && "glm-ocr-ollama"@.len() == 14);
    assert("deepseek-ocr-ollama"@.len() == 19);
}

/// The installed and active flags of a catalog model.
#[derive(Clone, Debug, PartialEq, Eq)]
pub struct OcrModelState {
    pub descriptor: OcrModelDescriptor,
    pub installed: bool,
    pub active: bool,
}

/// `st` is the state of catalog model `i`, with the given installed flag
/// and active model.
pub open spec fn state_matches(st: OcrModelState, i: int, installed: bool, active_model_id: Option<Seq<char>>) -> bool {
    &&& descriptor_view(st.descriptor) == catalog_views()[i]
    &&& st.installed == installed
    &&& st.active == (active_model_id == Some(catalog_views()[i].id))
}

/// How a model runs: locally with a PP-OCRv6 tier, or through Ollama.
#[derive(Clone, Copy, Debug, PartialEq, Eq, Structural)]
pub enum ModelRoute {
    PaddleOcr(PpOcrTier),
    Ollama(OllamaOcrModel),
}

/// How the model with id `id` runs, if it is a catalog model.
pub open spec fn route_of(id: Seq<char>) -> Option<ModelRoute> {
    match tier_of(id) {
        Some(tier) => Some(ModelRoute::PaddleOcr(tier)),
        None => if id == GLM_ENGINE_ID@ {
            Some(ModelRoute::Ollama(OllamaOcrModel::Glm))
        } else if id == DEEPSEEK_ENGINE_ID@ {
            Some(ModelRoute::Ollama(OllamaOcrModel::DeepSeek))
        } else {
            None
        },
    }
}

/// A model id is routed to the very model it names: a PP-OCRv6 route's tier
/// and an Ollama route's model have the id that was asked for, each
/// catalog model's id routes to that model, and an id of no catalog model
/// has no route.
pub proof fn route_runs_the_requested_model(id: Seq<char>, tier: PpOcrTier, model: OllamaOcrModel)
    ensures
        route_of(id) == Some(ModelRoute::PaddleOcr(tier)) ==> tier_id(tier) == id,
        route_of(id) == Some(ModelRoute::Ollama(model)) ==> ollama_engine_id(model) == id,
        route_of(tier_id(tier)) == Some(ModelRoute::PaddleOcr(tier)),
        route_of(ollama_engine_id(model)) == Some(ModelRoute::Ollama(model)),
        route_of(id) is None <==> (id != tier_id(PpOcrTier::Tiny) && id != tier_id(PpOcrTier::Small)
            && id != tier_id(PpOcrTier::Medium) && id != ollama_engine_id(OllamaOcrModel::Glm)
            && id != ollama_engine_id(OllamaOcrModel::DeepSeek)),
{
    reveal_strlit("ppocrv6-tiny-mnn");
    reveal_strlit("ppocrv6-small-mnn");
    reveal_strlit("ppocrv6-medium-mnn");
    reveal_strlit("glm-ocr-ollama");
    reveal_strlit("deepseek-ocr-ollama");
    assert("ppocrv6-tiny-mnn"@.len() == 16 && "ppocrv6-small-mnn"@.len() == 17);
    assert("ppocrv6-medium-mnn"@.len() == 18 && "glm-ocr-ollama"@.len() == 14);
    assert("deepseek-ocr-ollama"@.len() == 19);
}

/// How the model with id `model_id` runs, if it is a catalog model.
pub fn model_route(model_id: &str) -> (r: Option<ModelRoute>)
    ensures
        r == route_of(model_id@),
{
    match PpOcrTier::from_engine_id(model_id) {
        Some(tier) => Some(ModelRoute::PaddleOcr(tier)),
        None => if str_eq(model_id, GLM_ENGINE_ID) {
            Some(ModelRoute::Ollama(OllamaOcrModel::Glm))
        } else if str_eq(model_id, DEEPSEEK_ENGINE_ID) {
            Some(ModelRoute::Ollama(OllamaOcrModel::DeepSeek))
        } else {
            None
        },
    }
}

/// The error of a model id the catalog does not know.
pub fn unknown_model_error(model_id: &str) -> (r: OcrError)
    ensures
        r matches OcrError::Model(m) && m@ == "unknown OCR model: "@ + model_id@,
{
    OcrError::Model(concat2("unknown OCR model: ", model_id))
}

/// Where the application keeps its OCR model choices.
#[derive(Clone, Debug)]
pub struct OcrModelManager {
    config_directory: String,
    ppocr_model_directory_override: Option<String>,
}

/// The directory of the active-model file under the configuration
/// directory `config` (the temporary directory when there is none).
pub open spec fn model_config_dir(config: Option<Seq<char>>, temp: Seq<char>, sep: char) -> Seq<char> {
    let base = match config {
        Some(c) => c,
        None => temp,
    };
    joined(joined(base, "AzusaOCR"@, sep), "ocr"@, sep)
}

impl OcrModelManager {
    /// The manager of this user's configuration directory; `temp_dir` is the
    /// temporary directory, used when the user has none.
    pub fn discover(temp_dir: &str) -> (r: Self)
        ensures
            exists|config: Option<Seq<char>>, sep: char|
                (sep == '/' || sep == '\\') && r.config_directory() == model_config_dir(config, temp_dir@, sep),
            r.model_directory_override() is None,
    {
        let config = config_dir();
        let sep = main_separator();
        let base = match config {
            Some(c) => c,
            None => owned(temp_dir),
        };
        let app = join_path(base.as_str(), "AzusaOCR", sep);
        let dir = join_path(app.as_str(), "ocr", sep);
        let r = OcrModelManager { config_directory: dir, ppocr_model_directory_override: None };
        assert((sep == '/' || sep == '\\') && r.config_directory() == model_config_dir(opt_chars(config), temp_dir@, sep));
        r
    }

    /// The manager of `config_directory`, with the PP-OCRv6 models kept in
    /// `model_directory`.
    pub fn with_directories(config_directory: String, model_directory: String) -> (r: Self)
        ensures
            r.config_directory() == config_directory@,
            r.model_directory_override() == Some(model_directory@),
    {
        OcrModelManager { config_directory, ppocr_model_directory_override: Some(model_directory) }
    }

    /// The directory the active-model choice is stored in.
    pub closed spec fn config_directory(&self) -> Seq<char> {
        self.config_directory@
    }

    /// The directory the active-model choice is stored in, as text.
    pub fn config_directory_text(&self) -> (r: &str)
        ensures
            r@ == self.config_directory(),
    {
        self.config_directory.as_str()
    }

    /// The directory the PP-OCRv6 models are kept in, when it is fixed.
    pub closed spec fn model_directory_override(&self) -> Option<Seq<char>> {
        opt_chars(self.ppocr_model_directory_override)
    }

    /// The file that holds the id of the active model, `sep` being the main
    /// path separator.
    pub fn active_model_path(&self, sep: char) -> (r: String)
        ensures
            r@ == joined(self.config_directory(), "active-model"@, sep),
    {
        join_path(self.config_directory.as_str(), "active-model", sep)
    }

    /// The files of `tier`: in the fixed model directory if there is one,
    /// else where this user keeps them (see `FastModelPaths::discover_for`).
    pub fn ppocr_paths(&self, tier: PpOcrTier, env_override: Option<String>, temp_dir: &str) -> (r: FastModelPaths)
        ensures
            r.tier == tier,
            self.model_directory_override() matches Some(d) ==> r.directory@ == d,
    {
        match &self.ppocr_model_directory_override {
            Some(directory) => FastModelPaths::from_directory_for(owned(directory.as_str()), tier),
            None => FastModelPaths::discover_for(tier, env_override, temp_dir),
        }
    }

    /// The catalog of models, in the order they are listed.
    pub fn catalog() -> (r: [OcrModelDescriptor; 5])
        ensures
            r@.map_values(|d: OcrModelDescriptor| descriptor_view(d)) == catalog_views(),
    {
        let r = [
            OcrModelDescriptor { id: PPOCR_TINY_ENGINE_ID, name: PPOCR_TINY_ENGINE_NAME, version: PPOCR_TINY_MODEL_VERSION, languages: PPOCR_TINY_LANGUAGE_SUMMARY, download_size_bytes: PPOCR_TINY_MODEL_DOWNLOAD_SIZE },
            OcrModelDescriptor { id: PPOCR_SMALL_ENGINE_ID, name: PPOCR_SMALL_ENGINE_NAME, version: PPOCR_SMALL_MODEL_VERSION, languages: PPOCR_SMALL_LANGUAGE_SUMMARY, download_size_bytes: PPOCR_SMALL_MODEL_DOWNLOAD_SIZE },
            OcrModelDescriptor { id: PPOCR_MEDIUM_ENGINE_ID, name: PPOCR_MEDIUM_ENGINE_NAME, version: PPOCR_MEDIUM_MODEL_VERSION, languages: PPOCR_MEDIUM_LANGUAGE_SUMMARY, download_size_bytes: PPOCR_MEDIUM_MODEL_DOWNLOAD_SIZE },
            OcrModelDescriptor { id: GLM_ENGINE_ID, name: GLM_ENGINE_NAME, version: GLM_MODEL_VERSION, languages: GLM_LANGUAGE_SUMMARY, download_size_bytes: GLM_MODEL_DOWNLOAD_SIZE },
            OcrModelDescriptor { id: DEEPSEEK_ENGINE_ID, name: DEEPSEEK_ENGINE_NAME, version: DEEPSEEK_MODEL_VERSION, languages: DEEPSEEK_LANGUAGE_SUMMARY, download_size_bytes: DEEPSEEK_MODEL_DOWNLOAD_SIZE },
        ];
        assert(r@.map_values(|d: OcrModelDescriptor| descriptor_view(d)) =~= catalog_views());
        r
    }

    /// The catalog entry of the model with id `model_id`.
    pub fn descriptor(model_id: &str) -> (r: Option<OcrModelDescriptor>)
        ensures
            r is None <==> catalog_index(model_id@) is None,
            r matches Some(d) ==> descriptor_view(d) == catalog_views()[catalog_index(model_id@)->0],
    {
        let catalog = OcrModelManager::catalog();
        let ghost views = catalog@.map_values(|d: OcrModelDescriptor| descriptor_view(d));
        if str_eq(model_id, PPOCR_TINY_ENGINE_ID) {
            assert(descriptor_view(catalog@[0]) == views[0]);
            Some(catalog[0])
        } else if str_eq(model_id, PPOCR_SMALL_ENGINE_ID) {
            assert(descriptor_view(catalog@[1]) == views[1]);
            Some(catalog[1])
        } else if str_eq(model_id, PPOCR_MEDIUM_ENGINE_ID) {
            assert(descriptor_view(catalog@[2]) == views[2]);
            Some(catalog[2])
        } else if str_eq(model_id, GLM_ENGINE_ID) {
            assert(descriptor_view(catalog@[3]) == views[3]);
            Some(catalog[3])
        } else if str_eq(model_id, DEEPSEEK_ENGINE_ID) {
            assert(descriptor_view(catalog@[4]) == views[4]);
            Some(catalog[4])
        } else {
            None
        }
    }

    /// The state of every catalog model, given the active model's id and
    /// whether each catalog model (in catalog order) is installed.
    pub fn states(active_model_id: Option<&str>, installed: &[bool]) -> (r: Vec<OcrModelState>)
        requires
            installed@.len() == 5,
        ensures
            r@.len() == 5,
            forall|i: int|
                0 <= i < 5 ==> state_matches(#[trigger] r@[i], i, installed@[i], opt_str_chars(active_model_id)),
    {
        let catalog = OcrModelManager::catalog();
        let ghost views = catalog@.map_values(|d: OcrModelDescriptor| descriptor_view(d));
        let mut states: Vec<OcrModelState> = Vec::new();
        let mut i: usize = 0;
        while i < 5
            invariant
                i <= 5,
                installed@.len() == 5,
                views == catalog_views(),
                views == catalog@.map_values(|d: OcrModelDescriptor| descriptor_view(d)),
                states@.len() == i,
                forall|j: int|
                    0 <= j < i ==> state_matches(#[trigger] states@[j], j, installed@[j], opt_str_chars(active_model_id)),
            decreases 5 - i,
        {
            let descriptor = catalog[i];
            assert(descriptor_view(descriptor) == views[i as int]);
            let active = match active_model_id {
                Some(id) => str_eq(id, descriptor.id),
                None => false,
            };
            let ghost before = states@;
            states.push(OcrModelState { descriptor, installed: installed[i], active });
            proof {
                assert(states@[i as int] == OcrModelState { descriptor, installed: installed@[i as int], active });
                assert(descriptor.id@ == catalog_views()[i as int].id);
                assert(active == (opt_str_chars(active_model_id) == Some(catalog_views()[i as int].id)));
                assert(state_matches(states@[i as int], i as int, installed@[i as int], opt_str_chars(active_model_id)));
                assert forall|j: int| 0 <= j < i implies state_matches(#[trigger] states@[j], j, installed@[j], opt_str_chars(active_model_id)) by {
                    assert(states@[j] == before[j]);
                }
            }
            i += 1;
        }
        states
    }

    /// The active model, given the text stored in the active-model file (if
    /// it could be read) and whether each catalog model is installed: the
    /// stored id without surrounding whitespace, when it is a catalog model
    /// that is installed.
    pub fn active_model_id(stored: Option<&str>, installed: &[bool]) -> (r: Option<String>)
        requires
            installed@.len() == 5,
        ensures
            match stored {
                None => r is None,
                Some(text) => match catalog_index(trim(text@)) {
                    Some(i) => if installed@[i] {
                        r matches Some(id) && id@ == trim(text@)
                    } else {
                        r is None
                    },
                    None => r is None,
                },
            },
    {
        let text = match stored {
            Some(text) => text,
            None => return None,
        };
        let id = trimmed(text);
        let index: usize = if str_eq(id.as_str(), PPOCR_TINY_ENGINE_ID) {
            0
        } else if str_eq(id.as_str(), PPOCR_SMALL_ENGINE_ID) {
            1
        } else if str_eq(id.as_str(), PPOCR_MEDIUM_ENGINE_ID) {
            2
        } else if str_eq(id.as_str(), GLM_ENGINE_ID) {
            3
        } else if str_eq(id.as_str(), DEEPSEEK_ENGINE_ID) {
            4
        } else {
            return None;
        };
        if installed[index] {
            Some(id)
        } else {
            None
        }
    }

    /// The model the active-model file names, given its text if it could be
    /// read: the text without surrounding whitespace, unless that is empty.
    pub fn selected_model_id(stored: Option<&str>) -> (r: Option<String>)
        ensures
            match stored {
                None => r is None,
                Some(text) => if trim(text@).len() > 0 {
                    r matches Some(id) && id@ == trim(text@)
                } else {
                    r is None
                },
            },
    {
        match stored {
            None => None,
            Some(text) => {
                let id = trimmed(text);
                if id.unicode_len() > 0 {
                    Some(id)
                } else {
                    None
                }
            },
        }
    }

    /// Whether the model `model_id` is installed, given whether each
    /// catalog model is (`installed`, in catalog order); an unknown model
    /// never is.
    pub fn is_installed(model_id: &str, installed: &[bool]) -> (r: bool)
        requires
            installed@.len() == 5,
        ensures
            r == match catalog_index(model_id@) {
                Some(i) => installed@[i],
                None => false,
            },
    {
        if str_eq(model_id, PPOCR_TINY_ENGINE_ID) {
            installed[0]
        } else if str_eq(model_id, PPOCR_SMALL_ENGINE_ID) {
            installed[1]
        } else if str_eq(model_id, PPOCR_MEDIUM_ENGINE_ID) {
            installed[2]
        } else if str_eq(model_id, GLM_ENGINE_ID) {
            installed[3]
        } else if str_eq(model_id, DEEPSEEK_ENGINE_ID) {
            installed[4]
        } else {
            false
        }
    }

    /// `Ok` when the model with id `model_id` can be enabled, given whether
    /// each catalog model is installed: it must be a catalog model, and
    /// installed.
    pub fn check_activation(model_id: &str, installed: &[bool]) -> (r: Result<(), OcrError>)
        requires
            installed@.len() == 5,
        ensures
            catalog_index(model_id@) is None ==> (r matches Err(OcrError::Model(m)) && m@
                == "unknown OCR model: "@ + model_id@),
            catalog_index(model_id@) matches Some(i) ==> if installed@[i] {
                r is Ok
            } else {
                r matches Err(OcrError::Model(m)) && m@ == catalog_views()[i].name
                    + " is not installed; download it before enabling it"@
            },
    {
        let descriptor = match OcrModelManager::descriptor(model_id) {
            Some(d) => d,
            None => return Err(unknown_model_error(model_id)),
        };
        let index: usize = if str_eq(model_id, PPOCR_TINY_ENGINE_ID) {
            0
        } else if str_eq(model_id, PPOCR_SMALL_ENGINE_ID) {
            1
        } else if str_eq(model_id, PPOCR_MEDIUM_ENGINE_ID) {
            2
        } else if str_eq(model_id, GLM_ENGINE_ID) {
            3
        } else {
            4
        };
        if !installed[index] {
            return Err(OcrError::Model(concat2(descriptor.name, " is not installed; download it before enabling it")));
        }
        Ok(())
    }

    /// Whether removing the model `model_id` also clears the active-model
    /// choice, given the model the active-model file names.
    pub fn clears_selection(selected: Option<&str>, model_id: &str) -> (r: bool)
        ensures
            r == (opt_str_chars(selected) == Some(model_id@)),
    {
        match selected {
            Some(id) => str_eq(id, model_id),
            None => false,
        }
    }
}

/// Different tiers in one directory never share a file.
pub proof fn tier_files_do_not_collide(
    a: FastModelPaths,
    b: FastModelPaths,
    directory: Seq<char>,
    sep: char,
)
    requires
        model_paths_in(a, directory, a.tier, sep),
        model_paths_in(b, directory, b.tier, sep),
        a.tier != b.tier,
    ensures
        a.detection@ != b.detection@,
        a.recognition@ != b.recognition@,
        a.charset@ != b.charset@,
{
    reveal_strlit("PP-OCRv6_tiny_det.mnn");
    reveal_strlit("PP-OCRv6_small_det.mnn");
    reveal_strlit("PP-OCRv6_medium_det.mnn");
    reveal_strlit("PP-OCRv6_tiny_rec.mnn");
    reveal_strlit("PP-OCRv6_small_rec.mnn");
    reveal_strlit("PP-OCRv6_medium_rec.mnn");
    reveal_strlit("ppocr_keys_v6_tiny.txt");
    reveal_strlit("ppocr_keys_v6_small.txt");
    reveal_strlit("ppocr_keys_v6_medium.txt");
    assert(tier_files(a.tier).0.len() != tier_files(b.tier).0.len());
    assert(tier_files(a.tier).1.len() != tier_files(b.tier).1.len());
    assert(a.detection@.len() != b.detection@.len());
    assert(a.recognition@.len() != b.recognition@.len());
    assert(tier_files(a.tier).2.len() != tier_files(b.tier).2.len());
    assert(a.charset@.len() != b.charset@.len());
}

} // verus!
