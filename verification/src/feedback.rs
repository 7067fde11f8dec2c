//! How a status message is presented: its severity, how long it stays on
//! screen, and whether it also deserves a system notification.

use vstd::prelude::*;
use crate::i18n::EffectiveLanguage;
use crate::text::{
    chars_of, contains, contains_chars, ends_with, is_prefix_of, is_suffix_of, lower_chars,
    starts_with, to_ascii_lower,
};

verus! {

broadcast use vstd::string::group_string_axioms;

/// The severity of a status message.
#[derive(Clone, Copy, Debug, PartialEq, Eq, Structural)]
pub enum FeedbackLevel {
    Info,
    Success,
    Warning,
    Error,
}

/// The name of a level, as the interface styles it.
pub open spec fn level_name(level: FeedbackLevel) -> Seq<char> {
    match level {
        FeedbackLevel::Info => "info"@,
        FeedbackLevel::Success => "success"@,
        FeedbackLevel::Warning => "warning"@,
        FeedbackLevel::Error => "error"@,
    }
}

/// How long a message of a level stays on screen, in milliseconds.
pub open spec fn level_duration(level: FeedbackLevel) -> int {
    match level {
        FeedbackLevel::Info => 3000,
        FeedbackLevel::Success => 2200,
        FeedbackLevel::Warning => 4000,
        FeedbackLevel::Error => 5500,
    }
}

impl FeedbackLevel {
    /// The name of the level, as the interface styles it.
    pub fn as_str(self) -> (r: &'static str)
        ensures
            r@ == level_name(self),
    {
        match self {
            FeedbackLevel::Info => "info",
            FeedbackLevel::Success => "success",
            FeedbackLevel::Warning => "warning",
            FeedbackLevel::Error => "error",
        }
    }

    /// How long a message of this level stays on screen, in milliseconds.
    pub fn duration_ms(self) -> (r: i64)
        ensures
            r == level_duration(self),
    {
        match self {
            FeedbackLevel::Info => 3000,
            FeedbackLevel::Success => 2200,
            FeedbackLevel::Warning => 4000,
            FeedbackLevel::Error => 5500,
        }
    }
}

/// A lower-cased message that reports a failure.
pub open spec fn reports_error(lower: Seq<char>) -> bool {
    ||| contains_chars(lower, " failed"@)
    ||| is_prefix_of("failed"@, lower)
    ||| is_prefix_of("could not"@, lower)
    ||| contains_chars(lower, " invalid"@)
    ||| contains_chars(lower, " rejected"@)
    ||| contains_chars(lower, " unavailable"@)
    ||| is_prefix_of("unsupported"@, lower)
}

/// A lower-cased message that reports something that did not happen.
pub open spec fn reports_warning(lower: Seq<char>) -> bool {
    ||| contains_chars(lower, "cancelled"@)
    ||| contains_chars(lower, "cancelling"@)
    ||| contains_chars(lower, " unchanged"@)
    ||| is_prefix_of("no "@, lower)
    ||| is_prefix_of("nothing "@, lower)
    ||| contains_chars(lower, "remains disabled"@)
    ||| is_prefix_of("choose an ocr model"@, lower)
}

/// A lower-cased message that reports something done.
pub open spec fn reports_success(lower: Seq<char>) -> bool {
    ||| contains_chars(lower, " saved"@)
    ||| is_prefix_of("saved"@, lower)
    ||| contains_chars(lower, " copied"@)
    ||| is_prefix_of("image copied"@, lower)
    ||| contains_chars(lower, " completed"@)
    ||| is_prefix_of("downloaded"@, lower)
    ||| is_prefix_of("removed"@, lower)
    ||| is_prefix_of("enabled"@, lower)
    ||| contains_chars(lower, " active"@)
    ||| is_prefix_of("updated"@, lower)
    ||| is_prefix_of("deleted"@, lower)
    ||| is_prefix_of("all annotations cleared"@, lower)
    ||| is_prefix_of("undid"@, lower)
    ||| is_prefix_of("redid"@, lower)
    ||| is_prefix_of("previous shortcut restored"@, lower)
}

/// The severity of a message, judged from its words in any letter case:
/// failures first, then things not done, then things done.
pub open spec fn feedback_level(raw: Seq<char>) -> FeedbackLevel {
    let lower = to_ascii_lower(raw);
    if reports_error(lower) {
        FeedbackLevel::Error
    } else if reports_warning(lower) {
        FeedbackLevel::Warning
    } else if reports_success(lower) {
        FeedbackLevel::Success
    } else {
        FeedbackLevel::Info
    }
}

/// A message reporting a failure is an error whatever else it says; one
/// reporting something not done, with no failure, is a warning; one
/// reporting something done, with neither, is a success; and a message
/// judged a plain information mentions none of these words.  Letter case
/// never matters: `lower` is the message in lower case.
pub proof fn message_words_decide_the_level(raw: Seq<char>, lower: Seq<char>)
    requires
        lower == to_ascii_lower(raw),
    ensures
        contains_chars(lower, " failed"@) ==> feedback_level(raw) == FeedbackLevel::Error,
        is_prefix_of("failed"@, lower) ==> feedback_level(raw) == FeedbackLevel::Error,
        is_prefix_of("could not"@, lower) ==> feedback_level(raw) == FeedbackLevel::Error,
        contains_chars(lower, " invalid"@) ==> feedback_level(raw) == FeedbackLevel::Error,
        contains_chars(lower, " rejected"@) ==> feedback_level(raw) == FeedbackLevel::Error,
        contains_chars(lower, " unavailable"@) ==> feedback_level(raw) == FeedbackLevel::Error,
        is_prefix_of("unsupported"@, lower) ==> feedback_level(raw) == FeedbackLevel::Error,
        !reports_error(lower) && contains_chars(lower, "cancelled"@) ==> feedback_level(raw) == FeedbackLevel::Warning,
        !reports_error(lower) && contains_chars(lower, "cancelling"@) ==> feedback_level(raw) == FeedbackLevel::Warning,
        !reports_error(lower) && contains_chars(lower, " unchanged"@) ==> feedback_level(raw) == FeedbackLevel::Warning,
        !reports_error(lower) && is_prefix_of("no "@, lower) ==> feedback_level(raw) == FeedbackLevel::Warning,
        !reports_error(lower) && is_prefix_of("nothing "@, lower) ==> feedback_level(raw) == FeedbackLevel::Warning,
        !reports_error(lower) && contains_chars(lower, "remains disabled"@) ==> feedback_level(raw) == FeedbackLevel::Warning,
        !reports_error(lower) && is_prefix_of("choose an ocr model"@, lower) ==> feedback_level(raw) == FeedbackLevel::Warning,
        !reports_error(lower) && !reports_warning(lower) && contains_chars(lower, " saved"@)
            ==> feedback_level(raw) == FeedbackLevel::Success,
        !reports_error(lower) && !reports_warning(lower) && is_prefix_of("saved"@, lower)
            ==> feedback_level(raw) == FeedbackLevel::Success,
        !reports_error(lower) && !reports_warning(lower) && contains_chars(lower, " copied"@)
            ==> feedback_level(raw) == FeedbackLevel::Success,
        !reports_error(lower) && !reports_warning(lower) && is_prefix_of("image copied"@, lower)
            ==> feedback_level(raw) == FeedbackLevel::Success,
        !reports_error(lower) && !reports_warning(lower) && contains_chars(lower, " completed"@)
            ==> feedback_level(raw) == FeedbackLevel::Success,
        !reports_error(lower) && !reports_warning(lower) && is_prefix_of("downloaded"@, lower)
            ==> feedback_level(raw) == FeedbackLevel::Success,
        !reports_error(lower) && !reports_warning(lower) && is_prefix_of("removed"@, lower)
            ==> feedback_level(raw) == FeedbackLevel::Success,
        !reports_error(lower) && !reports_warning(lower) && is_prefix_of("enabled"@, lower)
            ==> feedback_level(raw) == FeedbackLevel::Success,
        !reports_error(lower) && !reports_warning(lower) && contains_chars(lower, " active"@)
            ==> feedback_level(raw) == FeedbackLevel::Success,
        !reports_error(lower) && !reports_warning(lower) && is_prefix_of("updated"@, lower)
            ==> feedback_level(raw) == FeedbackLevel::Success,
        !reports_error(lower) && !reports_warning(lower) && is_prefix_of("deleted"@, lower)
            ==> feedback_level(raw) == FeedbackLevel::Success,
        !reports_error(lower) && !reports_warning(lower) && is_prefix_of("all annotations cleared"@, lower)
            ==> feedback_level(raw) == FeedbackLevel::Success,
        !reports_error(lower) && !reports_warning(lower) && is_prefix_of("undid"@, lower)
            ==> feedback_level(raw) == FeedbackLevel::Success,
        !reports_error(lower) && !reports_warning(lower) && is_prefix_of("redid"@, lower)
            ==> feedback_level(raw) == FeedbackLevel::Success,
        !reports_error(lower) && !reports_warning(lower) && is_prefix_of("previous shortcut restored"@, lower)
            ==> feedback_level(raw) == FeedbackLevel::Success,
        feedback_level(raw) == FeedbackLevel::Info ==> {
            &&& !contains_chars(lower, " failed"@)
            &&& !is_prefix_of("failed"@, lower)
            &&& !is_prefix_of("could not"@, lower)
            &&& !contains_chars(lower, " invalid"@)
            &&& !contains_chars(lower, " rejected"@)
            &&& !contains_chars(lower, " unavailable"@)
            &&& !is_prefix_of("unsupported"@, lower)
            &&& !contains_chars(lower, "cancelled"@)
            &&& !contains_chars(lower, "cancelling"@)
            &&& !contains_chars(lower, " unchanged"@)
            &&& !is_prefix_of("no "@, lower)
            &&& !is_prefix_of("nothing "@, lower)
            &&& !contains_chars(lower, "remains disabled"@)
            &&& !is_prefix_of("choose an ocr model"@, lower)
            &&& !contains_chars(lower, " saved"@)
            &&& !is_prefix_of("saved"@, lower)
            &&& !contains_chars(lower, " copied"@)
            &&& !is_prefix_of("image copied"@, lower)
            &&& !contains_chars(lower, " completed"@)
            &&& !is_prefix_of("downloaded"@, lower)
            &&& !is_prefix_of("removed"@, lower)
            &&& !is_prefix_of("enabled"@, lower)
            &&& !contains_chars(lower, " active"@)
            &&& !is_prefix_of("updated"@, lower)
            &&& !is_prefix_of("deleted"@, lower)
            &&& !is_prefix_of("all annotations cleared"@, lower)
            &&& !is_prefix_of("undid"@, lower)
            &&& !is_prefix_of("redid"@, lower)
            &&& !is_prefix_of("previous shortcut restored"@, lower)
        },
{
}

/// Whether `p` occurs in `s`.
fn has(s: &[char], p: &str) -> (r: bool)
    ensures
        r == contains_chars(s@, p@),
{
    let pv = chars_of(p);
    contains(s, pv.as_slice())
}

/// Whether `s` begins with `p`.
fn begins(s: &[char], p: &str) -> (r: bool)
    ensures
        r == is_prefix_of(p@, s@),
{
    let pv = chars_of(p);
    starts_with(s, pv.as_slice())
}

/// Whether `s` ends with `p`.
fn finishes(s: &[char], p: &str) -> (r: bool)
    ensures
        r == is_suffix_of(p@, s@),
{
    let pv = chars_of(p);
    ends_with(s, pv.as_slice())
}

/// The severity of the message `raw`.
pub fn classify(raw: &str) -> (r: FeedbackLevel)
    ensures
        r == feedback_level(raw@),
{
    let raw_chars = chars_of(raw);
    let lower = lower_chars(raw_chars.as_slice());
    let l = lower.as_slice();
    if has(l, " failed") || begins(l, "failed") || begins(l, "could not") || has(l, " invalid")
        || has(l, " rejected") || has(l, " unavailable") || begins(l, "unsupported") {
        return FeedbackLevel::Error;
    }
    if has(l, "cancelled") || has(l, "cancelling") || has(l, " unchanged") || begins(l, "no ")
        || begins(l, "nothing ") || has(l, "remains disabled") || begins(l, "choose an ocr model") {
        return FeedbackLevel::Warning;
    }
    if has(l, " saved") || begins(l, "saved") || has(l, " copied") || begins(l, "image copied")
        || has(l, " completed") || begins(l, "downloaded") || begins(l, "removed") || begins(
        l,
        "enabled",
    ) || has(l, " active") || begins(l, "updated") || begins(l, "deleted") || begins(
        l,
        "all annotations cleared",
    ) || begins(l, "undid") || begins(l, "redid") || begins(l, "previous shortcut restored") {
        return FeedbackLevel::Success;
    }
    FeedbackLevel::Info
}

/// Messages that also go to the system's notification centre: failures of
/// work that runs in the background, and a finished model download.
pub open spec fn notifies(raw: Seq<char>, level: FeedbackLevel) -> bool {
    ||| (level == FeedbackLevel::Error && (is_prefix_of("Region capture worker failed"@, raw)
        || is_prefix_of("Region capture failed"@, raw) || is_prefix_of(
        "Selection overlay failed"@,
        raw,
    ) || is_prefix_of("OCR model download failed"@, raw) || is_prefix_of(
        "OCR model removal failed"@,
        raw,
    )))
    ||| (is_prefix_of("Downloaded "@, raw) && is_suffix_of(
        " · select Enable to use it for OCR"@,
        raw,
    ))
}

/// Whether the message `raw` of severity `level` also deserves a system
/// notification.
pub fn should_use_system_notification(raw: &str, level: FeedbackLevel) -> (r: bool)
    ensures
        r == notifies(raw@, level),
{
    let v = chars_of(raw);
    let s = v.as_slice();
    if level == FeedbackLevel::Error && (begins(s, "Region capture worker failed") || begins(
        s,
        "Region capture failed",
    ) || begins(s, "Selection overlay failed") || begins(s, "OCR model download failed")
        || begins(s, "OCR model removal failed")) {
        return true;
    }
    begins(s, "Downloaded ") && finishes(s, " · select Enable to use it for OCR")
}

/// The title of a system notification for a message of `level`.
pub open spec fn notification_title(language: EffectiveLanguage, level: FeedbackLevel) -> Seq<
    char,
> {
    match (language, level) {
        (EffectiveLanguage::SimplifiedChinese, FeedbackLevel::Error) => "Azusa Lens · 错误"@,
        (EffectiveLanguage::SimplifiedChinese, FeedbackLevel::Success) => "Azusa Lens · 已完成"@,
        (_, FeedbackLevel::Error) => "Azusa Lens · Error"@,
        (_, FeedbackLevel::Success) => "Azusa Lens · Completed"@,
        _ => "Azusa Lens"@,
    }
}

/// The title of a system notification for a message of `level`, in `language`.
pub fn notification_summary(language: EffectiveLanguage, level: FeedbackLevel) -> (r: &'static str)
    ensures
        r@ == notification_title(language, level),
{
    match (language, level) {
        (EffectiveLanguage::SimplifiedChinese, FeedbackLevel::Error) => "Azusa Lens · 错误",
        (EffectiveLanguage::SimplifiedChinese, FeedbackLevel::Success) => "Azusa Lens · 已完成",
        (_, FeedbackLevel::Error) => "Azusa Lens · Error",
        (_, FeedbackLevel::Success) => "Azusa Lens · Completed",
        _ => "Azusa Lens",
    }
}


/// A message stays on screen the longer the more it matters: an error
/// longest, then a warning, then plain information, a success shortest;
/// and each level has a name of its own.
pub proof fn severer_messages_stay_longer(a: FeedbackLevel, b: FeedbackLevel)
    ensures
        level_duration(FeedbackLevel::Success) < level_duration(FeedbackLevel::Info) < level_duration(
            FeedbackLevel::Warning,
        ) < level_duration(FeedbackLevel::Error),
        level_name(a) == level_name(b) ==> a == b,
{
    reveal_strlit("info");
    reveal_strlit("success");
    reveal_strlit("warning");
    reveal_strlit("error");
    assert("info"@.len() == 4 && "success"@.len() == 7 && "warning"@.len() == 7 && "error"@.len() == 5);
    assert("success"@ != "warning"@) by {
        assert("success"@[0] != "warning"@[0]);
    }
}

/// Only failures of background work and finished model downloads reach
/// the system's notification centre; a notified failure is one judged an
/// error, and a notification's title names its level (errors and
/// successes distinctly, in either language).
pub proof fn only_background_failures_and_downloads_notify(raw: Seq<char>, level: FeedbackLevel, language: EffectiveLanguage)
    ensures
        notifies(raw, level) ==> level == FeedbackLevel::Error || (is_prefix_of("Downloaded "@, raw)
            && is_suffix_of(" · select Enable to use it for OCR"@, raw)),
        !is_prefix_of("Downloaded "@, raw) && level != FeedbackLevel::Error ==> !notifies(raw, level),
        notification_title(language, FeedbackLevel::Error) != notification_title(language, FeedbackLevel::Success),
        notification_title(language, FeedbackLevel::Error) != notification_title(language, FeedbackLevel::Info),
        notification_title(language, FeedbackLevel::Success) != notification_title(language, FeedbackLevel::Info),
        notification_title(language, FeedbackLevel::Info) == notification_title(language, FeedbackLevel::Warning),
{
    reveal_strlit("Azusa Lens · 错误");
    reveal_strlit("Azusa Lens · 已完成");
    reveal_strlit("Azusa Lens · Error");
    reveal_strlit("Azusa Lens · Completed");
    reveal_strlit("Azusa Lens");
    assert("Azusa Lens · 错误"@.len() == 15 && "Azusa Lens · 已完成"@.len() == 16);
    assert("Azusa Lens · Error"@.len() == 18 && "Azusa Lens · Completed"@.len() == 22);
    assert("Azusa Lens"@.len() == 10);
}

} // verus!
