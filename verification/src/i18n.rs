//! Interface language selection and the Simplified Chinese rendering of the
//! English status messages that the application shows.

use vstd::prelude::*;
use crate::annotation::{tool_id, ToolKind};
use crate::config::{appearance_name, AppearanceMode, LanguageMode};
use crate::text::{
    chars_of, concat2, first_of, concat3, is_prefix_of, lower_chars, opt_chars, opt_str_chars, owned,
    split_once, split_once_str, starts_with, str_eq, strip_prefix, strip_prefix_str,
    strip_suffix, strip_suffix_str, to_ascii_lower,
};

verus! {

broadcast use vstd::string::group_string_axioms;

/// The language the interface is shown in.
#[derive(Clone, Copy, Debug, PartialEq, Eq, Structural)]
pub enum EffectiveLanguage {
    English,
    SimplifiedChinese,
}

/// The language a system locale name selects: Simplified Chinese for any
/// locale whose name starts with `zh` in any letter case, else English.
pub open spec fn locale_language(locale: Seq<char>) -> EffectiveLanguage {
    if is_prefix_of("zh"@, to_ascii_lower(locale)) {
        EffectiveLanguage::SimplifiedChinese
    } else {
        EffectiveLanguage::English
    }
}

/// The language a mode selects; `System` follows the system locale, and an
/// unknown locale counts as an empty name.
pub open spec fn language_for(mode: LanguageMode, locale: Option<Seq<char>>) -> EffectiveLanguage {
    match mode {
        LanguageMode::English => EffectiveLanguage::English,
        LanguageMode::SimplifiedChinese => EffectiveLanguage::SimplifiedChinese,
        LanguageMode::System => match locale {
            Some(name) => locale_language(name),
            None => locale_language(Seq::empty()),
        },
    }
}

/// An explicit language is used whatever the system says; otherwise a
/// system locale beginning with `zh`, in any letter case, selects
/// Simplified Chinese, and one beginning with anything else, or none at
/// all, selects English.
pub proof fn language_follows_mode_then_locale(locale: Option<Seq<char>>, rest: Seq<char>, other: Seq<char>)
    ensures
        language_for(LanguageMode::English, locale) == EffectiveLanguage::English,
        language_for(LanguageMode::SimplifiedChinese, locale) == EffectiveLanguage::SimplifiedChinese,
        language_for(LanguageMode::System, Some("zh"@ + rest)) == EffectiveLanguage::SimplifiedChinese,
        language_for(LanguageMode::System, Some("ZH"@ + rest)) == EffectiveLanguage::SimplifiedChinese,
        language_for(LanguageMode::System, Some("Zh"@ + rest)) == EffectiveLanguage::SimplifiedChinese,
        other.len() == 0 || (other[0] != 'z' && other[0] != 'Z') ==> language_for(
            LanguageMode::System,
            Some(other),
        ) == EffectiveLanguage::English,
        language_for(LanguageMode::System, None) == EffectiveLanguage::English,
{
    reveal_strlit("zh");
    reveal_strlit("ZH");
    reveal_strlit("Zh");
    assert(to_ascii_lower("zh"@ + rest).subrange(0, 2) =~= "zh"@);
    assert(to_ascii_lower("ZH"@ + rest).subrange(0, 2) =~= "zh"@);
    assert(to_ascii_lower("Zh"@ + rest).subrange(0, 2) =~= "zh"@);
    if other.len() > 0 && other[0] != 'z' && other[0] != 'Z' {
        let low = to_ascii_lower(other);
        assert(low[0] != "zh"@[0]);
        if low.len() >= 2 {
            assert(low.subrange(0, 2)[0] == low[0]);
        }
    }
    assert(to_ascii_lower(Seq::<char>::empty()).len() == 0);
}

/// English messages are shown as they are.
pub proof fn english_messages_are_kept(raw: Seq<char>)
    ensures
        localized_status(EffectiveLanguage::English, raw) == raw,
{
}

/// The language of the system, given its locale name if it has one.
pub fn system_language(locale: Option<&str>) -> (r: EffectiveLanguage)
    ensures
        r == language_for(LanguageMode::System, opt_str_chars(locale)),
{
    let name = match locale {
        Some(name) => owned(name),
        None => String::new(),
    };
    let lower = lower_chars(chars_of(name.as_str()).as_slice());
    let zh = chars_of("zh");
    if starts_with(lower.as_slice(), zh.as_slice()) {
        EffectiveLanguage::SimplifiedChinese
    } else {
        EffectiveLanguage::English
    }
}

/// The language `mode` selects, with `system_locale` the locale name that
/// the system reports, if any.
pub fn effective_language(mode: LanguageMode, system_locale: Option<&str>) -> (r: EffectiveLanguage)
    ensures
        r == language_for(mode, opt_str_chars(system_locale)),
{
    match mode {
        LanguageMode::English => EffectiveLanguage::English,
        LanguageMode::SimplifiedChinese => EffectiveLanguage::SimplifiedChinese,
        LanguageMode::System => system_language(system_locale),
    }
}

/// `raw` with its English prefix replaced by the Chinese one.
pub open spec fn swap_prefix(raw: Seq<char>, english: Seq<char>, chinese: Seq<char>) -> Option<
    Seq<char>,
> {
    match strip_prefix(raw, english) {
        Some(rest) => Some(chinese + rest),
        None => None,
    }
}

/// `raw` with its English suffix replaced by the Chinese one.
pub open spec fn swap_suffix(raw: Seq<char>, english: Seq<char>, chinese: Seq<char>) -> Option<
    Seq<char>,
> {
    match strip_suffix(raw, english) {
        Some(rest) => Some(rest + chinese),
        None => None,
    }
}

/// The part of `raw` between `prefix` and `suffix`, when it has both.
pub open spec fn between(raw: Seq<char>, prefix: Seq<char>, suffix: Seq<char>) -> Option<Seq<char>> {
    match strip_prefix(raw, prefix) {
        Some(rest) => strip_suffix(rest, suffix),
        None => None,
    }
}

/// The part of `raw` between `prefix` and `suffix`, framed by `before` and
/// `after` instead.
pub open spec fn rewrap(
    raw: Seq<char>,
    prefix: Seq<char>,
    suffix: Seq<char>,
    before: Seq<char>,
    after: Seq<char>,
) -> Option<Seq<char>> {
    match between(raw, prefix, suffix) {
        Some(value) => Some(before + value + after),
        None => None,
    }
}

/// `chinese` when `raw` is exactly `english`.
pub open spec fn exact_rule(raw: Seq<char>, english: Seq<char>, chinese: Seq<char>) -> Option<
    Seq<char>,
> {
    if raw == english {
        Some(chinese)
    } else {
        None
    }
}

/// The Chinese name of an appearance mode's stored name; other values are kept.
pub open spec fn mode_label(value: Seq<char>) -> Seq<char> {
    if value == "system"@ {
        "跟随系统"@
    } else if value == "light"@ {
        "亮色"@
    } else if value == "dark"@ {
        "暗色"@
    } else {
        value
    }
}

/// The Chinese name of an annotation tool's id; other values are kept.
pub open spec fn tool_label(value: Seq<char>) -> Seq<char> {
    if value == "select"@ {
        "选择"@
    } else if value == "rectangle"@ {
        "矩形"@
    } else if value == "arrow"@ {
        "箭头"@
    } else if value == "pen"@ {
        "画笔"@
    } else if value == "text"@ {
        "文字"@
    } else if value == "mosaic"@ {
        "马赛克"@
    } else if value == "ellipse"@ {
        "椭圆"@
    } else if value == "line"@ {
        "直线"@
    } else if value == "number"@ {
        "序号"@
    } else if value == "blur"@ {
        "模糊"@
    } else {
        value
    }
}

/// The tool ids and their Chinese names are all different words.
proof fn lemma_tool_words_distinct()
    ensures
        "select"@ != "rectangle"@,
        "select"@ != "arrow"@,
        "select"@ != "pen"@,
        "select"@ != "text"@,
        "select"@ != "mosaic"@,
        "select"@ != "ellipse"@,
        "select"@ != "line"@,
        "select"@ != "number"@,
        "select"@ != "blur"@,
        "rectangle"@ != "arrow"@,
        "rectangle"@ != "pen"@,
        "rectangle"@ != "text"@,
        "rectangle"@ != "mosaic"@,
        "rectangle"@ != "ellipse"@,
        "rectangle"@ != "line"@,
        "rectangle"@ != "number"@,
        "rectangle"@ != "blur"@,
        "arrow"@ != "pen"@,
        "arrow"@ != "text"@,
        "arrow"@ != "mosaic"@,
        "arrow"@ != "ellipse"@,
        "arrow"@ != "line"@,
        "arrow"@ != "number"@,
        "arrow"@ != "blur"@,
        "pen"@ != "text"@,
        "pen"@ != "mosaic"@,
        "pen"@ != "ellipse"@,
        "pen"@ != "line"@,
        "pen"@ != "number"@,
        "pen"@ != "blur"@,
        "text"@ != "mosaic"@,
        "text"@ != "ellipse"@,
        "text"@ != "line"@,
        "text"@ != "number"@,
        "text"@ != "blur"@,
        "mosaic"@ != "ellipse"@,
        "mosaic"@ != "line"@,
        "mosaic"@ != "number"@,
        "mosaic"@ != "blur"@,
        "ellipse"@ != "line"@,
        "ellipse"@ != "number"@,
        "ellipse"@ != "blur"@,
        "line"@ != "number"@,
        "line"@ != "blur"@,
        "number"@ != "blur"@,
        "选择"@ != "矩形"@,
        "选择"@ != "箭头"@,
        "选择"@ != "画笔"@,
        "选择"@ != "文字"@,
        "选择"@ != "马赛克"@,
        "选择"@ != "椭圆"@,
        "选择"@ != "直线"@,
        "选择"@ != "序号"@,
        "选择"@ != "模糊"@,
        "矩形"@ != "箭头"@,
        "矩形"@ != "画笔"@,
        "矩形"@ != "文字"@,
        "矩形"@ != "马赛克"@,
        "矩形"@ != "椭圆"@,
        "矩形"@ != "直线"@,
        "矩形"@ != "序号"@,
        "矩形"@ != "模糊"@,
        "箭头"@ != "画笔"@,
        "箭头"@ != "文字"@,
        "箭头"@ != "马赛克"@,
        "箭头"@ != "椭圆"@,
        "箭头"@ != "直线"@,
        "箭头"@ != "序号"@,
        "箭头"@ != "模糊"@,
        "画笔"@ != "文字"@,
        "画笔"@ != "马赛克"@,
        "画笔"@ != "椭圆"@,
        "画笔"@ != "直线"@,
        "画笔"@ != "序号"@,
        "画笔"@ != "模糊"@,
        "文字"@ != "马赛克"@,
        "文字"@ != "椭圆"@,
        "文字"@ != "直线"@,
        "文字"@ != "序号"@,
        "文字"@ != "模糊"@,
        "马赛克"@ != "椭圆"@,
        "马赛克"@ != "直线"@,
        "马赛克"@ != "序号"@,
        "马赛克"@ != "模糊"@,
        "椭圆"@ != "直线"@,
        "椭圆"@ != "序号"@,
        "椭圆"@ != "模糊"@,
        "直线"@ != "序号"@,
        "直线"@ != "模糊"@,
        "序号"@ != "模糊"@,
        "select"@ != "选择"@,
        "rectangle"@ != "矩形"@,
        "arrow"@ != "箭头"@,
        "pen"@ != "画笔"@,
        "text"@ != "文字"@,
        "mosaic"@ != "马赛克"@,
        "ellipse"@ != "椭圆"@,
        "line"@ != "直线"@,
        "number"@ != "序号"@,
        "blur"@ != "模糊"@,
{
    reveal_strlit("select");
    reveal_strlit("rectangle");
    reveal_strlit("arrow");
    reveal_strlit("pen");
    reveal_strlit("text");
    reveal_strlit("mosaic");
    reveal_strlit("ellipse");
    reveal_strlit("line");
    reveal_strlit("number");
    reveal_strlit("blur");
    reveal_strlit("选择");
    reveal_strlit("矩形");
    reveal_strlit("箭头");
    reveal_strlit("画笔");
    reveal_strlit("文字");
    reveal_strlit("马赛克");
    reveal_strlit("椭圆");
    reveal_strlit("直线");
    reveal_strlit("序号");
    reveal_strlit("模糊");
    assert("select"@ != "rectangle"@) by { assert("select"@.len() != "rectangle"@.len()); }
    assert("select"@ != "arrow"@) by { assert("select"@.len() != "arrow"@.len()); }
    assert("select"@ != "pen"@) by { assert("select"@.len() != "pen"@.len()); }
    assert("select"@ != "text"@) by { assert("select"@.len() != "text"@.len()); }
    assert("select"@ != "mosaic"@) by { assert("select"@[0] != "mosaic"@[0]); }
    assert("select"@ != "ellipse"@) by { assert("select"@.len() != "ellipse"@.len()); }
    assert("select"@ != "line"@) by { assert("select"@.len() != "line"@.len()); }
    assert("select"@ != "number"@) by { assert("select"@[0] != "number"@[0]); }
    assert("select"@ != "blur"@) by { assert("select"@.len() != "blur"@.len()); }
    assert("rectangle"@ != "arrow"@) by { assert("rectangle"@.len() != "arrow"@.len()); }
    assert("rectangle"@ != "pen"@) by { assert("rectangle"@.len() != "pen"@.len()); }
    assert("rectangle"@ != "text"@) by { assert("rectangle"@.len() != "text"@.len()); }
    assert("rectangle"@ != "mosaic"@) by { assert("rectangle"@.len() != "mosaic"@.len()); }
    assert("rectangle"@ != "ellipse"@) by { assert("rectangle"@.len() != "ellipse"@.len()); }
    assert("rectangle"@ != "line"@) by { assert("rectangle"@.len() != "line"@.len()); }
    assert("rectangle"@ != "number"@) by { assert("rectangle"@.len() != "number"@.len()); }
    assert("rectangle"@ != "blur"@) by { assert("rectangle"@.len() != "blur"@.len()); }
    assert("arrow"@ != "pen"@) by { assert("arrow"@.len() != "pen"@.len()); }
    assert("arrow"@ != "text"@) by { assert("arrow"@.len() != "text"@.len()); }
    assert("arrow"@ != "mosaic"@) by { assert("arrow"@.len() != "mosaic"@.len()); }
    assert("arrow"@ != "ellipse"@) by { assert("arrow"@.len() != "ellipse"@.len()); }
    assert("arrow"@ != "line"@) by { assert("arrow"@.len() != "line"@.len()); }
    assert("arrow"@ != "number"@) by { assert("arrow"@.len() != "number"@.len()); }
    assert("arrow"@ != "blur"@) by { assert("arrow"@.len() != "blur"@.len()); }
    assert("pen"@ != "text"@) by { assert("pen"@.len() != "text"@.len()); }
    assert("pen"@ != "mosaic"@) by { assert("pen"@.len() != "mosaic"@.len()); }
    assert("pen"@ != "ellipse"@) by { assert("pen"@.len() != "ellipse"@.len()); }
    assert("pen"@ != "line"@) by { assert("pen"@.len() != "line"@.len()); }
    assert("pen"@ != "number"@) by { assert("pen"@.len() != "number"@.len()); }
    assert("pen"@ != "blur"@) by { assert("pen"@.len() != "blur"@.len()); }
    assert("text"@ != "mosaic"@) by { assert("text"@.len() != "mosaic"@.len()); }
    assert("text"@ != "ellipse"@) by { assert("text"@.len() != "ellipse"@.len()); }
    assert("text"@ != "line"@) by { assert("text"@[0] != "line"@[0]); }
    assert("text"@ != "number"@) by { assert("text"@.len() != "number"@.len()); }
    assert("text"@ != "blur"@) by { assert("text"@[0] != "blur"@[0]); }
    assert("mosaic"@ != "ellipse"@) by { assert("mosaic"@.len() != "ellipse"@.len()); }
    assert("mosaic"@ != "line"@) by { assert("mosaic"@.len() != "line"@.len()); }
    assert("mosaic"@ != "number"@) by { assert("mosaic"@[0] != "number"@[0]); }
    assert("mosaic"@ != "blur"@) by { assert("mosaic"@.len() != "blur"@.len()); }
    assert("ellipse"@ != "line"@) by { assert("ellipse"@.len() != "line"@.len()); }
    assert("ellipse"@ != "number"@) by { assert("ellipse"@.len() != "number"@.len()); }
    assert("ellipse"@ != "blur"@) by { assert("ellipse"@.len() != "blur"@.len()); }
    assert("line"@ != "number"@) by { assert("line"@.len() != "number"@.len()); }
    assert("line"@ != "blur"@) by { assert("line"@[0] != "blur"@[0]); }
    assert("number"@ != "blur"@) by { assert("number"@.len() != "blur"@.len()); }
    assert("选择"@ != "矩形"@) by { assert("选择"@[0] != "矩形"@[0]); }
    assert("选择"@ != "箭头"@) by { assert("选择"@[0] != "箭头"@[0]); }
    assert("选择"@ != "画笔"@) by { assert("选择"@[0] != "画笔"@[0]); }
    assert("选择"@ != "文字"@) by { assert("选择"@[0] != "文字"@[0]); }
    assert("选择"@ != "马赛克"@) by { assert("选择"@.len() != "马赛克"@.len()); }
    assert("选择"@ != "椭圆"@) by { assert("选择"@[0] != "椭圆"@[0]); }
    assert("选择"@ != "直线"@) by { assert("选择"@[0] != "直线"@[0]); }
    assert("选择"@ != "序号"@) by { assert("选择"@[0] != "序号"@[0]); }
    assert("选择"@ != "模糊"@) by { assert("选择"@[0] != "模糊"@[0]); }
    assert("矩形"@ != "箭头"@) by { assert("矩形"@[0] != "箭头"@[0]); }
    assert("矩形"@ != "画笔"@) by { assert("矩形"@[0] != "画笔"@[0]); }
    assert("矩形"@ != "文字"@) by { assert("矩形"@[0] != "文字"@[0]); }
    assert("矩形"@ != "马赛克"@) by { assert("矩形"@.len() != "马赛克"@.len()); }
    assert("矩形"@ != "椭圆"@) by { assert("矩形"@[0] != "椭圆"@[0]); }
    assert("矩形"@ != "直线"@) by { assert("矩形"@[0] != "直线"@[0]); }
    assert("矩形"@ != "序号"@) by { assert("矩形"@[0] != "序号"@[0]); }
    assert("矩形"@ != "模糊"@) by { assert("矩形"@[0] != "模糊"@[0]); }
    assert("箭头"@ != "画笔"@) by { assert("箭头"@[0] != "画笔"@[0]); }
    assert("箭头"@ != "文字"@) by { assert("箭头"@[0] != "文字"@[0]); }
    assert("箭头"@ != "马赛克"@) by { assert("箭头"@.len() != "马赛克"@.len()); }
    assert("箭头"@ != "椭圆"@) by { assert("箭头"@[0] != "椭圆"@[0]); }
    assert("箭头"@ != "直线"@) by { assert("箭头"@[0] != "直线"@[0]); }
    assert("箭头"@ != "序号"@) by { assert("箭头"@[0] != "序号"@[0]); }
    assert("箭头"@ != "模糊"@) by { assert("箭头"@[0] != "模糊"@[0]); }
    assert("画笔"@ != "文字"@) by { assert("画笔"@[0] != "文字"@[0]); }
    assert("画笔"@ != "马赛克"@) by { assert("画笔"@.len() != "马赛克"@.len()); }
    assert("画笔"@ != "椭圆"@) by { assert("画笔"@[0] != "椭圆"@[0]); }
    assert("画笔"@ != "直线"@) by { assert("画笔"@[0] != "直线"@[0]); }
    assert("画笔"@ != "序号"@) by { assert("画笔"@[0] != "序号"@[0]); }
    assert("画笔"@ != "模糊"@) by { assert("画笔"@[0] != "模糊"@[0]); }
    assert("文字"@ != "马赛克"@) by { assert("文字"@.len() != "马赛克"@.len()); }
    assert("文字"@ != "椭圆"@) by { assert("文字"@[0] != "椭圆"@[0]); }
    assert("文字"@ != "直线"@) by { assert("文字"@[0] != "直线"@[0]); }
    assert("文字"@ != "序号"@) by { assert("文字"@[0] != "序号"@[0]); }
    assert("文字"@ != "模糊"@) by { assert("文字"@[0] != "模糊"@[0]); }
    assert("马赛克"@ != "椭圆"@) by { assert("马赛克"@.len() != "椭圆"@.len()); }
    assert("马赛克"@ != "直线"@) by { assert("马赛克"@.len() != "直线"@.len()); }
    assert("马赛克"@ != "序号"@) by { assert("马赛克"@.len() != "序号"@.len()); }
    assert("马赛克"@ != "模糊"@) by { assert("马赛克"@.len() != "模糊"@.len()); }
    assert("椭圆"@ != "直线"@) by { assert("椭圆"@[0] != "直线"@[0]); }
    assert("椭圆"@ != "序号"@) by { assert("椭圆"@[0] != "序号"@[0]); }
    assert("椭圆"@ != "模糊"@) by { assert("椭圆"@[0] != "模糊"@[0]); }
    assert("直线"@ != "序号"@) by { assert("直线"@[0] != "序号"@[0]); }
    assert("直线"@ != "模糊"@) by { assert("直线"@[0] != "模糊"@[0]); }
    assert("序号"@ != "模糊"@) by { assert("序号"@[0] != "模糊"@[0]); }
    assert("select"@ != "选择"@) by { assert("select"@[0] != "选择"@[0]); }
    assert("rectangle"@ != "矩形"@) by { assert("rectangle"@[0] != "矩形"@[0]); }
    assert("arrow"@ != "箭头"@) by { assert("arrow"@[0] != "箭头"@[0]); }
    assert("pen"@ != "画笔"@) by { assert("pen"@[0] != "画笔"@[0]); }
    assert("text"@ != "文字"@) by { assert("text"@[0] != "文字"@[0]); }
    assert("mosaic"@ != "马赛克"@) by { assert("mosaic"@[0] != "马赛克"@[0]); }
    assert("ellipse"@ != "椭圆"@) by { assert("ellipse"@[0] != "椭圆"@[0]); }
    assert("line"@ != "直线"@) by { assert("line"@[0] != "直线"@[0]); }
    assert("number"@ != "序号"@) by { assert("number"@[0] != "序号"@[0]); }
    assert("blur"@ != "模糊"@) by { assert("blur"@[0] != "模糊"@[0]); }
}

/// Each appearance mode is shown by a Chinese name of its own, never by
/// its stored English name.
pub proof fn appearance_labels_tell_modes_apart(a: AppearanceMode, b: AppearanceMode)
    ensures
        mode_label(appearance_name(a)) != appearance_name(a),
        mode_label(appearance_name(a)) == mode_label(appearance_name(b)) ==> a == b,
{
    reveal_strlit("system");
    reveal_strlit("light");
    reveal_strlit("dark");
    reveal_strlit("跟随系统");
    reveal_strlit("亮色");
    reveal_strlit("暗色");
    assert("system"@.len() == 6 && "light"@.len() == 5 && "dark"@.len() == 4);
    assert("跟随系统"@.len() == 4 && "亮色"@.len() == 2 && "暗色"@.len() == 2);
    assert("亮色"@ != "暗色"@) by {
        assert("亮色"@[0] != "暗色"@[0]);
    }
    assert("dark"@ != "跟随系统"@) by {
        assert("dark"@[0] != "跟随系统"@[0]);
    }
}

/// The tool ids the status messages name.
pub open spec fn status_tool_ids() -> Set<Seq<char>> {
    set!["select"@, "rectangle"@, "arrow"@, "pen"@, "text"@, "mosaic"@, "ellipse"@, "line"@, "number"@, "blur"@]
}

/// Every tool a status message names is shown by a Chinese name of its
/// own: no tool keeps its English id, and two different tools never share
/// a name.
pub proof fn tool_labels_tell_tools_apart(a: Seq<char>, b: Seq<char>)
    requires
        status_tool_ids().contains(a),
        status_tool_ids().contains(b),
    ensures
        tool_label(a) != a,
        tool_label(a) == tool_label(b) ==> a == b,
{
    lemma_tool_words_distinct();
}

/// Each editor tool is named in Chinese by what it draws.
pub proof fn editor_tools_have_their_chinese_names(t: ToolKind)
    ensures
        tool_label(tool_id(t)) == match t {
            ToolKind::Rectangle => "矩形"@,
            ToolKind::Arrow => "箭头"@,
            ToolKind::Pen => "画笔"@,
            ToolKind::Text => "文字"@,
            ToolKind::Mosaic => "马赛克"@,
            ToolKind::Ellipse => "椭圆"@,
            ToolKind::Line => "直线"@,
            ToolKind::Blur => "模糊"@,
        },
{
    lemma_tool_words_distinct();
}

/// `chinese` followed by the Chinese name of the appearance mode after `english`.
pub open spec fn mode_rule(raw: Seq<char>, english: Seq<char>, chinese: Seq<char>) -> Option<
    Seq<char>,
> {
    match strip_prefix(raw, english) {
        Some(value) => Some(chinese + mode_label(value)),
        None => None,
    }
}

/// `chinese` followed by the Chinese name of the tool after `english`.
pub open spec fn tool_rule(raw: Seq<char>, english: Seq<char>, chinese: Seq<char>) -> Option<
    Seq<char>,
> {
    match strip_prefix(raw, english) {
        Some(value) => Some(chinese + tool_label(value)),
        None => None,
    }
}

/// The rewrite of the middle of a capture report whose clipboard copy failed.
pub open spec fn clipboard_failed_rule(value: Seq<char>) -> Option<Seq<char>> {
    match split_once(value, " · clipboard failed: "@) {
        Some(parts) => match strip_suffix(parts.1, " · ready to annotate"@) {
            Some(error) => Some(
                "已截图 "@ + parts.0 + " · 复制到剪贴板失败："@ + error + " · 可以开始标注"@,
            ),
            None => None,
        },
        None => None,
    }
}

/// The rewrite of a capture report: `Captured <size> · ...`.
pub open spec fn captured_rule(raw: Seq<char>) -> Option<Seq<char>> {
    match strip_prefix(raw, "Captured "@) {
        Some(value) => match strip_suffix(value, " · copied to clipboard · ready to annotate"@) {
            Some(size) => Some("已截图 "@ + size + " · 已复制到剪贴板 · 可以开始标注"@),
            None => first_of(
                clipboard_failed_rule(value),
                match strip_suffix(value, " · ready to annotate"@) {
                    Some(size) => Some("已截图 "@ + size + " · 可以开始标注"@),
                    None => None,
                },
            ),
        },
        None => None,
    }
}

/// The rewrites of settings and capture messages, first match first.
pub open spec fn settings_rules(raw: Seq<char>) -> Option<Seq<char>> {
    first_of(swap_prefix(raw, "Settings loaded with safe defaults · "@, "设置已使用安全默认值加载 · "@),
    first_of(swap_prefix(raw, "Unsupported appearance mode · "@, "不支持的外观模式 · "@),
    first_of(swap_prefix(raw, "Unsupported language mode · "@, "不支持的语言模式 · "@),
    first_of(swap_prefix(raw, "Could not apply language · "@, "无法应用语言设置 · "@),
    first_of(swap_prefix(raw, "Could not save language · "@, "无法保存语言设置 · "@),
    first_of(mode_rule(raw, "Appearance saved · "@, "外观已保存 · "@),
    first_of(swap_prefix(raw, "Could not save appearance · "@, "无法保存外观设置 · "@),
    first_of(swap_prefix(raw, "Default export directory saved · "@, "快速保存目录已保存 · "@),
    first_of(swap_prefix(raw, "Could not save export directory · "@, "无法保存快速保存目录 · "@),
    first_of(swap_prefix(raw, "Could not choose export directory · "@, "无法选择快速保存目录 · "@),
    first_of(swap_prefix(raw, "Could not reset export directory · "@, "无法重置快速保存目录 · "@),
    first_of(swap_prefix(raw, "Could not save export preferences · "@, "无法保存导出设置 · "@),
    first_of(swap_prefix(raw, "Region capture worker failed · "@, "区域截图任务启动失败 · "@),
    first_of(swap_prefix(raw, "Selection overlay failed · "@, "截图选择浮层打开失败 · "@),
    first_of(swap_prefix(raw, "Region capture failed · "@, "区域截图失败 · "@),
    swap_prefix(raw, "Region crop failed · "@, "截图裁剪失败 · "@))))))))))))))))
}

/// The rewrites of editor messages, first match first.
pub open spec fn editor_rules(raw: Seq<char>) -> Option<Seq<char>> {
    first_of(tool_rule(raw, "Annotation tool · "@, "标注工具 · "@),
    first_of(swap_prefix(raw, "Color update failed · "@, "颜色更新失败 · "@),
    first_of(swap_prefix(raw, "Size update failed · "@, "尺寸更新失败 · "@),
    first_of(swap_prefix(raw, "Annotation preview failed · "@, "标注预览失败 · "@),
    first_of(swap_prefix(raw, "Annotation failed · "@, "标注失败 · "@),
    first_of(swap_prefix(raw, "Text annotation failed · "@, "文字标注失败 · "@),
    first_of(swap_prefix(raw, "Undo failed · "@, "撤销失败 · "@),
    first_of(swap_prefix(raw, "Redo failed · "@, "重做失败 · "@),
    first_of(swap_prefix(raw, "Delete failed · "@, "删除失败 · "@),
    first_of(swap_prefix(raw, "Clear failed · "@, "清空失败 · "@),
    first_of(swap_prefix(raw, "Clipboard failed · "@, "剪贴板操作失败 · "@),
    first_of(swap_prefix(raw, "Quick save failed · "@, "快速保存失败 · "@),
    first_of(swap_prefix(raw, "Saved edited PNG · "@, "已保存编辑后的 PNG · "@),
    first_of(swap_prefix(raw, "Save failed · "@, "保存失败 · "@),
    first_of(swap_prefix(raw, "Could not open Save As · "@, "无法打开另存为窗口 · "@),
    first_of(swap_prefix(raw, "Saved As · "@, "已另存为 · "@),
    first_of(swap_prefix(raw, "Save As failed · "@, "另存为失败 · "@),
    first_of(swap_prefix(raw, "OCR input failed · "@, "OCR 输入处理失败 · "@),
    swap_prefix(raw, "OCR worker unavailable · "@, "OCR 工作线程不可用 · "@)))))))))))))))))))
}

/// The rewrites of OCR messages, first match first.
pub open spec fn ocr_rules(raw: Seq<char>) -> Option<Seq<char>> {
    first_of(swap_suffix(raw, " running locally…"@, " 正在本地识别…"@),
    first_of(swap_prefix(raw, "OCR model worker unavailable · "@, "OCR 模型工作线程不可用 · "@),
    first_of(rewrap(raw, "Starting "@, " download…"@, "正在开始下载 "@, "…"@),
    first_of(rewrap(raw, "Downloading "@, "…"@, "正在下载 "@, "…"@),
    first_of(exact_rule(raw, "Cancelling OCR model download…"@, "正在取消 OCR 模型下载…"@),
    first_of(swap_prefix(raw, "Enabled OCR model · "@, "已启用 OCR 模型 · "@),
    first_of(swap_prefix(raw, "Could not enable OCR model · "@, "无法启用 OCR 模型 · "@),
    first_of(rewrap(raw, "Removing "@, "…"@, "正在删除 "@, "…"@),
    first_of(rewrap(raw, "Local OCR completed · "@, " text blocks · OCR text layer is not exported"@, "本地 OCR 已完成 · "@, " 个文字区域 · OCR 文字层不会导出到图片"@),
    first_of(swap_prefix(raw, "Local OCR failed · "@, "本地 OCR 失败 · "@),
    first_of(rewrap(raw, "Downloaded "@, " · select Enable to use it for OCR"@, "已下载 "@, " · 选择“启用”后即可用于 OCR"@),
    first_of(swap_prefix(raw, "Removed OCR model · "@, "已删除 OCR 模型 · "@),
    first_of(rewrap(raw, "Download cancelled · "@, " remains disabled"@, "下载已取消 · "@, " 保持未启用状态"@),
    first_of(swap_prefix(raw, "OCR model download failed · "@, "OCR 模型下载失败 · "@),
    swap_prefix(raw, "OCR model removal failed · "@, "OCR 模型删除失败 · "@)))))))))))))))
}

/// The rewrites of shortcut messages, first match first.
pub open spec fn shortcut_rules(raw: Seq<char>) -> Option<Seq<char>> {
    first_of(rewrap(raw, "Saved shortcut is invalid · "@, " · using PrtSc until it is changed"@, "已保存的快捷键无效 · "@, " · 修改前暂时使用 PrtSc"@),
    first_of(swap_prefix(raw, "Shortcut rejected · "@, "快捷键被拒绝 · "@),
    first_of(swap_prefix(raw, "Could not save shortcut · "@, "无法保存快捷键 · "@),
    first_of(swap_prefix(raw, "Previous shortcut restored · "@, "已恢复上一个快捷键 · "@),
    first_of(swap_prefix(raw, "Screenshot shortcut active · "@, "截图快捷键已生效 · "@),
    first_of(swap_prefix(raw, "Registering screenshot shortcut · "@, "正在注册截图快捷键 · "@),
    rewrap(raw, "Registering "@, "…"@, "正在注册 "@, "…"@)))))))
}

/// The fixed translation of a complete message.
pub open spec fn exact_status_text(raw: Seq<char>) -> Option<Seq<char>> {
    if raw == "Ready · capture a region, then use the overlay tools"@ {
        Some("就绪 · 截取区域后即可使用浮层工具"@)
    } else if raw == "Language saved"@ {
        Some("语言设置已保存"@)
    } else if raw == "Export directory unchanged"@ {
        Some("快速保存目录未更改"@)
    } else if raw == "Default export directory reset"@ {
        Some("快速保存目录已重置"@)
    } else if raw == "Export preferences saved"@ {
        Some("导出设置已保存"@)
    } else if raw == "Starting region capture…"@ {
        Some("正在开始区域截图…"@)
    } else if raw == "Region capture cancelled"@ {
        Some("已取消区域截图"@)
    } else if raw == "Updated selected object color"@ {
        Some("已更新所选对象颜色"@)
    } else if raw == "Updated selected object size"@ {
        Some("已更新所选对象尺寸"@)
    } else if raw == "Text anchor placed · type text and choose Add text"@ {
        Some("已放置文字锚点 · 输入文字后选择“添加文字”"@)
    } else if raw == "Text annotation added"@ {
        Some("已添加文字标注"@)
    } else if raw == "Undid last editor change"@ {
        Some("已撤销上一次编辑"@)
    } else if raw == "Redid editor change"@ {
        Some("已重做编辑"@)
    } else if raw == "Deleted selected annotation"@ {
        Some("已删除所选标注"@)
    } else if raw == "All annotations cleared"@ {
        Some("已清空全部标注"@)
    } else if raw == "Nothing to copy · capture a region first"@ {
        Some("没有可复制的内容 · 请先截取区域"@)
    } else if raw == "Image copied"@ {
        Some("图片已复制"@)
    } else if raw == "Edited image copied to clipboard"@ {
        Some("编辑后的图片已复制到剪贴板"@)
    } else if raw == "Nothing to save · capture a region first"@ {
        Some("没有可保存的内容 · 请先截取区域"@)
    } else if raw == "Image saved"@ {
        Some("图片已保存"@)
    } else if raw == "Save As cancelled"@ {
        Some("已取消另存为"@)
    } else if raw == "Choose an OCR model to download and enable"@ {
        Some("请选择一个 OCR 模型下载并启用"@)
    } else if raw == "Nothing to OCR · capture a region first"@ {
        Some("没有可识别的内容 · 请先截取区域"@)
    } else if raw == "No OCR text to copy"@ {
        Some("没有可复制的 OCR 文字"@)
    } else if raw == "OCR text copied to the clipboard"@ {
        Some("OCR 文字已复制到剪贴板"@)
    } else if raw == "No OCR text is selected"@ {
        Some("尚未选择 OCR 文字"@)
    } else if raw == "Selected OCR text copied to the clipboard"@ {
        Some("所选 OCR 文字已复制到剪贴板"@)
    } else if raw == "Selected OCR text is empty"@ {
        Some("所选 OCR 文字为空"@)
    } else if raw == "Local OCR completed · no text found"@ {
        Some("本地 OCR 已完成 · 未识别到文字"@)
    } else if raw == "Unsupported shortcut key · choose another key"@ {
        Some("不支持此快捷键 · 请选择其他按键"@)
    } else if raw == "Shortcut is already active"@ {
        Some("该快捷键已经生效"@)
    } else if raw == "PrtSc is already the active shortcut"@ {
        Some("PrtSc 已经是当前快捷键"@)
    } else {
        None
    }
}

/// What the interface shows for the status message `raw`: the message
/// itself in English, and otherwise its Chinese rendering, found by the
/// first rule that applies; a message no rule knows is shown unchanged.
pub open spec fn localized_status(language: EffectiveLanguage, raw: Seq<char>) -> Seq<char> {
    if language == EffectiveLanguage::English || raw.len() == 0 {
        raw
    } else {
        match first_of(
            exact_status_text(raw),
            first_of(
                settings_rules(raw),
                first_of(
                    editor_rules(raw),
                    first_of(ocr_rules(raw), first_of(captured_rule(raw), shortcut_rules(raw))),
                ),
            ),
        ) {
            Some(text) => text,
            None => raw,
        }
    }
}

/// `chinese` followed by what comes after `english` in `raw`, when `raw`
/// starts with `english`.
pub fn localized_suffix(raw: &str, english: &str, chinese: &str) -> (r: Option<String>)
    ensures
        opt_chars(r) == swap_prefix(raw@, english@, chinese@),
{
    match strip_prefix_str(raw, english) {
        Some(rest) => Some(concat2(chinese, rest.as_str())),
        None => None,
    }
}

/// What comes before `english` at the end of `raw`, followed by `chinese`.
fn suffix_status(raw: &str, english: &str, chinese: &str) -> (r: Option<String>)
    ensures
        opt_chars(r) == swap_suffix(raw@, english@, chinese@),
{
    match strip_suffix_str(raw, english) {
        Some(rest) => Some(concat2(rest.as_str(), chinese)),
        None => None,
    }
}

/// The part of `raw` between `prefix` and `suffix`, framed by `before` and `after`.
fn wrapped_status(raw: &str, prefix: &str, suffix: &str, before: &str, after: &str) -> (r: Option<
    String,
>)
    ensures
        opt_chars(r) == rewrap(raw@, prefix@, suffix@, before@, after@),
{
    match strip_prefix_str(raw, prefix) {
        Some(rest) => match strip_suffix_str(rest.as_str(), suffix) {
            Some(value) => Some(concat3(before, value.as_str(), after)),
            None => None,
        },
        None => None,
    }
}

/// `chinese` when `raw` is exactly `english`.
fn exact_match(raw: &str, english: &str, chinese: &str) -> (r: Option<String>)
    ensures
        opt_chars(r) == exact_rule(raw@, english@, chinese@),
{
    if str_eq(raw, english) {
        Some(owned(chinese))
    } else {
        None
    }
}

/// The Chinese name of an appearance mode's stored name; other values are kept.
pub fn localize_mode<'a>(value: &'a str) -> (r: &'a str)
    ensures
        r@ == mode_label(value@),
{
    if str_eq(value, "system") {
        "跟随系统"
    } else if str_eq(value, "light") {
        "亮色"
    } else if str_eq(value, "dark") {
        "暗色"
    } else {
        value
    }
}

/// The Chinese name of an annotation tool's id; other values are kept.
pub fn localize_tool<'a>(value: &'a str) -> (r: &'a str)
    ensures
        r@ == tool_label(value@),
{
    if str_eq(value, "select") {
        "选择"
    } else if str_eq(value, "rectangle") {
        "矩形"
    } else if str_eq(value, "arrow") {
        "箭头"
    } else if str_eq(value, "pen") {
        "画笔"
    } else if str_eq(value, "text") {
        "文字"
    } else if str_eq(value, "mosaic") {
        "马赛克"
    } else if str_eq(value, "ellipse") {
        "椭圆"
    } else if str_eq(value, "line") {
        "直线"
    } else if str_eq(value, "number") {
        "序号"
    } else if str_eq(value, "blur") {
        "模糊"
    } else {
        value
    }
}

/// `chinese` and the Chinese name of the appearance mode after `english`.
fn mode_status(raw: &str, english: &str, chinese: &str) -> (r: Option<String>)
    ensures
        opt_chars(r) == mode_rule(raw@, english@, chinese@),
{
    match strip_prefix_str(raw, english) {
        Some(value) => Some(concat2(chinese, localize_mode(value.as_str()))),
        None => None,
    }
}

/// `chinese` and the Chinese name of the tool after `english`.
fn tool_status(raw: &str, english: &str, chinese: &str) -> (r: Option<String>)
    ensures
        opt_chars(r) == tool_rule(raw@, english@, chinese@),
{
    match strip_prefix_str(raw, english) {
        Some(value) => Some(concat2(chinese, localize_tool(value.as_str()))),
        None => None,
    }
}

/// Applies the capture report rewrite.
fn captured_status(raw: &str) -> (r: Option<String>)
    ensures
        opt_chars(r) == captured_rule(raw@),
{
    let value = match strip_prefix_str(raw, "Captured ") {
        Some(value) => value,
        None => return None,
    };
    if let Some(size) = strip_suffix_str(value.as_str(), " · copied to clipboard · ready to annotate") {
        return Some(concat3("已截图 ", size.as_str(), " · 已复制到剪贴板 · 可以开始标注"));
    }
    if let Some((size, error)) = split_once_str(value.as_str(), " · clipboard failed: ") {
        if let Some(error) = strip_suffix_str(error.as_str(), " · ready to annotate") {
            let mut text = concat3("已截图 ", size.as_str(), " · 复制到剪贴板失败：");
            let tail = concat2(error.as_str(), " · 可以开始标注");
            let ghost head = text@;
            crate::text::append_str(&mut text, tail.as_str());
            assert(text@ =~= head + tail@);
            return Some(text);
        }
    }
    if let Some(size) = strip_suffix_str(value.as_str(), " · ready to annotate") {
        return Some(concat3("已截图 ", size.as_str(), " · 可以开始标注"));
    }
    None
}

/// Applies the settings and capture rewrites.
fn settings_status(raw: &str) -> (r: Option<String>)
    ensures
        opt_chars(r) == settings_rules(raw@),
{
    let r = localized_suffix(raw, "Settings loaded with safe defaults · ", "设置已使用安全默认值加载 · ");
    if r.is_some() {
        return r;
    }
    let r = localized_suffix(raw, "Unsupported appearance mode · ", "不支持的外观模式 · ");
    if r.is_some() {
        return r;
    }
    let r = localized_suffix(raw, "Unsupported language mode · ", "不支持的语言模式 · ");
    if r.is_some() {
        return r;
    }
    let r = localized_suffix(raw, "Could not apply language · ", "无法应用语言设置 · ");
    if r.is_some() {
        return r;
    }
    let r = localized_suffix(raw, "Could not save language · ", "无法保存语言设置 · ");
    if r.is_some() {
        return r;
    }
    let r = mode_status(raw, "Appearance saved · ", "外观已保存 · ");
    if r.is_some() {
        return r;
    }
    let r = localized_suffix(raw, "Could not save appearance · ", "无法保存外观设置 · ");
    if r.is_some() {
        return r;
    }
    let r = localized_suffix(raw, "Default export directory saved · ", "快速保存目录已保存 · ");
    if r.is_some() {
        return r;
    }
    let r = localized_suffix(raw, "Could not save export directory · ", "无法保存快速保存目录 · ");
    if r.is_some() {
        return r;
    }
    let r = localized_suffix(raw, "Could not choose export directory · ", "无法选择快速保存目录 · ");
    if r.is_some() {
        return r;
    }
    let r = localized_suffix(raw, "Could not reset export directory · ", "无法重置快速保存目录 · ");
    if r.is_some() {
        return r;
    }
    let r = localized_suffix(raw, "Could not save export preferences · ", "无法保存导出设置 · ");
    if r.is_some() {
        return r;
    }
    let r = localized_suffix(raw, "Region capture worker failed · ", "区域截图任务启动失败 · ");
    if r.is_some() {
        return r;
    }
    let r = localized_suffix(raw, "Selection overlay failed · ", "截图选择浮层打开失败 · ");
    if r.is_some() {
        return r;
    }
    let r = localized_suffix(raw, "Region capture failed · ", "区域截图失败 · ");
    if r.is_some() {
        return r;
    }
    localized_suffix(raw, "Region crop failed · ", "截图裁剪失败 · ")
}

/// Applies the editor rewrites.
fn editor_status(raw: &str) -> (r: Option<String>)
    ensures
        opt_chars(r) == editor_rules(raw@),
{
    let r = tool_status(raw, "Annotation tool · ", "标注工具 · ");
    if r.is_some() {
        return r;
    }
    let r = localized_suffix(raw, "Color update failed · ", "颜色更新失败 · ");
    if r.is_some() {
        return r;
    }
    let r = localized_suffix(raw, "Size update failed · ", "尺寸更新失败 · ");
    if r.is_some() {
        return r;
    }
    let r = localized_suffix(raw, "Annotation preview failed · ", "标注预览失败 · ");
    if r.is_some() {
        return r;
    }
    let r = localized_suffix(raw, "Annotation failed · ", "标注失败 · ");
    if r.is_some() {
        return r;
    }
    let r = localized_suffix(raw, "Text annotation failed · ", "文字标注失败 · ");
    if r.is_some() {
        return r;
    }
    let r = localized_suffix(raw, "Undo failed · ", "撤销失败 · ");
    if r.is_some() {
        return r;
    }
    let r = localized_suffix(raw, "Redo failed · ", "重做失败 · ");
    if r.is_some() {
        return r;
    }
    let r = localized_suffix(raw, "Delete failed · ", "删除失败 · ");
    if r.is_some() {
        return r;
    }
    let r = localized_suffix(raw, "Clear failed · ", "清空失败 · ");
    if r.is_some() {
        return r;
    }
    let r = localized_suffix(raw, "Clipboard failed · ", "剪贴板操作失败 · ");
    if r.is_some() {
        return r;
    }
    let r = localized_suffix(raw, "Quick save failed · ", "快速保存失败 · ");
    if r.is_some() {
        return r;
    }
    let r = localized_suffix(raw, "Saved edited PNG · ", "已保存编辑后的 PNG · ");
    if r.is_some() {
        return r;
    }
    let r = localized_suffix(raw, "Save failed · ", "保存失败 · ");
    if r.is_some() {
        return r;
    }
    let r = localized_suffix(raw, "Could not open Save As · ", "无法打开另存为窗口 · ");
    if r.is_some() {
        return r;
    }
    let r = localized_suffix(raw, "Saved As · ", "已另存为 · ");
    if r.is_some() {
        return r;
    }
    let r = localized_suffix(raw, "Save As failed · ", "另存为失败 · ");
    if r.is_some() {
        return r;
    }
    let r = localized_suffix(raw, "OCR input failed · ", "OCR 输入处理失败 · ");
    if r.is_some() {
        return r;
    }
    localized_suffix(raw, "OCR worker unavailable · ", "OCR 工作线程不可用 · ")
}

/// Applies the OCR rewrites.
fn ocr_status(raw: &str) -> (r: Option<String>)
    ensures
        opt_chars(r) == ocr_rules(raw@),
{
    let r = suffix_status(raw, " running locally…", " 正在本地识别…");
    if r.is_some() {
        return r;
    }
    let r = localized_suffix(raw, "OCR model worker unavailable · ", "OCR 模型工作线程不可用 · ");
    if r.is_some() {
        return r;
    }
    let r = wrapped_status(raw, "Starting ", " download…", "正在开始下载 ", "…");
    if r.is_some() {
        return r;
    }
    let r = wrapped_status(raw, "Downloading ", "…", "正在下载 ", "…");
    if r.is_some() {
        return r;
    }
    let r = exact_match(raw, "Cancelling OCR model download…", "正在取消 OCR 模型下载…");
    if r.is_some() {
        return r;
    }
    let r = localized_suffix(raw, "Enabled OCR model · ", "已启用 OCR 模型 · ");
    if r.is_some() {
        return r;
    }
    let r = localized_suffix(raw, "Could not enable OCR model · ", "无法启用 OCR 模型 · ");
    if r.is_some() {
        return r;
    }
    let r = wrapped_status(raw, "Removing ", "…", "正在删除 ", "…");
    if r.is_some() {
        return r;
    }
    let r = wrapped_status(raw, "Local OCR completed · ", " text blocks · OCR text layer is not exported", "本地 OCR 已完成 · ", " 个文字区域 · OCR 文字层不会导出到图片");
    if r.is_some() {
        return r;
    }
    let r = localized_suffix(raw, "Local OCR failed · ", "本地 OCR 失败 · ");
    if r.is_some() {
        return r;
    }
    let r = wrapped_status(raw, "Downloaded ", " · select Enable to use it for OCR", "已下载 ", " · 选择“启用”后即可用于 OCR");
    if r.is_some() {
        return r;
    }
    let r = localized_suffix(raw, "Removed OCR model · ", "已删除 OCR 模型 · ");
    if r.is_some() {
        return r;
    }
    let r = wrapped_status(raw, "Download cancelled · ", " remains disabled", "下载已取消 · ", " 保持未启用状态");
    if r.is_some() {
        return r;
    }
    let r = localized_suffix(raw, "OCR model download failed · ", "OCR 模型下载失败 · ");
    if r.is_some() {
        return r;
    }
    localized_suffix(raw, "OCR model removal failed · ", "OCR 模型删除失败 · ")
}

/// Applies the shortcut rewrites.
fn shortcut_status(raw: &str) -> (r: Option<String>)
    ensures
        opt_chars(r) == shortcut_rules(raw@),
{
    let r = wrapped_status(raw, "Saved shortcut is invalid · ", " · using PrtSc until it is changed", "已保存的快捷键无效 · ", " · 修改前暂时使用 PrtSc");
    if r.is_some() {
        return r;
    }
    let r = localized_suffix(raw, "Shortcut rejected · ", "快捷键被拒绝 · ");
    if r.is_some() {
        return r;
    }
    let r = localized_suffix(raw, "Could not save shortcut · ", "无法保存快捷键 · ");
    if r.is_some() {
        return r;
    }
    let r = localized_suffix(raw, "Previous shortcut restored · ", "已恢复上一个快捷键 · ");
    if r.is_some() {
        return r;
    }
    let r = localized_suffix(raw, "Screenshot shortcut active · ", "截图快捷键已生效 · ");
    if r.is_some() {
        return r;
    }
    let r = localized_suffix(raw, "Registering screenshot shortcut · ", "正在注册截图快捷键 · ");
    if r.is_some() {
        return r;
    }
    wrapped_status(raw, "Registering ", "…", "正在注册 ", "…")
}

/// The fixed translation of a complete message, if it has one.
pub fn exact_status(raw: &str) -> (r: Option<&'static str>)
    ensures
        opt_str_chars(r) == exact_status_text(raw@),
{
    if str_eq(raw, "Ready · capture a region, then use the overlay tools") {
        Some("就绪 · 截取区域后即可使用浮层工具")
    } else if str_eq(raw, "Language saved") {
        Some("语言设置已保存")
    } else if str_eq(raw, "Export directory unchanged") {
        Some("快速保存目录未更改")
    } else if str_eq(raw, "Default export directory reset") {
        Some("快速保存目录已重置")
    } else if str_eq(raw, "Export preferences saved") {
        Some("导出设置已保存")
    } else if str_eq(raw, "Starting region capture…") {
        Some("正在开始区域截图…")
    } else if str_eq(raw, "Region capture cancelled") {
        Some("已取消区域截图")
    } else if str_eq(raw, "Updated selected object color") {
        Some("已更新所选对象颜色")
    } else if str_eq(raw, "Updated selected object size") {
        Some("已更新所选对象尺寸")
    } else if str_eq(raw, "Text anchor placed · type text and choose Add text") {
        Some("已放置文字锚点 · 输入文字后选择“添加文字”")
    } else if str_eq(raw, "Text annotation added") {
        Some("已添加文字标注")
    } else if str_eq(raw, "Undid last editor change") {
        Some("已撤销上一次编辑")
    } else if str_eq(raw, "Redid editor change") {
        Some("已重做编辑")
    } else if str_eq(raw, "Deleted selected annotation") {
        Some("已删除所选标注")
    } else if str_eq(raw, "All annotations cleared") {
        Some("已清空全部标注")
    } else if str_eq(raw, "Nothing to copy · capture a region first") {
        Some("没有可复制的内容 · 请先截取区域")
    } else if str_eq(raw, "Image copied") {
        Some("图片已复制")
    } else if str_eq(raw, "Edited image copied to clipboard") {
        Some("编辑后的图片已复制到剪贴板")
    } else if str_eq(raw, "Nothing to save · capture a region first") {
        Some("没有可保存的内容 · 请先截取区域")
    } else if str_eq(raw, "Image saved") {
        Some("图片已保存")
    } else if str_eq(raw, "Save As cancelled") {
        Some("已取消另存为")
    } else if str_eq(raw, "Choose an OCR model to download and enable") {
        Some("请选择一个 OCR 模型下载并启用")
    } else if str_eq(raw, "Nothing to OCR · capture a region first") {
        Some("没有可识别的内容 · 请先截取区域")
    } else if str_eq(raw, "No OCR text to copy") {
        Some("没有可复制的 OCR 文字")
    } else if str_eq(raw, "OCR text copied to the clipboard") {
        Some("OCR 文字已复制到剪贴板")
    } else if str_eq(raw, "No OCR text is selected") {
        Some("尚未选择 OCR 文字")
    } else if str_eq(raw, "Selected OCR text copied to the clipboard") {
        Some("所选 OCR 文字已复制到剪贴板")
    } else if str_eq(raw, "Selected OCR text is empty") {
        Some("所选 OCR 文字为空")
    } else if str_eq(raw, "Local OCR completed · no text found") {
        Some("本地 OCR 已完成 · 未识别到文字")
    } else if str_eq(raw, "Unsupported shortcut key · choose another key") {
        Some("不支持此快捷键 · 请选择其他按键")
    } else if str_eq(raw, "Shortcut is already active") {
        Some("该快捷键已经生效")
    } else if str_eq(raw, "PrtSc is already the active shortcut") {
        Some("PrtSc 已经是当前快捷键")
    } else {
        None
    }
}

/// What the interface shows, in `language`, for the status message `raw`.
pub fn localize_status(language: EffectiveLanguage, raw: &str) -> (r: String)
    ensures
        r@ == localized_status(language, raw@),
{
    if language == EffectiveLanguage::English || raw.unicode_len() == 0 {
        return owned(raw);
    }
    if let Some(text) = exact_status(raw) {
        return owned(text);
    }
    let r = settings_status(raw);
    if let Some(text) = r {
        return text;
    }
    let r = editor_status(raw);
    if let Some(text) = r {
        return text;
    }
    let r = ocr_status(raw);
    if let Some(text) = r {
        return text;
    }
    let r = captured_status(raw);
    if let Some(text) = r {
        return text;
    }
    let r = shortcut_status(raw);
    if let Some(text) = r {
        return text;
    }
    owned(raw)
}

} // verus!
