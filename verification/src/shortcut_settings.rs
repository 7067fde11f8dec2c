//! The bridge between stored shortcut settings, recorded key presses and
//! shortcut bindings.

use vstd::prelude::*;
use crate::config::{AppSettings, HotkeyBindingSettings};
use crate::hotkey::{
    binding_problem, code_from_name, default_binding_view, BindingView, HotkeyBinding,
};
use crate::platform::Platform;
use crate::text::{
    ascii_upper, char_to_ascii_upper, concat2, opt_chars, owned, push_char, str_eq,
};

verus! {

broadcast use vstd::string::group_string_axioms;

/// The plain content of a stored shortcut.
pub open spec fn stored_binding(b: HotkeyBindingSettings) -> BindingView {
    BindingView { control: b.control, alt: b.alt, shift: b.shift, meta: b.meta, code: b.key@ }
}

/// The binding a stored shortcut stands for, or the message of why it
/// cannot be used.
pub open spec fn binding_outcome(b: HotkeyBindingSettings) -> Result<BindingView, Seq<char>> {
    match code_from_name(b.key@) {
        None => Err("unsupported shortcut key: "@ + b.key@),
        Some(code) => {
            let v = BindingView { code, ..stored_binding(b) };
            match binding_problem(v) {
                Some(message) => Err(message),
                None => Ok(v),
            }
        },
    }
}

/// The capture binding stored in `settings`, or why it cannot be used.
pub fn binding_from_settings(settings: &AppSettings) -> (r: Result<HotkeyBinding, String>)
    ensures
        match binding_outcome(settings.hotkeys.capture) {
            Ok(v) => (r matches Ok(b) && b@ == v),
            Err(message) => (r matches Err(e) && e@ == message),
        },
{
    let b = &settings.hotkeys.capture;
    match HotkeyBinding::from_parts(b.control, b.alt, b.shift, b.meta, b.key.as_str()) {
        Ok(binding) => Ok(binding),
        Err(error) => Err(owned(error.message())),
    }
}

/// The binding to go back to when `requested` cannot be registered: the
/// stored one, and whether it is the requested one; the default binding,
/// and `false`, when the stored one cannot be used.
pub fn previous_binding(settings: &AppSettings, requested: &HotkeyBinding) -> (r: (
    HotkeyBinding,
    bool,
))
    ensures
        match binding_outcome(settings.hotkeys.capture) {
            Ok(v) => r.0@ == v && r.1 == (v == requested@),
            Err(_) => r.0@ == default_binding_view() && !r.1,
        },
{
    match binding_from_settings(settings) {
        Ok(binding) => {
            let same = binding.same_as(requested);
            (binding, same)
        },
        Err(_) => (HotkeyBinding::capture_default(), false),
    }
}

/// Stores `binding` as the capture shortcut of `settings`, leaving every
/// other setting as it was.
pub fn write_binding(settings: &mut AppSettings, binding: &HotkeyBinding)
    ensures
        stored_binding(final(settings).hotkeys.capture) == binding@,
        final(settings).schema_version == old(settings).schema_version,
        final(settings).appearance == old(settings).appearance,
        final(settings).language == old(settings).language,
        final(settings).ocr == old(settings).ocr,
        final(settings).export == old(settings).export,
{
    settings.hotkeys.capture = HotkeyBindingSettings {
        control: binding.control(),
        alt: binding.alt(),
        shift: binding.shift(),
        meta: binding.meta(),
        key: binding.code_name(),
    };
}

/// The physical Control and Meta keys of a recorded press: on macOS the
/// toolkit reports Command as Control and Control as Meta, so they are
/// swapped back there.
pub fn platform_modifier_mapping(platform: Platform, control: bool, meta: bool) -> (r: (bool, bool))
    ensures
        platform == Platform::MacOs ==> r == (meta, control),
        platform != Platform::MacOs ==> r == (control, meta),
{
    if platform == Platform::MacOs {
        (meta, control)
    } else {
        (control, meta)
    }
}

/// The code of the key that types the printable character `c`, without
/// modifiers on a US layout.
pub open spec fn printable_code(c: char) -> Option<Seq<char>> {
    if ('a' <= c <= 'z') || ('A' <= c <= 'Z') {
        Some("Key"@.push(ascii_upper(c)))
    } else if '0' <= c <= '9' {
        Some("Digit"@.push(c))
    } else if c == '`' || c == '~' {
        Some("Backquote"@)
    } else if c == '-' || c == '_' {
        Some("Minus"@)
    } else if c == '=' || c == '+' {
        Some("Equal"@)
    } else if c == '[' || c == '{' {
        Some("BracketLeft"@)
    } else if c == ']' || c == '}' {
        Some("BracketRight"@)
    } else if c == '\\' || c == '|' {
        Some("Backslash"@)
    } else if c == ';' || c == ':' {
        Some("Semicolon"@)
    } else if c == '\'' || c == '"' {
        Some("Quote"@)
    } else if c == ',' || c == '<' {
        Some("Comma"@)
    } else if c == '.' || c == '>' {
        Some("Period"@)
    } else if c == '/' || c == '?' {
        Some("Slash"@)
    } else if c == '!' {
        Some("Digit1"@)
    } else if c == '@' {
        Some("Digit2"@)
    } else if c == '#' {
        Some("Digit3"@)
    } else if c == '$' {
        Some("Digit4"@)
    } else if c == '%' {
        Some("Digit5"@)
    } else if c == '^' {
        Some("Digit6"@)
    } else if c == '&' {
        Some("Digit7"@)
    } else if c == '*' {
        Some("Digit8"@)
    } else if c == '(' {
        Some("Digit9"@)
    } else if c == ')' {
        Some("Digit0"@)
    } else {
        None
    }
}

/// The named (non-character) keys a shortcut can be recorded with, as the
/// interface toolkit names them.
#[derive(Clone, Copy, Debug, PartialEq, Eq, Structural)]
pub enum NamedKey {
    Return,
    Escape,
    Tab,
    Backspace,
    Delete,
    Space,
    UpArrow,
    DownArrow,
    LeftArrow,
    RightArrow,
    Insert,
    Home,
    End,
    PageUp,
    PageDown,
    SysReq,
    F1,
    F2,
    F3,
    F4,
    F5,
    F6,
    F7,
    F8,
    F9,
    F10,
    F11,
    F12,
    F13,
    F14,
    F15,
    F16,
    F17,
    F18,
    F19,
    F20,
    F21,
    F22,
    F23,
    F24,
}

/// The keyboard code a named key is recorded as.
pub open spec fn named_key_code(key: NamedKey) -> Seq<char> {
    match key {
        NamedKey::Return => "Enter"@,
        NamedKey::Escape => "Escape"@,
        NamedKey::Tab => "Tab"@,
        NamedKey::Backspace => "Backspace"@,
        NamedKey::Delete => "Delete"@,
        NamedKey::Space => "Space"@,
        NamedKey::UpArrow => "ArrowUp"@,
        NamedKey::DownArrow => "ArrowDown"@,
        NamedKey::LeftArrow => "ArrowLeft"@,
        NamedKey::RightArrow => "ArrowRight"@,
        NamedKey::Insert => "Insert"@,
        NamedKey::Home => "Home"@,
        NamedKey::End => "End"@,
        NamedKey::PageUp => "PageUp"@,
        NamedKey::PageDown => "PageDown"@,
        NamedKey::SysReq => "PrintScreen"@,
        NamedKey::F1 => "F1"@,
        NamedKey::F2 => "F2"@,
        NamedKey::F3 => "F3"@,
        NamedKey::F4 => "F4"@,
        NamedKey::F5 => "F5"@,
        NamedKey::F6 => "F6"@,
        NamedKey::F7 => "F7"@,
        NamedKey::F8 => "F8"@,
        NamedKey::F9 => "F9"@,
        NamedKey::F10 => "F10"@,
        NamedKey::F11 => "F11"@,
        NamedKey::F12 => "F12"@,
        NamedKey::F13 => "F13"@,
        NamedKey::F14 => "F14"@,
        NamedKey::F15 => "F15"@,
        NamedKey::F16 => "F16"@,
        NamedKey::F17 => "F17"@,
        NamedKey::F18 => "F18"@,
        NamedKey::F19 => "F19"@,
        NamedKey::F20 => "F20"@,
        NamedKey::F21 => "F21"@,
        NamedKey::F22 => "F22"@,
        NamedKey::F23 => "F23"@,
        NamedKey::F24 => "F24"@,
    }
}

/// Every named key a shortcut can be recorded with, in the order they are
/// looked up.
pub open spec fn all_named_keys() -> Seq<NamedKey> {
    seq![
        NamedKey::Return,
        NamedKey::Escape,
        NamedKey::Tab,
        NamedKey::Backspace,
        NamedKey::Delete,
        NamedKey::Space,
        NamedKey::UpArrow,
        NamedKey::DownArrow,
        NamedKey::LeftArrow,
        NamedKey::RightArrow,
        NamedKey::Insert,
        NamedKey::Home,
        NamedKey::End,
        NamedKey::PageUp,
        NamedKey::PageDown,
        NamedKey::SysReq,
        NamedKey::F1,
        NamedKey::F2,
        NamedKey::F3,
        NamedKey::F4,
        NamedKey::F5,
        NamedKey::F6,
        NamedKey::F7,
        NamedKey::F8,
        NamedKey::F9,
        NamedKey::F10,
        NamedKey::F11,
        NamedKey::F12,
        NamedKey::F13,
        NamedKey::F14,
        NamedKey::F15,
        NamedKey::F16,
        NamedKey::F17,
        NamedKey::F18,
        NamedKey::F19,
        NamedKey::F20,
        NamedKey::F21,
        NamedKey::F22,
        NamedKey::F23,
        NamedKey::F24,
    ]
}

impl NamedKey {
    /// The keyboard code the key is recorded as.
    pub fn code_name(self) -> (r: &'static str)
        ensures
            r@ == named_key_code(self),
    {
        match self {
            NamedKey::Return => "Enter",
            NamedKey::Escape => "Escape",
            NamedKey::Tab => "Tab",
            NamedKey::Backspace => "Backspace",
            NamedKey::Delete => "Delete",
            NamedKey::Space => "Space",
            NamedKey::UpArrow => "ArrowUp",
            NamedKey::DownArrow => "ArrowDown",
            NamedKey::LeftArrow => "ArrowLeft",
            NamedKey::RightArrow => "ArrowRight",
            NamedKey::Insert => "Insert",
            NamedKey::Home => "Home",
            NamedKey::End => "End",
            NamedKey::PageUp => "PageUp",
            NamedKey::PageDown => "PageDown",
            NamedKey::SysReq => "PrintScreen",
            NamedKey::F1 => "F1",
            NamedKey::F2 => "F2",
            NamedKey::F3 => "F3",
            NamedKey::F4 => "F4",
            NamedKey::F5 => "F5",
            NamedKey::F6 => "F6",
            NamedKey::F7 => "F7",
            NamedKey::F8 => "F8",
            NamedKey::F9 => "F9",
            NamedKey::F10 => "F10",
            NamedKey::F11 => "F11",
            NamedKey::F12 => "F12",
            NamedKey::F13 => "F13",
            NamedKey::F14 => "F14",
            NamedKey::F15 => "F15",
            NamedKey::F16 => "F16",
            NamedKey::F17 => "F17",
            NamedKey::F18 => "F18",
            NamedKey::F19 => "F19",
            NamedKey::F20 => "F20",
            NamedKey::F21 => "F21",
            NamedKey::F22 => "F22",
            NamedKey::F23 => "F23",
            NamedKey::F24 => "F24",
        }
    }

    /// Every named key a shortcut can be recorded with.
    pub fn all() -> (r: [NamedKey; 40])
        ensures
            r@ == all_named_keys(),
    {
        let r = [
            NamedKey::Return,
            NamedKey::Escape,
            NamedKey::Tab,
            NamedKey::Backspace,
            NamedKey::Delete,
            NamedKey::Space,
            NamedKey::UpArrow,
            NamedKey::DownArrow,
            NamedKey::LeftArrow,
            NamedKey::RightArrow,
            NamedKey::Insert,
            NamedKey::Home,
            NamedKey::End,
            NamedKey::PageUp,
            NamedKey::PageDown,
            NamedKey::SysReq,
            NamedKey::F1,
            NamedKey::F2,
            NamedKey::F3,
            NamedKey::F4,
            NamedKey::F5,
            NamedKey::F6,
            NamedKey::F7,
            NamedKey::F8,
            NamedKey::F9,
            NamedKey::F10,
            NamedKey::F11,
            NamedKey::F12,
            NamedKey::F13,
            NamedKey::F14,
            NamedKey::F15,
            NamedKey::F16,
            NamedKey::F17,
            NamedKey::F18,
            NamedKey::F19,
            NamedKey::F20,
            NamedKey::F21,
            NamedKey::F22,
            NamedKey::F23,
            NamedKey::F24,
        ];
        assert(r@ =~= all_named_keys());
        r
    }
}

/// The text and code of each entry of a table that pairs named keys with
/// the text the toolkit reports for them.
pub open spec fn key_table(t: Seq<(NamedKey, String)>) -> Seq<(Seq<char>, Seq<char>)> {
    t.map_values(|e: (NamedKey, String)| (e.1@, named_key_code(e.0)))
}

/// The code of the first entry of `table` whose key text is `text`.
pub open spec fn named_code(table: Seq<(Seq<char>, Seq<char>)>, text: Seq<char>) -> Option<
    Seq<char>,
>
    decreases table.len(),
{
    if table.len() == 0 {
        None
    } else if table[0].0 == text {
        Some(table[0].1)
    } else {
        named_code(table.drop_first(), text)
    }
}

/// The code of the key whose text the toolkit reported: a named key of
/// `named` first, else the key that types a single printable character.
pub open spec fn recorded_code(named: Seq<(Seq<char>, Seq<char>)>, text: Seq<char>) -> Option<
    Seq<char>,
> {
    match named_code(named, text) {
        Some(code) => Some(code),
        None => if text.len() == 1 {
            printable_code(text[0])
        } else {
            None
        },
    }
}

/// The code of the key that types `c`, if it is a printable key.
fn printable_code_name(c: char) -> (r: Option<String>)
    ensures
        opt_chars(r) == printable_code(c),
{
    if ('a' <= c && c <= 'z') || ('A' <= c && c <= 'Z') {
        let mut s = owned("Key");
        push_char(&mut s, char_to_ascii_upper(c));
        return Some(s);
    }
    if '0' <= c && c <= '9' {
        let mut s = owned("Digit");
        push_char(&mut s, c);
        return Some(s);
    }
    let name = if c == '`' || c == '~' {
        "Backquote"
    } else if c == '-' || c == '_' {
        "Minus"
    } else if c == '=' || c == '+' {
        "Equal"
    } else if c == '[' || c == '{' {
        "BracketLeft"
    } else if c == ']' || c == '}' {
        "BracketRight"
    } else if c == '\\' || c == '|' {
        "Backslash"
    } else if c == ';' || c == ':' {
        "Semicolon"
    } else if c == '\'' || c == '"' {
        "Quote"
    } else if c == ',' || c == '<' {
        "Comma"
    } else if c == '.' || c == '>' {
        "Period"
    } else if c == '/' || c == '?' {
        "Slash"
    } else if c == '!' {
        "Digit1"
    } else if c == '@' {
        "Digit2"
    } else if c == '#' {
        "Digit3"
    } else if c == '$' {
        "Digit4"
    } else if c == '%' {
        "Digit5"
    } else if c == '^' {
        "Digit6"
    } else if c == '&' {
        "Digit7"
    } else if c == '*' {
        "Digit8"
    } else if c == '(' {
        "Digit9"
    } else if c == ')' {
        "Digit0"
    } else {
        return None;
    };
    Some(owned(name))
}

/// The code of the key whose text the toolkit reported for a press;
/// `named` gives the toolkit's text of each named key.
pub fn slint_key_to_code_name(text: &str, named: &[(NamedKey, String)]) -> (r: Option<String>)
    ensures
        opt_chars(r) == recorded_code(key_table(named@), text@),
{
    let ghost table = key_table(named@);
    let mut i: usize = 0;
    assert(table.skip(0) =~= table);
    while i < named.len()
        invariant
            i <= named@.len(),
            table == key_table(named@),
            named_code(table, text@) == named_code(table.skip(i as int), text@),
        decreases named.len() - i,
    {
        assert(table.skip(i as int)[0] == (named@[i as int].1@, named_key_code(named@[i as int].0)));
        if str_eq(named[i].1.as_str(), text) {
            return Some(owned(named[i].0.code_name()));
        }
        assert(table.skip(i as int).drop_first() =~= table.skip(i + 1));
        i += 1;
    }
    assert(table.skip(i as int).len() == 0);
    if text.unicode_len() != 1 {
        return None;
    }
    printable_code_name(text.get_char(0))
}

} // verus!
