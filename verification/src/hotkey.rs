//! Global shortcut bindings: which key combinations are allowed, how they are
//! shown to the user, and how they are written for the Wayland portal.
//!
//! A binding names its trigger key by the canonical name of a keyboard code
//! (`KeyS`, `F8`, `PrintScreen`, ...), as the key-code type prints it.

use vstd::prelude::*;
use crate::platform::Platform;
use crate::text::{
    ascii_lower, first_of, join, join_strings, opt_chars, opt_str_chars, owned, str_eq, strip_prefix,
    strip_prefix_str, views,
};
use std::str::FromStr;
use wayclip_global_hotkey::hotkey::Code;

verus! {

broadcast use vstd::string::group_string_axioms;

/// The application id under which the portal shortcut is registered.
pub const APP_ID: &'static str = "com.azusalens.AzusaLens";

/// Why a shortcut binding was refused.
#[derive(Debug)]
pub struct HotkeyError(String);

impl View for HotkeyError {
    type V = Seq<char>;

    closed spec fn view(&self) -> Seq<char> {
        self.0@
    }
}

impl HotkeyError {
    /// The explanation shown to the user.
    pub fn message(&self) -> (r: &str)
        ensures
            r@ == self@,
    {
        self.0.as_str()
    }
}

/// The canonical name of the keyboard code that `name` denotes, if it
/// denotes one; a few codes are also known under an older alias, which
/// maps to the canonical name.
pub uninterp spec fn code_from_name(name: Seq<char>) -> Option<Seq<char>>;

/// Looks `name` up as a keyboard code (`Code::from_str`) and gives back the
/// code's canonical name (`Code`'s `Display`).  Claims: the result is
/// `code_from_name` of the argument, and a canonical name looks up to itself.
#[verifier::external_body]
fn parse_code_name(name: &str) -> (r: Option<String>)
    ensures
        opt_chars(r) == code_from_name(name@),
        r matches Some(code) ==> code_from_name(code@) == Some(code@),
{
    Code::from_str(name).ok().map(|code| code.to_string())
}

/// The plain content of a binding.
pub ghost struct BindingView {
    pub control: bool,
    pub alt: bool,
    pub shift: bool,
    pub meta: bool,
    pub code: Seq<char>,
}

/// A key combination that triggers a capture.
#[derive(Debug, PartialEq, Eq)]
pub struct HotkeyBinding {
    control: bool,
    alt: bool,
    shift: bool,
    meta: bool,
    code: String,
}

impl View for HotkeyBinding {
    type V = BindingView;

    closed spec fn view(&self) -> BindingView {
        BindingView {
            control: self.control,
            alt: self.alt,
            shift: self.shift,
            meta: self.meta,
            code: self.code@,
        }
    }
}

impl Clone for HotkeyBinding {
    fn clone(&self) -> (r: Self)
        ensures
            r@ == self@,
    {
        HotkeyBinding {
            control: self.control,
            alt: self.alt,
            shift: self.shift,
            meta: self.meta,
            code: self.code.clone(),
        }
    }
}

/// The codes of the modifier keys themselves.
pub open spec fn is_modifier_name(code: Seq<char>) -> bool {
    ||| code == "ControlLeft"@
    ||| code == "ControlRight"@
    ||| code == "ShiftLeft"@
    ||| code == "ShiftRight"@
    ||| code == "AltLeft"@
    ||| code == "AltRight"@
    ||| code == "MetaLeft"@
    ||| code == "MetaRight"@
}

/// The codes that may trigger without a modifier: Print Screen and F1 to F24.
pub open spec fn is_bare_trigger(code: Seq<char>) -> bool {
    ||| code == "PrintScreen"@
    ||| code == "F1"@
    ||| code == "F2"@
    ||| code == "F3"@
    ||| code == "F4"@
    ||| code == "F5"@
    ||| code == "F6"@
    ||| code == "F7"@
    ||| code == "F8"@
    ||| code == "F9"@
    ||| code == "F10"@
    ||| code == "F11"@
    ||| code == "F12"@
    ||| code == "F13"@
    ||| code == "F14"@
    ||| code == "F15"@
    ||| code == "F16"@
    ||| code == "F17"@
    ||| code == "F18"@
    ||| code == "F19"@
    ||| code == "F20"@
    ||| code == "F21"@
    ||| code == "F22"@
    ||| code == "F23"@
    ||| code == "F24"@
}

/// At least one modifier is held.
pub open spec fn has_any_modifier(b: BindingView) -> bool {
    b.control || b.alt || b.shift || b.meta
}

/// Why a binding cannot be used, if it cannot.
pub open spec fn binding_problem(b: BindingView) -> Option<Seq<char>> {
    if is_modifier_name(b.code) {
        Some("a modifier key cannot be used as the shortcut trigger"@)
    } else if !has_any_modifier(b) && !is_bare_trigger(b.code) {
        Some(
            "ordinary keys require Ctrl, Alt, Shift, or Super to avoid intercepting normal typing"@,
        )
    } else {
        None
    }
}

/// Whether `code` is the code of a modifier key.
pub fn is_modifier_code(code: &str) -> (r: bool)
    ensures
        r == is_modifier_name(code@),
{
    str_eq(code, "ControlLeft") || str_eq(code, "ControlRight") || str_eq(code, "ShiftLeft")
        || str_eq(code, "ShiftRight") || str_eq(code, "AltLeft") || str_eq(code, "AltRight")
        || str_eq(code, "MetaLeft") || str_eq(code, "MetaRight")
}

/// Whether `code` may trigger a shortcut without any modifier.
pub fn allows_bare_trigger(code: &str) -> (r: bool)
    ensures
        r == is_bare_trigger(code@),
{
    str_eq(code, "PrintScreen") || str_eq(code, "F1") || str_eq(code, "F2") || str_eq(code, "F3") || str_eq(code, "F4") || str_eq(code, "F5") || str_eq(code, "F6") || str_eq(code, "F7") || str_eq(code, "F8") || str_eq(code, "F9") || str_eq(code, "F10") || str_eq(code, "F11") || str_eq(code, "F12") || str_eq(code, "F13") || str_eq(code, "F14") || str_eq(code, "F15") || str_eq(code, "F16") || str_eq(code, "F17") || str_eq(code, "F18") || str_eq(code, "F19") || str_eq(code, "F20") || str_eq(code, "F21") || str_eq(code, "F22") || str_eq(code, "F23") || str_eq(code, "F24")
}

/// How a code is shown in a shortcut label: a few keys get short names or
/// arrows, letter and digit keys drop their `Key` or `Digit` prefix.
pub open spec fn code_label(code: Seq<char>) -> Seq<char> {
    if code == "PrintScreen"@ {
        "PrtSc"@
    } else if code == "Enter"@ {
        "Enter"@
    } else if code == "Escape"@ {
        "Esc"@
    } else if code == "Space"@ {
        "Space"@
    } else if code == "ArrowUp"@ {
        "↑"@
    } else if code == "ArrowDown"@ {
        "↓"@
    } else if code == "ArrowLeft"@ {
        "←"@
    } else if code == "ArrowRight"@ {
        "→"@
    } else {
        match strip_prefix(code, "Key"@) {
            Some(rest) => rest,
            None => match strip_prefix(code, "Digit"@) {
                Some(rest) => rest,
                None => code,
            },
        }
    }
}

/// The codes of the keys a shortcut label shows by a word or an arrow.
pub open spec fn worded_key_codes() -> Set<Seq<char>> {
    set!["PrintScreen"@, "Enter"@, "Escape"@, "Space"@, "ArrowUp"@, "ArrowDown"@, "ArrowLeft"@, "ArrowRight"@]
}

/// The code of the letter key `c`.
pub open spec fn letter_key_code(c: char) -> Seq<char> {
    "Key"@ + seq![c]
}

/// The code of the digit key `d`.
pub open spec fn digit_key_code(d: char) -> Seq<char> {
    "Digit"@ + seq![d]
}

/// The key codes shown by a word or an arrow, and those words and arrows,
/// are all different.
proof fn lemma_key_words_distinct()
    ensures
        "PrintScreen"@ != "Enter"@,
        "PrintScreen"@ != "Escape"@,
        "PrintScreen"@ != "Space"@,
        "PrintScreen"@ != "ArrowUp"@,
        "PrintScreen"@ != "ArrowDown"@,
        "PrintScreen"@ != "ArrowLeft"@,
        "PrintScreen"@ != "ArrowRight"@,
        "PrintScreen"@ != "PrtSc"@,
        "PrintScreen"@ != "Esc"@,
        "PrintScreen"@ != "↑"@,
        "PrintScreen"@ != "↓"@,
        "PrintScreen"@ != "←"@,
        "PrintScreen"@ != "→"@,
        "Enter"@ != "Escape"@,
        "Enter"@ != "Space"@,
        "Enter"@ != "ArrowUp"@,
        "Enter"@ != "ArrowDown"@,
        "Enter"@ != "ArrowLeft"@,
        "Enter"@ != "ArrowRight"@,
        "Enter"@ != "PrtSc"@,
        "Enter"@ != "Esc"@,
        "Enter"@ != "↑"@,
        "Enter"@ != "↓"@,
        "Enter"@ != "←"@,
        "Enter"@ != "→"@,
        "Escape"@ != "Space"@,
        "Escape"@ != "ArrowUp"@,
        "Escape"@ != "ArrowDown"@,
        "Escape"@ != "ArrowLeft"@,
        "Escape"@ != "ArrowRight"@,
        "Escape"@ != "PrtSc"@,
        "Escape"@ != "Esc"@,
        "Escape"@ != "↑"@,
        "Escape"@ != "↓"@,
        "Escape"@ != "←"@,
        "Escape"@ != "→"@,
        "Space"@ != "ArrowUp"@,
        "Space"@ != "ArrowDown"@,
        "Space"@ != "ArrowLeft"@,
        "Space"@ != "ArrowRight"@,
        "Space"@ != "PrtSc"@,
        "Space"@ != "Esc"@,
        "Space"@ != "↑"@,
        "Space"@ != "↓"@,
        "Space"@ != "←"@,
        "Space"@ != "→"@,
        "ArrowUp"@ != "ArrowDown"@,
        "ArrowUp"@ != "ArrowLeft"@,
        "ArrowUp"@ != "ArrowRight"@,
        "ArrowUp"@ != "PrtSc"@,
        "ArrowUp"@ != "Esc"@,
        "ArrowUp"@ != "↑"@,
        "ArrowUp"@ != "↓"@,
        "ArrowUp"@ != "←"@,
        "ArrowUp"@ != "→"@,
        "ArrowDown"@ != "ArrowLeft"@,
        "ArrowDown"@ != "ArrowRight"@,
        "ArrowDown"@ != "PrtSc"@,
        "ArrowDown"@ != "Esc"@,
        "ArrowDown"@ != "↑"@,
        "ArrowDown"@ != "↓"@,
        "ArrowDown"@ != "←"@,
        "ArrowDown"@ != "→"@,
        "ArrowLeft"@ != "ArrowRight"@,
        "ArrowLeft"@ != "PrtSc"@,
        "ArrowLeft"@ != "Esc"@,
        "ArrowLeft"@ != "↑"@,
        "ArrowLeft"@ != "↓"@,
        "ArrowLeft"@ != "←"@,
        "ArrowLeft"@ != "→"@,
        "ArrowRight"@ != "PrtSc"@,
        "ArrowRight"@ != "Esc"@,
        "ArrowRight"@ != "↑"@,
        "ArrowRight"@ != "↓"@,
        "ArrowRight"@ != "←"@,
        "ArrowRight"@ != "→"@,
        "PrtSc"@ != "Esc"@,
        "PrtSc"@ != "↑"@,
        "PrtSc"@ != "↓"@,
        "PrtSc"@ != "←"@,
        "PrtSc"@ != "→"@,
        "Esc"@ != "↑"@,
        "Esc"@ != "↓"@,
        "Esc"@ != "←"@,
        "Esc"@ != "→"@,
        "↑"@ != "↓"@,
        "↑"@ != "←"@,
        "↑"@ != "→"@,
        "↓"@ != "←"@,
        "↓"@ != "→"@,
        "←"@ != "→"@,
        "PrintScreen"@.len() == 11,
        "Enter"@.len() == 5,
        "Escape"@.len() == 6,
        "Space"@.len() == 5,
        "ArrowUp"@.len() == 7,
        "ArrowDown"@.len() == 9,
        "ArrowLeft"@.len() == 9,
        "ArrowRight"@.len() == 10,
        "PrtSc"@.len() == 5,
        "Esc"@.len() == 3,
        "↑"@.len() == 1,
        "↓"@.len() == 1,
        "←"@.len() == 1,
        "→"@.len() == 1,
        "PrintScreen"@[0] == 'P',
        "Enter"@[0] == 'E',
        "Escape"@[0] == 'E',
        "Space"@[0] == 'S',
        "ArrowUp"@[0] == 'A',
        "ArrowDown"@[0] == 'A',
        "ArrowLeft"@[0] == 'A',
        "ArrowRight"@[0] == 'A',
        "PrtSc"@[0] == 'P',
        "Esc"@[0] == 'E',
        "↑"@[0] == '↑',
        "↓"@[0] == '↓',
        "←"@[0] == '←',
        "→"@[0] == '→',
{
    reveal_strlit("PrintScreen");
    reveal_strlit("Enter");
    reveal_strlit("Escape");
    reveal_strlit("Space");
    reveal_strlit("ArrowUp");
    reveal_strlit("ArrowDown");
    reveal_strlit("ArrowLeft");
    reveal_strlit("ArrowRight");
    reveal_strlit("PrtSc");
    reveal_strlit("Esc");
    reveal_strlit("↑");
    reveal_strlit("↓");
    reveal_strlit("←");
    reveal_strlit("→");
    assert("PrintScreen"@ != "Enter"@) by { assert("PrintScreen"@.len() != "Enter"@.len()); }
    assert("PrintScreen"@ != "Escape"@) by { assert("PrintScreen"@.len() != "Escape"@.len()); }
    assert("PrintScreen"@ != "Space"@) by { assert("PrintScreen"@.len() != "Space"@.len()); }
    assert("PrintScreen"@ != "ArrowUp"@) by { assert("PrintScreen"@.len() != "ArrowUp"@.len()); }
    assert("PrintScreen"@ != "ArrowDown"@) by { assert("PrintScreen"@.len() != "ArrowDown"@.len()); }
    assert("PrintScreen"@ != "ArrowLeft"@) by { assert("PrintScreen"@.len() != "ArrowLeft"@.len()); }
    assert("PrintScreen"@ != "ArrowRight"@) by { assert("PrintScreen"@.len() != "ArrowRight"@.len()); }
    assert("PrintScreen"@ != "PrtSc"@) by { assert("PrintScreen"@.len() != "PrtSc"@.len()); }
    assert("PrintScreen"@ != "Esc"@) by { assert("PrintScreen"@.len() != "Esc"@.len()); }
    assert("PrintScreen"@ != "↑"@) by { assert("PrintScreen"@.len() != "↑"@.len()); }
    assert("PrintScreen"@ != "↓"@) by { assert("PrintScreen"@.len() != "↓"@.len()); }
    assert("PrintScreen"@ != "←"@) by { assert("PrintScreen"@.len() != "←"@.len()); }
    assert("PrintScreen"@ != "→"@) by { assert("PrintScreen"@.len() != "→"@.len()); }
    assert("Enter"@ != "Escape"@) by { assert("Enter"@.len() != "Escape"@.len()); }
    assert("Enter"@ != "Space"@) by { assert("Enter"@[0] != "Space"@[0]); }
    assert("Enter"@ != "ArrowUp"@) by { assert("Enter"@.len() != "ArrowUp"@.len()); }
    assert("Enter"@ != "ArrowDown"@) by { assert("Enter"@.len() != "ArrowDown"@.len()); }
    assert("Enter"@ != "ArrowLeft"@) by { assert("Enter"@.len() != "ArrowLeft"@.len()); }
    assert("Enter"@ != "ArrowRight"@) by { assert("Enter"@.len() != "ArrowRight"@.len()); }
    assert("Enter"@ != "PrtSc"@) by { assert("Enter"@[0] != "PrtSc"@[0]); }
    assert("Enter"@ != "Esc"@) by { assert("Enter"@.len() != "Esc"@.len()); }
    assert("Enter"@ != "↑"@) by { assert("Enter"@.len() != "↑"@.len()); }
    assert("Enter"@ != "↓"@) by { assert("Enter"@.len() != "↓"@.len()); }
    assert("Enter"@ != "←"@) by { assert("Enter"@.len() != "←"@.len()); }
    assert("Enter"@ != "→"@) by { assert("Enter"@.len() != "→"@.len()); }
    assert("Escape"@ != "Space"@) by { assert("Escape"@.len() != "Space"@.len()); }
    assert("Escape"@ != "ArrowUp"@) by { assert("Escape"@.len() != "ArrowUp"@.len()); }
    assert("Escape"@ != "ArrowDown"@) by { assert("Escape"@.len() != "ArrowDown"@.len()); }
    assert("Escape"@ != "ArrowLeft"@) by { assert("Escape"@.len() != "ArrowLeft"@.len()); }
    assert("Escape"@ != "ArrowRight"@) by { assert("Escape"@.len() != "ArrowRight"@.len()); }
    assert("Escape"@ != "PrtSc"@) by { assert("Escape"@.len() != "PrtSc"@.len()); }
    assert("Escape"@ != "Esc"@) by { assert("Escape"@.len() != "Esc"@.len()); }
    assert("Escape"@ != "↑"@) by { assert("Escape"@.len() != "↑"@.len()); }
    assert("Escape"@ != "↓"@) by { assert("Escape"@.len() != "↓"@.len()); }
    assert("Escape"@ != "←"@) by { assert("Escape"@.len() != "←"@.len()); }
    assert("Escape"@ != "→"@) by { assert("Escape"@.len() != "→"@.len()); }
    assert("Space"@ != "ArrowUp"@) by { assert("Space"@.len() != "ArrowUp"@.len()); }
    assert("Space"@ != "ArrowDown"@) by { assert("Space"@.len() != "ArrowDown"@.len()); }
    assert("Space"@ != "ArrowLeft"@) by { assert("Space"@.len() != "ArrowLeft"@.len()); }
    assert("Space"@ != "ArrowRight"@) by { assert("Space"@.len() != "ArrowRight"@.len()); }
    assert("Space"@ != "PrtSc"@) by { assert("Space"@[0] != "PrtSc"@[0]); }
    assert("Space"@ != "Esc"@) by { assert("Space"@.len() != "Esc"@.len()); }
    assert("Space"@ != "↑"@) by { assert("Space"@.len() != "↑"@.len()); }
    assert("Space"@ != "↓"@) by { assert("Space"@.len() != "↓"@.len()); }
    assert("Space"@ != "←"@) by { assert("Space"@.len() != "←"@.len()); }
    assert("Space"@ != "→"@) by { assert("Space"@.len() != "→"@.len()); }
    assert("ArrowUp"@ != "ArrowDown"@) by { assert("ArrowUp"@.len() != "ArrowDown"@.len()); }
    assert("ArrowUp"@ != "ArrowLeft"@) by { assert("ArrowUp"@.len() != "ArrowLeft"@.len()); }
    assert("ArrowUp"@ != "ArrowRight"@) by { assert("ArrowUp"@.len() != "ArrowRight"@.len()); }
    assert("ArrowUp"@ != "PrtSc"@) by { assert("ArrowUp"@.len() != "PrtSc"@.len()); }
    assert("ArrowUp"@ != "Esc"@) by { assert("ArrowUp"@.len() != "Esc"@.len()); }
    assert("ArrowUp"@ != "↑"@) by { assert("ArrowUp"@.len() != "↑"@.len()); }
    assert("ArrowUp"@ != "↓"@) by { assert("ArrowUp"@.len() != "↓"@.len()); }
    assert("ArrowUp"@ != "←"@) by { assert("ArrowUp"@.len() != "←"@.len()); }
    assert("ArrowUp"@ != "→"@) by { assert("ArrowUp"@.len() != "→"@.len()); }
    assert("ArrowDown"@ != "ArrowLeft"@) by { assert("ArrowDown"@[5] != "ArrowLeft"@[5]); }
    assert("ArrowDown"@ != "ArrowRight"@) by { assert("ArrowDown"@.len() != "ArrowRight"@.len()); }
    assert("ArrowDown"@ != "PrtSc"@) by { assert("ArrowDown"@.len() != "PrtSc"@.len()); }
    assert("ArrowDown"@ != "Esc"@) by { assert("ArrowDown"@.len() != "Esc"@.len()); }
    assert("ArrowDown"@ != "↑"@) by { assert("ArrowDown"@.len() != "↑"@.len()); }
    assert("ArrowDown"@ != "↓"@) by { assert("ArrowDown"@.len() != "↓"@.len()); }
    assert("ArrowDown"@ != "←"@) by { assert("ArrowDown"@.len() != "←"@.len()); }
    assert("ArrowDown"@ != "→"@) by { assert("ArrowDown"@.len() != "→"@.len()); }
    assert("ArrowLeft"@ != "ArrowRight"@) by { assert("ArrowLeft"@.len() != "ArrowRight"@.len()); }
    assert("ArrowLeft"@ != "PrtSc"@) by { assert("ArrowLeft"@.len() != "PrtSc"@.len()); }
    assert("ArrowLeft"@ != "Esc"@) by { assert("ArrowLeft"@.len() != "Esc"@.len()); }
    assert("ArrowLeft"@ != "↑"@) by { assert("ArrowLeft"@.len() != "↑"@.len()); }
    assert("ArrowLeft"@ != "↓"@) by { assert("ArrowLeft"@.len() != "↓"@.len()); }
    assert("ArrowLeft"@ != "←"@) by { assert("ArrowLeft"@.len() != "←"@.len()); }
    assert("ArrowLeft"@ != "→"@) by { assert("ArrowLeft"@.len() != "→"@.len()); }
    assert("ArrowRight"@ != "PrtSc"@) by { assert("ArrowRight"@.len() != "PrtSc"@.len()); }
    assert("ArrowRight"@ != "Esc"@) by { assert("ArrowRight"@.len() != "Esc"@.len()); }
    assert("ArrowRight"@ != "↑"@) by { assert("ArrowRight"@.len() != "↑"@.len()); }
    assert("ArrowRight"@ != "↓"@) by { assert("ArrowRight"@.len() != "↓"@.len()); }
    assert("ArrowRight"@ != "←"@) by { assert("ArrowRight"@.len() != "←"@.len()); }
    assert("ArrowRight"@ != "→"@) by { assert("ArrowRight"@.len() != "→"@.len()); }
    assert("PrtSc"@ != "Esc"@) by { assert("PrtSc"@.len() != "Esc"@.len()); }
    assert("PrtSc"@ != "↑"@) by { assert("PrtSc"@.len() != "↑"@.len()); }
    assert("PrtSc"@ != "↓"@) by { assert("PrtSc"@.len() != "↓"@.len()); }
    assert("PrtSc"@ != "←"@) by { assert("PrtSc"@.len() != "←"@.len()); }
    assert("PrtSc"@ != "→"@) by { assert("PrtSc"@.len() != "→"@.len()); }
    assert("Esc"@ != "↑"@) by { assert("Esc"@.len() != "↑"@.len()); }
    assert("Esc"@ != "↓"@) by { assert("Esc"@.len() != "↓"@.len()); }
    assert("Esc"@ != "←"@) by { assert("Esc"@.len() != "←"@.len()); }
    assert("Esc"@ != "→"@) by { assert("Esc"@.len() != "→"@.len()); }
    assert("↑"@ != "↓"@) by { assert("↑"@[0] != "↓"@[0]); }
    assert("↑"@ != "←"@) by { assert("↑"@[0] != "←"@[0]); }
    assert("↑"@ != "→"@) by { assert("↑"@[0] != "→"@[0]); }
    assert("↓"@ != "←"@) by { assert("↓"@[0] != "←"@[0]); }
    assert("↓"@ != "→"@) by { assert("↓"@[0] != "→"@[0]); }
    assert("←"@ != "→"@) by { assert("←"@[0] != "→"@[0]); }
}

/// Each arrow key is shown by an arrow pointing its own way, a letter or
/// digit key by its letter or digit alone.
pub proof fn key_labels_show_the_key(c: char)
    ensures
        code_label("ArrowLeft"@) == "←"@,
        code_label("ArrowRight"@) == "→"@,
        code_label("ArrowUp"@) == "↑"@,
        code_label("ArrowDown"@) == "↓"@,
        code_label(letter_key_code(c)) == seq![c],
        code_label(digit_key_code(c)) == seq![c],
{
    lemma_key_words_distinct();
    reveal_strlit("Key");
    reveal_strlit("Digit");
    let k = letter_key_code(c);
    assert(k.len() == 4);
    assert(k.subrange(0, 3) =~= "Key"@);
    assert(k.skip(3) =~= seq![c]);
    let d = digit_key_code(c);
    assert(d.len() == 6);
    assert(d[0] == 'D');
    assert(d != "Escape"@) by {
        assert(d[0] != "Escape"@[0]);
    }
    assert(d.subrange(0, 3) != "Key"@) by {
        assert(d.subrange(0, 3)[0] != "Key"@[0]);
    }
    assert(d.subrange(0, 5) =~= "Digit"@);
    assert(d.skip(5) =~= seq![c]);
}

/// Two different keys shown by a word or an arrow never get the same label,
/// and none of them is shown as a single letter or digit, the label of a
/// letter or digit key.
pub proof fn key_labels_tell_keys_apart(a: Seq<char>, b: Seq<char>, c: char)
    requires
        worded_key_codes().contains(a),
        worded_key_codes().contains(b),
        ('A' <= c <= 'Z') || ('a' <= c <= 'z') || ('0' <= c <= '9'),
    ensures
        code_label(a) == code_label(b) ==> a == b,
        code_label(a) != seq![c],
{
    lemma_key_words_distinct();
    if code_label(a) == seq![c] {
        assert(code_label(a)[0] == c);
    }
}

/// How the code `code` is shown in a shortcut label.
pub fn display_code(code: &str) -> (r: String)
    ensures
        r@ == code_label(code@),
{
    if str_eq(code, "PrintScreen") {
        owned("PrtSc")
    } else if str_eq(code, "Enter") {
        owned("Enter")
    } else if str_eq(code, "Escape") {
        owned("Esc")
    } else if str_eq(code, "Space") {
        owned("Space")
    } else if str_eq(code, "ArrowUp") {
        owned("↑")
    } else if str_eq(code, "ArrowDown") {
        owned("↓")
    } else if str_eq(code, "ArrowLeft") {
        owned("←")
    } else if str_eq(code, "ArrowRight") {
        owned("→")
    } else {
        match strip_prefix_str(code, "Key") {
            Some(rest) => rest,
            None => match strip_prefix_str(code, "Digit") {
                Some(rest) => rest,
                None => owned(code),
            },
        }
    }
}

/// The modifier names of a label, in the order Control, Alt, Shift, Meta.
pub open spec fn modifier_labels(b: BindingView, platform: Platform) -> Seq<Seq<char>> {
    let control = if platform == Platform::MacOs { "⌃"@ } else { "Ctrl"@ };
    let alt = if platform == Platform::MacOs { "⌥"@ } else { "Alt"@ };
    let shift = if platform == Platform::MacOs { "⇧"@ } else { "Shift"@ };
    let meta = if platform == Platform::MacOs {
        "⌘"@
    } else if platform == Platform::Windows {
        "Win"@
    } else {
        "Super"@
    };
    let s0 = Seq::<Seq<char>>::empty();
    let s1 = if b.control { s0.push(control) } else { s0 };
    let s2 = if b.alt { s1.push(alt) } else { s1 };
    let s3 = if b.shift { s2.push(shift) } else { s2 };
    if b.meta { s3.push(meta) } else { s3 }
}

/// A label lists exactly the modifiers held, one name each, so two
/// bindings with different modifiers never get the same modifier names.
pub proof fn modifier_labels_tell_modifiers_apart(a: BindingView, b: BindingView, platform: Platform)
    ensures
        modifier_labels(a, platform).len() == (if a.control { 1int } else { 0 }) + (if a.alt { 1int } else { 0 })
            + (if a.shift { 1int } else { 0 }) + (if a.meta { 1int } else { 0 }),
        modifier_labels(a, platform) == modifier_labels(b, platform) ==> a.control == b.control && a.alt
            == b.alt && a.shift == b.shift && a.meta == b.meta,
{
    reveal_strlit("⌃");
    reveal_strlit("⌥");
    reveal_strlit("⇧");
    reveal_strlit("⌘");
    reveal_strlit("Ctrl");
    reveal_strlit("Alt");
    reveal_strlit("Shift");
    reveal_strlit("Win");
    reveal_strlit("Super");
    assert("⌃"@ != "⌥"@ && "⌃"@ != "⇧"@ && "⌃"@ != "⌘"@ && "⌥"@ != "⇧"@ && "⌥"@ != "⌘"@ && "⇧"@ != "⌘"@) by {
        assert("⌃"@[0] != "⌥"@[0] && "⌃"@[0] != "⇧"@[0] && "⌃"@[0] != "⌘"@[0]);
        assert("⌥"@[0] != "⇧"@[0] && "⌥"@[0] != "⌘"@[0] && "⇧"@[0] != "⌘"@[0]);
    }
    assert("Ctrl"@.len() == 4 && "Alt"@.len() == 3 && "Shift"@.len() == 5 && "Win"@.len() == 3
        && "Super"@.len() == 5);
    assert("Alt"@ != "Win"@) by {
        assert("Alt"@[0] != "Win"@[0]);
    }
    assert("Shift"@ != "Super"@) by {
        assert("Shift"@[1] != "Super"@[1]);
    }
    let control = if platform == Platform::MacOs { "⌃"@ } else { "Ctrl"@ };
    let alt = if platform == Platform::MacOs { "⌥"@ } else { "Alt"@ };
    let shift = if platform == Platform::MacOs { "⇧"@ } else { "Shift"@ };
    let meta = if platform == Platform::MacOs {
        "⌘"@
    } else if platform == Platform::Windows {
        "Win"@
    } else {
        "Super"@
    };
    assert(control != alt && control != shift && control != meta && alt != shift && alt != meta
        && shift != meta);
    lemma_modifier_labels_contain(a, platform, control, alt, shift, meta);
    lemma_modifier_labels_contain(b, platform, control, alt, shift, meta);
}

/// The names in a binding's modifier list are those of its held modifiers.
proof fn lemma_modifier_labels_contain(
    b: BindingView,
    platform: Platform,
    control: Seq<char>,
    alt: Seq<char>,
    shift: Seq<char>,
    meta: Seq<char>,
)
    requires
        control == (if platform == Platform::MacOs { "⌃"@ } else { "Ctrl"@ }),
        alt == (if platform == Platform::MacOs { "⌥"@ } else { "Alt"@ }),
        shift == (if platform == Platform::MacOs { "⇧"@ } else { "Shift"@ }),
        meta == (if platform == Platform::MacOs {
            "⌘"@
        } else if platform == Platform::Windows {
            "Win"@
        } else {
            "Super"@
        }),
        control != alt && control != shift && control != meta && alt != shift && alt != meta && shift
            != meta,
    ensures
        modifier_labels(b, platform).contains(control) == b.control,
        modifier_labels(b, platform).contains(alt) == b.alt,
        modifier_labels(b, platform).contains(shift) == b.shift,
        modifier_labels(b, platform).contains(meta) == b.meta,
{
    let s0 = Seq::<Seq<char>>::empty();
    let s1 = if b.control { s0.push(control) } else { s0 };
    let s2 = if b.alt { s1.push(alt) } else { s1 };
    let s3 = if b.shift { s2.push(shift) } else { s2 };
    let s4 = if b.meta { s3.push(meta) } else { s3 };
    assert(modifier_labels(b, platform) == s4);
    lemma_push_contains_all(s0, s1, s2, s3, s4, control, alt, shift, meta, b);
}

/// Membership through the pushes that build a modifier list.
proof fn lemma_push_contains_all(
    s0: Seq<Seq<char>>,
    s1: Seq<Seq<char>>,
    s2: Seq<Seq<char>>,
    s3: Seq<Seq<char>>,
    s4: Seq<Seq<char>>,
    control: Seq<char>,
    alt: Seq<char>,
    shift: Seq<char>,
    meta: Seq<char>,
    b: BindingView,
)
    requires
        s0.len() == 0,
        s1 == (if b.control { s0.push(control) } else { s0 }),
        s2 == (if b.alt { s1.push(alt) } else { s1 }),
        s3 == (if b.shift { s2.push(shift) } else { s2 }),
        s4 == (if b.meta { s3.push(meta) } else { s3 }),
        control != alt && control != shift && control != meta && alt != shift && alt != meta && shift
            != meta,
    ensures
        s4.contains(control) == b.control,
        s4.contains(alt) == b.alt,
        s4.contains(shift) == b.shift,
        s4.contains(meta) == b.meta,
{
    assert forall|x: Seq<char>| #[trigger] s4.contains(x) == ((b.control && x == control) || (b.alt && x
        == alt) || (b.shift && x == shift) || (b.meta && x == meta)) by {
        lemma_push_contains(s0, control, x);
        lemma_push_contains(s1, alt, x);
        lemma_push_contains(s2, shift, x);
        lemma_push_contains(s3, meta, x);
    }
    assert(s4.contains(control) == b.control);
    assert(s4.contains(alt) == b.alt);
    assert(s4.contains(shift) == b.shift);
    assert(s4.contains(meta) == b.meta);
}

/// `s` with `v` pushed contains what `s` contains, and `v`.
proof fn lemma_push_contains(s: Seq<Seq<char>>, v: Seq<char>, x: Seq<char>)
    ensures
        s.push(v).contains(x) == (s.contains(x) || x == v),
{
    if s.contains(x) {
        let i = choose|i: int| 0 <= i < s.len() && s[i] == x;
        assert(s.push(v)[i] == x);
    }
    if x == v {
        assert(s.push(v)[s.len() as int] == x);
    }
    if s.push(v).contains(x) {
        let i = choose|i: int| 0 <= i < s.push(v).len() && s.push(v)[i] == x;
        if i < s.len() {
            assert(s[i] == x);
        }
    }
    if s.len() == 0 {
        assert(!s.contains(x));
    }
}

/// The label of a binding: modifiers and key, joined with `+`, or written
/// together as symbols on macOS.
pub open spec fn binding_label(b: BindingView, platform: Platform) -> Seq<char> {
    join(
        modifier_labels(b, platform).push(code_label(b.code)),
        if platform == Platform::MacOs { ""@ } else { "+"@ },
    )
}

/// The portal names of the held modifiers, in the order Control, Alt,
/// Shift, Logo.
pub open spec fn portal_modifiers(b: BindingView) -> Seq<Seq<char>> {
    let s0 = Seq::<Seq<char>>::empty();
    let s1 = if b.control { s0.push("CTRL"@) } else { s0 };
    let s2 = if b.alt { s1.push("ALT"@) } else { s1 };
    let s3 = if b.shift { s2.push("SHIFT"@) } else { s2 };
    if b.meta { s3.push("LOGO"@) } else { s3 }
}

/// The portal key name of a letter key code.
pub open spec fn xdg_letter_key(code: Seq<char>) -> Option<Seq<char>> {
    if code == "KeyA"@ {
        Some("a"@)
    } else if code == "KeyB"@ {
        Some("b"@)
    } else if code == "KeyC"@ {
        Some("c"@)
    } else if code == "KeyD"@ {
        Some("d"@)
    } else if code == "KeyE"@ {
        Some("e"@)
    } else if code == "KeyF"@ {
        Some("f"@)
    } else if code == "KeyG"@ {
        Some("g"@)
    } else if code == "KeyH"@ {
        Some("h"@)
    } else if code == "KeyI"@ {
        Some("i"@)
    } else if code == "KeyJ"@ {
        Some("j"@)
    } else if code == "KeyK"@ {
        Some("k"@)
    } else if code == "KeyL"@ {
        Some("l"@)
    } else if code == "KeyM"@ {
        Some("m"@)
    } else if code == "KeyN"@ {
        Some("n"@)
    } else if code == "KeyO"@ {
        Some("o"@)
    } else if code == "KeyP"@ {
        Some("p"@)
    } else if code == "KeyQ"@ {
        Some("q"@)
    } else if code == "KeyR"@ {
        Some("r"@)
    } else if code == "KeyS"@ {
        Some("s"@)
    } else if code == "KeyT"@ {
        Some("t"@)
    } else if code == "KeyU"@ {
        Some("u"@)
    } else if code == "KeyV"@ {
        Some("v"@)
    } else if code == "KeyW"@ {
        Some("w"@)
    } else if code == "KeyX"@ {
        Some("x"@)
    } else if code == "KeyY"@ {
        Some("y"@)
    } else if code == "KeyZ"@ {
        Some("z"@)
    } else {
        None
    }
}

/// The portal key name of a digit key code.
pub open spec fn xdg_digit_key(code: Seq<char>) -> Option<Seq<char>> {
    if code == "Digit0"@ {
        Some("0"@)
    } else if code == "Digit1"@ {
        Some("1"@)
    } else if code == "Digit2"@ {
        Some("2"@)
    } else if code == "Digit3"@ {
        Some("3"@)
    } else if code == "Digit4"@ {
        Some("4"@)
    } else if code == "Digit5"@ {
        Some("5"@)
    } else if code == "Digit6"@ {
        Some("6"@)
    } else if code == "Digit7"@ {
        Some("7"@)
    } else if code == "Digit8"@ {
        Some("8"@)
    } else if code == "Digit9"@ {
        Some("9"@)
    } else {
        None
    }
}

/// The portal key name of a function key code.
pub open spec fn xdg_function_key(code: Seq<char>) -> Option<Seq<char>> {
    if code == "F1"@ {
        Some("F1"@)
    } else if code == "F2"@ {
        Some("F2"@)
    } else if code == "F3"@ {
        Some("F3"@)
    } else if code == "F4"@ {
        Some("F4"@)
    } else if code == "F5"@ {
        Some("F5"@)
    } else if code == "F6"@ {
        Some("F6"@)
    } else if code == "F7"@ {
        Some("F7"@)
    } else if code == "F8"@ {
        Some("F8"@)
    } else if code == "F9"@ {
        Some("F9"@)
    } else if code == "F10"@ {
        Some("F10"@)
    } else if code == "F11"@ {
        Some("F11"@)
    } else if code == "F12"@ {
        Some("F12"@)
    } else if code == "F13"@ {
        Some("F13"@)
    } else if code == "F14"@ {
        Some("F14"@)
    } else if code == "F15"@ {
        Some("F15"@)
    } else if code == "F16"@ {
        Some("F16"@)
    } else if code == "F17"@ {
        Some("F17"@)
    } else if code == "F18"@ {
        Some("F18"@)
    } else if code == "F19"@ {
        Some("F19"@)
    } else if code == "F20"@ {
        Some("F20"@)
    } else if code == "F21"@ {
        Some("F21"@)
    } else if code == "F22"@ {
        Some("F22"@)
    } else if code == "F23"@ {
        Some("F23"@)
    } else if code == "F24"@ {
        Some("F24"@)
    } else {
        None
    }
}

/// The portal key name of a named key code.
pub open spec fn xdg_named_key(code: Seq<char>) -> Option<Seq<char>> {
    if code == "PrintScreen"@ {
        Some("Print"@)
    } else if code == "Enter"@ {
        Some("Return"@)
    } else if code == "Escape"@ {
        Some("Escape"@)
    } else if code == "Tab"@ {
        Some("Tab"@)
    } else if code == "Space"@ {
        Some("space"@)
    } else if code == "Backspace"@ {
        Some("BackSpace"@)
    } else if code == "Delete"@ {
        Some("Delete"@)
    } else if code == "Insert"@ {
        Some("Insert"@)
    } else if code == "Home"@ {
        Some("Home"@)
    } else if code == "End"@ {
        Some("End"@)
    } else if code == "PageUp"@ {
        Some("Prior"@)
    } else if code == "PageDown"@ {
        Some("Next"@)
    } else if code == "ArrowUp"@ {
        Some("Up"@)
    } else if code == "ArrowDown"@ {
        Some("Down"@)
    } else if code == "ArrowLeft"@ {
        Some("Left"@)
    } else if code == "ArrowRight"@ {
        Some("Right"@)
    } else {
        None
    }
}

/// The name the shortcuts portal uses for a key code, for the keys it can
/// bind: letters, digits, F1 to F24, Print Screen and the editing and
/// arrow keys.
pub open spec fn xdg_key(code: Seq<char>) -> Option<Seq<char>> {
    first_of(xdg_letter_key(code), first_of(xdg_digit_key(code), first_of(xdg_function_key(code), xdg_named_key(code))))
}

/// The shortcuts portal names a letter key by its lower-case letter and a
/// digit key by its digit.
pub proof fn portal_names_letters_and_digits(c: char)
    ensures
        'A' <= c <= 'Z' ==> xdg_key(letter_key_code(c)) == Some(seq![ascii_lower(c)]),
        '0' <= c <= '9' ==> xdg_key(digit_key_code(c)) == Some(seq![c]),
{
    reveal_strlit("Key");
    reveal_strlit("Digit");
    let k = letter_key_code(c);
    let d = digit_key_code(c);
    assert(k.len() == 4 && k[3] == c);
    assert(d.len() == 6 && d[5] == c);
    reveal_strlit("KeyA");
    reveal_strlit("a");
    assert(c != 'A' ==> k != "KeyA"@) by {
        if c != 'A' {
            assert(k[3] != "KeyA"@[3]);
        }
    }
    assert(c == 'A' ==> k =~= "KeyA"@ && seq![ascii_lower(c)] =~= "a"@);
    assert(d != "KeyA"@) by {
        assert(d.len() != "KeyA"@.len());
    }
    reveal_strlit("KeyB");
    reveal_strlit("b");
    assert(c != 'B' ==> k != "KeyB"@) by {
        if c != 'B' {
            assert(k[3] != "KeyB"@[3]);
        }
    }
    assert(c == 'B' ==> k =~= "KeyB"@ && seq![ascii_lower(c)] =~= "b"@);
    assert(d != "KeyB"@) by {
        assert(d.len() != "KeyB"@.len());
    }
    reveal_strlit("KeyC");
    reveal_strlit("c");
    assert(c != 'C' ==> k != "KeyC"@) by {
        if c != 'C' {
            assert(k[3] != "KeyC"@[3]);
        }
    }
    assert(c == 'C' ==> k =~= "KeyC"@ && seq![ascii_lower(c)] =~= "c"@);
    assert(d != "KeyC"@) by {
        assert(d.len() != "KeyC"@.len());
    }
    reveal_strlit("KeyD");
    reveal_strlit("d");
    assert(c != 'D' ==> k != "KeyD"@) by {
        if c != 'D' {
            assert(k[3] != "KeyD"@[3]);
        }
    }
    assert(c == 'D' ==> k =~= "KeyD"@ && seq![ascii_lower(c)] =~= "d"@);
    assert(d != "KeyD"@) by {
        assert(d.len() != "KeyD"@.len());
    }
    reveal_strlit("KeyE");
    reveal_strlit("e");
    assert(c != 'E' ==> k != "KeyE"@) by {
        if c != 'E' {
            assert(k[3] != "KeyE"@[3]);
        }
    }
    assert(c == 'E' ==> k =~= "KeyE"@ && seq![ascii_lower(c)] =~= "e"@);
    assert(d != "KeyE"@) by {
        assert(d.len() != "KeyE"@.len());
    }
    reveal_strlit("KeyF");
    reveal_strlit("f");
    assert(c != 'F' ==> k != "KeyF"@) by {
        if c != 'F' {
            assert(k[3] != "KeyF"@[3]);
        }
    }
    assert(c == 'F' ==> k =~= "KeyF"@ && seq![ascii_lower(c)] =~= "f"@);
    assert(d != "KeyF"@) by {
        assert(d.len() != "KeyF"@.len());
    }
    reveal_strlit("KeyG");
    reveal_strlit("g");
    assert(c != 'G' ==> k != "KeyG"@) by {
        if c != 'G' {
            assert(k[3] != "KeyG"@[3]);
        }
    }
    assert(c == 'G' ==> k =~= "KeyG"@ && seq![ascii_lower(c)] =~= "g"@);
    assert(d != "KeyG"@) by {
        assert(d.len() != "KeyG"@.len());
    }
    reveal_strlit("KeyH");
    reveal_strlit("h");
    assert(c != 'H' ==> k != "KeyH"@) by {
        if c != 'H' {
            assert(k[3] != "KeyH"@[3]);
        }
    }
    assert(c == 'H' ==> k =~= "KeyH"@ && seq![ascii_lower(c)] =~= "h"@);
    assert(d != "KeyH"@) by {
        assert(d.len() != "KeyH"@.len());
    }
    reveal_strlit("KeyI");
    reveal_strlit("i");
    assert(c != 'I' ==> k != "KeyI"@) by {
        if c != 'I' {
            assert(k[3] != "KeyI"@[3]);
        }
    }
    assert(c == 'I' ==> k =~= "KeyI"@ && seq![ascii_lower(c)] =~= "i"@);
    assert(d != "KeyI"@) by {
        assert(d.len() != "KeyI"@.len());
    }
    reveal_strlit("KeyJ");
    reveal_strlit("j");
    assert(c != 'J' ==> k != "KeyJ"@) by {
        if c != 'J' {
            assert(k[3] != "KeyJ"@[3]);
        }
    }
    assert(c == 'J' ==> k =~= "KeyJ"@ && seq![ascii_lower(c)] =~= "j"@);
    assert(d != "KeyJ"@) by {
        assert(d.len() != "KeyJ"@.len());
    }
    reveal_strlit("KeyK");
    reveal_strlit("k");
    assert(c != 'K' ==> k != "KeyK"@) by {
        if c != 'K' {
            assert(k[3] != "KeyK"@[3]);
        }
    }
    assert(c == 'K' ==> k =~= "KeyK"@ && seq![ascii_lower(c)] =~= "k"@);
    assert(d != "KeyK"@) by {
        assert(d.len() != "KeyK"@.len());
    }
    reveal_strlit("KeyL");
    reveal_strlit("l");
    assert(c != 'L' ==> k != "KeyL"@) by {
        if c != 'L' {
            assert(k[3] != "KeyL"@[3]);
        }
    }
    assert(c == 'L' ==> k =~= "KeyL"@ && seq![ascii_lower(c)] =~= "l"@);
    assert(d != "KeyL"@) by {
        assert(d.len() != "KeyL"@.len());
    }
    reveal_strlit("KeyM");
    reveal_strlit("m");
    assert(c != 'M' ==> k != "KeyM"@) by {
        if c != 'M' {
            assert(k[3] != "KeyM"@[3]);
        }
    }
    assert(c == 'M' ==> k =~= "KeyM"@ && seq![ascii_lower(c)] =~= "m"@);
    assert(d != "KeyM"@) by {
        assert(d.len() != "KeyM"@.len());
    }
    reveal_strlit("KeyN");
    reveal_strlit("n");
    assert(c != 'N' ==> k != "KeyN"@) by {
        if c != 'N' {
            assert(k[3] != "KeyN"@[3]);
        }
    }
    assert(c == 'N' ==> k =~= "KeyN"@ && seq![ascii_lower(c)] =~= "n"@);
    assert(d != "KeyN"@) by {
        assert(d.len() != "KeyN"@.len());
    }
    reveal_strlit("KeyO");
    reveal_strlit("o");
    assert(c != 'O' ==> k != "KeyO"@) by {
        if c != 'O' {
            assert(k[3] != "KeyO"@[3]);
        }
    }
    assert(c == 'O' ==> k =~= "KeyO"@ && seq![ascii_lower(c)] =~= "o"@);
    assert(d != "KeyO"@) by {
        assert(d.len() != "KeyO"@.len());
    }
    reveal_strlit("KeyP");
    reveal_strlit("p");
    assert(c != 'P' ==> k != "KeyP"@) by {
        if c != 'P' {
            assert(k[3] != "KeyP"@[3]);
        }
    }
    assert(c == 'P' ==> k =~= "KeyP"@ && seq![ascii_lower(c)] =~= "p"@);
    assert(d != "KeyP"@) by {
        assert(d.len() != "KeyP"@.len());
    }
    reveal_strlit("KeyQ");
    reveal_strlit("q");
    assert(c != 'Q' ==> k != "KeyQ"@) by {
        if c != 'Q' {
            assert(k[3] != "KeyQ"@[3]);
        }
    }
    assert(c == 'Q' ==> k =~= "KeyQ"@ && seq![ascii_lower(c)] =~= "q"@);
    assert(d != "KeyQ"@) by {
        assert(d.len() != "KeyQ"@.len());
    }
    reveal_strlit("KeyR");
    reveal_strlit("r");
    assert(c != 'R' ==> k != "KeyR"@) by {
        if c != 'R' {
            assert(k[3] != "KeyR"@[3]);
        }
    }
    assert(c == 'R' ==> k =~= "KeyR"@ && seq![ascii_lower(c)] =~= "r"@);
    assert(d != "KeyR"@) by {
        assert(d.len() != "KeyR"@.len());
    }
    reveal_strlit("KeyS");
    reveal_strlit("s");
    assert(c != 'S' ==> k != "KeyS"@) by {
        if c != 'S' {
            assert(k[3] != "KeyS"@[3]);
        }
    }
    assert(c == 'S' ==> k =~= "KeyS"@ && seq![ascii_lower(c)] =~= "s"@);
    assert(d != "KeyS"@) by {
        assert(d.len() != "KeyS"@.len());
    }
    reveal_strlit("KeyT");
    reveal_strlit("t");
    assert(c != 'T' ==> k != "KeyT"@) by {
        if c != 'T' {
            assert(k[3] != "KeyT"@[3]);
        }
    }
    assert(c == 'T' ==> k =~= "KeyT"@ && seq![ascii_lower(c)] =~= "t"@);
    assert(d != "KeyT"@) by {
        assert(d.len() != "KeyT"@.len());
    }
    reveal_strlit("KeyU");
    reveal_strlit("u");
    assert(c != 'U' ==> k != "KeyU"@) by {
        if c != 'U' {
            assert(k[3] != "KeyU"@[3]);
        }
    }
    assert(c == 'U' ==> k =~= "KeyU"@ && seq![ascii_lower(c)] =~= "u"@);
    assert(d != "KeyU"@) by {
        assert(d.len() != "KeyU"@.len());
    }
    reveal_strlit("KeyV");
    reveal_strlit("v");
    assert(c != 'V' ==> k != "KeyV"@) by {
        if c != 'V' {
            assert(k[3] != "KeyV"@[3]);
        }
    }
    assert(c == 'V' ==> k =~= "KeyV"@ && seq![ascii_lower(c)] =~= "v"@);
    assert(d != "KeyV"@) by {
        assert(d.len() != "KeyV"@.len());
    }
    reveal_strlit("KeyW");
    reveal_strlit("w");
    assert(c != 'W' ==> k != "KeyW"@) by {
        if c != 'W' {
            assert(k[3] != "KeyW"@[3]);
        }
    }
    assert(c == 'W' ==> k =~= "KeyW"@ && seq![ascii_lower(c)] =~= "w"@);
    assert(d != "KeyW"@) by {
        assert(d.len() != "KeyW"@.len());
    }
    reveal_strlit("KeyX");
    reveal_strlit("x");
    assert(c != 'X' ==> k != "KeyX"@) by {
        if c != 'X' {
            assert(k[3] != "KeyX"@[3]);
        }
    }
    assert(c == 'X' ==> k =~= "KeyX"@ && seq![ascii_lower(c)] =~= "x"@);
    assert(d != "KeyX"@) by {
        assert(d.len() != "KeyX"@.len());
    }
    reveal_strlit("KeyY");
    reveal_strlit("y");
    assert(c != 'Y' ==> k != "KeyY"@) by {
        if c != 'Y' {
            assert(k[3] != "KeyY"@[3]);
        }
    }
    assert(c == 'Y' ==> k =~= "KeyY"@ && seq![ascii_lower(c)] =~= "y"@);
    assert(d != "KeyY"@) by {
        assert(d.len() != "KeyY"@.len());
    }
    reveal_strlit("KeyZ");
    reveal_strlit("z");
    assert(c != 'Z' ==> k != "KeyZ"@) by {
        if c != 'Z' {
            assert(k[3] != "KeyZ"@[3]);
        }
    }
    assert(c == 'Z' ==> k =~= "KeyZ"@ && seq![ascii_lower(c)] =~= "z"@);
    assert(d != "KeyZ"@) by {
        assert(d.len() != "KeyZ"@.len());
    }
    reveal_strlit("Digit0");
    reveal_strlit("0");
    assert(c != '0' ==> d != "Digit0"@) by {
        if c != '0' {
            assert(d[5] != "Digit0"@[5]);
        }
    }
    assert(c == '0' ==> d =~= "Digit0"@ && seq![c] =~= "0"@);
    reveal_strlit("Digit1");
    reveal_strlit("1");
    assert(c != '1' ==> d != "Digit1"@) by {
        if c != '1' {
            assert(d[5] != "Digit1"@[5]);
        }
    }
    assert(c == '1' ==> d =~= "Digit1"@ && seq![c] =~= "1"@);
    reveal_strlit("Digit2");
    reveal_strlit("2");
    assert(c != '2' ==> d != "Digit2"@) by {
        if c != '2' {
            assert(d[5] != "Digit2"@[5]);
        }
    }
    assert(c == '2' ==> d =~= "Digit2"@ && seq![c] =~= "2"@);
    reveal_strlit("Digit3");
    reveal_strlit("3");
    assert(c != '3' ==> d != "Digit3"@) by {
        if c != '3' {
            assert(d[5] != "Digit3"@[5]);
        }
    }
    assert(c == '3' ==> d =~= "Digit3"@ && seq![c] =~= "3"@);
    reveal_strlit("Digit4");
    reveal_strlit("4");
    assert(c != '4' ==> d != "Digit4"@) by {
        if c != '4' {
            assert(d[5] != "Digit4"@[5]);
        }
    }
    assert(c == '4' ==> d =~= "Digit4"@ && seq![c] =~= "4"@);
    reveal_strlit("Digit5");
    reveal_strlit("5");
    assert(c != '5' ==> d != "Digit5"@) by {
        if c != '5' {
            assert(d[5] != "Digit5"@[5]);
        }
    }
    assert(c == '5' ==> d =~= "Digit5"@ && seq![c] =~= "5"@);
    reveal_strlit("Digit6");
    reveal_strlit("6");
    assert(c != '6' ==> d != "Digit6"@) by {
        if c != '6' {
            assert(d[5] != "Digit6"@[5]);
        }
    }
    assert(c == '6' ==> d =~= "Digit6"@ && seq![c] =~= "6"@);
    reveal_strlit("Digit7");
    reveal_strlit("7");
    assert(c != '7' ==> d != "Digit7"@) by {
        if c != '7' {
            assert(d[5] != "Digit7"@[5]);
        }
    }
    assert(c == '7' ==> d =~= "Digit7"@ && seq![c] =~= "7"@);
    reveal_strlit("Digit8");
    reveal_strlit("8");
    assert(c != '8' ==> d != "Digit8"@) by {
        if c != '8' {
            assert(d[5] != "Digit8"@[5]);
        }
    }
    assert(c == '8' ==> d =~= "Digit8"@ && seq![c] =~= "8"@);
    reveal_strlit("Digit9");
    reveal_strlit("9");
    assert(c != '9' ==> d != "Digit9"@) by {
        if c != '9' {
            assert(d[5] != "Digit9"@[5]);
        }
    }
    assert(c == '9' ==> d =~= "Digit9"@ && seq![c] =~= "9"@);
}

/// The editing, arrow and Print Screen key codes the portal can bind.
pub open spec fn portal_named_codes() -> Set<Seq<char>> {
    set!["PrintScreen"@, "Enter"@, "Escape"@, "Tab"@, "Space"@, "Backspace"@, "Delete"@, "Insert"@, "Home"@, "End"@, "PageUp"@, "PageDown"@, "ArrowUp"@, "ArrowDown"@, "ArrowLeft"@, "ArrowRight"@]
}

/// The portal key codes and the portal's names for them are all
/// different words.
proof fn lemma_portal_words_distinct()
    ensures
        "PrintScreen"@ != "Enter"@,
        "PrintScreen"@ != "Escape"@,
        "PrintScreen"@ != "Tab"@,
        "PrintScreen"@ != "Space"@,
        "PrintScreen"@ != "Backspace"@,
        "PrintScreen"@ != "Delete"@,
        "PrintScreen"@ != "Insert"@,
        "PrintScreen"@ != "Home"@,
        "PrintScreen"@ != "End"@,
        "PrintScreen"@ != "PageUp"@,
        "PrintScreen"@ != "PageDown"@,
        "PrintScreen"@ != "ArrowUp"@,
        "PrintScreen"@ != "ArrowDown"@,
        "PrintScreen"@ != "ArrowLeft"@,
        "PrintScreen"@ != "ArrowRight"@,
        "Enter"@ != "Escape"@,
        "Enter"@ != "Tab"@,
        "Enter"@ != "Space"@,
        "Enter"@ != "Backspace"@,
        "Enter"@ != "Delete"@,
        "Enter"@ != "Insert"@,
        "Enter"@ != "Home"@,
        "Enter"@ != "End"@,
        "Enter"@ != "PageUp"@,
        "Enter"@ != "PageDown"@,
        "Enter"@ != "ArrowUp"@,
        "Enter"@ != "ArrowDown"@,
        "Enter"@ != "ArrowLeft"@,
        "Enter"@ != "ArrowRight"@,
        "Escape"@ != "Tab"@,
        "Escape"@ != "Space"@,
        "Escape"@ != "Backspace"@,
        "Escape"@ != "Delete"@,
        "Escape"@ != "Insert"@,
        "Escape"@ != "Home"@,
        "Escape"@ != "End"@,
        "Escape"@ != "PageUp"@,
        "Escape"@ != "PageDown"@,
        "Escape"@ != "ArrowUp"@,
        "Escape"@ != "ArrowDown"@,
        "Escape"@ != "ArrowLeft"@,
        "Escape"@ != "ArrowRight"@,
        "Tab"@ != "Space"@,
        "Tab"@ != "Backspace"@,
        "Tab"@ != "Delete"@,
        "Tab"@ != "Insert"@,
        "Tab"@ != "Home"@,
        "Tab"@ != "End"@,
        "Tab"@ != "PageUp"@,
        "Tab"@ != "PageDown"@,
        "Tab"@ != "ArrowUp"@,
        "Tab"@ != "ArrowDown"@,
        "Tab"@ != "ArrowLeft"@,
        "Tab"@ != "ArrowRight"@,
        "Space"@ != "Backspace"@,
        "Space"@ != "Delete"@,
        "Space"@ != "Insert"@,
        "Space"@ != "Home"@,
        "Space"@ != "End"@,
        "Space"@ != "PageUp"@,
        "Space"@ != "PageDown"@,
        "Space"@ != "ArrowUp"@,
        "Space"@ != "ArrowDown"@,
        "Space"@ != "ArrowLeft"@,
        "Space"@ != "ArrowRight"@,
        "Backspace"@ != "Delete"@,
        "Backspace"@ != "Insert"@,
        "Backspace"@ != "Home"@,
        "Backspace"@ != "End"@,
        "Backspace"@ != "PageUp"@,
        "Backspace"@ != "PageDown"@,
        "Backspace"@ != "ArrowUp"@,
        "Backspace"@ != "ArrowDown"@,
        "Backspace"@ != "ArrowLeft"@,
        "Backspace"@ != "ArrowRight"@,
        "Delete"@ != "Insert"@,
        "Delete"@ != "Home"@,
        "Delete"@ != "End"@,
        "Delete"@ != "PageUp"@,
        "Delete"@ != "PageDown"@,
        "Delete"@ != "ArrowUp"@,
        "Delete"@ != "ArrowDown"@,
        "Delete"@ != "ArrowLeft"@,
        "Delete"@ != "ArrowRight"@,
        "Insert"@ != "Home"@,
        "Insert"@ != "End"@,
        "Insert"@ != "PageUp"@,
        "Insert"@ != "PageDown"@,
        "Insert"@ != "ArrowUp"@,
        "Insert"@ != "ArrowDown"@,
        "Insert"@ != "ArrowLeft"@,
        "Insert"@ != "ArrowRight"@,
        "Home"@ != "End"@,
        "Home"@ != "PageUp"@,
        "Home"@ != "PageDown"@,
        "Home"@ != "ArrowUp"@,
        "Home"@ != "ArrowDown"@,
        "Home"@ != "ArrowLeft"@,
        "Home"@ != "ArrowRight"@,
        "End"@ != "PageUp"@,
        "End"@ != "PageDown"@,
        "End"@ != "ArrowUp"@,
        "End"@ != "ArrowDown"@,
        "End"@ != "ArrowLeft"@,
        "End"@ != "ArrowRight"@,
        "PageUp"@ != "PageDown"@,
        "PageUp"@ != "ArrowUp"@,
        "PageUp"@ != "ArrowDown"@,
        "PageUp"@ != "ArrowLeft"@,
        "PageUp"@ != "ArrowRight"@,
        "PageDown"@ != "ArrowUp"@,
        "PageDown"@ != "ArrowDown"@,
        "PageDown"@ != "ArrowLeft"@,
        "PageDown"@ != "ArrowRight"@,
        "ArrowUp"@ != "ArrowDown"@,
        "ArrowUp"@ != "ArrowLeft"@,
        "ArrowUp"@ != "ArrowRight"@,
        "ArrowDown"@ != "ArrowLeft"@,
        "ArrowDown"@ != "ArrowRight"@,
        "ArrowLeft"@ != "ArrowRight"@,
        "Print"@ != "Return"@,
        "Print"@ != "Escape"@,
        "Print"@ != "Tab"@,
        "Print"@ != "space"@,
        "Print"@ != "BackSpace"@,
        "Print"@ != "Delete"@,
        "Print"@ != "Insert"@,
        "Print"@ != "Home"@,
        "Print"@ != "End"@,
        "Print"@ != "Prior"@,
        "Print"@ != "Next"@,
        "Print"@ != "Up"@,
        "Print"@ != "Down"@,
        "Print"@ != "Left"@,
        "Print"@ != "Right"@,
        "Return"@ != "Escape"@,
        "Return"@ != "Tab"@,
        "Return"@ != "space"@,
        "Return"@ != "BackSpace"@,
        "Return"@ != "Delete"@,
        "Return"@ != "Insert"@,
        "Return"@ != "Home"@,
        "Return"@ != "End"@,
        "Return"@ != "Prior"@,
        "Return"@ != "Next"@,
        "Return"@ != "Up"@,
        "Return"@ != "Down"@,
        "Return"@ != "Left"@,
        "Return"@ != "Right"@,
        "Escape"@ != "Tab"@,
        "Escape"@ != "space"@,
        "Escape"@ != "BackSpace"@,
        "Escape"@ != "Delete"@,
        "Escape"@ != "Insert"@,
        "Escape"@ != "Home"@,
        "Escape"@ != "End"@,
        "Escape"@ != "Prior"@,
        "Escape"@ != "Next"@,
        "Escape"@ != "Up"@,
        "Escape"@ != "Down"@,
        "Escape"@ != "Left"@,
        "Escape"@ != "Right"@,
        "Tab"@ != "space"@,
        "Tab"@ != "BackSpace"@,
        "Tab"@ != "Delete"@,
        "Tab"@ != "Insert"@,
        "Tab"@ != "Home"@,
        "Tab"@ != "End"@,
        "Tab"@ != "Prior"@,
        "Tab"@ != "Next"@,
        "Tab"@ != "Up"@,
        "Tab"@ != "Down"@,
        "Tab"@ != "Left"@,
        "Tab"@ != "Right"@,
        "space"@ != "BackSpace"@,
        "space"@ != "Delete"@,
        "space"@ != "Insert"@,
        "space"@ != "Home"@,
        "space"@ != "End"@,
        "space"@ != "Prior"@,
        "space"@ != "Next"@,
        "space"@ != "Up"@,
        "space"@ != "Down"@,
        "space"@ != "Left"@,
        "space"@ != "Right"@,
        "BackSpace"@ != "Delete"@,
        "BackSpace"@ != "Insert"@,
        "BackSpace"@ != "Home"@,
        "BackSpace"@ != "End"@,
        "BackSpace"@ != "Prior"@,
        "BackSpace"@ != "Next"@,
        "BackSpace"@ != "Up"@,
        "BackSpace"@ != "Down"@,
        "BackSpace"@ != "Left"@,
        "BackSpace"@ != "Right"@,
        "Delete"@ != "Insert"@,
        "Delete"@ != "Home"@,
        "Delete"@ != "End"@,
        "Delete"@ != "Prior"@,
        "Delete"@ != "Next"@,
        "Delete"@ != "Up"@,
        "Delete"@ != "Down"@,
        "Delete"@ != "Left"@,
        "Delete"@ != "Right"@,
        "Insert"@ != "Home"@,
        "Insert"@ != "End"@,
        "Insert"@ != "Prior"@,
        "Insert"@ != "Next"@,
        "Insert"@ != "Up"@,
        "Insert"@ != "Down"@,
        "Insert"@ != "Left"@,
        "Insert"@ != "Right"@,
        "Home"@ != "End"@,
        "Home"@ != "Prior"@,
        "Home"@ != "Next"@,
        "Home"@ != "Up"@,
        "Home"@ != "Down"@,
        "Home"@ != "Left"@,
        "Home"@ != "Right"@,
        "End"@ != "Prior"@,
        "End"@ != "Next"@,
        "End"@ != "Up"@,
        "End"@ != "Down"@,
        "End"@ != "Left"@,
        "End"@ != "Right"@,
        "Prior"@ != "Next"@,
        "Prior"@ != "Up"@,
        "Prior"@ != "Down"@,
        "Prior"@ != "Left"@,
        "Prior"@ != "Right"@,
        "Next"@ != "Up"@,
        "Next"@ != "Down"@,
        "Next"@ != "Left"@,
        "Next"@ != "Right"@,
        "Up"@ != "Down"@,
        "Up"@ != "Left"@,
        "Up"@ != "Right"@,
        "Down"@ != "Left"@,
        "Down"@ != "Right"@,
        "Left"@ != "Right"@,
{
    reveal_strlit("PrintScreen");
    reveal_strlit("Enter");
    reveal_strlit("Escape");
    reveal_strlit("Tab");
    reveal_strlit("Space");
    reveal_strlit("Backspace");
    reveal_strlit("Delete");
    reveal_strlit("Insert");
    reveal_strlit("Home");
    reveal_strlit("End");
    reveal_strlit("PageUp");
    reveal_strlit("PageDown");
    reveal_strlit("ArrowUp");
    reveal_strlit("ArrowDown");
    reveal_strlit("ArrowLeft");
    reveal_strlit("ArrowRight");
    reveal_strlit("Print");
    reveal_strlit("Return");
    reveal_strlit("space");
    reveal_strlit("BackSpace");
    reveal_strlit("Prior");
    reveal_strlit("Next");
    reveal_strlit("Up");
    reveal_strlit("Down");
    reveal_strlit("Left");
    reveal_strlit("Right");
    assert("PrintScreen"@ != "Enter"@) by { assert("PrintScreen"@.len() != "Enter"@.len()); }
    assert("PrintScreen"@ != "Escape"@) by { assert("PrintScreen"@.len() != "Escape"@.len()); }
    assert("PrintScreen"@ != "Tab"@) by { assert("PrintScreen"@.len() != "Tab"@.len()); }
    assert("PrintScreen"@ != "Space"@) by { assert("PrintScreen"@.len() != "Space"@.len()); }
    assert("PrintScreen"@ != "Backspace"@) by { assert("PrintScreen"@.len() != "Backspace"@.len()); }
    assert("PrintScreen"@ != "Delete"@) by { assert("PrintScreen"@.len() != "Delete"@.len()); }
    assert("PrintScreen"@ != "Insert"@) by { assert("PrintScreen"@.len() != "Insert"@.len()); }
    assert("PrintScreen"@ != "Home"@) by { assert("PrintScreen"@.len() != "Home"@.len()); }
    assert("PrintScreen"@ != "End"@) by { assert("PrintScreen"@.len() != "End"@.len()); }
    assert("PrintScreen"@ != "PageUp"@) by { assert("PrintScreen"@.len() != "PageUp"@.len()); }
    assert("PrintScreen"@ != "PageDown"@) by { assert("PrintScreen"@.len() != "PageDown"@.len()); }
    assert("PrintScreen"@ != "ArrowUp"@) by { assert("PrintScreen"@.len() != "ArrowUp"@.len()); }
    assert("PrintScreen"@ != "ArrowDown"@) by { assert("PrintScreen"@.len() != "ArrowDown"@.len()); }
    assert("PrintScreen"@ != "ArrowLeft"@) by { assert("PrintScreen"@.len() != "ArrowLeft"@.len()); }
    assert("PrintScreen"@ != "ArrowRight"@) by { assert("PrintScreen"@.len() != "ArrowRight"@.len()); }
    assert("Enter"@ != "Escape"@) by { assert("Enter"@.len() != "Escape"@.len()); }
    assert("Enter"@ != "Tab"@) by { assert("Enter"@.len() != "Tab"@.len()); }
    assert("Enter"@ != "Space"@) by { assert("Enter"@[0] != "Space"@[0]); }
    assert("Enter"@ != "Backspace"@) by { assert("Enter"@.len() != "Backspace"@.len()); }
    assert("Enter"@ != "Delete"@) by { assert("Enter"@.len() != "Delete"@.len()); }
    assert("Enter"@ != "Insert"@) by { assert("Enter"@.len() != "Insert"@.len()); }
    assert("Enter"@ != "Home"@) by { assert("Enter"@.len() != "Home"@.len()); }
    assert("Enter"@ != "End"@) by { assert("Enter"@.len() != "End"@.len()); }
    assert("Enter"@ != "PageUp"@) by { assert("Enter"@.len() != "PageUp"@.len()); }
    assert("Enter"@ != "PageDown"@) by { assert("Enter"@.len() != "PageDown"@.len()); }
    assert("Enter"@ != "ArrowUp"@) by { assert("Enter"@.len() != "ArrowUp"@.len()); }
    assert("Enter"@ != "ArrowDown"@) by { assert("Enter"@.len() != "ArrowDown"@.len()); }
    assert("Enter"@ != "ArrowLeft"@) by { assert("Enter"@.len() != "ArrowLeft"@.len()); }
    assert("Enter"@ != "ArrowRight"@) by { assert("Enter"@.len() != "ArrowRight"@.len()); }
    assert("Escape"@ != "Tab"@) by { assert("Escape"@.len() != "Tab"@.len()); }
    assert("Escape"@ != "Space"@) by { assert("Escape"@.len() != "Space"@.len()); }
    assert("Escape"@ != "Backspace"@) by { assert("Escape"@.len() != "Backspace"@.len()); }
    assert("Escape"@ != "Delete"@) by { assert("Escape"@[0] != "Delete"@[0]); }
    assert("Escape"@ != "Insert"@) by { assert("Escape"@[0] != "Insert"@[0]); }
    assert("Escape"@ != "Home"@) by { assert("Escape"@.len() != "Home"@.len()); }
    assert("Escape"@ != "End"@) by { assert("Escape"@.len() != "End"@.len()); }
    assert("Escape"@ != "PageUp"@) by { assert("Escape"@[0] != "PageUp"@[0]); }
    assert("Escape"@ != "PageDown"@) by { assert("Escape"@.len() != "PageDown"@.len()); }
    assert("Escape"@ != "ArrowUp"@) by { assert("Escape"@.len() != "ArrowUp"@.len()); }
    assert("Escape"@ != "ArrowDown"@) by { assert("Escape"@.len() != "ArrowDown"@.len()); }
    assert("Escape"@ != "ArrowLeft"@) by { assert("Escape"@.len() != "ArrowLeft"@.len()); }
    assert("Escape"@ != "ArrowRight"@) by { assert("Escape"@.len() != "ArrowRight"@.len()); }
    assert("Tab"@ != "Space"@) by { assert("Tab"@.len() != "Space"@.len()); }
    assert("Tab"@ != "Backspace"@) by { assert("Tab"@.len() != "Backspace"@.len()); }
    assert("Tab"@ != "Delete"@) by { assert("Tab"@.len() != "Delete"@.len()); }
    assert("Tab"@ != "Insert"@) by { assert("Tab"@.len() != "Insert"@.len()); }
    assert("Tab"@ != "Home"@) by { assert("Tab"@.len() != "Home"@.len()); }
    assert("Tab"@ != "End"@) by { assert("Tab"@[0] != "End"@[0]); }
    assert("Tab"@ != "PageUp"@) by { assert("Tab"@.len() != "PageUp"@.len()); }
    assert("Tab"@ != "PageDown"@) by { assert("Tab"@.len() != "PageDown"@.len()); }
    assert("Tab"@ != "ArrowUp"@) by { assert("Tab"@.len() != "ArrowUp"@.len()); }
    assert("Tab"@ != "ArrowDown"@) by { assert("Tab"@.len() != "ArrowDown"@.len()); }
    assert("Tab"@ != "ArrowLeft"@) by { assert("Tab"@.len() != "ArrowLeft"@.len()); }
    assert("Tab"@ != "ArrowRight"@) by { assert("Tab"@.len() != "ArrowRight"@.len()); }
    assert("Space"@ != "Backspace"@) by { assert("Space"@.len() != "Backspace"@.len()); }
    assert("Space"@ != "Delete"@) by { assert("Space"@.len() != "Delete"@.len()); }
    assert("Space"@ != "Insert"@) by { assert("Space"@.len() != "Insert"@.len()); }
    assert("Space"@ != "Home"@) by { assert("Space"@.len() != "Home"@.len()); }
    assert("Space"@ != "End"@) by { assert("Space"@.len() != "End"@.len()); }
    assert("Space"@ != "PageUp"@) by { assert("Space"@.len() != "PageUp"@.len()); }
    assert("Space"@ != "PageDown"@) by { assert("Space"@.len() != "PageDown"@.len()); }
    assert("Space"@ != "ArrowUp"@) by { assert("Space"@.len() != "ArrowUp"@.len()); }
    assert("Space"@ != "ArrowDown"@) by { assert("Space"@.len() != "ArrowDown"@.len()); }
    assert("Space"@ != "ArrowLeft"@) by { assert("Space"@.len() != "ArrowLeft"@.len()); }
    assert("Space"@ != "ArrowRight"@) by { assert("Space"@.len() != "ArrowRight"@.len()); }
    assert("Backspace"@ != "Delete"@) by { assert("Backspace"@.len() != "Delete"@.len()); }
    assert("Backspace"@ != "Insert"@) by { assert("Backspace"@.len() != "Insert"@.len()); }
    assert("Backspace"@ != "Home"@) by { assert("Backspace"@.len() != "Home"@.len()); }
    assert("Backspace"@ != "End"@) by { assert("Backspace"@.len() != "End"@.len()); }
    assert("Backspace"@ != "PageUp"@) by { assert("Backspace"@.len() != "PageUp"@.len()); }
    assert("Backspace"@ != "PageDown"@) by { assert("Backspace"@.len() != "PageDown"@.len()); }
    assert("Backspace"@ != "ArrowUp"@) by { assert("Backspace"@.len() != "ArrowUp"@.len()); }
    assert("Backspace"@ != "ArrowDown"@) by { assert("Backspace"@[0] != "ArrowDown"@[0]); }
    assert("Backspace"@ != "ArrowLeft"@) by { assert("Backspace"@[0] != "ArrowLeft"@[0]); }
    assert("Backspace"@ != "ArrowRight"@) by { assert("Backspace"@.len() != "ArrowRight"@.len()); }
    assert("Delete"@ != "Insert"@) by { assert("Delete"@[0] != "Insert"@[0]); }
    assert("Delete"@ != "Home"@) by { assert("Delete"@.len() != "Home"@.len()); }
    assert("Delete"@ != "End"@) by { assert("Delete"@.len() != "End"@.len()); }
    assert("Delete"@ != "PageUp"@) by { assert("Delete"@[0] != "PageUp"@[0]); }
    assert("Delete"@ != "PageDown"@) by { assert("Delete"@.len() != "PageDown"@.len()); }
    assert("Delete"@ != "ArrowUp"@) by { assert("Delete"@.len() != "ArrowUp"@.len()); }
    assert("Delete"@ != "ArrowDown"@) by { assert("Delete"@.len() != "ArrowDown"@.len()); }
    assert("Delete"@ != "ArrowLeft"@) by { assert("Delete"@.len() != "ArrowLeft"@.len()); }
    assert("Delete"@ != "ArrowRight"@) by { assert("Delete"@.len() != "ArrowRight"@.len()); }
    assert("Insert"@ != "Home"@) by { assert("Insert"@.len() != "Home"@.len()); }
    assert("Insert"@ != "End"@) by { assert("Insert"@.len() != "End"@.len()); }
    assert("Insert"@ != "PageUp"@) by { assert("Insert"@[0] != "PageUp"@[0]); }
    assert("Insert"@ != "PageDown"@) by { assert("Insert"@.len() != "PageDown"@.len()); }
    assert("Insert"@ != "ArrowUp"@) by { assert("Insert"@.len() != "ArrowUp"@.len()); }
    assert("Insert"@ != "ArrowDown"@) by { assert("Insert"@.len() != "ArrowDown"@.len()); }
    assert("Insert"@ != "ArrowLeft"@) by { assert("Insert"@.len() != "ArrowLeft"@.len()); }
    assert("Insert"@ != "ArrowRight"@) by { assert("Insert"@.len() != "ArrowRight"@.len()); }
    assert("Home"@ != "End"@) by { assert("Home"@.len() != "End"@.len()); }
    assert("Home"@ != "PageUp"@) by { assert("Home"@.len() != "PageUp"@.len()); }
    assert("Home"@ != "PageDown"@) by { assert("Home"@.len() != "PageDown"@.len()); }
    assert("Home"@ != "ArrowUp"@) by { assert("Home"@.len() != "ArrowUp"@.len()); }
    assert("Home"@ != "ArrowDown"@) by { assert("Home"@.len() != "ArrowDown"@.len()); }
    assert("Home"@ != "ArrowLeft"@) by { assert("Home"@.len() != "ArrowLeft"@.len()); }
    assert("Home"@ != "ArrowRight"@) by { assert("Home"@.len() != "ArrowRight"@.len()); }
    assert("End"@ != "PageUp"@) by { assert("End"@.len() != "PageUp"@.len()); }
    assert("End"@ != "PageDown"@) by { assert("End"@.len() != "PageDown"@.len()); }
    assert("End"@ != "ArrowUp"@) by { assert("End"@.len() != "ArrowUp"@.len()); }
    assert("End"@ != "ArrowDown"@) by { assert("End"@.len() != "ArrowDown"@.len()); }
    assert("End"@ != "ArrowLeft"@) by { assert("End"@.len() != "ArrowLeft"@.len()); }
    assert("End"@ != "ArrowRight"@) by { assert("End"@.len() != "ArrowRight"@.len()); }
    assert("PageUp"@ != "PageDown"@) by { assert("PageUp"@.len() != "PageDown"@.len()); }
    assert("PageUp"@ != "ArrowUp"@) by { assert("PageUp"@.len() != "ArrowUp"@.len()); }
    assert("PageUp"@ != "ArrowDown"@) by { assert("PageUp"@.len() != "ArrowDown"@.len()); }
    assert("PageUp"@ != "ArrowLeft"@) by { assert("PageUp"@.len() != "ArrowLeft"@.len()); }
    assert("PageUp"@ != "ArrowRight"@) by { assert("PageUp"@.len() != "ArrowRight"@.len()); }
    assert("PageDown"@ != "ArrowUp"@) by { assert("PageDown"@.len() != "ArrowUp"@.len()); }
    assert("PageDown"@ != "ArrowDown"@) by { assert("PageDown"@.len() != "ArrowDown"@.len()); }
    assert("PageDown"@ != "ArrowLeft"@) by { assert("PageDown"@.len() != "ArrowLeft"@.len()); }
    assert("PageDown"@ != "ArrowRight"@) by { assert("PageDown"@.len() != "ArrowRight"@.len()); }
    assert("ArrowUp"@ != "ArrowDown"@) by { assert("ArrowUp"@.len() != "ArrowDown"@.len()); }
    assert("ArrowUp"@ != "ArrowLeft"@) by { assert("ArrowUp"@.len() != "ArrowLeft"@.len()); }
    assert("ArrowUp"@ != "ArrowRight"@) by { assert("ArrowUp"@.len() != "ArrowRight"@.len()); }
    assert("ArrowDown"@ != "ArrowLeft"@) by { assert("ArrowDown"@[5] != "ArrowLeft"@[5]); }
    assert("ArrowDown"@ != "ArrowRight"@) by { assert("ArrowDown"@.len() != "ArrowRight"@.len()); }
    assert("ArrowLeft"@ != "ArrowRight"@) by { assert("ArrowLeft"@.len() != "ArrowRight"@.len()); }
    assert("Print"@ != "Return"@) by { assert("Print"@.len() != "Return"@.len()); }
    assert("Print"@ != "Escape"@) by { assert("Print"@.len() != "Escape"@.len()); }
    assert("Print"@ != "Tab"@) by { assert("Print"@.len() != "Tab"@.len()); }
    assert("Print"@ != "space"@) by { assert("Print"@[0] != "space"@[0]); }
    assert("Print"@ != "BackSpace"@) by { assert("Print"@.len() != "BackSpace"@.len()); }
    assert("Print"@ != "Delete"@) by { assert("Print"@.len() != "Delete"@.len()); }
    assert("Print"@ != "Insert"@) by { assert("Print"@.len() != "Insert"@.len()); }
    assert("Print"@ != "Home"@) by { assert("Print"@.len() != "Home"@.len()); }
    assert("Print"@ != "End"@) by { assert("Print"@.len() != "End"@.len()); }
    assert("Print"@ != "Prior"@) by { assert("Print"@[3] != "Prior"@[3]); }
    assert("Print"@ != "Next"@) by { assert("Print"@.len() != "Next"@.len()); }
    assert("Print"@ != "Up"@) by { assert("Print"@.len() != "Up"@.len()); }
    assert("Print"@ != "Down"@) by { assert("Print"@.len() != "Down"@.len()); }
    assert("Print"@ != "Left"@) by { assert("Print"@.len() != "Left"@.len()); }
    assert("Print"@ != "Right"@) by { assert("Print"@[0] != "Right"@[0]); }
    assert("Return"@ != "Escape"@) by { assert("Return"@[0] != "Escape"@[0]); }
    assert("Return"@ != "Tab"@) by { assert("Return"@.len() != "Tab"@.len()); }
    assert("Return"@ != "space"@) by { assert("Return"@.len() != "space"@.len()); }
    assert("Return"@ != "BackSpace"@) by { assert("Return"@.len() != "BackSpace"@.len()); }
    assert("Return"@ != "Delete"@) by { assert("Return"@[0] != "Delete"@[0]); }
    assert("Return"@ != "Insert"@) by { assert("Return"@[0] != "Insert"@[0]); }
    assert("Return"@ != "Home"@) by { assert("Return"@.len() != "Home"@.len()); }
    assert("Return"@ != "End"@) by { assert("Return"@.len() != "End"@.len()); }
    assert("Return"@ != "Prior"@) by { assert("Return"@.len() != "Prior"@.len()); }
    assert("Return"@ != "Next"@) by { assert("Return"@.len() != "Next"@.len()); }
    assert("Return"@ != "Up"@) by { assert("Return"@.len() != "Up"@.len()); }
    assert("Return"@ != "Down"@) by { assert("Return"@.len() != "Down"@.len()); }
    assert("Return"@ != "Left"@) by { assert("Return"@.len() != "Left"@.len()); }
    assert("Return"@ != "Right"@) by { assert("Return"@.len() != "Right"@.len()); }
    assert("Escape"@ != "Tab"@) by { assert("Escape"@.len() != "Tab"@.len()); }
    assert("Escape"@ != "space"@) by { assert("Escape"@.len() != "space"@.len()); }
    assert("Escape"@ != "BackSpace"@) by { assert("Escape"@.len() != "BackSpace"@.len()); }
    assert("Escape"@ != "Delete"@) by { assert("Escape"@[0] != "Delete"@[0]); }
    assert("Escape"@ != "Insert"@) by { assert("Escape"@[0] != "Insert"@[0]); }
    assert("Escape"@ != "Home"@) by { assert("Escape"@.len() != "Home"@.len()); }
    assert("Escape"@ != "End"@) by { assert("Escape"@.len() != "End"@.len()); }
    assert("Escape"@ != "Prior"@) by { assert("Escape"@.len() != "Prior"@.len()); }
    assert("Escape"@ != "Next"@) by { assert("Escape"@.len() != "Next"@.len()); }
    assert("Escape"@ != "Up"@) by { assert("Escape"@.len() != "Up"@.len()); }
    assert("Escape"@ != "Down"@) by { assert("Escape"@.len() != "Down"@.len()); }
    assert("Escape"@ != "Left"@) by { assert("Escape"@.len() != "Left"@.len()); }
    assert("Escape"@ != "Right"@) by { assert("Escape"@.len() != "Right"@.len()); }
    assert("Tab"@ != "space"@) by { assert("Tab"@.len() != "space"@.len()); }
    assert("Tab"@ != "BackSpace"@) by { assert("Tab"@.len() != "BackSpace"@.len()); }
    assert("Tab"@ != "Delete"@) by { assert("Tab"@.len() != "Delete"@.len()); }
    assert("Tab"@ != "Insert"@) by { assert("Tab"@.len() != "Insert"@.len()); }
    assert("Tab"@ != "Home"@) by { assert("Tab"@.len() != "Home"@.len()); }
    assert("Tab"@ != "End"@) by { assert("Tab"@[0] != "End"@[0]); }
    assert("Tab"@ != "Prior"@) by { assert("Tab"@.len() != "Prior"@.len()); }
    assert("Tab"@ != "Next"@) by { assert("Tab"@.len() != "Next"@.len()); }
    assert("Tab"@ != "Up"@) by { assert("Tab"@.len() != "Up"@.len()); }
    assert("Tab"@ != "Down"@) by { assert("Tab"@.len() != "Down"@.len()); }
    assert("Tab"@ != "Left"@) by { assert("Tab"@.len() != "Left"@.len()); }
    assert("Tab"@ != "Right"@) by { assert("Tab"@.len() != "Right"@.len()); }
    assert("space"@ != "BackSpace"@) by { assert("space"@.len() != "BackSpace"@.len()); }
    assert("space"@ != "Delete"@) by { assert("space"@.len() != "Delete"@.len()); }
    assert("space"@ != "Insert"@) by { assert("space"@.len() != "Insert"@.len()); }
    assert("space"@ != "Home"@) by { assert("space"@.len() != "Home"@.len()); }
    assert("space"@ != "End"@) by { assert("space"@.len() != "End"@.len()); }
    assert("space"@ != "Prior"@) by { assert("space"@[0] != "Prior"@[0]); }
    assert("space"@ != "Next"@) by { assert("space"@.len() != "Next"@.len()); }
    assert("space"@ != "Up"@) by { assert("space"@.len() != "Up"@.len()); }
    assert("space"@ != "Down"@) by { assert("space"@.len() != "Down"@.len()); }
    assert("space"@ != "Left"@) by { assert("space"@.len() != "Left"@.len()); }
    assert("space"@ != "Right"@) by { assert("space"@[0] != "Right"@[0]); }
    assert("BackSpace"@ != "Delete"@) by { assert("BackSpace"@.len() != "Delete"@.len()); }
    assert("BackSpace"@ != "Insert"@) by { assert("BackSpace"@.len() != "Insert"@.len()); }
    assert("BackSpace"@ != "Home"@) by { assert("BackSpace"@.len() != "Home"@.len()); }
    assert("BackSpace"@ != "End"@) by { assert("BackSpace"@.len() != "End"@.len()); }
    assert("BackSpace"@ != "Prior"@) by { assert("BackSpace"@.len() != "Prior"@.len()); }
    assert("BackSpace"@ != "Next"@) by { assert("BackSpace"@.len() != "Next"@.len()); }
    assert("BackSpace"@ != "Up"@) by { assert("BackSpace"@.len() != "Up"@.len()); }
    assert("BackSpace"@ != "Down"@) by { assert("BackSpace"@.len() != "Down"@.len()); }
    assert("BackSpace"@ != "Left"@) by { assert("BackSpace"@.len() != "Left"@.len()); }
    assert("BackSpace"@ != "Right"@) by { assert("BackSpace"@.len() != "Right"@.len()); }
    assert("Delete"@ != "Insert"@) by { assert("Delete"@[0] != "Insert"@[0]); }
    assert("Delete"@ != "Home"@) by { assert("Delete"@.len() != "Home"@.len()); }
    assert("Delete"@ != "End"@) by { assert("Delete"@.len() != "End"@.len()); }
    assert("Delete"@ != "Prior"@) by { assert("Delete"@.len() != "Prior"@.len()); }
    assert("Delete"@ != "Next"@) by { assert("Delete"@.len() != "Next"@.len()); }
    assert("Delete"@ != "Up"@) by { assert("Delete"@.len() != "Up"@.len()); }
    assert("Delete"@ != "Down"@) by { assert("Delete"@.len() != "Down"@.len()); }
    assert("Delete"@ != "Left"@) by { assert("Delete"@.len() != "Left"@.len()); }
    assert("Delete"@ != "Right"@) by { assert("Delete"@.len() != "Right"@.len()); }
    assert("Insert"@ != "Home"@) by { assert("Insert"@.len() != "Home"@.len()); }
    assert("Insert"@ != "End"@) by { assert("Insert"@.len() != "End"@.len()); }
    assert("Insert"@ != "Prior"@) by { assert("Insert"@.len() != "Prior"@.len()); }
    assert("Insert"@ != "Next"@) by { assert("Insert"@.len() != "Next"@.len()); }
    assert("Insert"@ != "Up"@) by { assert("Insert"@.len() != "Up"@.len()); }
    assert("Insert"@ != "Down"@) by { assert("Insert"@.len() != "Down"@.len()); }
    assert("Insert"@ != "Left"@) by { assert("Insert"@.len() != "Left"@.len()); }
    assert("Insert"@ != "Right"@) by { assert("Insert"@.len() != "Right"@.len()); }
    assert("Home"@ != "End"@) by { assert("Home"@.len() != "End"@.len()); }
    assert("Home"@ != "Prior"@) by { assert("Home"@.len() != "Prior"@.len()); }
    assert("Home"@ != "Next"@) by { assert("Home"@[0] != "Next"@[0]); }
    assert("Home"@ != "Up"@) by { assert("Home"@.len() != "Up"@.len()); }
    assert("Home"@ != "Down"@) by { assert("Home"@[0] != "Down"@[0]); }
    assert("Home"@ != "Left"@) by { assert("Home"@[0] != "Left"@[0]); }
    assert("Home"@ != "Right"@) by { assert("Home"@.len() != "Right"@.len()); }
    assert("End"@ != "Prior"@) by { assert("End"@.len() != "Prior"@.len()); }
    assert("End"@ != "Next"@) by { assert("End"@.len() != "Next"@.len()); }
    assert("End"@ != "Up"@) by { assert("End"@.len() != "Up"@.len()); }
    assert("End"@ != "Down"@) by { assert("End"@.len() != "Down"@.len()); }
    assert("End"@ != "Left"@) by { assert("End"@.len() != "Left"@.len()); }
    assert("End"@ != "Right"@) by { assert("End"@.len() != "Right"@.len()); }
    assert("Prior"@ != "Next"@) by { assert("Prior"@.len() != "Next"@.len()); }
    assert("Prior"@ != "Up"@) by { assert("Prior"@.len() != "Up"@.len()); }
    assert("Prior"@ != "Down"@) by { assert("Prior"@.len() != "Down"@.len()); }
    assert("Prior"@ != "Left"@) by { assert("Prior"@.len() != "Left"@.len()); }
    assert("Prior"@ != "Right"@) by { assert("Prior"@[0] != "Right"@[0]); }
    assert("Next"@ != "Up"@) by { assert("Next"@.len() != "Up"@.len()); }
    assert("Next"@ != "Down"@) by { assert("Next"@[0] != "Down"@[0]); }
    assert("Next"@ != "Left"@) by { assert("Next"@[0] != "Left"@[0]); }
    assert("Next"@ != "Right"@) by { assert("Next"@.len() != "Right"@.len()); }
    assert("Up"@ != "Down"@) by { assert("Up"@.len() != "Down"@.len()); }
    assert("Up"@ != "Left"@) by { assert("Up"@.len() != "Left"@.len()); }
    assert("Up"@ != "Right"@) by { assert("Up"@.len() != "Right"@.len()); }
    assert("Down"@ != "Left"@) by { assert("Down"@[0] != "Left"@[0]); }
    assert("Down"@ != "Right"@) by { assert("Down"@.len() != "Right"@.len()); }
    assert("Left"@ != "Right"@) by { assert("Left"@.len() != "Right"@.len()); }
}

/// The portal is never told one named key for another: each of them has a
/// portal name, and different keys have different names.
pub proof fn portal_names_tell_named_keys_apart(a: Seq<char>, b: Seq<char>)
    requires
        portal_named_codes().contains(a),
        portal_named_codes().contains(b),
    ensures
        xdg_named_key(a) is Some,
        xdg_named_key(a) == xdg_named_key(b) ==> a == b,
{
    lemma_portal_words_distinct();
}

/// The portal trigger of a binding, when the portal can bind its key.
pub open spec fn portal_trigger(b: BindingView) -> Option<Seq<char>> {
    match xdg_key(b.code) {
        Some(key) => Some(join(portal_modifiers(b).push(key), "+"@)),
        None => None,
    }
}

/// The portal key name of a letter key code.
fn xdg_letter_key_name(code: &str) -> (r: Option<&'static str>)
    ensures
        opt_str_chars(r) == xdg_letter_key(code@),
{
    if str_eq(code, "KeyA") {
        Some("a")
    } else if str_eq(code, "KeyB") {
        Some("b")
    } else if str_eq(code, "KeyC") {
        Some("c")
    } else if str_eq(code, "KeyD") {
        Some("d")
    } else if str_eq(code, "KeyE") {
        Some("e")
    } else if str_eq(code, "KeyF") {
        Some("f")
    } else if str_eq(code, "KeyG") {
        Some("g")
    } else if str_eq(code, "KeyH") {
        Some("h")
    } else if str_eq(code, "KeyI") {
        Some("i")
    } else if str_eq(code, "KeyJ") {
        Some("j")
    } else if str_eq(code, "KeyK") {
        Some("k")
    } else if str_eq(code, "KeyL") {
        Some("l")
    } else if str_eq(code, "KeyM") {
        Some("m")
    } else if str_eq(code, "KeyN") {
        Some("n")
    } else if str_eq(code, "KeyO") {
        Some("o")
    } else if str_eq(code, "KeyP") {
        Some("p")
    } else if str_eq(code, "KeyQ") {
        Some("q")
    } else if str_eq(code, "KeyR") {
        Some("r")
    } else if str_eq(code, "KeyS") {
        Some("s")
    } else if str_eq(code, "KeyT") {
        Some("t")
    } else if str_eq(code, "KeyU") {
        Some("u")
    } else if str_eq(code, "KeyV") {
        Some("v")
    } else if str_eq(code, "KeyW") {
        Some("w")
    } else if str_eq(code, "KeyX") {
        Some("x")
    } else if str_eq(code, "KeyY") {
        Some("y")
    } else if str_eq(code, "KeyZ") {
        Some("z")
    } else {
        None
    }
}

/// The portal key name of a digit key code.
fn xdg_digit_key_name(code: &str) -> (r: Option<&'static str>)
    ensures
        opt_str_chars(r) == xdg_digit_key(code@),
{
    if str_eq(code, "Digit0") {
        Some("0")
    } else if str_eq(code, "Digit1") {
        Some("1")
    } else if str_eq(code, "Digit2") {
        Some("2")
    } else if str_eq(code, "Digit3") {
        Some("3")
    } else if str_eq(code, "Digit4") {
        Some("4")
    } else if str_eq(code, "Digit5") {
        Some("5")
    } else if str_eq(code, "Digit6") {
        Some("6")
    } else if str_eq(code, "Digit7") {
        Some("7")
    } else if str_eq(code, "Digit8") {
        Some("8")
    } else if str_eq(code, "Digit9") {
        Some("9")
    } else {
        None
    }
}

/// The portal key name of a function key code.
fn xdg_function_key_name(code: &str) -> (r: Option<&'static str>)
    ensures
        opt_str_chars(r) == xdg_function_key(code@),
{
    if str_eq(code, "F1") {
        Some("F1")
    } else if str_eq(code, "F2") {
        Some("F2")
    } else if str_eq(code, "F3") {
        Some("F3")
    } else if str_eq(code, "F4") {
        Some("F4")
    } else if str_eq(code, "F5") {
        Some("F5")
    } else if str_eq(code, "F6") {
        Some("F6")
    } else if str_eq(code, "F7") {
        Some("F7")
    } else if str_eq(code, "F8") {
        Some("F8")
    } else if str_eq(code, "F9") {
        Some("F9")
    } else if str_eq(code, "F10") {
        Some("F10")
    } else if str_eq(code, "F11") {
        Some("F11")
    } else if str_eq(code, "F12") {
        Some("F12")
    } else if str_eq(code, "F13") {
        Some("F13")
    } else if str_eq(code, "F14") {
        Some("F14")
    } else if str_eq(code, "F15") {
        Some("F15")
    } else if str_eq(code, "F16") {
        Some("F16")
    } else if str_eq(code, "F17") {
        Some("F17")
    } else if str_eq(code, "F18") {
        Some("F18")
    } else if str_eq(code, "F19") {
        Some("F19")
    } else if str_eq(code, "F20") {
        Some("F20")
    } else if str_eq(code, "F21") {
        Some("F21")
    } else if str_eq(code, "F22") {
        Some("F22")
    } else if str_eq(code, "F23") {
        Some("F23")
    } else if str_eq(code, "F24") {
        Some("F24")
    } else {
        None
    }
}

/// The portal key name of a named key code.
fn xdg_named_key_name(code: &str) -> (r: Option<&'static str>)
    ensures
        opt_str_chars(r) == xdg_named_key(code@),
{
    if str_eq(code, "PrintScreen") {
        Some("Print")
    } else if str_eq(code, "Enter") {
        Some("Return")
    } else if str_eq(code, "Escape") {
        Some("Escape")
    } else if str_eq(code, "Tab") {
        Some("Tab")
    } else if str_eq(code, "Space") {
        Some("space")
    } else if str_eq(code, "Backspace") {
        Some("BackSpace")
    } else if str_eq(code, "Delete") {
        Some("Delete")
    } else if str_eq(code, "Insert") {
        Some("Insert")
    } else if str_eq(code, "Home") {
        Some("Home")
    } else if str_eq(code, "End") {
        Some("End")
    } else if str_eq(code, "PageUp") {
        Some("Prior")
    } else if str_eq(code, "PageDown") {
        Some("Next")
    } else if str_eq(code, "ArrowUp") {
        Some("Up")
    } else if str_eq(code, "ArrowDown") {
        Some("Down")
    } else if str_eq(code, "ArrowLeft") {
        Some("Left")
    } else if str_eq(code, "ArrowRight") {
        Some("Right")
    } else {
        None
    }
}

/// The name the shortcuts portal uses for the key code `code`, if it has one.
pub fn xdg_key_name(code: &str) -> (r: Option<&'static str>)
    ensures
        opt_str_chars(r) == xdg_key(code@),
{
    let r = xdg_letter_key_name(code);
    if r.is_some() {
        return r;
    }
    let r = xdg_digit_key_name(code);
    if r.is_some() {
        return r;
    }
    let r = xdg_function_key_name(code);
    if r.is_some() {
        return r;
    }
    xdg_named_key_name(code)
}

/// Print Screen with no modifier.
pub open spec fn default_binding_view() -> BindingView {
    BindingView { control: false, alt: false, shift: false, meta: false, code: "PrintScreen"@ }
}

impl Default for HotkeyBinding {
    fn default() -> (b: Self)
        ensures
            b@ == default_binding_view(),
    {
        HotkeyBinding::capture_default()
    }
}

impl HotkeyBinding {
    /// The binding used until the user picks another: Print Screen alone.
    pub fn capture_default() -> (b: Self)
        ensures
            b@ == default_binding_view(),
    {
        HotkeyBinding { control: false, alt: false, shift: false, meta: false, code: owned("PrintScreen") }
    }

    /// The binding of the given modifiers and the key that `code_name`
    /// looks up to, once it is looked up (`parsed`): refused when the name
    /// is unknown, and otherwise exactly when `validate` refuses it.
    pub fn from_parsed(
        control: bool,
        alt: bool,
        shift: bool,
        meta: bool,
        code_name: &str,
        parsed: Option<String>,
    ) -> (r: Result<Self, HotkeyError>)
        ensures
            parsed is None ==> (r matches Err(e) && e@ == "unsupported shortcut key: "@
                + code_name@),
            parsed matches Some(code) ==> {
                let b = BindingView { control, alt, shift, meta, code: code@ };
                match binding_problem(b) {
                    Some(message) => (r matches Err(e) && e@ == message),
                    None => (r matches Ok(binding) && binding@ == b),
                }
            },
    {
        let code = match parsed {
            Some(code) => code,
            None => {
                return Err(HotkeyError(crate::text::concat2("unsupported shortcut key: ", code_name)));
            },
        };
        let binding = HotkeyBinding { control, alt, shift, meta, code };
        match binding.validate() {
            Ok(()) => Ok(binding),
            Err(e) => Err(e),
        }
    }

    /// The binding of the given modifiers and the key named `code_name`.
    pub fn from_parts(control: bool, alt: bool, shift: bool, meta: bool, code_name: &str) -> (r:
        Result<Self, HotkeyError>)
        ensures
            code_from_name(code_name@) is None ==> (r matches Err(e) && e@
                == "unsupported shortcut key: "@ + code_name@),
            code_from_name(code_name@) matches Some(code) ==> {
                let b = BindingView { control, alt, shift, meta, code };
                match binding_problem(b) {
                    Some(message) => (r matches Err(e) && e@ == message),
                    None => (r matches Ok(binding) && binding@ == b),
                }
            },
    {
        let parsed = parse_code_name(code_name);
        HotkeyBinding::from_parsed(control, alt, shift, meta, code_name, parsed)
    }

    /// `Ok` exactly when the binding can be used: its key is no modifier,
    /// and it holds a modifier unless its key is Print Screen or F1 to F24.
    pub fn validate(&self) -> (r: Result<(), HotkeyError>)
        ensures
            match binding_problem(self@) {
                Some(message) => (r matches Err(e) && e@ == message),
                None => r is Ok,
            },
    {
        if is_modifier_code(self.code.as_str()) {
            return Err(HotkeyError(owned("a modifier key cannot be used as the shortcut trigger")));
        }
        if !self.has_modifier() && !allows_bare_trigger(self.code.as_str()) {
            return Err(
                HotkeyError(
                    owned(
                        "ordinary keys require Ctrl, Alt, Shift, or Super to avoid intercepting normal typing",
                    ),
                ),
            );
        }
        Ok(())
    }

    /// Whether Control is held.
    pub fn control(&self) -> (r: bool)
        ensures
            r == self@.control,
    {
        self.control
    }

    /// Whether Alt is held.
    pub fn alt(&self) -> (r: bool)
        ensures
            r == self@.alt,
    {
        self.alt
    }

    /// Whether Shift is held.
    pub fn shift(&self) -> (r: bool)
        ensures
            r == self@.shift,
    {
        self.shift
    }

    /// Whether Meta (Super, Windows, Command) is held.
    pub fn meta(&self) -> (r: bool)
        ensures
            r == self@.meta,
    {
        self.meta
    }

    /// The canonical name of the trigger key's code.
    pub fn code_name(&self) -> (r: String)
        ensures
            r@ == self@.code,
    {
        owned(self.code.as_str())
    }

    /// Whether the two bindings hold the same modifiers and key.
    pub fn same_as(&self, other: &Self) -> (r: bool)
        ensures
            r == (self@ == other@),
    {
        self.control == other.control && self.alt == other.alt && self.shift == other.shift
            && self.meta == other.meta && str_eq(self.code.as_str(), other.code.as_str())
    }

    /// Whether any modifier is held.
    pub fn has_modifier(&self) -> (r: bool)
        ensures
            r == has_any_modifier(self@),
    {
        self.control || self.alt || self.shift || self.meta
    }

    /// The label shown for the binding on `platform`.
    pub fn display_label(&self, platform: Platform) -> (r: String)
        ensures
            r@ == binding_label(self@, platform),
    {
        let mac = platform == Platform::MacOs;
        let mut parts: Vec<String> = Vec::new();
        if self.control {
            parts.push(owned(if mac { "⌃" } else { "Ctrl" }));
        }
        if self.alt {
            parts.push(owned(if mac { "⌥" } else { "Alt" }));
        }
        if self.shift {
            parts.push(owned(if mac { "⇧" } else { "Shift" }));
        }
        if self.meta {
            parts.push(owned(if mac { "⌘" } else if platform == Platform::Windows { "Win" } else { "Super" }));
        }
        assert(views(parts@) =~= modifier_labels(self@, platform));
        parts.push(display_code(self.code.as_str()));
        assert(views(parts@) =~= modifier_labels(self@, platform).push(code_label(self@.code)));
        join_strings(&parts, if mac { "" } else { "+" })
    }

    /// The label of the shortcut as registered: the description the
    /// shortcuts portal gave it, when the portal holds it and gave one, else
    /// the binding's own label.
    pub fn effective_label(&self, platform: Platform, portal_description: Option<&str>) -> (r:
        String)
        ensures
            r@ == match portal_description {
                Some(d) => if d@.len() > 0 {
                    d@
                } else {
                    binding_label(self@, platform)
                },
                None => binding_label(self@, platform),
            },
    {
        match portal_description {
            Some(d) => if d.unicode_len() > 0 {
                return owned(d);
            },
            None => {},
        }
        self.display_label(platform)
    }

    /// The trigger in the shortcuts portal's syntax (`CTRL+ALT+s`), when the
    /// portal can bind the key.
    pub fn xdg_trigger(&self) -> (r: Option<String>)
        ensures
            opt_chars(r) == portal_trigger(self@),
    {
        let key = match xdg_key_name(self.code.as_str()) {
            Some(key) => key,
            None => return None,
        };
        let mut parts: Vec<String> = Vec::new();
        if self.control {
            parts.push(owned("CTRL"));
        }
        if self.alt {
            parts.push(owned("ALT"));
        }
        if self.shift {
            parts.push(owned("SHIFT"));
        }
        if self.meta {
            parts.push(owned("LOGO"));
        }
        assert(views(parts@) =~= portal_modifiers(self@));
        parts.push(owned(key));
        assert(views(parts@) =~= portal_modifiers(self@).push(key@));
        Some(join_strings(&parts, "+"))
    }
}

/// Whether shortcuts go through the Wayland portal: in a Wayland session
/// (`WAYLAND_DISPLAY` set) whose GTK backend (`GDK_BACKEND`) is not forced
/// to X11.
pub open spec fn uses_portal(wayland_display: bool, gdk_backend: Option<Seq<char>>) -> bool {
    wayland_display && match gdk_backend {
        Some(backend) => backend != "x11"@,
        None => true,
    }
}

/// Whether shortcuts go through the Wayland portal, given whether
/// `WAYLAND_DISPLAY` is set and the value of `GDK_BACKEND`, if it is set.
pub fn use_wayland_portal(wayland_display: bool, gdk_backend: Option<&str>) -> (r: bool)
    ensures
        r == uses_portal(wayland_display, opt_str_chars(gdk_backend)),
{
    wayland_display && match gdk_backend {
        Some(backend) => !str_eq(backend, "x11"),
        None => true,
    }
}

/// The shortcut mechanism used on a platform.
pub open spec fn backend_text(platform: Platform, portal: bool) -> Seq<char> {
    match platform {
        Platform::Windows => "Windows native global hotkey"@,
        Platform::MacOs => "macOS native global hotkey"@,
        Platform::Linux => if portal {
            "Wayland XDG GlobalShortcuts portal"@
        } else {
            "X11 native global hotkey"@
        },
        Platform::Other => "Unsupported global hotkey backend"@,
    }
}

/// The shortcut mechanism used on `platform`; `portal` tells whether the
/// Wayland portal is in use.
pub fn backend_description(platform: Platform, portal: bool) -> (r: &'static str)
    ensures
        r@ == backend_text(platform, portal),
{
    match platform {
        Platform::Windows => "Windows native global hotkey",
        Platform::MacOs => "macOS native global hotkey",
        Platform::Linux => if portal {
            "Wayland XDG GlobalShortcuts portal"
        } else {
            "X11 native global hotkey"
        },
        Platform::Other => "Unsupported global hotkey backend",
    }
}

/// Whether the desktop, not the application, decides the shortcut: only
/// with the Wayland portal on Linux.
pub fn portal_managed(platform: Platform, portal: bool) -> (r: bool)
    ensures
        r == (platform == Platform::Linux && portal),
{
    platform == Platform::Linux && portal
}

} // verus!
