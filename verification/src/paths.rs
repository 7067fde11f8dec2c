//! File-system paths held as strings, and how a name is appended to one.

use vstd::prelude::*;
use crate::text::{append_str, owned, push_char};

verus! {

broadcast use vstd::string::group_string_axioms;

/// The platform's main path separator (`std::path::MAIN_SEPARATOR`), which
/// its documentation gives as `/` on Unix and `\` on Windows.
#[verifier::external_body]
pub(crate) fn main_separator() -> (c: char)
    ensures
        c == '/' || c == '\\',
{
    std::path::MAIN_SEPARATOR
}

/// `c` separates path components where `sep` is the main separator: `/`
/// always, and `\` too where it is the main one.
pub open spec fn is_separator(c: char, sep: char) -> bool {
    c == '/' || c == sep
}

/// `base` with the relative component `name` appended, as `Path::join`
/// does: a separator goes between them unless `base` is empty or already
/// ends with one.
pub open spec fn joined(base: Seq<char>, name: Seq<char>, sep: char) -> Seq<char> {
    if base.len() == 0 || is_separator(base.last(), sep) {
        base + name
    } else {
        base.push(sep) + name
    }
}

/// `base` with the relative component `name` appended, `sep` being the
/// main separator.
pub fn join_path(base: &str, name: &str, sep: char) -> (r: String)
    ensures
        r@ == joined(base@, name@, sep),
{
    let mut r = owned(base);
    let n = base.unicode_len();
    if n > 0 {
        let last = base.get_char(n - 1);
        if !(last == '/' || last == sep) {
            push_char(&mut r, sep);
        }
    }
    append_str(&mut r, name);
    r
}

/// The user's picture directory (`dirs::picture_dir`), as text; it depends
/// on the machine and the environment, so nothing is claimed of it.
#[verifier::external_body]
pub(crate) fn picture_dir() -> (r: Option<String>) {
    dirs::picture_dir().map(|path| path.to_string_lossy().into_owned())
}

/// The user's home directory (`dirs::home_dir`), as text; it depends on the
/// machine and the environment, so nothing is claimed of it.
#[verifier::external_body]
pub(crate) fn home_dir() -> (r: Option<String>) {
    dirs::home_dir().map(|path| path.to_string_lossy().into_owned())
}

/// The user's configuration directory (`dirs::config_dir`), as text; it
/// depends on the machine and the environment, so nothing is claimed of it.
#[verifier::external_body]
pub(crate) fn config_dir() -> (r: Option<String>) {
    dirs::config_dir().map(|path| path.to_string_lossy().into_owned())
}

/// The user's cache directory (`dirs::cache_dir`), as text; it depends on the
/// machine and the environment, so nothing is claimed of it.
#[verifier::external_body]
pub(crate) fn cache_dir() -> (r: Option<String>) {
    dirs::cache_dir().map(|path| path.to_string_lossy().into_owned())
}

} // verus!
