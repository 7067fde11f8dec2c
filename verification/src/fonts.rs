//! Where text annotations look for a font: the files tried first, the
//! directories searched after them, and which files count as fonts.

use vstd::prelude::*;
use crate::paths::{join_path, joined};
use crate::platform::Platform;
use crate::text::{chars_of, lower_chars, opt_chars, owned, to_ascii_lower, views};

verus! {

broadcast use vstd::string::group_string_axioms;

/// The main path separator of `platform`.
pub open spec fn platform_separator(platform: Platform) -> char {
    if platform == Platform::Windows {
        '\\'
    } else {
        '/'
    }
}

/// The font files tried first, in order: the one the user names, then the
/// usual system fonts of the platform (on Windows under `windir`, else
/// `C:\Windows`).
pub open spec fn preferred_fonts(
    platform: Platform,
    user_font: Option<Seq<char>>,
    windir: Option<Seq<char>>,
) -> Seq<Seq<char>> {
    let first = match user_font {
        Some(path) => seq![path],
        None => Seq::empty(),
    };
    first + match platform {
        Platform::Windows => {
            let base = match windir {
                Some(w) => w,
                None => "C:\\Windows"@,
            };
            let fonts = joined(base, "Fonts"@, '\\');
            seq![
                joined(fonts, "msyh.ttc"@, '\\'),
                joined(fonts, "segoeui.ttf"@, '\\'),
                joined(fonts, "arial.ttf"@, '\\'),
            ]
        },
        Platform::MacOs => seq![
            "/System/Library/Fonts/PingFang.ttc"@,
            "/System/Library/Fonts/SFNS.ttf"@,
            "/Library/Fonts/Arial Unicode.ttf"@,
        ],
        Platform::Linux => seq![
            "/usr/share/fonts/noto-cjk/NotoSansCJK-Regular.ttc"@,
            "/usr/share/fonts/opentype/noto/NotoSansCJK-Regular.ttc"@,
            "/usr/share/fonts/truetype/noto/NotoSans-Regular.ttf"@,
            "/usr/share/fonts/truetype/dejavu/DejaVuSans.ttf"@,
        ],
        Platform::Other => Seq::empty(),
    }
}

/// The directories searched for any font when no preferred one loads: the
/// platform's font directories (on Windows only under `windir`), then
/// `.local/share/fonts` under the home directory.
pub open spec fn fallback_font_dirs(
    platform: Platform,
    windir: Option<Seq<char>>,
    home: Option<Seq<char>>,
) -> Seq<Seq<char>> {
    let system = match platform {
        Platform::Windows => match windir {
            Some(w) => seq![joined(w, "Fonts"@, '\\')],
            None => Seq::empty(),
        },
        Platform::MacOs => seq!["/System/Library/Fonts"@, "/Library/Fonts"@],
        Platform::Linux => seq!["/usr/share/fonts"@, "/usr/local/share/fonts"@],
        Platform::Other => Seq::empty(),
    };
    system + match home {
        Some(h) => seq![joined(h, ".local/share/fonts"@, platform_separator(platform))],
        None => Seq::empty(),
    }
}

/// The font files tried first on `platform`; `user_font` is the file the
/// user names, `windir` the Windows directory.
pub fn preferred_font_paths(platform: Platform, user_font: Option<String>, windir: Option<String>) -> (r:
    Vec<String>)
    ensures
        views(r@) == preferred_fonts(
            platform,
            opt_chars(user_font),
            opt_chars(windir),
        ),
{
    let ghost user = opt_chars(user_font);
    let ghost win = opt_chars(windir);
    let mut paths: Vec<String> = Vec::new();
    match user_font {
        Some(path) => paths.push(path),
        None => {},
    }
    let ghost first = views(paths@);
    match platform {
        Platform::Windows => {
            let base = match windir {
                Some(w) => w,
                None => owned("C:\\Windows"),
            };
            let fonts = join_path(base.as_str(), "Fonts", '\\');
            paths.push(join_path(fonts.as_str(), "msyh.ttc", '\\'));
            paths.push(join_path(fonts.as_str(), "segoeui.ttf", '\\'));
            paths.push(join_path(fonts.as_str(), "arial.ttf", '\\'));
        },
        Platform::MacOs => {
            paths.push(owned("/System/Library/Fonts/PingFang.ttc"));
            paths.push(owned("/System/Library/Fonts/SFNS.ttf"));
            paths.push(owned("/Library/Fonts/Arial Unicode.ttf"));
        },
        Platform::Linux => {
            paths.push(owned("/usr/share/fonts/noto-cjk/NotoSansCJK-Regular.ttc"));
            paths.push(owned("/usr/share/fonts/opentype/noto/NotoSansCJK-Regular.ttc"));
            paths.push(owned("/usr/share/fonts/truetype/noto/NotoSans-Regular.ttf"));
            paths.push(owned("/usr/share/fonts/truetype/dejavu/DejaVuSans.ttf"));
        },
        Platform::Other => {},
    }
    assert(views(paths@) =~= preferred_fonts(platform, user, win));
    paths
}

/// The directories searched for any font on `platform`.
pub fn fallback_font_directories(platform: Platform, windir: Option<String>, home: Option<String>) -> (r:
    Vec<String>)
    ensures
        views(r@) == fallback_font_dirs(
            platform,
            opt_chars(windir),
            opt_chars(home),
        ),
{
    let ghost win = opt_chars(windir);
    let ghost user_home = opt_chars(home);
    let mut directories: Vec<String> = Vec::new();
    match platform {
        Platform::Windows => match windir {
            Some(w) => directories.push(join_path(w.as_str(), "Fonts", '\\')),
            None => {},
        },
        Platform::MacOs => {
            directories.push(owned("/System/Library/Fonts"));
            directories.push(owned("/Library/Fonts"));
        },
        Platform::Linux => {
            directories.push(owned("/usr/share/fonts"));
            directories.push(owned("/usr/local/share/fonts"));
        },
        Platform::Other => {},
    }
    match home {
        Some(h) => {
            let sep = if platform == Platform::Windows {
                '\\'
            } else {
                '/'
            };
            directories.push(join_path(h.as_str(), ".local/share/fonts", sep));
        },
        None => {},
    }
    assert(views(directories@) =~= fallback_font_dirs(platform, win, user_home));
    directories
}

/// A file with this extension is a font: `ttf`, `otf` or `ttc`, in any
/// case.
pub open spec fn font_extension(extension: Seq<char>) -> bool {
    let lower = to_ascii_lower(extension);
    lower == "ttf"@ || lower == "otf"@ || lower == "ttc"@
}

/// Whether a file with extension `extension` is a font.
pub fn is_font_extension(extension: &str) -> (r: bool)
    ensures
        r == font_extension(extension@),
{
    let lower = lower_chars(chars_of(extension).as_slice());
    let ttf = chars_of("ttf");
    let otf = chars_of("otf");
    let ttc = chars_of("ttc");
    proof {
        reveal_strlit("ttf");
        reveal_strlit("otf");
        reveal_strlit("ttc");
    }
    let r = same_chars(&lower, &ttf) || same_chars(&lower, &otf) || same_chars(&lower, &ttc);
    r
}

fn same_chars(a: &Vec<char>, b: &Vec<char>) -> (r: bool)
    ensures
        r == (a@ == b@),
{
    if a.len() != b.len() {
        return false;
    }
    let mut i: usize = 0;
    while i < a.len()
        invariant
            a@.len() == b@.len(),
            i <= a@.len(),
            forall|j: int| 0 <= j < i ==> a@[j] == b@[j],
        decreases a.len() - i,
    {
        if a[i] != b[i] {
            return false;
        }
        i += 1;
    }
    assert(a@ =~= b@);
    true
}

} // verus!
