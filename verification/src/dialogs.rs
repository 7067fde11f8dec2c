//! File names for saved captures: the suggested name of a new capture and
//! the `.png` extension of a chosen path.

use vstd::prelude::*;
use crate::calendar::{civil_date_from_unix_days, date_of_day};
use crate::paths::{is_separator, main_separator};
use crate::text::{
    append_str, ascii_lower, chars_of, concat3, decimal, lower_chars, owned,
    padded_decimal, string_from_range, to_ascii_lower, trim, trimmed, zero_padded,
};

verus! {

broadcast use vstd::string::group_string_axioms;

/// `n` in decimal, padded with zeros to `width` digits.
pub open spec fn padded(n: nat, width: nat) -> Seq<char> {
    zero_padded(decimal(n), width)
}

/// The suggested file name of a capture taken `seconds` seconds after the
/// Unix epoch: `AzusaLens_YYYYMMDD_hhmmssZ.png`, in UTC.
pub open spec fn png_name_at(seconds: nat) -> Seq<char> {
    let date = date_of_day((seconds / 86400) as int);
    let second_of_day = seconds % 86400;
    "AzusaLens_"@ + padded(date.0 as nat, 4) + padded(date.1 as nat, 2) + padded(date.2 as nat, 2) + "_"@ + padded(
        second_of_day / 3600,
        2,
    ) + padded((second_of_day % 3600) / 60, 2) + padded(second_of_day % 60, 2) + "Z.png"@
}

/// The suggested file name of a capture taken `seconds` seconds after the
/// Unix epoch.
pub fn suggested_png_name_at(seconds: u64) -> (r: String)
    ensures
        r@ == png_name_at(seconds as nat),
{
    let days = (seconds / 86400) as i64;
    let seconds_of_day = seconds % 86400;
    let hour = seconds_of_day / 3600;
    let minute = (seconds_of_day % 3600) / 60;
    let second = seconds_of_day % 60;
    let (year, month, day) = civil_date_from_unix_days(days);
    proof {
        crate::calendar::lemma_date_of_day(days as int);
        assert(year >= 1970) by {
            if year < 1970 {
                crate::calendar::lemma_dates_distinct(year as int, month as int, day as int, year as int, month as int, day as int);
                lemma_before_epoch(year as int, month as int, day as int);
            }
        }
    }
    let mut s = owned("AzusaLens_");
    let y = padded_decimal(year as u64, 4);
    let mo = padded_decimal(month as u64, 2);
    let d = padded_decimal(day as u64, 2);
    let h = padded_decimal(hour, 2);
    let mi = padded_decimal(minute, 2);
    let se = padded_decimal(second, 2);
    append_str(&mut s, y.as_str());
    append_str(&mut s, mo.as_str());
    append_str(&mut s, d.as_str());
    append_str(&mut s, "_");
    append_str(&mut s, h.as_str());
    append_str(&mut s, mi.as_str());
    append_str(&mut s, se.as_str());
    append_str(&mut s, "Z.png");
    s
}

/// Dates before 1970 have negative day counts.
proof fn lemma_before_epoch(y: int, m: int, d: int)
    requires
        crate::calendar::is_valid_date(y, m, d),
        y < 1970,
    ensures
        crate::calendar::days_from_civil(y, m, d) < 0,
{
    crate::calendar::lemma_day_of_year(y, m, d);
    crate::calendar::lemma_years_ordered(y, 1970);
}

/// The current time in whole seconds since the Unix epoch
/// (`SystemTime::now`), zero when the clock is set before the epoch; it
/// depends on the clock, so nothing is claimed of it.
#[verifier::external_body]
fn unix_seconds_now() -> (r: u64) {
    std::time::SystemTime::now()
        .duration_since(std::time::UNIX_EPOCH)
        .unwrap_or_default()
        .as_secs()
}

/// The suggested file name of a capture taken now.
pub fn suggested_png_name() -> (r: String)
    ensures
        exists|seconds: nat| r@ == png_name_at(seconds),
{
    let seconds = unix_seconds_now();
    suggested_png_name_at(seconds)
}

/// The end of the file name of `p[..end]`: trailing separators and `.`
/// components do not belong to it.
pub open spec fn name_end(p: Seq<char>, end: int, sep: char) -> int
    decreases end,
{
    if end <= 0 {
        0
    } else if is_separator(p[end - 1], sep) {
        name_end(p, end - 1, sep)
    } else if p[end - 1] == '.' && (end == 1 || is_separator(p[end - 2], sep)) {
        name_end(p, end - 1, sep)
    } else {
        end
    }
}

/// The start of the last component of `p[..end]`.
pub open spec fn name_start(p: Seq<char>, end: int, sep: char) -> int
    decreases end,
{
    if end <= 0 {
        0
    } else if is_separator(p[end - 1], sep) {
        end
    } else {
        name_start(p, end - 1, sep)
    }
}

/// The position of the last `.` of `name` after its first character, if any.
pub open spec fn last_dot(name: Seq<char>, end: int) -> Option<int>
    decreases end,
{
    if end <= 1 {
        None
    } else if name[end - 1] == '.' {
        Some(end - 1)
    } else {
        last_dot(name, end - 1)
    }
}

/// `path` with a `.png` extension, as `Path::with_extension` gives it: kept
/// when its extension already is `png` in any letter case, or when it has
/// no file name (it is empty, a root, or ends in `..`); otherwise the
/// extension is replaced, or added when there is none, and whatever
/// followed the file name is dropped.
pub open spec fn with_png_extension(path: Seq<char>, sep: char) -> Seq<char> {
    let end = name_end(path, path.len() as int, sep);
    let start = name_start(path, end, sep);
    let name = path.subrange(start, end);
    if end == 0 || name == ".."@ {
        path
    } else {
        match last_dot(name, name.len() as int) {
            Some(dot) => if to_ascii_lower(name.subrange(dot + 1, name.len() as int)) == "png"@ {
                path
            } else {
                path.subrange(0, start + dot) + ".png"@
            },
            None => path.subrange(0, end) + ".png"@,
        }
    }
}

/// `path` with a `.png` extension, `sep` being the main path separator.
pub fn png_extension_for(path: &str, sep: char) -> (r: String)
    ensures
        r@ == with_png_extension(path@, sep),
{
    let p = chars_of(path);
    let n = p.len();
    let mut end = n;
    while end > 0 && ((p[end - 1] == '/' || p[end - 1] == sep) || (p[end - 1] == '.' && (end == 1
        || (p[end - 2] == '/' || p[end - 2] == sep))))
        invariant
            end <= n == p@.len(),
            name_end(p@, n as int, sep) == name_end(p@, end as int, sep),
        decreases end,
    {
        end -= 1;
    }
    let mut start = end;
    while start > 0 && !(p[start - 1] == '/' || p[start - 1] == sep)
        invariant
            start <= end <= n == p@.len(),
            name_start(p@, end as int, sep) == name_start(p@, start as int, sep),
        decreases start,
    {
        start -= 1;
    }
    let name = string_from_range(p.as_slice(), start, end);
    let name_chars = chars_of(name.as_str());
    let is_parent = name_chars.len() == 2 && name_chars[0] == '.' && name_chars[1] == '.';
    proof {
        reveal_strlit("..");
        if name@ == ".."@ {
            assert(name@[0] == '.' && name@[1] == '.');
        }
        if is_parent {
            assert(name@ =~= ".."@);
        }
    }
    if end == 0 || is_parent {
        return owned(path);
    }
    let mut dot = name_chars.len();
    while dot > 1 && name_chars[dot - 1] != '.'
        invariant
            dot <= name_chars@.len(),
            last_dot(name_chars@, name_chars@.len() as int) == last_dot(name_chars@, dot as int),
        decreases dot,
    {
        dot -= 1;
    }
    if dot > 1 {
        let k = dot - 1;
        let tail = &name_chars.as_slice()[k + 1..name_chars.len()];
        let ext = lower_chars(tail);
        proof {
            reveal_strlit("png");
        }
        let is_png = ext.len() == 3 && ext[0] == 'p' && ext[1] == 'n' && ext[2] == 'g';
        proof {
            if is_png {
                assert(ext@ =~= "png"@);
            }
            if ext@ == "png"@ {
                assert(ext@[0] == 'p' && ext@[1] == 'n' && ext@[2] == 'g');
            }
        }
        if is_png {
            return owned(path);
        }
        let mut r = string_from_range(p.as_slice(), 0, start + k);
        append_str(&mut r, ".png");
        r
    } else {
        let mut r = string_from_range(p.as_slice(), 0, end);
        append_str(&mut r, ".png");
        r
    }
}

/// `path` with a `.png` extension, on this platform.
pub fn ensure_png_extension(path: &str) -> (r: String)
    ensures
        exists|sep: char| (sep == '/' || sep == '\\') && r@ == with_png_extension(path@, sep),
{
    let sep = main_separator();
    png_extension_for(path, sep)
}

/// What a dialog helper program's run means: its error when it failed
/// (its trimmed error output, else its exit status), else the path it
/// printed, trimmed, or `None` when it printed nothing (the user
/// cancelled).  `stdout` is the printed text, or why it is not UTF-8.
pub open spec fn dialog_outcome(
    dialog_name: Seq<char>,
    success: bool,
    status: Seq<char>,
    stderr: Seq<char>,
    stdout: Result<Seq<char>, Seq<char>>,
) -> Result<Option<Seq<char>>, Seq<char>> {
    if !success {
        if trim(stderr).len() == 0 {
            Err(dialog_name + " exited with status "@ + status)
        } else {
            Err(dialog_name + " failed: "@ + trim(stderr))
        }
    } else {
        match stdout {
            Err(error) => Err(dialog_name + " returned non-UTF-8 output: "@ + error),
            Ok(text) => if trim(text).len() == 0 {
                Ok(None)
            } else {
                Ok(Some(trim(text)))
            },
        }
    }
}

/// The path a dialog helper program chose, from how its run ended.
pub fn dialog_output_path(
    dialog_name: &str,
    success: bool,
    status: &str,
    stderr: &str,
    stdout: Result<&str, &str>,
) -> (r: Result<Option<String>, String>)
    ensures
        dialog_outcome(
            dialog_name@,
            success,
            status@,
            stderr@,
            match stdout {
                Ok(t) => Ok(t@),
                Err(e) => Err(e@),
            },
        ) == match r {
            Ok(Some(path)) => Ok(Some(path@)),
            Ok(None) => Ok(None),
            Err(e) => Err(e@),
        },
{
    if !success {
        let detail = trimmed(stderr);
        if detail.unicode_len() == 0 {
            return Err(concat3(dialog_name, " exited with status ", status));
        }
        return Err(concat3(dialog_name, " failed: ", detail.as_str()));
    }
    match stdout {
        Err(error) => Err(concat3(dialog_name, " returned non-UTF-8 output: ", error)),
        Ok(text) => {
            let path = trimmed(text);
            if path.unicode_len() == 0 {
                Ok(None)
            } else {
                Ok(Some(path))
            }
        },
    }
}

} // verus!
