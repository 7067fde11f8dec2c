//! Recognising an image file from the file manager: the command line that
//! asks for it, and where the recognised text is written.

use vstd::prelude::*;
use crate::ocr::{task_from_name, task_name, OcrTaskKind};
use crate::text::{
    append_str, chars_of, concat2, decimal, decimal_string, find, find_from,
    lemma_find_from_complete, opt_chars, owned, replace_all, replace_all_str, str_eq,
    string_from_range, strip_prefix, strip_prefix_str, trim, trimmed,
};

verus! {

broadcast use vstd::string::group_string_axioms;

/// A request to recognise the image at `source_path`.
#[derive(Clone, Debug)]
pub struct FileOcrRequest {
    pub task: OcrTaskKind,
    pub source_path: String,
}

/// The task and file named by the arguments from position `i` on, given
/// what the earlier arguments named: `--ocr-type` and `--ocr-file` each
/// take the argument after them (the last one given wins; a flag at the
/// end names nothing), and other arguments are ignored.
pub open spec fn scan_args(
    args: Seq<Seq<char>>,
    i: int,
    task: Option<OcrTaskKind>,
    source: Option<Seq<char>>,
) -> (Option<OcrTaskKind>, Option<Seq<char>>)
    decreases args.len() - i,
{
    if i < 0 || i >= args.len() {
        (task, source)
    } else if args[i] == "--ocr-type"@ {
        if i + 1 < args.len() {
            scan_args(args, i + 2, task_from_name(args[i + 1]), source)
        } else {
            (None, source)
        }
    } else if args[i] == "--ocr-file"@ {
        if i + 1 < args.len() {
            scan_args(args, i + 2, task, Some(args[i + 1]))
        } else {
            (task, None)
        }
    } else {
        scan_args(args, i + 1, task, source)
    }
}

/// The request the command-line arguments make: one needs a file; the
/// task defaults to document parsing.
pub open spec fn requested(args: Seq<Seq<char>>) -> Option<(OcrTaskKind, Seq<char>)> {
    let (task, source) = scan_args(args, 0, None, None);
    match source {
        Some(path) => Some(
            (
                match task {
                    Some(t) => t,
                    None => OcrTaskKind::Document,
                },
                path,
            ),
        ),
        None => None,
    }
}

/// The request made by the command-line arguments `args` (without the
/// program name), if they name a file.
pub fn request_from_args(args: &Vec<String>) -> (r: Option<FileOcrRequest>)
    ensures
        match requested(crate::text::views(args@)) {
            Some((task, path)) => r matches Some(req) && req.task == task && req.source_path@ == path,
            None => r is None,
        },
{
    let ghost all = crate::text::views(args@);
    let mut task: Option<OcrTaskKind> = None;
    let mut source: Option<String> = None;
    let mut i: usize = 0;
    while i < args.len()
        invariant
            i <= args@.len() + 1,
            all == crate::text::views(args@),
            scan_args(all, 0, None, None) == scan_args(all, i as int, task, opt_chars(source)),
        ensures
            scan_args(all, 0, None, None) == (task, opt_chars(source)),
        decreases args.len() - i,
    {
        let arg = args[i].as_str();
        if str_eq(arg, "--ocr-type") {
            if i + 1 < args.len() {
                task = OcrTaskKind::from_value(args[i + 1].as_str());
                i += 2;
            } else {
                task = None;
                i += 1;
                assert(scan_args(all, i as int, task, opt_chars(source)) == (task, opt_chars(source)));
                break;
            }
        } else if str_eq(arg, "--ocr-file") {
            if i + 1 < args.len() {
                source = Some(owned(args[i + 1].as_str()));
                i += 2;
            } else {
                source = None;
                i += 1;
                assert(scan_args(all, i as int, task, opt_chars(source)) == (task, opt_chars(source)));
                break;
            }
        } else {
            i += 1;
        }
    }
    match source {
        Some(path) => Some(
            FileOcrRequest {
                task: match task {
                    Some(t) => t,
                    None => OcrTaskKind::Document,
                },
                source_path: path,
            },
        ),
        None => None,
    }
}

/// The name of the `suffix`-th candidate file for a result: `base.ext`
/// first, then `base_2.ext`, `base_3.ext` and so on.
pub open spec fn output_name(base: Seq<char>, extension: Seq<char>, suffix: nat) -> Seq<char> {
    if suffix == 1 {
        base + "."@ + extension
    } else {
        base + "_"@ + decimal(suffix) + "."@ + extension
    }
}

/// The name of the `suffix`-th candidate file for a result.
pub fn output_file_name(base: &str, extension: &str, suffix: u32) -> (r: String)
    ensures
        r@ == output_name(base@, extension@, suffix as nat),
{
    let mut name = owned(base);
    if suffix != 1 {
        append_str(&mut name, "_");
        let n = decimal_string(suffix as u64);
        append_str(&mut name, n.as_str());
    }
    append_str(&mut name, ".");
    append_str(&mut name, extension);
    name
}

/// The base name of the result of recognising the file whose name without
/// extension is `stem`: `<stem>.azusa-<task>`.
pub fn output_base(stem: &str, task: OcrTaskKind) -> (r: String)
    ensures
        r@ == stem@ + ".azusa-"@ + task_name(task),
{
    let mut base = owned(stem);
    append_str(&mut base, ".azusa-");
    append_str(&mut base, task.as_str());
    base
}

/// `s` without the double quotes at its start and end.
pub open spec fn strip_quotes(s: Seq<char>) -> Seq<char>
    decreases s.len(),
{
    if s.len() > 0 && s[0] == '"' {
        strip_quotes(s.drop_first())
    } else if s.len() > 0 && s.last() == '"' {
        strip_quotes(s.drop_last())
    } else {
        s
    }
}

/// The documents directory a line of `user-dirs.dirs` sets, with `$HOME`
/// replaced by `home`.
pub open spec fn documents_entry(line: Seq<char>, home: Seq<char>) -> Option<Seq<char>> {
    match strip_prefix(line, "XDG_DOCUMENTS_DIR="@) {
        Some(value) => {
            let v = strip_quotes(trim(value));
            if v.len() > 0 {
                Some(replace_all(v, "$HOME"@, home))
            } else {
                None
            }
        },
        None => None,
    }
}

/// The first line of `s` and what follows it (`str::lines`: a line ends at
/// `\n`, or at `\r\n`, which is then not part of it).
pub open spec fn split_line(s: Seq<char>) -> (Seq<char>, Seq<char>) {
    match find_from(s, "\n"@, 0) {
        Some(i) => {
            let line = s.take(i);
            (
                if line.len() > 0 && line.last() == '\r' {
                    line.drop_last()
                } else {
                    line
                },
                s.skip(i + 1),
            )
        },
        None => (s, Seq::empty()),
    }
}

/// The documents directory that the first line of `contents` setting one
/// gives.
pub open spec fn documents_dir_in(contents: Seq<char>, home: Seq<char>) -> Option<Seq<char>>
    decreases contents.len(),
{
    if contents.len() == 0 {
        None
    } else {
        let (line, rest) = split_line(contents);
        proof {
            reveal_strlit("\n");
            lemma_find_from_complete(contents, "\n"@, 0);
        }
        match documents_entry(line, home) {
            Some(d) => Some(d),
            None => documents_dir_in(rest, home),
        }
    }
}

/// `s` without surrounding double quotes.
fn strip_quotes_str(s: &str) -> (r: String)
    ensures
        r@ == strip_quotes(s@),
{
    let v = chars_of(s);
    let mut start: usize = 0;
    let mut end: usize = v.len();
    assert(v@.subrange(0, v@.len() as int) =~= v@);
    while start < end && v[start] == '"'
        invariant
            start <= end <= v@.len(),
            end == v@.len(),
            strip_quotes(v@) == strip_quotes(v@.subrange(start as int, end as int)),
        decreases end - start,
    {
        assert(v@.subrange(start as int, end as int).drop_first() =~= v@.subrange(start + 1, end as int));
        start += 1;
    }
    while start < end && v[end - 1] == '"'
        invariant
            start <= end <= v@.len(),
            start == end || v@[start as int] != '"',
            strip_quotes(v@) == strip_quotes(v@.subrange(start as int, end as int)),
        decreases end - start,
    {
        assert(v@.subrange(start as int, end as int).drop_last() =~= v@.subrange(start as int, end - 1));
        end -= 1;
    }
    string_from_range(v.as_slice(), start, end)
}

/// The documents directory that `contents` (a `user-dirs.dirs` file) sets
/// for the user whose home directory is `home`, if it sets one.
pub fn xdg_documents_dir(contents: &str, home: &str) -> (r: Option<String>)
    ensures
        opt_chars(r) == documents_dir_in(contents@, home@),
{
    let v = chars_of(contents);
    let newline = chars_of("\n");
    proof {
        reveal_strlit("\n");
    }
    let mut pos: usize = 0;
    assert(v@.skip(0) =~= v@);
    while pos < v.len()
        invariant
            pos <= v@.len(),
            v@ == contents@,
            newline@ == "\n"@,
            documents_dir_in(contents@, home@) == documents_dir_in(v@.skip(pos as int), home@),
        decreases v.len() - pos,
    {
        let ghost rest = v@.skip(pos as int);
        proof {
            reveal_strlit("\n");
            crate::text::lemma_find_shift(v@, newline@, pos as int);
            lemma_find_from_complete(v@, newline@, pos as int);
        }
        let (line_end, next) = match find(v.as_slice(), newline.as_slice(), pos) {
            Some(i) => {
                let end = if i > pos && v[i - 1] == '\r' { i - 1 } else { i };
                (end, i + 1)
            },
            None => (v.len(), v.len()),
        };
        let line = string_from_range(v.as_slice(), pos, line_end);
        proof {
            let (sl, sr) = split_line(rest);
            assert(line@ =~= sl);
            assert(v@.skip(next as int) =~= sr);
        }
        match strip_prefix_str(line.as_str(), "XDG_DOCUMENTS_DIR=") {
            Some(value) => {
                let t = trimmed(value.as_str());
                let unquoted = strip_quotes_str(t.as_str());
                if unquoted.unicode_len() > 0 {
                    return Some(replace_all_str(unquoted.as_str(), "$HOME", home));
                }
            },
            None => {},
        }
        pos = next;
    }
    assert(v@.skip(pos as int) =~= Seq::<char>::empty());
    None
}

} // verus!
