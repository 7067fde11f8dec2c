//! Character-level string operations with their meaning stated over `Seq<char>`.

use vstd::prelude::*;

verus! {

broadcast use vstd::string::group_string_axioms;

/// `p` is a prefix of `s`.
pub open spec fn is_prefix_of(p: Seq<char>, s: Seq<char>) -> bool {
    p.len() <= s.len() && s.subrange(0, p.len() as int) == p
}

/// `p` is a suffix of `s`.
pub open spec fn is_suffix_of(p: Seq<char>, s: Seq<char>) -> bool {
    p.len() <= s.len() && s.subrange(s.len() - p.len(), s.len() as int) == p
}

/// `p` occurs in `s` starting at index `i`.
pub open spec fn occurs_at(s: Seq<char>, p: Seq<char>, i: int) -> bool {
    0 <= i && i + p.len() <= s.len() && s.subrange(i, i + p.len()) == p
}

/// `p` occurs somewhere in `s`.
pub open spec fn contains_chars(s: Seq<char>, p: Seq<char>) -> bool {
    exists|i: int| occurs_at(s, p, i)
}

/// The first index at or after `from` where `p` occurs in `s`.
pub open spec fn find_from(s: Seq<char>, p: Seq<char>, from: int) -> Option<int>
    decreases s.len() + 1 - from,
{
    if from < 0 || from + p.len() > s.len() {
        None
    } else if occurs_at(s, p, from) {
        Some(from)
    } else {
        find_from(s, p, from + 1)
    }
}

/// Unicode `White_Space`, the set that `char::is_whitespace` accepts.
pub open spec fn is_whitespace(c: char) -> bool {
    ||| '\u{9}' <= c <= '\u{d}'
    ||| c == ' '
    ||| c == '\u{85}'
    ||| c == '\u{a0}'
    ||| c == '\u{1680}'
    ||| '\u{2000}' <= c <= '\u{200a}'
    ||| c == '\u{2028}'
    ||| c == '\u{2029}'
    ||| c == '\u{202f}'
    ||| c == '\u{205f}'
    ||| c == '\u{3000}'
}

/// `s` without its leading whitespace.
pub open spec fn trim_start(s: Seq<char>) -> Seq<char>
    decreases s.len(),
{
    if s.len() > 0 && is_whitespace(s[0]) {
        trim_start(s.drop_first())
    } else {
        s
    }
}

/// `s` without its trailing whitespace.
pub open spec fn trim_end(s: Seq<char>) -> Seq<char>
    decreases s.len(),
{
    if s.len() > 0 && is_whitespace(s.last()) {
        trim_end(s.drop_last())
    } else {
        s
    }
}

/// `s` without leading and trailing whitespace (`str::trim`).
pub open spec fn trim(s: Seq<char>) -> Seq<char> {
    trim_end(trim_start(s))
}

/// ASCII upper-case letters mapped to lower case, everything else kept.
pub open spec fn ascii_lower(c: char) -> char {
    if 'A' <= c <= 'Z' {
        ((c as u32) + 32) as char
    } else {
        c
    }
}

/// ASCII lower-case letters mapped to upper case, everything else kept.
pub open spec fn ascii_upper(c: char) -> char {
    if 'a' <= c <= 'z' {
        ((c as u32) - 32) as char
    } else {
        c
    }
}

/// `str::to_ascii_lowercase`.
pub open spec fn to_ascii_lower(s: Seq<char>) -> Seq<char> {
    s.map_values(|c: char| ascii_lower(c))
}

/// Appends one character to a string (`String::push`).
#[verifier::external_body]
pub(crate) fn push_char(s: &mut String, c: char)
    ensures
        final(s)@ == old(s)@.push(c),
{
    s.push(c);
}

/// The characters of `s`, in order.
pub fn chars_of(s: &str) -> (v: Vec<char>)
    ensures
        v@ == s@,
{
    let mut v: Vec<char> = Vec::new();
    for c in it: s.chars()
        invariant
            v@ == it.seq().take(it.index() as int),
    {
        v.push(c);
    }
    assert(v@ =~= s@);
    v
}

/// The string made of the characters `v[from..to]`.
pub fn string_from_range(v: &[char], from: usize, to: usize) -> (s: String)
    requires
        from <= to <= v@.len(),
    ensures
        s@ == v@.subrange(from as int, to as int),
{
    let mut s = String::new();
    let mut i = from;
    while i < to
        invariant
            from <= i <= to <= v@.len(),
            s@ == v@.subrange(from as int, i as int),
        decreases to - i,
    {
        push_char(&mut s, v[i]);
        i += 1;
        assert(s@ =~= v@.subrange(from as int, i as int));
    }
    s
}

/// The string made of all characters of `v`.
pub fn string_from_chars(v: &[char]) -> (s: String)
    ensures
        s@ == v@,
{
    let s = string_from_range(v, 0, v.len());
    assert(v@.subrange(0, v@.len() as int) =~= v@);
    s
}

/// Appends the characters of `tail` to `s`.
pub fn append_chars(s: &mut String, tail: &[char])
    ensures
        final(s)@ == old(s)@ + tail@,
{
    let mut i: usize = 0;
    while i < tail.len()
        invariant
            i <= tail@.len(),
            s@ == old(s)@ + tail@.subrange(0, i as int),
        decreases tail.len() - i,
    {
        push_char(s, tail[i]);
        i += 1;
        assert(s@ =~= old(s)@ + tail@.subrange(0, i as int));
    }
    assert(tail@.subrange(0, tail@.len() as int) =~= tail@);
}

/// Appends the characters of `tail` to `s`.
pub fn append_str(s: &mut String, tail: &str)
    ensures
        final(s)@ == old(s)@ + tail@,
{
    let t = chars_of(tail);
    append_chars(s, t.as_slice());
}

/// Whether `p` occurs in `s` at index `i`.
pub fn matches_at(s: &[char], p: &[char], i: usize) -> (r: bool)
    ensures
        r == occurs_at(s@, p@, i as int),
{
    if i > s.len() || p.len() > s.len() - i {
        return false;
    }
    let mut k: usize = 0;
    while k < p.len()
        invariant
            i <= s@.len(),
            i + p@.len() <= s@.len(),
            k <= p@.len(),
            forall|j: int| 0 <= j < k ==> s@[i + j] == p@[j],
        decreases p.len() - k,
    {
        assert(i + k < s.len());
        if s[i + k] != p[k] {
            assert(s@.subrange(i as int, i + p@.len())[k as int] != p@[k as int]);
            return false;
        }
        k += 1;
    }
    assert(s@.subrange(i as int, i + p@.len()) =~= p@);
    true
}

/// Whether `s` begins with `p`.
pub fn starts_with(s: &[char], p: &[char]) -> (r: bool)
    ensures
        r == is_prefix_of(p@, s@),
{
    matches_at(s, p, 0)
}

/// Whether `s` ends with `p`.
pub fn ends_with(s: &[char], p: &[char]) -> (r: bool)
    ensures
        r == is_suffix_of(p@, s@),
{
    if p.len() > s.len() {
        return false;
    }
    matches_at(s, p, s.len() - p.len())
}

/// The first index at or after `from` where `p` occurs in `s`.
pub fn find(s: &[char], p: &[char], from: usize) -> (r: Option<usize>)
    ensures
        r matches Some(i) ==> find_from(s@, p@, from as int) == Some(i as int),
        r is None ==> find_from(s@, p@, from as int) is None,
{
    let mut i = from;
    while i <= s.len() && p.len() <= s.len() - i
        invariant
            from <= i,
            find_from(s@, p@, from as int) == find_from(s@, p@, i as int),
        decreases s.len() + 1 - i,
    {
        if matches_at(s, p, i) {
            return Some(i);
        }
        if i == s.len() {
            assert(find_from(s@, p@, i + 1) is None);
            return None;
        }
        i += 1;
    }
    None
}

/// Whether `p` occurs anywhere in `s`.
pub fn contains(s: &[char], p: &[char]) -> (r: bool)
    ensures
        r == contains_chars(s@, p@),
{
    proof {
        lemma_find_from_complete(s@, p@, 0);
    }
    find(s, p, 0).is_some()
}

/// `find_from` reports the first occurrence, and `None` only when there is none.
pub proof fn lemma_find_from_complete(s: Seq<char>, p: Seq<char>, from: int)
    requires
        0 <= from,
    ensures
        find_from(s, p, from) matches Some(i) ==> occurs_at(s, p, i) && from <= i
            && forall|j: int| from <= j < i ==> !occurs_at(s, p, j),
        find_from(s, p, from) is None ==> forall|j: int| from <= j ==> !occurs_at(s, p, j),
    decreases s.len() + 1 - from,
{
    if from + p.len() > s.len() {
    } else if occurs_at(s, p, from) {
    } else {
        lemma_find_from_complete(s, p, from + 1);
    }
}

/// Whether `c` is whitespace (`char::is_whitespace`).
pub fn char_is_whitespace(c: char) -> (r: bool)
    ensures
        r == is_whitespace(c),
{
    ('\u{9}' <= c && c <= '\u{d}') || c == ' ' || c == '\u{85}' || c == '\u{a0}' || c == '\u{1680}'
        || ('\u{2000}' <= c && c <= '\u{200a}') || c == '\u{2028}' || c == '\u{2029}' || c
        == '\u{202f}' || c == '\u{205f}' || c == '\u{3000}'
}

/// The bounds `(start, end)` such that `v[start..end]` is `v` trimmed.
pub fn trim_bounds(v: &[char]) -> (r: (usize, usize))
    ensures
        r.0 <= r.1 <= v@.len(),
        v@.subrange(r.0 as int, r.1 as int) == trim(v@),
{
    let mut start: usize = 0;
    assert(v@.subrange(0, v@.len() as int) =~= v@);
    while start < v.len() && char_is_whitespace(v[start])
        invariant
            start <= v@.len(),
            trim_start(v@) == trim_start(v@.subrange(start as int, v@.len() as int)),
        decreases v.len() - start,
    {
        assert(v@.subrange(start as int, v@.len() as int).drop_first() =~= v@.subrange(
            start + 1,
            v@.len() as int,
        ));
        start += 1;
    }
    let ghost rest = v@.subrange(start as int, v@.len() as int);
    assert(trim_start(rest) == rest);
    let mut end: usize = v.len();
    while end > start && char_is_whitespace(v[end - 1])
        invariant
            start <= end <= v@.len(),
            trim_end(rest) == trim_end(v@.subrange(start as int, end as int)),
        decreases end,
    {
        assert(v@.subrange(start as int, end as int).drop_last() =~= v@.subrange(
            start as int,
            end - 1,
        ));
        end -= 1;
    }
    (start, end)
}

/// `str::trim` as a new string.
pub fn trimmed(s: &str) -> (r: String)
    ensures
        r@ == trim(s@),
{
    let v = chars_of(s);
    let (a, b) = trim_bounds(v.as_slice());
    string_from_range(v.as_slice(), a, b)
}

/// `char::to_ascii_lowercase`.
pub fn char_to_ascii_lower(c: char) -> (r: char)
    ensures
        r == ascii_lower(c),
{
    if 'A' <= c && c <= 'Z' {
        let b = (c as u32) + 32;
        char_from_ascii(b)
    } else {
        c
    }
}

/// `char::to_ascii_uppercase`.
pub fn char_to_ascii_upper(c: char) -> (r: char)
    ensures
        r == ascii_upper(c),
{
    if 'a' <= c && c <= 'z' {
        let b = (c as u32) - 32;
        char_from_ascii(b)
    } else {
        c
    }
}

/// The character whose code is `b`, for an ASCII code.
pub fn char_from_ascii(b: u32) -> (c: char)
    requires
        b < 128,
    ensures
        c == b as char,
        c as u32 == b,
{
    (b as u8) as char
}

/// `str::to_ascii_lowercase` on characters.
pub fn lower_chars(v: &[char]) -> (r: Vec<char>)
    ensures
        r@ == to_ascii_lower(v@),
{
    let mut r: Vec<char> = Vec::new();
    let mut i: usize = 0;
    while i < v.len()
        invariant
            i <= v@.len(),
            r@ == to_ascii_lower(v@.subrange(0, i as int)),
        decreases v.len() - i,
    {
        r.push(char_to_ascii_lower(v[i]));
        i += 1;
        assert(r@ =~= to_ascii_lower(v@.subrange(0, i as int)));
    }
    assert(v@.subrange(0, v@.len() as int) =~= v@);
    r
}

/// Whether two strings hold the same characters.
pub fn str_eq(a: &str, b: &str) -> (r: bool)
    ensures
        r == (a@ == b@),
{
    let x = chars_of(a);
    let y = chars_of(b);
    if x.len() != y.len() {
        return false;
    }
    let r = matches_at(x.as_slice(), y.as_slice(), 0);
    assert(x@.subrange(0, y@.len() as int) =~= x@);
    r
}

/// The character of the decimal digit `d`.
pub open spec fn digit_char(d: int) -> char {
    (48 + d) as char
}

/// The decimal representation of `n`, without leading zeros.
pub open spec fn decimal(n: nat) -> Seq<char>
    decreases n,
{
    if n < 10 {
        seq![digit_char(n as int)]
    } else {
        decimal(n / 10).push(digit_char((n % 10) as int))
    }
}

/// `s` padded on the left with `'0'` to at least `width` characters.
pub open spec fn zero_padded(s: Seq<char>, width: nat) -> Seq<char> {
    if s.len() >= width {
        s
    } else {
        Seq::new((width - s.len()) as nat, |i: int| '0') + s
    }
}

/// `format!("{n}")` for an unsigned integer.
pub fn decimal_string(n: u64) -> (s: String)
    ensures
        s@ == decimal(n as nat),
    decreases n,
{
    if n < 10 {
        let mut s = String::new();
        push_char(&mut s, char_from_ascii(48 + n as u32));
        assert(s@ =~= decimal(n as nat));
        s
    } else {
        let mut s = decimal_string(n / 10);
        push_char(&mut s, char_from_ascii(48 + (n % 10) as u32));
        s
    }
}

/// `format!("{n:0width$}")` for an unsigned integer.
pub fn padded_decimal(n: u64, width: usize) -> (s: String)
    ensures
        s@ == zero_padded(decimal(n as nat), width as nat),
{
    let digits = decimal_string(n);
    let len = digits.unicode_len();
    if len >= width {
        return digits;
    }
    let mut s = String::new();
    let mut k: usize = 0;
    while k < width - len
        invariant
            len < width,
            k <= width - len,
            s@ == Seq::new(k as nat, |i: int| '0'),
        decreases width - len - k,
    {
        push_char(&mut s, '0');
        k += 1;
        assert(s@ =~= Seq::new(k as nat, |i: int| '0'));
    }
    append_str(&mut s, digits.as_str());
    s
}

/// The characters of an optional string.
pub open spec fn opt_chars(o: Option<String>) -> Option<Seq<char>> {
    match o {
        Some(t) => Some(t@),
        None => None,
    }
}

/// The characters of an optional string slice.
pub open spec fn opt_str_chars(o: Option<&str>) -> Option<Seq<char>> {
    match o {
        Some(t) => Some(t@),
        None => None,
    }
}

/// `str::strip_prefix`: the rest of `s` after `p`, when `s` starts with `p`.
pub open spec fn strip_prefix(s: Seq<char>, p: Seq<char>) -> Option<Seq<char>> {
    if is_prefix_of(p, s) {
        Some(s.skip(p.len() as int))
    } else {
        None
    }
}

/// `str::strip_suffix`: `s` before `p`, when `s` ends with `p`.
pub open spec fn strip_suffix(s: Seq<char>, p: Seq<char>) -> Option<Seq<char>> {
    if is_suffix_of(p, s) {
        Some(s.take(s.len() - p.len()))
    } else {
        None
    }
}

/// `str::split_once`: the parts before and after the first `sep`.
pub open spec fn split_once(s: Seq<char>, sep: Seq<char>) -> Option<(Seq<char>, Seq<char>)> {
    match find_from(s, sep, 0) {
        Some(i) => Some((s.take(i), s.skip(i + sep.len()))),
        None => None,
    }
}

/// `str::strip_prefix`, as an owned string.
pub fn strip_prefix_str(s: &str, p: &str) -> (r: Option<String>)
    ensures
        opt_chars(r) == strip_prefix(s@, p@),
{
    let sv = chars_of(s);
    let pv = chars_of(p);
    if starts_with(sv.as_slice(), pv.as_slice()) {
        let rest = string_from_range(sv.as_slice(), pv.len(), sv.len());
        assert(rest@ =~= s@.skip(p@.len() as int));
        Some(rest)
    } else {
        None
    }
}

/// `str::strip_suffix`, as an owned string.
pub fn strip_suffix_str(s: &str, p: &str) -> (r: Option<String>)
    ensures
        opt_chars(r) == strip_suffix(s@, p@),
{
    let sv = chars_of(s);
    let pv = chars_of(p);
    if ends_with(sv.as_slice(), pv.as_slice()) {
        let rest = string_from_range(sv.as_slice(), 0, sv.len() - pv.len());
        assert(rest@ =~= s@.take(s@.len() - p@.len()));
        Some(rest)
    } else {
        None
    }
}

/// `str::split_once`, as owned strings.
pub fn split_once_str(s: &str, sep: &str) -> (r: Option<(String, String)>)
    ensures
        r matches Some(pair) ==> split_once(s@, sep@) == Some((pair.0@, pair.1@)),
        r is None ==> split_once(s@, sep@) is None,
{
    let sv = chars_of(s);
    let pv = chars_of(sep);
    match find(sv.as_slice(), pv.as_slice(), 0) {
        Some(i) => {
            proof {
                lemma_find_from_complete(s@, sep@, 0);
                assert(occurs_at(sv@, pv@, i as int));
                assert(i + pv@.len() <= sv@.len());
            }
            assert(i + pv.len() <= sv.len());
            let end: usize = i + pv.len();
            let before = string_from_range(sv.as_slice(), 0, i);
            let after = string_from_range(sv.as_slice(), end, sv.len());
            assert(before@ =~= s@.take(i as int));
            assert(after@ =~= s@.skip(i + sep@.len()));
            Some((before, after))
        },
        None => None,
    }
}

/// The concatenation of `parts`, in order.
pub open spec fn concat_all(parts: Seq<Seq<char>>) -> Seq<char>
    decreases parts.len(),
{
    if parts.len() == 0 {
        Seq::empty()
    } else {
        concat_all(parts.drop_last()) + parts.last()
    }
}

/// A new string holding `a` followed by `b`.
pub fn concat2(a: &str, b: &str) -> (r: String)
    ensures
        r@ == a@ + b@,
{
    let mut r = String::new();
    append_str(&mut r, a);
    append_str(&mut r, b);
    assert(r@ =~= a@ + b@);
    r
}

/// A new string holding `a`, `b` and `c`, in order.
pub fn concat3(a: &str, b: &str, c: &str) -> (r: String)
    ensures
        r@ == a@ + b@ + c@,
{
    let mut r = concat2(a, b);
    append_str(&mut r, c);
    r
}

/// A new string holding `a`, `b`, `c`, `d` and `e`, in order.
pub fn concat5(a: &str, b: &str, c: &str, d: &str, e: &str) -> (r: String)
    ensures
        r@ == a@ + b@ + c@ + d@ + e@,
{
    let mut r = concat3(a, b, c);
    append_str(&mut r, d);
    append_str(&mut r, e);
    r
}

/// A new string with the characters of `s` (`str::to_owned`).
pub fn owned(s: &str) -> (r: String)
    ensures
        r@ == s@,
{
    let mut r = String::new();
    append_str(&mut r, s);
    assert(r@ =~= s@);
    r
}

/// `parts` joined with `sep` between neighbours (`slice::join`).
pub open spec fn join(parts: Seq<Seq<char>>, sep: Seq<char>) -> Seq<char>
    decreases parts.len(),
{
    if parts.len() == 0 {
        Seq::empty()
    } else if parts.len() == 1 {
        parts[0]
    } else {
        join(parts.drop_last(), sep) + sep + parts.last()
    }
}

/// The characters of each string of `parts`.
pub open spec fn views(parts: Seq<String>) -> Seq<Seq<char>> {
    parts.map_values(|s: String| s@)
}

/// `parts` joined with `sep` between neighbours.
pub fn join_strings(parts: &Vec<String>, sep: &str) -> (r: String)
    ensures
        r@ == join(views(parts@), sep@),
{
    let mut r = String::new();
    let mut i: usize = 0;
    while i < parts.len()
        invariant
            i <= parts@.len(),
            r@ == join(views(parts@).take(i as int), sep@),
        decreases parts.len() - i,
    {
        let ghost before = views(parts@).take(i as int);
        if i > 0 {
            append_str(&mut r, sep);
        }
        append_str(&mut r, parts[i].as_str());
        i += 1;
        proof {
            let now = views(parts@).take(i as int);
            assert(now.drop_last() =~= before);
            assert(now.last() == parts@[i - 1]@);
            if i == 1 {
                assert(r@ =~= now[0]);
            } else {
                assert(r@ =~= join(before, sep@) + sep@ + now.last());
            }
        }
    }
    assert(views(parts@).take(parts@.len() as int) =~= views(parts@));
    r
}

/// `a` when it holds a value, else `b`.
pub open spec fn first_of(a: Option<Seq<char>>, b: Option<Seq<char>>) -> Option<Seq<char>> {
    if a is Some {
        a
    } else {
        b
    }
}

/// `s` with every occurrence of `p` replaced by `with`, left to right
/// (`str::replace`).
pub open spec fn replace_all(s: Seq<char>, p: Seq<char>, with: Seq<char>) -> Seq<char>
    decreases s.len(),
{
    if p.len() == 0 {
        s
    } else {
        match find_from(s, p, 0) {
            Some(i) => {
                proof {
                    lemma_find_from_complete(s, p, 0);
                }
                s.take(i) + with + replace_all(s.skip(i + p.len()), p, with)
            },
            None => s,
        }
    }
}

/// `s` with every occurrence of `p` removed (`str::replace(p, "")`).
pub open spec fn remove_all(s: Seq<char>, p: Seq<char>) -> Seq<char> {
    replace_all(s, p, Seq::empty())
}

/// `s` with every occurrence of a non-empty `p` replaced by `with`.
pub fn replace_all_str(s: &str, p: &str, with: &str) -> (r: String)
    ensures
        r@ == replace_all(s@, p@, with@),
{
    let sv = chars_of(s);
    let pv = chars_of(p);
    if pv.len() == 0 {
        return owned(s);
    }
    let mut r = String::new();
    let mut pos: usize = 0;
    assert(sv@.skip(0) =~= sv@);
    assert(r@ + replace_all(sv@, pv@, with@) =~= replace_all(sv@, pv@, with@));
    loop
        invariant
            pos <= sv@.len(),
            pv@.len() > 0,
            sv@ == s@,
            pv@ == p@,
            r@ + replace_all(sv@.skip(pos as int), pv@, with@) == replace_all(s@, p@, with@),
        decreases sv@.len() - pos,
    {
        let ghost rest = sv@.skip(pos as int);
        proof {
            lemma_find_shift(sv@, pv@, pos as int);
        }
        match find(sv.as_slice(), pv.as_slice(), pos) {
            Some(i) => {
                proof {
                    lemma_find_from_complete(sv@, pv@, pos as int);
                    assert(occurs_at(sv@, pv@, i as int));
                }
                let piece = string_from_range(sv.as_slice(), pos, i);
                let ghost before = r@;
                append_str(&mut r, piece.as_str());
                append_str(&mut r, with);
                proof {
                    assert(rest.take(i - pos) =~= sv@.subrange(pos as int, i as int));
                    assert(rest.skip(i - pos + pv@.len()) =~= sv@.skip(i + pv@.len()));
                    assert(r@ + replace_all(sv@.skip(i + pv@.len()), pv@, with@) =~= before + (
                    rest.take(i - pos) + with@ + replace_all(rest.skip(i - pos + pv@.len()), pv@, with@)));
                }
                assert(i + pv.len() <= sv.len());
                let next: usize = i + pv.len();
                pos = next;
            },
            None => {
                let piece = string_from_range(sv.as_slice(), pos, sv.len());
                append_str(&mut r, piece.as_str());
                assert(sv@.subrange(pos as int, sv@.len() as int) =~= rest);
                return r;
            },
        }
    }
}

/// `s` with every occurrence of `p` removed.
pub fn remove_all_str(s: &str, p: &str) -> (r: String)
    ensures
        r@ == remove_all(s@, p@),
{
    let empty = String::new();
    let r = replace_all_str(s, p, empty.as_str());
    assert(empty@ =~= Seq::<char>::empty());
    r
}

/// Searching the rest of `s` from `pos` finds what searching `s` from
/// `pos` finds, shifted.
pub proof fn lemma_find_shift(s: Seq<char>, p: Seq<char>, pos: int)
    requires
        0 <= pos <= s.len(),
    ensures
        find_from(s.skip(pos), p, 0) matches Some(i) ==> find_from(s, p, pos) == Some(i + pos),
        find_from(s.skip(pos), p, 0) is None ==> find_from(s, p, pos) is None,
{
    lemma_find_shift_from(s, p, pos, 0);
}

proof fn lemma_find_shift_from(s: Seq<char>, p: Seq<char>, pos: int, k: int)
    requires
        0 <= pos <= s.len(),
        0 <= k,
    ensures
        find_from(s.skip(pos), p, k) matches Some(i) ==> find_from(s, p, pos + k) == Some(i + pos),
        find_from(s.skip(pos), p, k) is None ==> find_from(s, p, pos + k) is None,
    decreases s.len() + 1 - pos - k,
{
    let t = s.skip(pos);
    if k + p.len() > t.len() {
    } else {
        assert(t.subrange(k, k + p.len()) =~= s.subrange(pos + k, pos + k + p.len()));
        if occurs_at(t, p, k) {
        } else {
            lemma_find_shift_from(s, p, pos, k + 1);
            assert(pos + (k + 1) == pos + k + 1);
        }
    }
}

} // verus!
