//! Character-level helpers on which the parsers of this crate are built.
//!
//! Text is handled as `Vec<char>`, whose view is the same `Seq<char>` that a
//! `String` has, so contracts speak of one model throughout.

use vstd::prelude::*;
use vstd::string::*;

verus! {

/// The views of a sequence of strings.
pub open spec fn views(v: Seq<String>) -> Seq<Seq<char>> {
    Seq::new(v.len(), |i: int| v[i]@)
}

/// The views of a sequence of character vectors.
pub open spec fn char_views(v: Seq<Vec<char>>) -> Seq<Seq<char>> {
    Seq::new(v.len(), |i: int| v[i]@)
}

/// The characters of `s`, in order.
pub fn chars_of(s: &str) -> (v: Vec<char>)
    ensures
        v@ == s@,
{
    let mut v: Vec<char> = Vec::new();
    for c in it: s.chars()
        invariant
            v@ == it.seq().subrange(0, it.index as int),
    {
        v.push(c);
    }
    v
}

/// Builds a `String` from characters.
///
/// Trusted: wraps std's `String: FromIterator<char>` (`Iterator::collect`),
/// which yields the string made of exactly the given characters in order.
#[verifier::external_body]
pub(crate) fn string_of(v: &Vec<char>) -> (s: String)
    ensures
        s@ == v@,
{
    v.iter().collect()
}

/// Whether two character vectors hold the same text.
pub fn same_chars(a: &Vec<char>, b: &Vec<char>) -> (r: bool)
    ensures
        r == (a@ == b@),
{
    if a.len() != b.len() {
        return false;
    }
    let mut i: usize = 0;
    while i < a.len()
        invariant
            a@.len() == b@.len(),
            i <= a@.len(),
            a@.subrange(0, i as int) == b@.subrange(0, i as int),
        decreases a@.len() - i,
    {
        if a[i] != b[i] {
            return false;
        }
        i = i + 1;
        proof {
            assert(a@.subrange(0, i as int) =~= a@.subrange(0, i - 1).push(a@[i - 1]));
            assert(b@.subrange(0, i as int) =~= b@.subrange(0, i - 1).push(b@[i - 1]));
        }
    }
    proof {
        assert(a@.subrange(0, i as int) =~= a@);
        assert(b@.subrange(0, i as int) =~= b@);
    }
    true
}

/// Whether `s` is exactly the text `lit`.
pub fn is_text(s: &Vec<char>, lit: &str) -> (r: bool)
    ensures
        r == (s@ == lit@),
{
    let l = chars_of(lit);
    same_chars(s, &l)
}

/// `p` occurs in `s` starting at index `i`.
pub open spec fn occurs_at(s: Seq<char>, p: Seq<char>, i: int) -> bool {
    0 <= i && i + p.len() <= s.len() && s.subrange(i, i + p.len()) == p
}

/// `s` begins with `p`.
pub open spec fn has_prefix(s: Seq<char>, p: Seq<char>) -> bool {
    occurs_at(s, p, 0)
}

/// `p` occurs somewhere in `s`.
pub open spec fn has_infix(s: Seq<char>, p: Seq<char>) -> bool {
    exists|i: int| occurs_at(s, p, i)
}

/// Whether `p` occurs in `s` at index `i`.
pub fn occurs_at_index(s: &Vec<char>, p: &Vec<char>, i: usize) -> (r: bool)
    ensures
        r == occurs_at(s@, p@, i as int),
{
    if i > s.len() || p.len() > s.len() - i {
        return false;
    }
    let mut k: usize = 0;
    while k < p.len()
        invariant
            i + p.len() <= s.len(),
            k <= p.len(),
            s@.subrange(i as int, i + k) == p@.subrange(0, k as int),
        decreases p@.len() - k,
    {
        if s[i + k] != p[k] {
            proof {
                assert(s@.subrange(i as int, i + p@.len())[k as int] == s@[i + k]);
            }
            return false;
        }
        k = k + 1;
        proof {
            assert(s@.subrange(i as int, i + k) =~= s@.subrange(i as int, i + k - 1).push(
                s@[i + k - 1],
            ));
            assert(p@.subrange(0, k as int) =~= p@.subrange(0, k - 1).push(p@[k - 1]));
        }
    }
    proof {
        assert(p@.subrange(0, k as int) =~= p@);
    }
    true
}

/// Whether `s` begins with `p`.
pub fn starts_with(s: &Vec<char>, p: &Vec<char>) -> (r: bool)
    ensures
        r == has_prefix(s@, p@),
{
    occurs_at_index(s, p, 0)
}

/// Whether `s` begins with the text `lit`.
pub fn starts_with_text(s: &Vec<char>, lit: &str) -> (r: bool)
    ensures
        r == has_prefix(s@, lit@),
{
    let l = chars_of(lit);
    occurs_at_index(s, &l, 0)
}

/// Whether `p` occurs somewhere in `s`.
pub fn contains(s: &Vec<char>, p: &Vec<char>) -> (r: bool)
    ensures
        r == has_infix(s@, p@),
{
    if p.len() > s.len() {
        return false;
    }
    let last: usize = s.len() - p.len();
    let mut i: usize = 0;
    while i <= last
        invariant
            last == s@.len() - p@.len(),
            i <= last,
            forall|j: int| 0 <= j < i ==> !occurs_at(s@, p@, j),
        decreases last - i,
    {
        if occurs_at_index(s, p, i) {
            return true;
        }
        if i == last {
            return false;
        }
        i = i + 1;
    }
    false
}

/// Whether the text `lit` occurs somewhere in `s`.
pub fn contains_text(s: &Vec<char>, lit: &str) -> (r: bool)
    ensures
        r == has_infix(s@, lit@),
{
    let l = chars_of(lit);
    contains(s, &l)
}

/// The characters of `s` from index `from` up to, not including, `to`.
pub fn slice_chars(s: &Vec<char>, from: usize, to: usize) -> (r: Vec<char>)
    requires
        from <= to <= s@.len(),
    ensures
        r@ == s@.subrange(from as int, to as int),
{
    let mut r: Vec<char> = Vec::new();
    let mut i: usize = from;
    while i < to
        invariant
            from <= i <= to,
            to <= s@.len(),
            r@ == s@.subrange(from as int, i as int),
        decreases to - i,
    {
        r.push(s[i]);
        i = i + 1;
        proof {
            assert(r@ =~= s@.subrange(from as int, i as int));
        }
    }
    r
}

/// Appends the characters of `src` to `dst`.
pub fn push_chars(dst: &mut Vec<char>, src: &Vec<char>)
    ensures
        final(dst)@ == old(dst)@ + src@,
{
    let mut i: usize = 0;
    while i < src.len()
        invariant
            i <= src@.len(),
            dst@ == old(dst)@ + src@.subrange(0, i as int),
        decreases src@.len() - i,
    {
        dst.push(src[i]);
        i = i + 1;
        proof {
            assert(dst@ =~= old(dst)@ + src@.subrange(0, i as int));
        }
    }
    proof {
        assert(src@.subrange(0, i as int) =~= src@);
    }
}

/// Appends the characters of the text `lit` to `dst`.
pub fn push_text(dst: &mut Vec<char>, lit: &str)
    ensures
        final(dst)@ == old(dst)@ + lit@,
{
    let l = chars_of(lit);
    push_chars(dst, &l);
}


/// `s` with every occurrence of `pat` at or after index `i` replaced by
/// `to`, read left to right without overlap; what stands before `i` is left
/// out. `pat` is not empty.
pub open spec fn replaced_from(s: Seq<char>, pat: Seq<char>, to: Seq<char>, i: int) -> Seq<char>
    decreases s.len() - i,
{
    if i < 0 || i >= s.len() || pat.len() == 0 {
        Seq::empty()
    } else if occurs_at(s, pat, i) {
        to + replaced_from(s, pat, to, i + pat.len())
    } else {
        seq![s[i]] + replaced_from(s, pat, to, i + 1)
    }
}

/// `s` with every occurrence of `pat` replaced by `to`.
pub open spec fn replaced(s: Seq<char>, pat: Seq<char>, to: Seq<char>) -> Seq<char> {
    replaced_from(s, pat, to, 0)
}

/// `s` with every occurrence of the non-empty `pat` replaced by `to`.
pub fn replace(s: &Vec<char>, pat: &Vec<char>, to: &Vec<char>) -> (r: Vec<char>)
    requires
        pat@.len() > 0,
    ensures
        r@ == replaced(s@, pat@, to@),
{
    let mut out: Vec<char> = Vec::new();
    let mut i: usize = 0;
    while i < s.len()
        invariant
            i <= s.len(),
            pat@.len() > 0,
            replaced(s@, pat@, to@) == out@ + replaced_from(s@, pat@, to@, i as int),
        decreases s.len() - i,
    {
        let ghost before = out@;
        if occurs_at_index(s, pat, i) {
            push_chars(&mut out, to);
            proof {
                assert(before + (to@ + replaced_from(s@, pat@, to@, i + pat@.len())) =~= (before
                    + to@) + replaced_from(s@, pat@, to@, i + pat@.len()));
            }
            i = i + pat.len();
        } else {
            out.push(s[i]);
            proof {
                assert(before + (seq![s@[i as int]] + replaced_from(s@, pat@, to@, i + 1))
                    =~= before.push(s@[i as int]) + replaced_from(s@, pat@, to@, i + 1));
            }
            i = i + 1;
        }
    }
    proof {
        assert(out@ + Seq::<char>::empty() =~= out@);
    }
    out
}

/// The parts from index `i` on, with `sep` between neighbours.
pub open spec fn joined_from(parts: Seq<Seq<char>>, sep: Seq<char>, i: int) -> Seq<char>
    decreases parts.len() - i,
{
    if i < 0 || i >= parts.len() {
        Seq::empty()
    } else if i == parts.len() - 1 {
        parts[i]
    } else {
        parts[i] + sep + joined_from(parts, sep, i + 1)
    }
}

/// The parts with `sep` between neighbours.
pub open spec fn joined(parts: Seq<Seq<char>>, sep: Seq<char>) -> Seq<char> {
    joined_from(parts, sep, 0)
}

/// The strings of `parts` with the text `sep` between neighbours.
pub fn join(parts: &Vec<String>, sep: &str) -> (r: Vec<char>)
    ensures
        r@ == joined(views(parts@), sep@),
{
    let ghost model = views(parts@);
    let mut out: Vec<char> = Vec::new();
    let mut i: usize = 0;
    while i < parts.len()
        invariant
            i <= parts.len(),
            model == views(parts@),
            joined(model, sep@) == out@ + joined_from(model, sep@, i as int),
        decreases parts.len() - i,
    {
        let ghost before = out@;
        push_text(&mut out, parts[i].as_str());
        if i + 1 < parts.len() {
            push_text(&mut out, sep);
            proof {
                assert(before + (model[i as int] + sep@ + joined_from(model, sep@, i + 1)) =~= (
                before + model[i as int] + sep@) + joined_from(model, sep@, i + 1));
            }
        } else {
            proof {
                assert(joined_from(model, sep@, i + 1) =~= Seq::<char>::empty());
                assert(out@ + joined_from(model, sep@, i + 1) =~= before + model[i as int]);
            }
        }
        i = i + 1;
    }
    proof {
        assert(out@ + Seq::<char>::empty() =~= out@);
    }
    out
}

/// The lower-case form of an ASCII capital; any other character unchanged.
pub open spec fn lower(c: char) -> char {
    if 'A' <= c && c <= 'Z' {
        ((c as u8) + 32) as char
    } else {
        c
    }
}

/// `s` with each ASCII capital turned into its lower-case form.
pub open spec fn lowered(s: Seq<char>) -> Seq<char> {
    Seq::new(s.len(), |i: int| lower(s[i]))
}

/// The lower-case form of an ASCII capital; any other character unchanged.
pub fn lower_char(c: char) -> (r: char)
    ensures
        r == lower(c),
{
    if 'A' <= c && c <= 'Z' {
        ((c as u8) + 32) as char
    } else {
        c
    }
}

/// `s` with each ASCII capital turned into its lower-case form.
pub fn to_ascii_lowercase(s: &Vec<char>) -> (r: Vec<char>)
    ensures
        r@ == lowered(s@),
{
    let mut out: Vec<char> = Vec::new();
    let mut i: usize = 0;
    while i < s.len()
        invariant
            i <= s.len(),
            out@ == lowered(s@.subrange(0, i as int)),
        decreases s.len() - i,
    {
        out.push(lower_char(s[i]));
        i = i + 1;
        proof {
            assert(out@ =~= lowered(s@.subrange(0, i as int)));
        }
    }
    proof {
        assert(s@.subrange(0, i as int) =~= s@);
    }
    out
}

/// White space as Unicode defines it (the property `White_Space`).
pub open spec fn is_space(c: char) -> bool {
    let n = c as u32;
    (0x09 <= n && n <= 0x0d) || n == 0x20 || n == 0x85 || n == 0xa0 || n == 0x1680 || (0x2000 <= n
        && n <= 0x200a) || n == 0x2028 || n == 0x2029 || n == 0x202f || n == 0x205f || n == 0x3000
}

/// Whether `c` is white space.
pub fn is_space_char(c: char) -> (r: bool)
    ensures
        r == is_space(c),
{
    let n = c as u32;
    (0x09 <= n && n <= 0x0d) || n == 0x20 || n == 0x85 || n == 0xa0 || n == 0x1680 || (0x2000 <= n
        && n <= 0x200a) || n == 0x2028 || n == 0x2029 || n == 0x202f || n == 0x205f || n == 0x3000
}

/// The index of the first character at or after `from` that is no white
/// space, or the length of `s` when there is none.
pub open spec fn skip_spaces(s: Seq<char>, from: int) -> int
    decreases s.len() - from,
{
    if from < 0 || from >= s.len() {
        s.len() as int
    } else if !is_space(s[from]) {
        from
    } else {
        skip_spaces(s, from + 1)
    }
}

/// The end of the text that is left of `s[start..upto]` when the white
/// space at its end is cut off.
pub open spec fn trim_end_index(s: Seq<char>, start: int, upto: int) -> int
    decreases upto - start,
{
    if upto <= start || upto > s.len() || start < 0 {
        start
    } else if !is_space(s[upto - 1]) {
        upto
    } else {
        trim_end_index(s, start, upto - 1)
    }
}

/// `s` without the white space at its start and at its end.
pub open spec fn trimmed(s: Seq<char>) -> Seq<char> {
    let start = skip_spaces(s, 0);
    s.subrange(start, trim_end_index(s, start, s.len() as int))
}

/// `s` without the white space at its start and at its end.
pub fn trim(s: &Vec<char>) -> (r: Vec<char>)
    ensures
        r@ == trimmed(s@),
{
    let mut start: usize = 0;
    while start < s.len() && is_space_char(s[start])
        invariant
            start <= s.len(),
            skip_spaces(s@, 0) == skip_spaces(s@, start as int),
        decreases s.len() - start,
    {
        start = start + 1;
    }
    let mut end: usize = s.len();
    while end > start && is_space_char(s[end - 1])
        invariant
            start <= end <= s.len(),
            trim_end_index(s@, start as int, s@.len() as int) == trim_end_index(
                s@,
                start as int,
                end as int,
            ),
        decreases end - start,
    {
        end = end - 1;
    }
    slice_chars(s, start, end)
}

/// The index of the first `c` in `s` at or after `from`, or the length of
/// `s` when there is none.
pub open spec fn index_of_from(s: Seq<char>, c: char, from: int) -> int
    decreases s.len() - from,
{
    if from < 0 || from >= s.len() {
        s.len() as int
    } else if s[from] == c {
        from
    } else {
        index_of_from(s, c, from + 1)
    }
}

/// The index of the first `c` in `s` at or after `from`, or the length of
/// `s` when there is none.
pub fn find_char(s: &Vec<char>, c: char, from: usize) -> (k: usize)
    ensures
        k == index_of_from(s@, c, from as int),
        from <= s@.len() ==> from <= k <= s@.len(),
        k < s@.len() ==> s@[k as int] == c,
        forall|j: int| from <= j < k && j < s@.len() ==> s@[j] != c,
{
    if from >= s.len() {
        return s.len();
    }
    let mut k: usize = from;
    while k < s.len()
        invariant
            from <= k <= s.len(),
            index_of_from(s@, c, from as int) == index_of_from(s@, c, k as int),
            forall|j: int| from <= j < k ==> s@[j] != c,
        decreases s.len() - k,
    {
        if s[k] == c {
            return k;
        }
        k = k + 1;
    }
    k
}

/// A string with the characters of the text `lit`.
pub fn text(lit: &str) -> (r: String)
    ensures
        r@ == lit@,
{
    lit.to_owned()
}

/// `l` without one carriage return at its end, if it has one there.
pub open spec fn without_cr(l: Seq<char>) -> Seq<char> {
    if l.len() > 0 && l[l.len() - 1] == '\r' {
        l.subrange(0, l.len() - 1)
    } else {
        l
    }
}

/// The lines of `s` from index `i` on. A line ends at a line feed, which is
/// left out together with a carriage return just before it. What follows
/// the last line feed is a line too, unless it is empty.
pub open spec fn lines_from(s: Seq<char>, i: int) -> Seq<Seq<char>>
    decreases s.len() - i,
{
    if i < 0 || i >= s.len() {
        Seq::empty()
    } else {
        let e = index_of_from(s, '\n', i);
        if e < i {
            Seq::empty()
        } else if e >= s.len() {
            seq![s.subrange(i, s.len() as int)]
        } else {
            seq![without_cr(s.subrange(i, e))] + lines_from(s, e + 1)
        }
    }
}

/// The lines of `s`.
pub open spec fn lines_of(s: Seq<char>) -> Seq<Seq<char>> {
    lines_from(s, 0)
}

/// The lines of `s`.
pub fn split_lines(s: &Vec<char>) -> (r: Vec<Vec<char>>)
    ensures
        char_views(r@) == lines_of(s@),
{
    let mut out: Vec<Vec<char>> = Vec::new();
    let mut i: usize = 0;
    proof {
        assert(char_views(out@) =~= Seq::<Seq<char>>::empty());
    }
    while i < s.len()
        invariant
            i <= s.len(),
            lines_of(s@) == char_views(out@) + lines_from(s@, i as int),
        decreases s.len() - i,
    {
        let ghost before = char_views(out@);
        let e = find_char(s, '\n', i);
        if e >= s.len() {
            let line = slice_chars(s, i, s.len());
            out.push(line);
            proof {
                assert(char_views(out@) =~= before + seq![s@.subrange(i as int, s@.len() as int)]);
                assert(lines_from(s@, s@.len() as int) =~= Seq::<Seq<char>>::empty());
                assert(char_views(out@) + lines_from(s@, s@.len() as int) =~= char_views(out@));
            }
            i = s.len();
        } else {
            let end: usize = if e > i && s[e - 1] == '\r' {
                e - 1
            } else {
                e
            };
            let line = slice_chars(s, i, end);
            proof {
                let l = s@.subrange(i as int, e as int);
                if e > i && s@[e - 1] == '\r' {
                    assert(l[l.len() - 1] == '\r');
                    assert(without_cr(l) =~= line@);
                } else {
                    assert(without_cr(l) =~= line@);
                }
            }
            out.push(line);
            proof {
                assert(char_views(out@) =~= before + seq![line@]);
                assert(before + (seq![line@] + lines_from(s@, e + 1)) =~= (before + seq![line@])
                    + lines_from(s@, e + 1));
            }
            i = e + 1;
        }
    }
    proof {
        assert(char_views(out@) + Seq::<Seq<char>>::empty() =~= char_views(out@));
    }
    out
}

/// Whether `s` is among the strings of `list`.
pub fn contains_string(list: &Vec<String>, s: &Vec<char>) -> (r: bool)
    ensures
        r == views(list@).contains(s@),
{
    let ghost model = views(list@);
    let mut i: usize = 0;
    while i < list.len()
        invariant
            i <= list.len(),
            model == views(list@),
            forall|j: int| 0 <= j < i ==> model[j] != s@,
        decreases list.len() - i,
    {
        if is_text(s, list[i].as_str()) {
            proof {
                assert(model[i as int] == s@);
            }
            return true;
        }
        i = i + 1;
    }
    false
}

/// The index of the first occurrence of `pat` in `s` at or after `from`,
/// or the length of `s` when there is none.
pub open spec fn find_from(s: Seq<char>, pat: Seq<char>, from: int) -> int
    decreases s.len() - from,
{
    if from < 0 || from >= s.len() {
        s.len() as int
    } else if occurs_at(s, pat, from) {
        from
    } else {
        find_from(s, pat, from + 1)
    }
}

/// The index of the first occurrence of `pat` in `s`, or the length of `s`
/// when there is none.
pub fn find_text(s: &Vec<char>, pat: &Vec<char>) -> (k: usize)
    ensures
        k == find_from(s@, pat@, 0),
        k <= s@.len(),
{
    let mut k: usize = 0;
    while k < s.len()
        invariant
            k <= s.len(),
            find_from(s@, pat@, 0) == find_from(s@, pat@, k as int),
        decreases s.len() - k,
    {
        if occurs_at_index(s, pat, k) {
            return k;
        }
        k = k + 1;
    }
    k
}

/// The index of the last `c` among the first `upto` characters of `s`, or
/// -1 when there is none.
pub open spec fn last_index_of(s: Seq<char>, c: char, upto: int) -> int
    decreases upto,
{
    if upto <= 0 || upto > s.len() {
        -1
    } else if s[upto - 1] == c {
        upto - 1
    } else {
        last_index_of(s, c, upto - 1)
    }
}

/// The index of the last `c` among the first `upto` characters of `s`, if
/// there is one.
pub fn find_last(s: &Vec<char>, c: char, upto: usize) -> (r: Option<usize>)
    requires
        upto <= s@.len(),
    ensures
        match r {
            Some(k) => k == last_index_of(s@, c, upto as int) && k < upto,
            None => last_index_of(s@, c, upto as int) == -1,
        },
{
    let mut k: usize = upto;
    while k > 0
        invariant
            k <= upto <= s.len(),
            last_index_of(s@, c, upto as int) == last_index_of(s@, c, k as int),
        decreases k,
    {
        if s[k - 1] == c {
            return Some(k - 1);
        }
        k = k - 1;
    }
    None
}

/// The index of the first white space at or after `from`, or the length
/// of `s` when there is none.
pub open spec fn next_space(s: Seq<char>, from: int) -> int
    decreases s.len() - from,
{
    if from < 0 || from >= s.len() {
        s.len() as int
    } else if is_space(s[from]) {
        from
    } else {
        next_space(s, from + 1)
    }
}

/// The words of `s` from index `i` on: the longest runs of characters that
/// are no white space.
pub open spec fn words_from(s: Seq<char>, i: int) -> Seq<Seq<char>>
    decreases s.len() - i,
{
    if i < 0 || i >= s.len() {
        Seq::empty()
    } else {
        let a = skip_spaces(s, i);
        let b = next_space(s, a);
        if a >= s.len() || b <= i || a < i || b > s.len() {
            Seq::empty()
        } else {
            seq![s.subrange(a, b)] + words_from(s, b)
        }
    }
}

/// The words of `s`.
pub open spec fn words_of(s: Seq<char>) -> Seq<Seq<char>> {
    words_from(s, 0)
}

/// The words of `s`.
pub fn split_words(s: &Vec<char>) -> (r: Vec<Vec<char>>)
    ensures
        char_views(r@) == words_of(s@),
{
    let mut out: Vec<Vec<char>> = Vec::new();
    let mut i: usize = 0;
    proof {
        assert(char_views(out@) =~= Seq::<Seq<char>>::empty());
    }
    while i < s.len()
        invariant
            i <= s.len(),
            words_of(s@) == char_views(out@) + words_from(s@, i as int),
        decreases s.len() - i,
    {
        let ghost before = char_views(out@);
        let mut a: usize = i;
        while a < s.len() && is_space_char(s[a])
            invariant
                i <= a <= s.len(),
                skip_spaces(s@, i as int) == skip_spaces(s@, a as int),
            decreases s.len() - a,
        {
            a = a + 1;
        }
        if a >= s.len() {
            proof {
                assert(words_from(s@, i as int) =~= Seq::<Seq<char>>::empty());
                assert(char_views(out@) + Seq::<Seq<char>>::empty() =~= char_views(out@));
            }
            return out;
        }
        let mut b: usize = a;
        while b < s.len() && !is_space_char(s[b])
            invariant
                a <= b <= s.len(),
                a < s.len(),
                !is_space(s@[a as int]),
                next_space(s@, a as int) == next_space(s@, b as int),
            decreases s.len() - b,
        {
            b = b + 1;
        }
        proof {
            assert(b > a);
            assert(skip_spaces(s@, i as int) == a);
            assert(next_space(s@, a as int) == b);
            assert(words_from(s@, i as int) == seq![s@.subrange(a as int, b as int)] + words_from(
                s@,
                b as int,
            ));
        }
        let word = slice_chars(s, a, b);
        out.push(word);
        proof {
            assert(char_views(out@) =~= before + seq![word@]);
            assert(before + (seq![word@] + words_from(s@, b as int)) =~= (before + seq![word@])
                + words_from(s@, b as int));
        }
        i = b;
    }
    proof {
        assert(words_from(s@, i as int) =~= Seq::<Seq<char>>::empty());
        assert(char_views(out@) + Seq::<Seq<char>>::empty() =~= char_views(out@));
    }
    out
}

/// Whether the text `lit` is among the words `words`.
pub fn has_word(words: &Vec<Vec<char>>, lit: &str) -> (r: bool)
    ensures
        r == char_views(words@).contains(lit@),
{
    let ghost model = char_views(words@);
    let mut i: usize = 0;
    while i < words.len()
        invariant
            i <= words.len(),
            model == char_views(words@),
            forall|j: int| 0 <= j < i ==> model[j] != lit@,
        decreases words.len() - i,
    {
        if is_text(&words[i], lit) {
            proof {
                assert(model[i as int] == lit@);
            }
            return true;
        }
        i = i + 1;
    }
    false
}

} // verus!
