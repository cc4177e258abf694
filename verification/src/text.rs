//! Character-level text operations on `String`s and `str`s: the prefix tests,
//! prefix stripping and line splitting that the rest of the library builds on.

use vstd::prelude::*;

verus! {

/// `s` with every leading copy of `pat` removed, as `str::trim_start_matches`
/// does with a string pattern; an empty pattern removes nothing.
pub open spec fn strip_leading(s: Seq<char>, pat: Seq<char>) -> Seq<char>
    decreases s.len(),
{
    if pat.len() > 0 && pat.is_prefix_of(s) {
        strip_leading(s.skip(pat.len() as int), pat)
    } else {
        s
    }
}

/// `line` without one trailing carriage return.
pub open spec fn without_trailing_cr(line: Seq<char>) -> Seq<char> {
    if line.len() > 0 && line.last() == '\r' {
        line.drop_last()
    } else {
        line
    }
}

/// Reading `text` from the left: the lines ended so far by a line feed (each
/// without the carriage return before that line feed), and the characters
/// after the last line feed.
pub open spec fn line_scan(text: Seq<char>) -> (Seq<Seq<char>>, Seq<char>)
    decreases text.len(),
{
    if text.len() == 0 {
        (Seq::empty(), Seq::empty())
    } else {
        let (done, partial) = line_scan(text.drop_last());
        if text.last() == '\n' {
            (done.push(without_trailing_cr(partial)), Seq::empty())
        } else {
            (done, partial.push(text.last()))
        }
    }
}

/// The lines of `text`, as `str::lines` gives them: split at `\n` or `\r\n`,
/// terminators removed, and no empty line after a final terminator.
pub open spec fn lines(text: Seq<char>) -> Seq<Seq<char>> {
    let (done, partial) = line_scan(text);
    if partial.len() == 0 {
        done
    } else {
        done.push(partial)
    }
}

/// Appends `c` to `s` (`String::push`).
#[verifier::external_body]
pub(crate) fn push_char(s: &mut String, c: char)
    ensures
        final(s)@ == old(s)@.push(c),
{
    s.push(c)
}

/// Removes and returns the last character of `s`, if any (`String::pop`).
#[verifier::external_body]
pub(crate) fn pop_char(s: &mut String) -> (popped: Option<char>)
    ensures
        old(s)@.len() == 0 ==> popped is None && final(s)@ == old(s)@,
        old(s)@.len() > 0 ==> popped == Some(old(s)@.last()) && final(s)@ == old(s)@.drop_last(),
{
    s.pop()
}

/// The characters of `s`, in order.
pub fn chars_of(s: &str) -> (out: Vec<char>)
    ensures
        out@ == s@,
{
    let mut out: Vec<char> = Vec::new();
    for c in it: s.chars()
        invariant
            out@ == it.seq().take(it.index() as int),
    {
        out.push(c);
    }
    out
}

/// The string made of `chars[from..to]`.
pub fn string_from_chars(chars: &Vec<char>, from: usize, to: usize) -> (out: String)
    requires
        from <= to <= chars.len(),
    ensures
        out@ == chars@.subrange(from as int, to as int),
{
    let mut out = String::new();
    let mut i = from;
    while i < to
        invariant
            from <= i <= to <= chars.len(),
            out@ == chars@.subrange(from as int, i as int),
        decreases to - i,
    {
        push_char(&mut out, chars[i]);
        assert(chars@.subrange(from as int, i + 1) == chars@.subrange(from as int, i as int).push(chars@[i as int]));
        i = i + 1;
    }
    out
}

/// Whether `chars[at..]` begins with `pat`.
fn matches_at(chars: &Vec<char>, at: usize, pat: &Vec<char>) -> (res: bool)
    requires
        at <= chars.len(),
    ensures
        res == pat@.is_prefix_of(chars@.skip(at as int)),
{
    if pat.len() > chars.len() - at {
        return false;
    }
    let mut k: usize = 0;
    while k < pat.len()
        invariant
            at <= chars.len(),
            pat.len() <= chars.len() - at,
            k <= pat.len(),
            forall|j: int| 0 <= j < k ==> pat@[j] == chars@[at + j],
        decreases pat.len() - k,
    {
        if pat[k] != chars[at + k] {
            assert(pat@[k as int] != chars@.skip(at as int).subrange(0, pat@.len() as int)[k as int]);
            return false;
        }
        k = k + 1;
    }
    assert(pat@ =~= chars@.skip(at as int).subrange(0, pat@.len() as int));
    true
}

/// Whether `s` begins with `prefix` (`str::starts_with`).
pub fn starts_with(s: &str, prefix: &str) -> (res: bool)
    ensures
        res == prefix@.is_prefix_of(s@),
{
    let chars = chars_of(s);
    let pat = chars_of(prefix);
    assert(chars@.skip(0) == chars@);
    matches_at(&chars, 0, &pat)
}

/// `s` with every leading copy of `pat` removed (`str::trim_start_matches`).
pub fn trim_start_matches(s: &str, pat: &str) -> (out: String)
    ensures
        out@ == strip_leading(s@, pat@),
{
    let chars = chars_of(s);
    let p = chars_of(pat);
    let mut i: usize = 0;
    assert(chars@.skip(0) == chars@);
    while p.len() > 0 && matches_at(&chars, i, &p)
        invariant
            i <= chars.len(),
            strip_leading(chars@.skip(i as int), p@) == strip_leading(s@, pat@),
            chars@ == s@,
            p@ == pat@,
        decreases chars.len() - i,
    {
        assert(chars@.skip(i as int).skip(p@.len() as int) == chars@.skip(i + p@.len()));
        i = i + p.len();
    }
    let out = string_from_chars(&chars, i, chars.len());
    assert(chars@.subrange(i as int, chars@.len() as int) == chars@.skip(i as int));
    out
}

/// The lines of `text` (`str::lines`).
pub fn split_lines(text: &str) -> (out: Vec<String>)
    ensures
        out.deep_view() == lines(text@),
{
    let chars = chars_of(text);
    let mut done: Vec<String> = Vec::new();
    let mut partial: Vec<char> = Vec::new();
    let mut i: usize = 0;
    while i < chars.len()
        invariant
            i <= chars.len(),
            chars@ == text@,
            (done.deep_view(), partial@) == line_scan(chars@.take(i as int)),
        decreases chars.len() - i,
    {
        let c = chars[i];
        assert(chars@.take(i + 1).drop_last() == chars@.take(i as int));
        if c == '\n' {
            if partial.len() > 0 && partial[partial.len() - 1] == '\r' {
                partial.pop();
            }
            let line = string_from_chars(&partial, 0, partial.len());
            assert(partial@.subrange(0, partial@.len() as int) == partial@);
            done.push(line);
            partial = Vec::new();
        } else {
            partial.push(c);
        }
        i = i + 1;
    }
    assert(chars@.take(chars@.len() as int) == chars@);
    if partial.len() > 0 {
        let line = string_from_chars(&partial, 0, partial.len());
        assert(partial@.subrange(0, partial@.len() as int) == partial@);
        done.push(line);
    }
    done
}

} // verus!
