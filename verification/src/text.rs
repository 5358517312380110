//! Small text utilities shared by the renderer, the compositor and the search resolver:
//! decimal formatting, joining of lines, and byte lengths, each specified over `Seq<char>`.

use vstd::prelude::*;
use vstd::string::StringSliceAdditionalSpecFns;

verus! {

/// `String::push` of the standard library: the character is appended to the end of the
/// string and nothing else changes. Assumed from the documentation of `String::push`.
pub assume_specification[ String::push ](s: &mut String, ch: char)
    ensures
        final(s)@ == old(s)@.push(ch),
;

/// The number of bytes that `s` takes in UTF-8, which is what `str::len` counts.
pub open spec fn byte_len(s: Seq<char>) -> nat {
    vstd::utf8::encode_utf8(s).len()
}

/// The length of `s` in bytes.
pub fn byte_length(s: &str) -> (n: usize)
    ensures
        n == byte_len(s@),
{
    s.as_bytes().len()
}

/// The text of one decimal digit; the empty text for anything that is no digit.
pub open spec fn digit_text(d: int) -> Seq<char> {
    if d == 0 {
        "0"@
    } else if d == 1 {
        "1"@
    } else if d == 2 {
        "2"@
    } else if d == 3 {
        "3"@
    } else if d == 4 {
        "4"@
    } else if d == 5 {
        "5"@
    } else if d == 6 {
        "6"@
    } else if d == 7 {
        "7"@
    } else if d == 8 {
        "8"@
    } else if d == 9 {
        "9"@
    } else {
        Seq::empty()
    }
}

/// The decimal notation of `n`, most significant digit first, without leading zeros.
pub open spec fn decimal(n: nat) -> Seq<char>
    decreases n,
{
    if n < 10 {
        digit_text(n as int)
    } else {
        decimal(n / 10) + digit_text((n % 10) as int)
    }
}

fn digit_str(d: u32) -> (s: &'static str)
    requires
        d < 10,
    ensures
        s@ == digit_text(d as int),
{
    if d == 0 {
        "0"
    } else if d == 1 {
        "1"
    } else if d == 2 {
        "2"
    } else if d == 3 {
        "3"
    } else if d == 4 {
        "4"
    } else if d == 5 {
        "5"
    } else if d == 6 {
        "6"
    } else if d == 7 {
        "7"
    } else if d == 8 {
        "8"
    } else {
        "9"
    }
}

/// Appends the decimal notation of `n` to `out`.
pub fn push_decimal(out: &mut String, n: u32)
    ensures
        final(out)@ == old(out)@ + decimal(n as nat),
    decreases n,
{
    if n >= 10 {
        push_decimal(out, n / 10);
    }
    out.append(digit_str(n % 10));
}

/// The lines of `lines` with `sep` between each two neighbours; the empty text for no line.
pub open spec fn joined(lines: Seq<Seq<char>>, sep: Seq<char>) -> Seq<char>
    decreases lines.len(),
{
    if lines.len() == 0 {
        Seq::empty()
    } else if lines.len() == 1 {
        lines[0]
    } else {
        joined(lines.drop_last(), sep) + sep + lines.last()
    }
}

/// Joins `lines` into one text, with `sep` between each two neighbours.
pub fn join_lines(lines: &Vec<String>, sep: &str) -> (text: String)
    ensures
        text@ == joined(lines.deep_view(), sep@),
{
    let mut text = String::new();
    let mut i: usize = 0;
    while i < lines.len()
        invariant
            i <= lines.len(),
            text@ == joined(lines.deep_view().take(i as int), sep@),
        decreases lines.len() - i,
    {
        if i > 0 {
            text.append(sep);
        }
        text.append(lines[i].as_str());
        proof {
            let all = lines.deep_view();
            let next = all.take(i as int + 1);
            assert(next.drop_last() == all.take(i as int));
            assert(next.last() == lines[i as int]@);
        }
        i = i + 1;
    }
    proof {
        assert(lines.deep_view().take(lines.len() as int) == lines.deep_view());
    }
    text
}

/// Every line of `lines` followed by `end`, one after the other.
pub open spec fn terminated(lines: Seq<Seq<char>>, end: Seq<char>) -> Seq<char>
    decreases lines.len(),
{
    if lines.len() == 0 {
        Seq::empty()
    } else {
        terminated(lines.drop_last(), end) + lines.last() + end
    }
}

/// Appends every line of `lines` to `out`, each followed by `end`.
pub fn push_terminated(out: &mut String, lines: &Vec<String>, end: &str)
    ensures
        final(out)@ == old(out)@ + terminated(lines.deep_view(), end@),
{
    let mut i: usize = 0;
    while i < lines.len()
        invariant
            i <= lines.len(),
            out@ == old(out)@ + terminated(lines.deep_view().take(i as int), end@),
        decreases lines.len() - i,
    {
        out.append(lines[i].as_str());
        out.append(end);
        proof {
            let all = lines.deep_view();
            let next = all.take(i as int + 1);
            assert(next.drop_last() == all.take(i as int));
            assert(next.last() == lines[i as int]@);
            assert(out@ == old(out)@ + (terminated(all.take(i as int), end@) + lines[i as int]@
                + end@));
        }
        i = i + 1;
    }
    proof {
        assert(lines.deep_view().take(lines.len() as int) == lines.deep_view());
    }
}

/// Whether `c` is white space to `char::is_whitespace`.
pub uninterp spec fn white_space(c: char) -> bool;

/// `char::is_whitespace` of the standard library, which goes by the Unicode property
/// White_Space. Its result depends on the character alone and is named by
/// `white_space`.
pub assume_specification[ char::is_whitespace ](c: char) -> (white: bool)
    ensures
        white == white_space(c),
;

/// The characters that `char::to_uppercase` gives for `c`.
pub uninterp spec fn uppercased(c: char) -> Seq<char>;

/// `char::to_uppercase` of the standard library, collected into a string. The upper case
/// of a character may take several characters; it depends on the character alone and is
/// named by `uppercased`.
#[verifier::external_body]
pub(crate) fn to_uppercase(c: char) -> (upper: String)
    ensures
        upper@ == uppercased(c),
{
    c.to_uppercase().collect()
}

/// The text that `str::to_lowercase` gives for `text`.
pub uninterp spec fn lowercased(text: Seq<char>) -> Seq<char>;

/// `str::to_lowercase` of the standard library. The lower case of a text depends on the
/// text alone and is named by `lowercased`.
#[verifier::external_body]
pub(crate) fn to_lowercase(text: &str) -> (lower: String)
    ensures
        lower@ == lowercased(text@),
{
    text.to_lowercase()
}

/// `text` without the white space at its start.
pub open spec fn trimmed_start(text: Seq<char>) -> Seq<char>
    decreases text.len(),
{
    if text.len() > 0 && white_space(text[0]) {
        trimmed_start(text.skip(1))
    } else {
        text
    }
}

/// `text` without the white space at its end.
pub open spec fn trimmed_end(text: Seq<char>) -> Seq<char>
    decreases text.len(),
{
    if text.len() > 0 && white_space(text.last()) {
        trimmed_end(text.drop_last())
    } else {
        text
    }
}

/// `text` without the white space at its start and at its end.
pub open spec fn trimmed(text: Seq<char>) -> Seq<char> {
    trimmed_end(trimmed_start(text))
}

/// `str::trim` of the standard library: the text without its leading and trailing white
/// space, where white space is what `char::is_whitespace` accepts.
#[verifier::external_body]
pub(crate) fn trim(text: &str) -> (inner: &str)
    ensures
        inner@ == trimmed(text@),
{
    text.trim()
}

/// The characters of `text`, one by one.
pub(crate) fn chars_of(text: &str) -> (chars: Vec<char>)
    ensures
        chars@ == text@,
{
    let mut chars: Vec<char> = Vec::new();
    for c in it: text.chars()
        invariant
            chars@ == it.seq().take(it.index() as int),
            it.seq() == text@,
    {
        chars.push(c);
    }
    chars
}

} // verus!
