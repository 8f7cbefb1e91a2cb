//! Character-level helpers shared by the classifiers.
//!
//! Strings are handled as sequences of `char`; the few operations that only
//! the standard library can perform sit behind small trusted wrappers whose
//! contracts are spelled out over `Seq<char>`.

use vstd::prelude::*;
use vstd::std_specs::iter::IteratorSpec;

verus! {

/// `needle` occurs in `hay` starting at position `at`.
pub open spec fn occurs_at(hay: Seq<char>, needle: Seq<char>, at: int) -> bool {
    &&& 0 <= at
    &&& at + needle.len() <= hay.len()
    &&& hay.subrange(at, at + needle.len()) == needle
}

/// `hay` begins with `needle`.
pub open spec fn has_prefix(hay: Seq<char>, needle: Seq<char>) -> bool {
    occurs_at(hay, needle, 0)
}

/// `hay` ends with `needle`.
pub open spec fn has_suffix(hay: Seq<char>, needle: Seq<char>) -> bool {
    occurs_at(hay, needle, hay.len() - needle.len())
}

/// `needle` occurs somewhere in `hay`.
pub open spec fn has_infix(hay: Seq<char>, needle: Seq<char>) -> bool {
    exists|at: int| occurs_at(hay, needle, at)
}

/// The characters of a string slice, in order.
pub fn chars_of(s: &str) -> (out: Vec<char>)
    ensures
        out@ == s@,
{
    broadcast use vstd::string::group_string_axioms;

    let mut out: Vec<char> = Vec::new();
    let mut rest = s.chars();
    assert(out@ + rest.remaining() =~= s@);
    loop
        invariant
            rest.obeys_prophetic_iter_laws(),
            rest.decrease() is Some,
            out@ + rest.remaining() == s@,
        ensures
            out@ == s@,
        decreases rest.decrease()->0,
    {
        let ghost before = rest.remaining();
        let ghost taken = out@;
        match rest.next() {
            Some(c) => {
                out.push(c);
                assert(out@ + rest.remaining() =~= taken + before);
            },
            None => {
                assert(taken + before =~= taken);
                break;
            },
        }
    }
    out
}

/// Whether `needle` occurs in `hay` at position `at`.
pub fn matches_at(hay: &Vec<char>, needle: &Vec<char>, at: usize) -> (found: bool)
    ensures
        found == occurs_at(hay@, needle@, at as int),
{
    if at > hay.len() || needle.len() > hay.len() - at {
        return false;
    }
    let mut k: usize = 0;
    while k < needle.len()
        invariant
            at + needle.len() <= hay.len(),
            k <= needle.len(),
            forall|j: int| 0 <= j < k ==> hay@[at + j] == needle@[j],
        decreases needle.len() - k,
    {
        if hay[at + k] != needle[k] {
            assert(hay@.subrange(at as int, at + needle.len())[k as int] == hay@[at + k]);
            return false;
        }
        k += 1;
    }
    assert(hay@.subrange(at as int, at + needle.len()) =~= needle@);
    true
}

/// Whether `hay` begins with `needle`.
pub fn starts_with(hay: &Vec<char>, needle: &Vec<char>) -> (found: bool)
    ensures
        found == has_prefix(hay@, needle@),
{
    matches_at(hay, needle, 0)
}

/// Whether `hay` ends with `needle`.
pub fn ends_with(hay: &Vec<char>, needle: &Vec<char>) -> (found: bool)
    ensures
        found == has_suffix(hay@, needle@),
{
    if needle.len() > hay.len() {
        return false;
    }
    matches_at(hay, needle, hay.len() - needle.len())
}

/// Whether `needle` occurs anywhere in `hay`.
pub fn contains(hay: &Vec<char>, needle: &Vec<char>) -> (found: bool)
    ensures
        found == has_infix(hay@, needle@),
{
    if needle.len() > hay.len() {
        return false;
    }
    if needle.len() == 0 {
        assert(hay@.subrange(0, 0) =~= needle@);
        assert(occurs_at(hay@, needle@, 0));
        return true;
    }
    let last: usize = hay.len() - needle.len();
    let mut at: usize = 0;
    while at <= last
        invariant
            last == hay.len() - needle.len(),
            last < hay.len(),
            at <= last + 1,
            forall|j: int| 0 <= j < at ==> !occurs_at(hay@, needle@, j),
        decreases last + 1 - at,
    {
        if matches_at(hay, needle, at) {
            return true;
        }
        at += 1;
    }
    false
}


/// Appends one character to a string.
///
/// Calls `String::push`; the contract restates its documentation: the
/// character is added at the end and nothing else changes.
#[verifier::external_body]
pub(crate) fn push_char(s: &mut String, c: char)
    ensures
        final(s)@ == old(s)@.push(c),
{
    s.push(c)
}

/// The string made of the characters of `chars`, in order.
pub fn from_chars(chars: &Vec<char>) -> (out: String)
    ensures
        out@ == chars@,
{
    let mut out = String::new();
    let mut i: usize = 0;
    while i < chars.len()
        invariant
            i <= chars.len(),
            out@ == chars@.subrange(0, i as int),
        decreases chars.len() - i,
    {
        push_char(&mut out, chars[i]);
        i += 1;
        assert(out@ =~= chars@.subrange(0, i as int));
    }
    assert(chars@.subrange(0, chars.len() as int) =~= chars@);
    out
}

/// The lower-case form of a text, as the Unicode case mapping defines it.
pub uninterp spec fn lowercase_of(s: Seq<char>) -> Seq<char>;

/// The upper-case form of a text, as the Unicode case mapping defines it.
pub uninterp spec fn uppercase_of(s: Seq<char>) -> Seq<char>;

/// Lower-cases a string.
///
/// Calls `str::to_lowercase`. The mapping follows the Unicode tables and may
/// change the number of characters, so its result is only named.
#[verifier::external_body]
pub(crate) fn to_lowercase(s: &str) -> (out: String)
    ensures
        out@ == lowercase_of(s@),
{
    s.to_lowercase()
}

/// Upper-cases a string.
///
/// Calls `str::to_uppercase`. The mapping follows the Unicode tables and may
/// change the number of characters, so its result is only named.
#[verifier::external_body]
pub(crate) fn to_uppercase(s: &str) -> (out: String)
    ensures
        out@ == uppercase_of(s@),
{
    s.to_uppercase()
}

/// The characters with the Unicode property `White_Space`.
pub open spec fn is_space(c: char) -> bool {
    let u = c as u32;
    ||| 0x09 <= u <= 0x0D
    ||| u == 0x20
    ||| u == 0x85
    ||| u == 0xA0
    ||| u == 0x1680
    ||| 0x2000 <= u <= 0x200A
    ||| u == 0x2028
    ||| u == 0x2029
    ||| u == 0x202F
    ||| u == 0x205F
    ||| u == 0x3000
}

/// Whether `c` is white space.
pub fn is_whitespace(c: char) -> (b: bool)
    ensures
        b == is_space(c),
{
    let u: u32 = c as u32;
    (0x09 <= u && u <= 0x0D) || u == 0x20 || u == 0x85 || u == 0xA0 || u == 0x1680 || (0x2000 <= u
        && u <= 0x200A) || u == 0x2028 || u == 0x2029 || u == 0x202F || u == 0x205F || u == 0x3000
}

/// First position at or after `from` whose character is not white space
/// (the length of `s` if there is none).
pub open spec fn skip_spaces(s: Seq<char>, from: int) -> int
    decreases s.len() - from,
{
    if 0 <= from < s.len() && is_space(s[from]) {
        skip_spaces(s, from + 1)
    } else {
        from
    }
}

/// End of `s` once trailing white space is dropped, never going below `floor`.
pub open spec fn drop_spaces(s: Seq<char>, floor: int, to: int) -> int
    decreases to,
{
    if floor < to <= s.len() && 0 < to && is_space(s[to - 1]) {
        drop_spaces(s, floor, to - 1)
    } else {
        to
    }
}

/// `s` without leading and trailing white space.
pub open spec fn trimmed(s: Seq<char>) -> Seq<char> {
    let lo = skip_spaces(s, 0);
    let hi = drop_spaces(s, lo, s.len() as int);
    s.subrange(lo, hi)
}

/// First position at or after `from` whose character is white space (the
/// length of `s` if there is none).
pub open spec fn skip_word(s: Seq<char>, from: int) -> int
    decreases s.len() - from,
{
    if 0 <= from < s.len() && !is_space(s[from]) {
        skip_word(s, from + 1)
    } else {
        from
    }
}

/// The first word of `s`: what stands between its leading white space and
/// the next white space; empty if `s` is blank.
pub open spec fn first_word(s: Seq<char>) -> Seq<char> {
    let lo = skip_spaces(s, 0);
    s.subrange(lo, skip_word(s, lo))
}

/// Cuts the first word out of a text.
pub fn first_word_of(s: &Vec<char>) -> (word: Vec<char>)
    ensures
        word@ == first_word(s@),
{
    let mut lo: usize = 0;
    while lo < s.len() && is_whitespace(s[lo])
        invariant
            lo <= s.len(),
            skip_spaces(s@, 0) == skip_spaces(s@, lo as int),
        decreases s.len() - lo,
    {
        lo += 1;
    }
    let mut hi: usize = lo;
    while hi < s.len() && !is_whitespace(s[hi])
        invariant
            lo <= hi <= s.len(),
            skip_word(s@, lo as int) == skip_word(s@, hi as int),
        decreases s.len() - hi,
    {
        hi += 1;
    }
    slice_of(s, lo, hi)
}

/// First position at or after `from` whose character differs from `c`
/// (the length of `s` if there is none).
pub open spec fn skip_char(s: Seq<char>, c: char, from: int) -> int
    decreases s.len() - from,
{
    if 0 <= from < s.len() && s[from] == c {
        skip_char(s, c, from + 1)
    } else {
        from
    }
}

/// `s` without its leading run of `c`.
pub open spec fn without_leading(s: Seq<char>, c: char) -> Seq<char> {
    s.subrange(skip_char(s, c, 0), s.len() as int)
}

/// The characters of `s` from `lo` up to `hi`.
pub fn slice_of(s: &Vec<char>, lo: usize, hi: usize) -> (out: Vec<char>)
    requires
        lo <= hi <= s.len(),
    ensures
        out@ == s@.subrange(lo as int, hi as int),
{
    let mut out: Vec<char> = Vec::new();
    let mut i: usize = lo;
    while i < hi
        invariant
            lo <= i <= hi,
            hi <= s.len(),
            out@ == s@.subrange(lo as int, i as int),
        decreases hi - i,
    {
        out.push(s[i]);
        i += 1;
        assert(out@ =~= s@.subrange(lo as int, i as int));
    }
    out
}

/// Removes leading and trailing white space.
pub fn trim(s: &Vec<char>) -> (out: Vec<char>)
    ensures
        out@ == trimmed(s@),
{
    let mut lo: usize = 0;
    while lo < s.len() && is_whitespace(s[lo])
        invariant
            lo <= s.len(),
            skip_spaces(s@, 0) == skip_spaces(s@, lo as int),
        decreases s.len() - lo,
    {
        lo += 1;
    }
    let mut hi: usize = s.len();
    while lo < hi && is_whitespace(s[hi - 1])
        invariant
            lo <= hi <= s.len(),
            drop_spaces(s@, lo as int, s.len() as int) == drop_spaces(s@, lo as int, hi as int),
        decreases hi,
    {
        hi -= 1;
    }
    slice_of(s, lo, hi)
}

/// Removes the leading run of `c`.
pub fn trim_start_matches(s: &Vec<char>, c: char) -> (out: Vec<char>)
    ensures
        out@ == without_leading(s@, c),
{
    let mut lo: usize = 0;
    while lo < s.len() && s[lo] == c
        invariant
            lo <= s.len(),
            skip_char(s@, c, 0) == skip_char(s@, c, lo as int),
        decreases s.len() - lo,
    {
        lo += 1;
    }
    slice_of(s, lo, s.len())
}

/// Number of bytes that `c` takes in UTF-8.
pub open spec fn utf8_width(c: char) -> nat {
    let u = c as u32;
    if u < 0x80 {
        1
    } else if u < 0x800 {
        2
    } else if u < 0x10000 {
        3
    } else {
        4
    }
}

/// Number of bytes that `s` takes in UTF-8.
pub open spec fn utf8_len(s: Seq<char>) -> nat
    decreases s.len(),
{
    if s.len() == 0 {
        0
    } else {
        utf8_len(s.drop_last()) + utf8_width(s.last())
    }
}

/// Whether `s` takes more than `limit` bytes in UTF-8.
pub fn longer_than(s: &Vec<char>, limit: usize) -> (b: bool)
    ensures
        b == (utf8_len(s@) > limit),
{
    let mut total: usize = 0;
    let mut i: usize = 0;
    while i < s.len()
        invariant
            i <= s.len(),
            total <= limit,
            total == utf8_len(s@.subrange(0, i as int)),
        decreases s.len() - i,
    {
        let u: u32 = s[i] as u32;
        let w: usize = if u < 0x80 {
            1
        } else if u < 0x800 {
            2
        } else if u < 0x10000 {
            3
        } else {
            4
        };
        proof {
            let next = s@.subrange(0, i + 1);
            assert(next.drop_last() =~= s@.subrange(0, i as int));
            assert(next.last() == s@[i as int]);
            lemma_utf8_len_monotone(s@, i + 1);
        }
        if w > limit - total {
            return true;
        }
        total = total + w;
        i += 1;
    }
    assert(s@.subrange(0, s.len() as int) =~= s@);
    false
}

/// A prefix takes no more bytes than the whole.
pub proof fn lemma_utf8_len_monotone(s: Seq<char>, k: int)
    requires
        0 <= k <= s.len(),
    ensures
        utf8_len(s.subrange(0, k)) <= utf8_len(s),
    decreases s.len() - k,
{
    if k == s.len() {
        assert(s.subrange(0, k) =~= s);
    } else {
        lemma_utf8_len_monotone(s.drop_last(), k);
        assert(s.drop_last().subrange(0, k) =~= s.subrange(0, k));
    }
}

/// `at` is the first position of `c` in `s`.
pub open spec fn is_first_index(s: Seq<char>, c: char, at: int) -> bool {
    &&& 0 <= at < s.len()
    &&& s[at] == c
    &&& forall|j: int| 0 <= j < at ==> s[j] != c
}

/// `at` is the last position of `c` in `s`.
pub open spec fn is_last_index(s: Seq<char>, c: char, at: int) -> bool {
    &&& 0 <= at < s.len()
    &&& s[at] == c
    &&& forall|j: int| at < j < s.len() ==> s[j] != c
}

/// The first position of `c` in `s`.
pub open spec fn first_index(s: Seq<char>, c: char) -> int {
    choose|at: int| is_first_index(s, c, at)
}

/// The last position of `c` in `s`.
pub open spec fn last_index(s: Seq<char>, c: char) -> int {
    choose|at: int| is_last_index(s, c, at)
}

/// Only one position is the first of a character.
pub proof fn lemma_first_index(s: Seq<char>, c: char, at: int)
    requires
        is_first_index(s, c, at),
    ensures
        first_index(s, c) == at,
        s.contains(c),
{
    let k = first_index(s, c);
    if k < at {
    } else if at < k {
    }
}

/// Only one position is the last of a character.
pub proof fn lemma_last_index(s: Seq<char>, c: char, at: int)
    requires
        is_last_index(s, c, at),
    ensures
        last_index(s, c) == at,
        s.contains(c),
{
    let k = last_index(s, c);
    if k < at {
    } else if at < k {
    }
}

/// The first position of `c` in `s`, if it occurs.
pub fn find_char(s: &Vec<char>, c: char) -> (found: Option<usize>)
    ensures
        match found {
            Some(at) => is_first_index(s@, c, at as int) && at == first_index(s@, c),
            None => !s@.contains(c),
        },
{
    let mut i: usize = 0;
    while i < s.len()
        invariant
            i <= s.len(),
            forall|j: int| 0 <= j < i ==> s@[j] != c,
        decreases s.len() - i,
    {
        if s[i] == c {
            proof {
                lemma_first_index(s@, c, i as int);
            }
            return Some(i);
        }
        i += 1;
    }
    None
}

/// The last position of `c` in `s`, if it occurs.
pub fn rfind_char(s: &Vec<char>, c: char) -> (found: Option<usize>)
    ensures
        match found {
            Some(at) => is_last_index(s@, c, at as int) && at == last_index(s@, c),
            None => !s@.contains(c),
        },
{
    let mut i: usize = s.len();
    while i > 0
        invariant
            i <= s.len(),
            forall|j: int| i <= j < s.len() ==> s@[j] != c,
        decreases i,
    {
        i -= 1;
        if s[i] == c {
            proof {
                lemma_last_index(s@, c, i as int);
            }
            return Some(i);
        }
    }
    None
}

/// `at` is where the last occurrence of `needle` in `hay` starts.
pub open spec fn is_last_occurrence(hay: Seq<char>, needle: Seq<char>, at: int) -> bool {
    &&& occurs_at(hay, needle, at)
    &&& forall|j: int| at < j ==> !occurs_at(hay, needle, j)
}

/// Where the last occurrence of `needle` in `hay` starts, if there is one.
pub fn rfind(hay: &Vec<char>, needle: &Vec<char>) -> (found: Option<usize>)
    ensures
        match found {
            Some(at) => is_last_occurrence(hay@, needle@, at as int),
            None => !has_infix(hay@, needle@),
        },
{
    if needle.len() > hay.len() {
        return None;
    }
    let mut at: usize = hay.len() - needle.len();
    loop
        invariant
            at + needle.len() <= hay.len(),
            forall|j: int| at < j ==> !occurs_at(hay@, needle@, j),
        decreases at,
    {
        if matches_at(hay, needle, at) {
            return Some(at);
        }
        if at == 0 {
            return None;
        }
        at -= 1;
    }
}

/// The text written as a Rust string literal: in double quotes, with the
/// characters that need it escaped.
pub uninterp spec fn debug_form_of(s: Seq<char>) -> Seq<char>;

/// Writes a text as a Rust string literal.
///
/// Formats the text with `{:?}`, which goes by the `Debug` implementation
/// of `str`. Which characters are escaped, and how, is left to the standard
/// library, so the result is only named.
#[verifier::external_body]
pub(crate) fn debug_form(s: &str) -> (out: String)
    ensures
        out@ == debug_form_of(s@),
{
    format!("{:?}", s)
}

/// `s` without one carriage return at its end.
pub open spec fn without_return(s: Seq<char>) -> Seq<char> {
    if s.len() > 0 && s.last() == '\r' {
        s.drop_last()
    } else {
        s
    }
}

/// The lines of `s` from position `from` on: each line ends at a line
/// feed, which is dropped together with a carriage return right before it;
/// what follows the last line feed is a line too, as it stands, unless it
/// is empty.
pub open spec fn lines_from(s: Seq<char>, from: int) -> Seq<Seq<char>>
    decreases s.len() - from,
{
    if from < 0 || from >= s.len() {
        Seq::empty()
    } else {
        let end = skip_to_feed(s, from);
        if from <= end < s.len() {
            seq![without_return(s.subrange(from, end))] + lines_from(s, end + 1)
        } else {
            seq![s.subrange(from, end)]
        }
    }
}

/// The texts of `lines`.
pub open spec fn texts_of(lines: Seq<Vec<char>>) -> Seq<Seq<char>> {
    Seq::new(lines.len(), |i: int| lines[i]@)
}

/// First position at or after `from` that holds a line feed (the length of
/// `s` if there is none).
pub open spec fn skip_to_feed(s: Seq<char>, from: int) -> int
    decreases s.len() - from,
{
    if 0 <= from < s.len() && s[from] != '\n' {
        skip_to_feed(s, from + 1)
    } else {
        from
    }
}

/// Splits a text into its lines.
pub fn lines_of(s: &Vec<char>) -> (lines: Vec<Vec<char>>)
    ensures
        texts_of(lines@) == lines_from(s@, 0),
{
    let mut lines: Vec<Vec<char>> = Vec::new();
    let mut from: usize = 0;
    assert(texts_of(lines@) =~= Seq::<Seq<char>>::empty());
    while from < s.len()
        invariant
            from <= s.len(),
            texts_of(lines@) + lines_from(s@, from as int) == lines_from(s@, 0),
        decreases s.len() - from,
    {
        let mut end: usize = from;
        while end < s.len() && s[end] != '\n'
            invariant
                from <= end <= s.len(),
                skip_to_feed(s@, from as int) == skip_to_feed(s@, end as int),
            decreases s.len() - end,
        {
            end += 1;
        }
        let stop: usize = if end < s.len() && end > from && s[end - 1] == '\r' {
            end - 1
        } else {
            end
        };
        let line = slice_of(s, from, stop);
        proof {
            let whole = s@.subrange(from as int, end as int);
            if end < s.len() {
                assert(line@ =~= without_return(whole)) by {
                    if end > from && s@[end - 1] == '\r' {
                        assert(whole.last() == '\r');
                        assert(whole.drop_last() =~= s@.subrange(from as int, stop as int));
                    }
                }
            }
        }
        let ghost before = texts_of(lines@);
        lines.push(line);
        assert(texts_of(lines@) =~= before + seq![line@]);
        if end == s.len() {
            return lines;
        }
        assert(before + (seq![line@] + lines_from(s@, end + 1)) =~= texts_of(lines@)
            + lines_from(s@, end + 1));
        from = end + 1;
    }
    assert(texts_of(lines@) + lines_from(s@, from as int) =~= texts_of(lines@));
    lines
}

} // verus!
