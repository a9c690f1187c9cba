//! Small helpers on text that the other modules share.

use vstd::prelude::*;
use vstd::string::*;
use crate::money::{magnitude, natural_text, sign_text};

verus! {

/// `String::push` of std appends one character to the end of the text.
pub assume_specification[ String::push ](text: &mut String, c: char)
    ensures
        final(text)@ == old(text)@.push(c),
;

/// `String::pop` of std removes the last character of the text and returns
/// it; of an empty text it returns `None` and leaves the text empty.
pub assume_specification[ String::pop ](text: &mut String) -> (last: Option<char>)
    ensures
        old(text)@.len() == 0 ==> last is None && final(text)@ == old(text)@,
        old(text)@.len() > 0 ==> last == Some(old(text)@.last()) && final(text)@ == old(text)@.drop_last(),
;

/// The characters of each text of `texts`.
pub open spec fn text_views(texts: Seq<String>) -> Seq<Seq<char>> {
    Seq::new(texts.len(), |i: int| texts[i]@)
}

/// Whether two texts hold the same characters.
pub fn same_text(left: &str, right: &str) -> (same: bool)
    ensures
        same == (left@ == right@),
{
    let a = String::from_str(left);
    let b = String::from_str(right);
    a == b
}

/// The text of `left` followed by that of `right`.
pub fn joined(left: &str, right: &str) -> (both: String)
    ensures
        both@ == left@ + right@,
{
    let mut out = String::from_str(left);
    out.append(right);
    out
}

/// The decimal notation of a count.
pub fn count_text(count: usize) -> (text: String)
    ensures
        text@ == natural_text(count as nat),
{
    let mut out = String::new();
    crate::money::append_natural(&mut out, count as u64);
    assert(out@ =~= natural_text(count as nat));
    out
}

/// The decimal notation of an integer, with a minus sign where it is
/// negative.
pub open spec fn integer_text(value: int) -> Seq<char> {
    sign_text(value) + natural_text(magnitude(value))
}

/// The decimal notation of a 32-bit integer.
pub fn i32_text(value: i32) -> (text: String)
    ensures
        text@ == integer_text(value as int),
{
    let mut out = String::new();
    let size: u64 = if value < 0 {
        proof {
            reveal_strlit("-");
        }
        out.append("-");
        (-(value as i64)) as u64
    } else {
        value as u64
    };
    assert(out@ =~= sign_text(value as int));
    crate::money::append_natural(&mut out, size);
    out
}

/// Whether `needle` stands in `hay` at the place `at`.
pub open spec fn occurs_at(hay: Seq<char>, needle: Seq<char>, at: int) -> bool {
    0 <= at && at + needle.len() <= hay.len() && hay.subrange(at, at + needle.len()) == needle
}

/// Whether `needle` stands somewhere in `hay`.
pub open spec fn occurs_in(hay: Seq<char>, needle: Seq<char>) -> bool {
    exists|at: int| occurs_at(hay, needle, at)
}

/// The characters of a text, one by one.
pub fn characters(text: &str) -> (chars: Vec<char>)
    ensures
        chars@ == text@,
{
    let count = text.unicode_len();
    let mut chars: Vec<char> = Vec::new();
    let mut i: usize = 0;
    while i < count
        invariant
            i <= count,
            count == text@.len(),
            chars@ =~= text@.take(i as int),
        decreases count - i,
    {
        chars.push(text.get_char(i));
        i += 1;
    }
    assert(text@.take(count as int) =~= text@);
    chars
}

/// Whether `needle` stands in `hay` at the place `at`.
pub(crate) fn matches_at(hay: &Vec<char>, needle: &Vec<char>, at: usize) -> (found: bool)
    requires
        at + needle.len() <= hay.len(),
    ensures
        found == occurs_at(hay@, needle@, at as int),
{
    let mut k: usize = 0;
    while k < needle.len()
        invariant
            k <= needle.len(),
            at + needle.len() <= hay.len(),
            forall|j: int| 0 <= j < k ==> hay@[at + j] == needle@[j],
        decreases needle.len() - k,
    {
        if hay[at + k] != needle[k] {
            assert(hay@.subrange(at as int, at + needle.len())[k as int] == hay@[at + k]);
            return false;
        }
        k += 1;
    }
    assert(hay@.subrange(at as int, at + needle.len()) =~= needle@);
    true
}

/// Whether the text `needle` stands somewhere in the text `hay`.
pub fn contains_text(hay: &str, needle: &str) -> (found: bool)
    ensures
        found == occurs_in(hay@, needle@),
{
    let whole = characters(hay);
    let part = characters(needle);
    if part.len() > whole.len() {
        assert forall|at: int| !occurs_at(whole@, part@, at) by {}
        return false;
    }
    let last: usize = whole.len() - part.len();
    let mut at: usize = 0;
    loop
        invariant
            at <= last,
            last == whole.len() - part.len(),
            whole@ == hay@,
            part@ == needle@,
            forall|before: int| 0 <= before < at ==> !occurs_at(whole@, part@, before),
        decreases last - at,
    {
        if matches_at(&whole, &part, at) {
            assert(occurs_at(hay@, needle@, at as int));
            return true;
        }
        if at == last {
            assert forall|any: int| !occurs_at(whole@, part@, any) by {}
            return false;
        }
        at += 1;
    }
}

/// Whether a character is white space, as Unicode defines it.
pub uninterp spec fn is_space(c: char) -> bool;

/// `char::is_whitespace` of std says whether a character has the Unicode
/// property `White_Space`; the contract only names the answer.
pub assume_specification[ char::is_whitespace ](c: char) -> (space: bool)
    ensures
        space == is_space(c),
;

/// The first place from `from` on where no white space stands, or the
/// length of the text.
pub open spec fn word_start(text: Seq<char>, from: int) -> int
    decreases text.len() - from,
{
    if from < 0 || from >= text.len() {
        text.len() as int
    } else if !is_space(text[from]) {
        from
    } else {
        word_start(text, from + 1)
    }
}

/// The first place from `from` on where white space stands, or the length
/// of the text.
pub open spec fn word_end(text: Seq<char>, from: int) -> int
    decreases text.len() - from,
{
    if from < 0 || from >= text.len() {
        text.len() as int
    } else if is_space(text[from]) {
        from
    } else {
        word_end(text, from + 1)
    }
}

/// The first word of a text: what stands between the white space at its
/// start and the next white space. `None` where the text holds nothing but
/// white space.
pub open spec fn first_word_of(text: Seq<char>) -> Option<Seq<char>> {
    let start = word_start(text, 0);
    if start >= text.len() {
        None
    } else {
        Some(text.subrange(start, word_end(text, start)))
    }
}

/// The first word of a text.
pub fn first_word(text: &str) -> (word: Option<String>)
    ensures
        match word {
            Some(word) => first_word_of(text@) == Some(word@),
            None => first_word_of(text@) is None,
        },
{
    let chars = characters(text);
    let mut start: usize = 0;
    while start < chars.len() && chars[start].is_whitespace()
        invariant
            start <= chars.len(),
            word_start(chars@, 0) == word_start(chars@, start as int),
        decreases chars.len() - start,
    {
        start += 1;
    }
    if start >= chars.len() {
        return None;
    }
    let mut word = String::new();
    let mut end: usize = start;
    while end < chars.len() && !chars[end].is_whitespace()
        invariant
            start <= end <= chars.len(),
            word_end(chars@, start as int) == word_end(chars@, end as int),
            word@ =~= chars@.subrange(start as int, end as int),
        decreases chars.len() - end,
    {
        word.push(chars[end]);
        end += 1;
    }
    Some(word)
}

} // verus!
