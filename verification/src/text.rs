//! Searching and trimming of text, character by character.
//!
//! Offsets count characters, not bytes.

use vstd::prelude::*;

verus! {

/// Whether `c` is white space in the sense of `char::is_whitespace`.
pub uninterp spec fn is_white_space(c: char) -> bool;

/// `char::is_whitespace` of std, which tells whether the character has the
/// Unicode property White_Space. Its result is given a name; all that is
/// claimed of it is that it depends on the character alone.
#[verifier::external_body]
fn char_is_whitespace(c: char) -> (r: bool)
    ensures
        r == is_white_space(c),
{
    c.is_whitespace()
}

/// The characters of `text`, in order.
pub fn chars_of(text: &str) -> (chars: Vec<char>)
    ensures
        chars@ == text@,
{
    let mut chars: Vec<char> = Vec::new();
    for c in it: text.chars()
        invariant
            it.seq() == text@,
            chars@ == text@.take(it.index()),
    {
        chars.push(c);
        assert(text@.take(it.index() + 1) == text@.take(it.index()).push(text@[it.index()]));
    }
    assert(text@.take(text@.len() as int) == text@);
    chars
}

/// Whether `needle` stands in `hay` at offset `at`.
pub open spec fn occurs_at(hay: Seq<char>, needle: Seq<char>, at: int) -> bool {
    &&& 0 <= at
    &&& at + needle.len() <= hay.len()
    &&& hay.subrange(at, at + needle.len()) == needle
}

/// The least offset not below `from` at which `needle` stands in `hay`.
pub open spec fn find_from(hay: Seq<char>, needle: Seq<char>, from: int) -> Option<int>
    decreases hay.len() + 1 - from,
{
    if from < 0 {
        None
    } else if from + needle.len() > hay.len() {
        None
    } else if occurs_at(hay, needle, from) {
        Some(from)
    } else {
        find_from(hay, needle, from + 1)
    }
}

/// The offset of the first occurrence of `needle` in `hay`.
pub open spec fn find(hay: Seq<char>, needle: Seq<char>) -> Option<int> {
    find_from(hay, needle, 0)
}

/// What [`find_from`] gives is an occurrence, and the first one from `from`
/// on; where it gives none, there is none.
pub proof fn lemma_find_from_is_first(hay: Seq<char>, needle: Seq<char>, from: int)
    requires
        0 <= from,
    ensures
        match find_from(hay, needle, from) {
            Some(at) => from <= at && occurs_at(hay, needle, at) && forall|k: int|
                from <= k < at ==> !occurs_at(hay, needle, k),
            None => forall|k: int| from <= k ==> !occurs_at(hay, needle, k),
        },
    decreases hay.len() + 1 - from,
{
    if from + needle.len() > hay.len() {
    } else if occurs_at(hay, needle, from) {
    } else {
        lemma_find_from_is_first(hay, needle, from + 1);
    }
}

/// Whether `needle` stands in `hay` at offset `at`.
fn matches_at(hay: &[char], needle: &[char], at: usize) -> (r: bool)
    requires
        at + needle@.len() <= hay@.len(),
    ensures
        r == occurs_at(hay@, needle@, at as int),
{
    let n = hay.len();
    let mut k: usize = 0;
    while k < needle.len()
        invariant
            n == hay@.len(),
            k <= needle@.len(),
            at + needle@.len() <= hay@.len(),
            forall|j: int| 0 <= j < k ==> hay@[at + j] == needle@[j],
        decreases needle@.len() - k,
    {
        if hay[at + k] != needle[k] {
            assert(hay@.subrange(at as int, at + needle@.len())[k as int] != needle@[k as int]);
            return false;
        }
        k += 1;
    }
    assert(hay@.subrange(at as int, at + needle@.len()) =~= needle@);
    true
}

/// The offset of the first occurrence of `needle` in `hay`, if there is one:
/// `needle` stands there and at no offset before it.
pub fn find_chars(hay: &[char], needle: &[char]) -> (r: Option<usize>)
    ensures
        match r {
            Some(at) => find(hay@, needle@) == Some(at as int) && occurs_at(
                hay@,
                needle@,
                at as int,
            ) && forall|k: int| 0 <= k < at ==> !occurs_at(hay@, needle@, k),
            None => find(hay@, needle@) is None && forall|k: int| !occurs_at(hay@, needle@, k),
        },
{
    proof {
        lemma_find_from_is_first(hay@, needle@, 0);
    }
    if needle.len() > hay.len() {
        return None;
    }
    let last: usize = hay.len() - needle.len();
    let mut at: usize = 0;
    loop
        invariant
            last == hay@.len() - needle@.len(),
            at <= last,
            find(hay@, needle@) == find_from(hay@, needle@, at as int),
        decreases last - at,
    {
        proof {
            lemma_find_from_is_first(hay@, needle@, 0);
        }
        if matches_at(hay, needle, at) {
            return Some(at);
        }
        if at == last {
            assert(find_from(hay@, needle@, at + 1) is None);
            return None;
        }
        at += 1;
    }
}

/// The number of white-space characters at the front of `text`.
pub open spec fn leading_white_space(text: Seq<char>) -> nat
    decreases text.len(),
{
    if text.len() > 0 && is_white_space(text[0]) {
        1 + leading_white_space(text.drop_first())
    } else {
        0
    }
}

/// The number of white-space characters at the end of `text`.
pub open spec fn trailing_white_space(text: Seq<char>) -> nat
    decreases text.len(),
{
    if text.len() > 0 && is_white_space(text.last()) {
        1 + trailing_white_space(text.drop_last())
    } else {
        0
    }
}

/// Where the text without its white space at both ends starts.
pub open spec fn trim_start(text: Seq<char>) -> int {
    leading_white_space(text) as int
}

/// Where the text without its white space at both ends stops.
pub open spec fn trim_end(text: Seq<char>) -> int {
    text.len() - trailing_white_space(text.skip(trim_start(text)))
}

/// `text` without the white space at its two ends.
pub open spec fn trimmed(text: Seq<char>) -> Seq<char> {
    text.subrange(trim_start(text), trim_end(text))
}

/// Every one of the leading white-space characters is white space, and the
/// character behind them, if there is one, is not.
pub proof fn lemma_leading_white_space(text: Seq<char>)
    ensures
        leading_white_space(text) <= text.len(),
        forall|i: int| 0 <= i < leading_white_space(text) ==> is_white_space(text[i]),
        leading_white_space(text) < text.len() ==> !is_white_space(
            text[leading_white_space(text) as int],
        ),
    decreases text.len(),
{
    if text.len() > 0 && is_white_space(text[0]) {
        let rest = text.drop_first();
        lemma_leading_white_space(rest);
        assert forall|i: int| 0 <= i < leading_white_space(text) implies is_white_space(
            text[i],
        ) by {
            if i > 0 {
                assert(text[i] == rest[i - 1]);
            }
        }
        if leading_white_space(text) < text.len() {
            assert(text[leading_white_space(text) as int] == rest[leading_white_space(
                rest,
            ) as int]);
        }
    }
}

/// Every one of the trailing white-space characters is white space, and the
/// character before them, if there is one, is not.
pub proof fn lemma_trailing_white_space(text: Seq<char>)
    ensures
        trailing_white_space(text) <= text.len(),
        forall|i: int|
            text.len() - trailing_white_space(text) <= i < text.len() ==> is_white_space(text[i]),
        trailing_white_space(text) < text.len() ==> !is_white_space(
            text[text.len() - trailing_white_space(text) - 1],
        ),
    decreases text.len(),
{
    if text.len() > 0 && is_white_space(text.last()) {
        let rest = text.drop_last();
        lemma_trailing_white_space(rest);
        assert forall|i: int|
            text.len() - trailing_white_space(text) <= i < text.len() implies is_white_space(
            text[i],
        ) by {
            if i < text.len() - 1 {
                assert(text[i] == rest[i]);
            }
        }
        if trailing_white_space(text) < text.len() {
            assert(text[text.len() - trailing_white_space(text) - 1] == rest[rest.len()
                - trailing_white_space(rest) - 1]);
        }
    }
}

/// What trimming takes away is white space, all of it, and what it leaves
/// neither starts nor ends with white space.
pub proof fn lemma_trimmed_is_tight(text: Seq<char>)
    ensures
        0 <= trim_start(text) <= trim_end(text) <= text.len(),
        forall|i: int| 0 <= i < trim_start(text) ==> is_white_space(text[i]),
        forall|i: int| trim_end(text) <= i < text.len() ==> is_white_space(text[i]),
        trimmed(text).len() > 0 ==> !is_white_space(trimmed(text).first()) && !is_white_space(
            trimmed(text).last(),
        ),
{
    lemma_leading_white_space(text);
    let start = trim_start(text);
    let rest = text.skip(start);
    lemma_trailing_white_space(rest);
    assert forall|i: int| trim_end(text) <= i < text.len() implies is_white_space(text[i]) by {
        assert(text[i] == rest[i - start]);
    }
    if trimmed(text).len() > 0 {
        assert(trimmed(text).first() == text[start]);
        assert(trimmed(text).last() == rest[rest.len() - trailing_white_space(rest) - 1]);
    }
}

/// The two offsets between which `chars` holds no white space at either end
/// and outside of which it holds nothing else: [`trim_start`] and
/// [`trim_end`].
pub fn trim_bounds(chars: &[char]) -> (r: (usize, usize))
    ensures
        r.0 == trim_start(chars@),
        r.1 == trim_end(chars@),
        r.0 <= r.1 <= chars@.len(),
        forall|i: int| 0 <= i < r.0 ==> is_white_space(chars@[i]),
        forall|i: int| r.1 <= i < chars@.len() ==> is_white_space(chars@[i]),
        r.0 < r.1 ==> !is_white_space(chars@[r.0 as int]) && !is_white_space(chars@[r.1 - 1]),
{
    proof {
        lemma_trimmed_is_tight(chars@);
        if trim_start(chars@) < trim_end(chars@) {
            assert(trimmed(chars@).first() == chars@[trim_start(chars@)]);
            assert(trimmed(chars@).last() == chars@[trim_end(chars@) - 1]);
        }
    }
    let n = chars.len();
    let mut start: usize = 0;
    assert(chars@.skip(0) == chars@);
    while start < n && char_is_whitespace(chars[start])
        invariant
            n == chars@.len(),
            start <= n,
            leading_white_space(chars@) == start + leading_white_space(chars@.skip(start as int)),
        decreases n - start,
    {
        assert(chars@.skip(start as int).drop_first() == chars@.skip(start + 1));
        start += 1;
    }
    let ghost rest = chars@.skip(start as int);
    let mut end: usize = n;
    assert(rest.take(n - start) == rest);
    while end > start && char_is_whitespace(chars[end - 1])
        invariant
            n == chars@.len(),
            start <= end <= n,
            rest == chars@.skip(start as int),
            trailing_white_space(rest) == (n - end) + trailing_white_space(
                rest.take(end - start),
            ),
        decreases end,
    {
        assert(rest.take(end - start).drop_last() == rest.take(end - start - 1));
        end -= 1;
    }
    (start, end)
}

} // verus!
