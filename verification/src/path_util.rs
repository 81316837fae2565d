//! Cutting the front off a path: what is left of a path from a given
//! segment on.
//!
//! A path is taken as the sequence of its segments, as the platform's path
//! type gives them out.

use vstd::prelude::*;
use vstd::string::*;

verus! {

/// The segments of a path as texts.
pub open spec fn segment_views(segments: Seq<String>) -> Seq<Seq<char>> {
    segments.map_values(|segment: String| segment@)
}

/// The offset of the first segment that equals `wanted`, or the number of
/// segments where none does.
pub open spec fn first_match(segments: Seq<Seq<char>>, wanted: Seq<char>) -> int
    decreases segments.len(),
{
    if segments.len() == 0 || segments[0] == wanted {
        0
    } else {
        1 + first_match(segments.drop_first(), wanted)
    }
}

/// The segments from the first one that equals `wanted` on; none where no
/// segment equals it.
pub open spec fn cut(segments: Seq<Seq<char>>, wanted: Seq<char>) -> Seq<Seq<char>> {
    segments.skip(first_match(segments, wanted))
}

/// The segments written one after the other, with `separator` between each
/// two of them.
pub open spec fn joined(segments: Seq<Seq<char>>, separator: char) -> Seq<char>
    decreases segments.len(),
{
    if segments.len() == 0 {
        Seq::empty()
    } else if segments.len() == 1 {
        segments[0]
    } else {
        joined(segments.drop_last(), separator) + seq![separator] + segments.last()
    }
}

/// `std::path::MAIN_SEPARATOR`: the character that separates the segments of
/// a path on the platform that the program was built for.
#[verifier::external_body]
fn main_separator() -> char {
    std::path::MAIN_SEPARATOR
}

/// `String::push` of std: appends one character.
#[verifier::external_body]
fn push_char(text: &mut String, c: char)
    ensures
        final(text)@ == old(text)@.push(c),
{
    text.push(c)
}

/// The offset of the first segment that equals `wanted`, or the number of
/// segments where none does.
pub fn find_segment(segments: &Vec<String>, wanted: &str) -> (at: usize)
    ensures
        at == first_match(segment_views(segments@), wanted@),
        at <= segments@.len(),
{
    let wanted = wanted.to_owned();
    let ghost views = segment_views(segments@);
    let mut at: usize = 0;
    assert(views.skip(0) == views);
    while at < segments.len() && segments[at] != wanted
        invariant
            at <= segments@.len(),
            views == segment_views(segments@),
            first_match(views, wanted@) == at + first_match(views.skip(at as int), wanted@),
        decreases segments@.len() - at,
    {
        assert(views.skip(at as int)[0] == segments@[at as int]@);
        assert(views.skip(at as int).drop_first() == views.skip(at + 1));
        at += 1;
    }
    proof {
        if at < segments@.len() {
            assert(views.skip(at as int)[0] == segments@[at as int]@);
        }
    }
    at
}

/// The segments from offset `from` on, written one after the other with
/// `separator` between each two of them; nothing where `from` lies behind
/// the last segment.
pub fn join_from(segments: &Vec<String>, from: usize, separator: char) -> (text: String)
    ensures
        text@ == if from <= segments@.len() {
            joined(segment_views(segments@).skip(from as int), separator)
        } else {
            Seq::empty()
        },
{
    let mut text = String::new();
    if from > segments.len() {
        return text;
    }
    let ghost rest = segment_views(segments@).skip(from as int);
    let mut at: usize = from;
    assert(rest.take(0) == Seq::<Seq<char>>::empty());
    while at < segments.len()
        invariant
            from <= at <= segments@.len(),
            rest == segment_views(segments@).skip(from as int),
            text@ == joined(rest.take(at - from), separator),
        decreases segments@.len() - at,
    {
        let ghost before = rest.take(at - from);
        let ghost after = rest.take(at - from + 1);
        assert(after.drop_last() == before);
        assert(after.last() == segments@[at as int]@);
        if at > from {
            push_char(&mut text, separator);
            assert(text@ == joined(before, separator) + seq![separator]);
        } else {
            assert(text@ == Seq::<char>::empty());
        }
        text.append(segments[at].as_str());
        assert(text@ == joined(after, separator));
        at += 1;
    }
    assert(rest.take(at - from) == rest);
    text
}

/// What is left of a path from a given segment on.
pub trait CutBase {
    /// The segments of the path, the first one first.
    spec fn segments(&self) -> Seq<Seq<char>>;

    /// The path from the first segment that equals `starting_segment` on,
    /// written with the platform's separator between the segments. Where no
    /// segment equals it, the result is empty.
    fn cut_base(&self, starting_segment: &str) -> (relative: String)
        ensures
            exists|separator: char|
                relative@ == #[trigger] joined(
                    cut(self.segments(), starting_segment@),
                    separator,
                ),
    ;
}

impl CutBase for Vec<String> {
    open spec fn segments(&self) -> Seq<Seq<char>> {
        segment_views(self@)
    }

    fn cut_base(&self, starting_segment: &str) -> (relative: String) {
        let from = find_segment(self, starting_segment);
        let separator = main_separator();
        let relative = join_from(self, from, separator);
        assert(relative@ == joined(cut(self.segments(), starting_segment@), separator));
        relative
    }
}

} // verus!
