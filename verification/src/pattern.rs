//! Path patterns: fixed segments and named parameters.
//!
//! A path and a pattern are cut into segments in the same way, at every
//! `/` behind the leading one. A pattern segment that starts with `:` is a
//! parameter named by the rest of the segment; every other segment is a
//! literal.

use crate::dict::Dict;
use crate::request::Params;
use crate::text::{same_text, split, split_text, texts};
use vstd::prelude::*;
use vstd::string::*;

verus! {

/// One segment of a pattern.
#[derive(Clone, Debug, PartialEq, Eq)]
pub enum Segment {
    /// Matches the path segment that equals it, letter for letter.
    Literal(String),
    /// Matches any path segment and binds it to the name.
    Param(String),
}

/// A pattern segment as contracts see it.
pub enum SegmentView {
    Literal(Seq<char>),
    Param(Seq<char>),
}

impl View for Segment {
    type V = SegmentView;

    open spec fn view(&self) -> SegmentView {
        match self {
            Segment::Literal(text) => SegmentView::Literal(text@),
            Segment::Param(name) => SegmentView::Param(name@),
        }
    }
}

/// The segments of a path: what lies between its slashes, the leading
/// slash left aside. The path `/` has one segment, the empty one. A path
/// that lacks the leading slash has the segments that it would have with
/// it.
pub open spec fn segments(path: Seq<char>) -> Seq<Seq<char>> {
    if path.len() > 0 && path[0] == '/' {
        split(path.drop_first(), '/')
    } else {
        split(path, '/')
    }
}

/// What a piece of a pattern's text means as a segment.
pub open spec fn classify(piece: Seq<char>) -> SegmentView {
    if piece.len() > 0 && piece[0] == ':' {
        SegmentView::Param(piece.drop_first())
    } else {
        SegmentView::Literal(piece)
    }
}

/// The pattern that a text such as `/form/:field` denotes.
pub open spec fn parse_pattern(text: Seq<char>) -> Seq<SegmentView> {
    segments(text).map_values(|piece: Seq<char>| classify(piece))
}

/// Whether a pattern segment matches a path segment.
pub open spec fn segment_accepts(segment: SegmentView, part: Seq<char>) -> bool {
    match segment {
        SegmentView::Literal(text) => text == part,
        SegmentView::Param(_) => true,
    }
}

/// Whether a pattern matches the segments of a path: as many segments on
/// both sides, and each pattern segment matches the path segment at its
/// place.
pub open spec fn accepts(pattern: Seq<SegmentView>, parts: Seq<Seq<char>>) -> bool {
    &&& pattern.len() == parts.len()
    &&& forall|i: int| 0 <= i < pattern.len() ==> segment_accepts(#[trigger] pattern[i], parts[i])
}

/// The parameters that a pattern binds on the segments of a path, in the
/// order of the pattern: each parameter segment with the path segment at
/// its place.
pub open spec fn bindings(pattern: Seq<SegmentView>, parts: Seq<Seq<char>>) -> Seq<
    (Seq<char>, Seq<char>),
>
    decreases pattern.len(),
{
    if pattern.len() == 0 {
        Seq::empty()
    } else {
        let before = bindings(pattern.drop_last(), parts);
        match pattern.last() {
            SegmentView::Param(name) => before.push((name, parts[pattern.len() - 1])),
            SegmentView::Literal(_) => before,
        }
    }
}

/// A parameter that is named once in a pattern is bound to the path
/// segment at its place.
pub proof fn lemma_parameter_is_bound(
    pattern: Seq<SegmentView>,
    parts: Seq<Seq<char>>,
    name: Seq<char>,
    i: int,
)
    requires
        0 <= i < pattern.len(),
        pattern[i] == SegmentView::Param(name),
        forall|j: int| i < j < pattern.len() ==> pattern[j] != SegmentView::Param(name),
    ensures
        crate::dict::lookup(bindings(pattern, parts)).contains_key(name),
        crate::dict::lookup(bindings(pattern, parts))[name] == parts[i],
    decreases pattern.len(),
{
    let shorter = pattern.drop_last();
    let before = bindings(shorter, parts);
    if i < pattern.len() - 1 {
        assert(shorter[i] == pattern[i]);
        assert forall|j: int| i < j < shorter.len() implies shorter[j] != SegmentView::Param(
            name,
        ) by {
            assert(shorter[j] == pattern[j]);
        }
        lemma_parameter_is_bound(shorter, parts, name, i);
        assert(pattern.last() != SegmentView::Param(name));
    }
    match pattern.last() {
        SegmentView::Param(other) => {
            let entry = (other, parts[pattern.len() - 1]);
            assert(before.push(entry).drop_last() == before);
            assert(before.push(entry).last() == entry);
        },
        SegmentView::Literal(_) => {},
    }
}

/// The segments of `path`.
pub fn path_segments(path: &str) -> (parts: Vec<String>)
    ensures
        texts(parts@) == segments(path@),
{
    let count = path.unicode_len();
    if count > 0 && path.get_char(0) == '/' {
        assert(path@.subrange(1, count as int) == path@.drop_first());
        split_text(path.substring_char(1, count), '/')
    } else {
        split_text(path, '/')
    }
}

/// What `piece` means as a segment of a pattern.
pub fn classify_piece(piece: &str) -> (segment: Segment)
    ensures
        segment@ == classify(piece@),
{
    let count = piece.unicode_len();
    if count > 0 && piece.get_char(0) == ':' {
        assert(piece@.subrange(1, count as int) == piece@.drop_first());
        Segment::Param(piece.substring_char(1, count).to_owned())
    } else {
        Segment::Literal(piece.to_owned())
    }
}

/// A path pattern.
#[derive(Clone, Debug, PartialEq, Eq)]
pub struct Pattern {
    segments: Vec<Segment>,
}

impl View for Pattern {
    type V = Seq<SegmentView>;

    closed spec fn view(&self) -> Seq<SegmentView> {
        self.segments@.map_values(|segment: Segment| segment@)
    }
}

impl Pattern {
    /// Reads a pattern such as `/form/:field`.
    pub fn parse(text: &str) -> (pattern: Pattern)
        ensures
            pattern@ == parse_pattern(text@),
    {
        let pieces = path_segments(text);
        let mut segments: Vec<Segment> = Vec::new();
        let mut i: usize = 0;
        while i < pieces.len()
            invariant
                i <= pieces.len(),
                segments.len() == i,
                forall|j: int|
                    0 <= j < i ==> (#[trigger] segments@[j])@ == classify(texts(pieces@)[j]),
            decreases pieces.len() - i,
        {
            let segment = classify_piece(pieces[i].as_str());
            assert(texts(pieces@)[i as int] == pieces@[i as int]@);
            segments.push(segment);
            i += 1;
        }
        let pattern = Pattern { segments };
        assert(pattern@ =~= parse_pattern(text@));
        pattern
    }

    /// How many segments the pattern has.
    pub fn len(&self) -> (n: usize)
        ensures
            n == self@.len(),
    {
        self.segments.len()
    }

    /// The parameters that the pattern binds on the path segments `parts`,
    /// where it matches them.
    pub fn bind_parts(&self, parts: &Vec<String>) -> (r: Option<Params>)
        ensures
            match r {
                Some(params) => accepts(self@, texts(parts@)) && params.entries() == bindings(
                    self@,
                    texts(parts@),
                ),
                None => !accepts(self@, texts(parts@)),
            },
    {
        if self.segments.len() != parts.len() {
            return None;
        }
        let mut params: Params = Dict::new();
        let mut i: usize = 0;
        assert(self@.take(0) == Seq::<SegmentView>::empty());
        while i < self.segments.len()
            invariant
                i <= self.segments.len(),
                self.segments.len() == parts.len(),
                forall|j: int|
                    0 <= j < i ==> segment_accepts(#[trigger] self@[j], texts(parts@)[j]),
                params.entries() == bindings(self@.take(i as int), texts(parts@)),
            decreases self.segments.len() - i,
        {
            let ghost shorter = self@.take(i as int);
            let ghost longer = self@.take(i + 1);
            assert(longer.drop_last() == shorter);
            assert(longer.last() == self@[i as int]);
            assert(self@[i as int] == self.segments@[i as int]@);
            assert(texts(parts@)[i as int] == parts@[i as int]@);
            match &self.segments[i] {
                Segment::Literal(text) => {
                    if !same_text(text.as_str(), parts[i].as_str()) {
                        assert(!segment_accepts(self@[i as int], texts(parts@)[i as int]));
                        return None;
                    }
                },
                Segment::Param(name) => {
                    params.insert(name.clone(), parts[i].clone());
                },
            }
            i += 1;
        }
        assert(self@.take(i as int) == self@);
        Some(params)
    }

    /// The parameters that the pattern binds on `path`, where it matches.
    pub fn bind(&self, path: &str) -> (r: Option<Params>)
        ensures
            match r {
                Some(params) => accepts(self@, segments(path@)) && params.entries() == bindings(
                    self@,
                    segments(path@),
                ),
                None => !accepts(self@, segments(path@)),
            },
    {
        let parts = path_segments(path);
        self.bind_parts(&parts)
    }

    /// Whether the pattern matches `path`.
    pub fn matches(&self, path: &str) -> (r: bool)
        ensures
            r == accepts(self@, segments(path@)),
    {
        self.bind(path).is_some()
    }
}

} // verus!
