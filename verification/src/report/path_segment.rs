//! Segments of structured validation paths.

use vstd::prelude::*;

verus! {

/// One step of a structured validation path.
#[derive(Debug, PartialEq, Eq)]
pub enum PathSegment {
    /// A named field.
    Field(String),
    /// A sequence index.
    Index(usize),
    /// An opaque map entry, identified by position rather than by raw key.
    MapEntry(usize),
    /// The key side of a map entry.
    MapKey,
    /// The value side of a map entry.
    MapValue,
}

/// The mathematical content of a [`PathSegment`].
pub enum SegmentView {
    /// A named field, by its text.
    Field(Seq<char>),
    /// A sequence index.
    Index(usize),
    /// An opaque map entry position.
    MapEntry(usize),
    /// The key side of a map entry.
    MapKey,
    /// The value side of a map entry.
    MapValue,
}

impl View for PathSegment {
    type V = SegmentView;

    open spec fn view(&self) -> SegmentView {
        match self {
            PathSegment::Field(field) => SegmentView::Field(field@),
            PathSegment::Index(index) => SegmentView::Index(*index),
            PathSegment::MapEntry(index) => SegmentView::MapEntry(*index),
            PathSegment::MapKey => SegmentView::MapKey,
            PathSegment::MapValue => SegmentView::MapValue,
        }
    }
}

impl Clone for PathSegment {
    fn clone(&self) -> (r: Self)
        ensures
            r@ == self@,
    {
        match self {
            PathSegment::Field(field) => PathSegment::Field(field.clone()),
            PathSegment::Index(index) => PathSegment::Index(*index),
            PathSegment::MapEntry(index) => PathSegment::MapEntry(*index),
            PathSegment::MapKey => PathSegment::MapKey,
            PathSegment::MapValue => PathSegment::MapValue,
        }
    }
}

} // verus!
