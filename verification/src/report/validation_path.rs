//! Safe validation paths.

use vstd::prelude::*;
use vstd::string::StringExecFns;

use super::path_segment::SegmentView;
use super::PathSegment;
use crate::internal::text::count_text;
use crate::internal::text::decimal;
use crate::internal::text::describe_count;
use crate::internal::text::push_char;
use crate::internal::text::push_decimal;

verus! {

/// A structured path to a value being validated.
#[derive(Debug, PartialEq, Eq)]
pub struct ValidationPath {
    /// Segments from the root to the value, in order.
    segments: Vec<PathSegment>,
}

/// The segment views of a segment sequence.
pub open spec fn segment_views(segments: Seq<PathSegment>) -> Seq<SegmentView> {
    segments.map_values(|segment: PathSegment| segment@)
}

/// The text a trusted presentation layer shows for a path: fields joined by
/// `.` (no leading `.`), indices as `[i]`, map entries as `.<map-entry:i>`,
/// and the key or value side as `.<map-key>` or `.<map-value>`.
pub open spec fn render_segments(segments: Seq<SegmentView>) -> Seq<char>
    decreases segments.len(),
{
    if segments.len() == 0 {
        Seq::empty()
    } else {
        let rendered = render_segments(segments.drop_last());
        match segments.last() {
            SegmentView::Field(field) => if rendered.len() == 0 {
                field
            } else {
                rendered.push('.') + field
            },
            SegmentView::Index(index) => rendered.push('[') + decimal(index as nat).push(']'),
            SegmentView::MapEntry(index) => rendered + ".<map-entry:"@ + decimal(index as nat).push('>'),
            SegmentView::MapKey => rendered + ".<map-key>"@,
            SegmentView::MapValue => rendered + ".<map-value>"@,
        }
    }
}

/// Rendering extends by appending: a path with one more segment renders as
/// the path's rendering followed by that segment's text, whatever segments
/// came before. A field follows a non-empty rendering after a `.`, also
/// right after another field, and stands alone after an empty rendering; an
/// index adds `[i]`, a map entry `.<map-entry:i>`, and the key or value side
/// `.<map-key>` or `.<map-value>`.
pub proof fn lemma_render_appends(segments: Seq<SegmentView>, segment: SegmentView)
    ensures
        render_segments(segments.push(segment)) == match segment {
            SegmentView::Field(field) => if render_segments(segments).len() == 0 {
                field
            } else {
                render_segments(segments).push('.') + field
            },
            SegmentView::Index(index) => render_segments(segments).push('[') + decimal(index as nat).push(']'),
            SegmentView::MapEntry(index) => render_segments(segments) + ".<map-entry:"@ + decimal(index as nat).push('>'),
            SegmentView::MapKey => render_segments(segments) + ".<map-key>"@,
            SegmentView::MapValue => render_segments(segments) + ".<map-value>"@,
        },
        render_segments(segments).is_prefix_of(render_segments(segments.push(segment))),
{
    assert(segments.push(segment).drop_last() =~= segments);
    let rendered = render_segments(segments);
    let whole = render_segments(segments.push(segment));
    match segment {
        SegmentView::Field(field) => {
            if rendered.len() != 0 {
                assert(whole.subrange(0, rendered.len() as int) =~= rendered);
            } else {
                assert(whole.subrange(0, 0) =~= rendered);
            }
        },
        _ => {
            assert(whole.subrange(0, rendered.len() as int) =~= rendered);
        },
    }
}

/// Two fields render joined by one `.`: a field `a` with a non-empty name
/// followed by a field `b` renders as `a.b`.
pub proof fn lemma_two_fields_render(a: Seq<char>, b: Seq<char>)
    requires
        a.len() > 0,
    ensures
        render_segments(seq![SegmentView::Field(a), SegmentView::Field(b)]) == a + seq!['.'] + b,
{
    let first = seq![SegmentView::Field(a)];
    assert(Seq::<SegmentView>::empty().push(SegmentView::Field(a)) =~= first);
    lemma_render_appends(Seq::<SegmentView>::empty(), SegmentView::Field(a));
    assert(first.push(SegmentView::Field(b)) =~= seq![SegmentView::Field(a), SegmentView::Field(b)]);
    lemma_render_appends(first, SegmentView::Field(b));
    assert(a.push('.') + b =~= a + seq!['.'] + b);
}

impl View for ValidationPath {
    type V = Seq<SegmentView>;

    closed spec fn view(&self) -> Seq<SegmentView> {
        segment_views(self.segments@)
    }
}

impl ValidationPath {
    /// Creates an empty root path.
    pub fn root() -> (r: Self)
        ensures
            r@ == Seq::<SegmentView>::empty(),
    {
        let r = ValidationPath { segments: Vec::new() };
        assert(r@ =~= Seq::<SegmentView>::empty());
        r
    }

    fn with_segment(self, segment: PathSegment) -> (r: Self)
        ensures
            r@ == self@.push(segment@),
    {
        let mut segments = self.segments;
        let ghost old_segments = segments@;
        segments.push(segment);
        assert(segment_views(segments@) =~= segment_views(old_segments).push(segment@));
        ValidationPath { segments }
    }

    /// Appends a field segment.
    pub fn with_field(self, field: &str) -> (r: Self)
        ensures
            r@ == self@.push(SegmentView::Field(field@)),
    {
        self.with_segment(PathSegment::Field(String::from_str(field)))
    }

    /// Appends a sequence index segment.
    pub fn with_index(self, index: usize) -> (r: Self)
        ensures
            r@ == self@.push(SegmentView::Index(index)),
    {
        self.with_segment(PathSegment::Index(index))
    }

    /// Appends an opaque map entry segment.
    pub fn with_map_entry(self, index: usize) -> (r: Self)
        ensures
            r@ == self@.push(SegmentView::MapEntry(index)),
    {
        self.with_segment(PathSegment::MapEntry(index))
    }

    /// Appends the key side of a map entry.
    pub fn with_map_key(self) -> (r: Self)
        ensures
            r@ == self@.push(SegmentView::MapKey),
    {
        self.with_segment(PathSegment::MapKey)
    }

    /// Appends the value side of a map entry.
    pub fn with_map_value(self) -> (r: Self)
        ensures
            r@ == self@.push(SegmentView::MapValue),
    {
        self.with_segment(PathSegment::MapValue)
    }

    /// Returns the path segments in order.
    pub fn as_segments(&self) -> (r: &[PathSegment])
        ensures
            segment_views(r@) == self@,
    {
        self.segments.as_slice()
    }

    /// Describes the path by its segment count only.
    pub fn redacted(&self) -> (r: String)
        ensures
            r@ == count_text("ValidationPath"@, "segment_count"@, self@.len(), true),
    {
        describe_count("ValidationPath", "segment_count", self.segments.len(), true)
    }

    /// Formats the path for untrusted output, which never shows its segments;
    /// [`Self::render`] shows them.
    pub fn to_string(&self) -> (r: String)
        ensures
            r@ == "<validation-path>"@,
    {
        String::from_str("<validation-path>")
    }

    /// Explicitly renders this path for a trusted presentation layer.
    pub fn render(&self) -> (r: String)
        ensures
            r@ == render_segments(self@),
    {
        let mut rendered = String::new();
        let mut index: usize = 0;
        let ghost views = self@;
        while index < self.segments.len()
            invariant
                views == segment_views(self.segments@),
                index <= self.segments@.len(),
                rendered@ == render_segments(views.take(index as int)),
            decreases self.segments@.len() - index,
        {
            let ghost before = rendered@;
            match &self.segments[index] {
                PathSegment::Field(field) => {
                    if !rendered.as_str().is_empty() {
                        push_char(&mut rendered, '.');
                    }
                    rendered.append(field.as_str());
                },
                PathSegment::Index(position) => {
                    push_char(&mut rendered, '[');
                    push_decimal(&mut rendered, *position);
                    push_char(&mut rendered, ']');
                },
                PathSegment::MapEntry(position) => {
                    rendered.append(".<map-entry:");
                    push_decimal(&mut rendered, *position);
                    push_char(&mut rendered, '>');
                },
                PathSegment::MapKey => rendered.append(".<map-key>"),
                PathSegment::MapValue => rendered.append(".<map-value>"),
            }
            assert(views.take(index + 1).drop_last() =~= views.take(index as int));
            index += 1;
        }
        assert(views.take(index as int) =~= views);
        rendered
    }
}

impl Clone for ValidationPath {
    fn clone(&self) -> (r: Self)
        ensures
            r@ == self@,
    {
        let mut segments: Vec<PathSegment> = Vec::new();
        let mut index: usize = 0;
        while index < self.segments.len()
            invariant
                index <= self.segments@.len(),
                segment_views(segments@) =~= segment_views(self.segments@).take(index as int),
            decreases self.segments@.len() - index,
        {
            let ghost before = segments@;
            segments.push(self.segments[index].clone());
            assert(segment_views(segments@) =~= segment_views(before).push(self.segments@[index as int]@));
            index += 1;
        }
        assert(segment_views(self.segments@).take(index as int) =~= segment_views(self.segments@));
        ValidationPath { segments }
    }
}

} // verus!
