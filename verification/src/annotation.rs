//! Tagged byte ranges that style a part of a line.

use vstd::prelude::*;
use crate::geometry::ByteIdx;

verus! {

/// The style that a range of a line is shown in.
#[derive(Clone, Copy, Debug, PartialEq, Eq, Structural)]
pub enum AnnotationType {
    /// An occurrence of the search query.
    Match,
    /// An occurrence of the search query on the selected line.
    SelectedMatch,
    /// A part of the selected line outside every occurrence.
    Selected,
}

/// A half-open byte range `[start, end)` of a line, with its kind.
#[derive(Clone, Copy, Debug, PartialEq, Eq, Structural)]
pub struct Annotation {
    pub annotation_type: AnnotationType,
    pub start: ByteIdx,
    pub end: ByteIdx,
}

/// The mathematical model of an [`Annotation`]: its kind and its bounds as
/// unbounded integers.
pub struct Span {
    pub kind: AnnotationType,
    pub start: int,
    pub end: int,
}

impl View for Annotation {
    type V = Span;

    open spec fn view(&self) -> Span {
        Span { kind: self.annotation_type, start: self.start as int, end: self.end as int }
    }
}

/// The models of a sequence of annotations, in the same order.
pub open spec fn spans(annotations: Seq<Annotation>) -> Seq<Span> {
    annotations.map_values(|a: Annotation| a@)
}

/// Where a bound `b` of a span lies after the bytes `[start, end)` of the text
/// have given way to `new_len` bytes: a bound at or after `end` moves by the
/// change in length, a bound inside the edited range moves the same way but
/// stays within `[start, end]`, and a bound before `start` stays.
pub open spec fn remap_bound(b: int, start: int, end: int, new_len: int) -> int {
    let old_len = end - start;
    if new_len >= old_len {
        let delta = new_len - old_len;
        if b >= end {
            b + delta
        } else if b >= start {
            if b + delta < end {
                b + delta
            } else {
                end
            }
        } else {
            b
        }
    } else {
        let delta = old_len - new_len;
        if b >= end {
            b - delta
        } else if b >= start {
            if b - delta > start {
                b - delta
            } else {
                start
            }
        } else {
            b
        }
    }
}

impl Span {
    /// The span lies inside a text of `len` bytes and is not empty.
    pub open spec fn within(self, len: int) -> bool {
        0 <= self.start < self.end <= len
    }

    /// The span after the bytes `[start, end)` of the text have given way to
    /// `new_len` bytes: both bounds remapped.
    pub open spec fn remapped(self, start: int, end: int, new_len: int) -> Span {
        Span {
            kind: self.kind,
            start: remap_bound(self.start, start, end, new_len),
            end: remap_bound(self.end, start, end, new_len),
        }
    }

    /// The span is kept on a text of `len` bytes: it is not empty and starts
    /// inside the text.
    pub open spec fn survives(self, len: int) -> bool {
        self.start < self.end && self.start < len
    }
}

/// The remapping of every span for one edit, as a function on spans.
pub open spec fn remapping(start: int, end: int, new_len: int) -> spec_fn(Span) -> Span {
    |s: Span| s.remapped(start, end, new_len)
}

/// The test that keeps the spans that survive on a text of `len` bytes.
pub open spec fn surviving(len: int) -> spec_fn(Span) -> bool {
    |s: Span| s.survives(len)
}

} // verus!
