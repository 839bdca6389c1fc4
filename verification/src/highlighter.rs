//! The annotations of the visible lines for one pass over the screen: the
//! occurrences of the search query, and on the selected line the stretches
//! between them.

use std::collections::HashMap;
use vstd::prelude::*;
use vstd::string::StringSliceAdditionalSpecFns;
use crate::annotation::{spans, Annotation, AnnotationType, Span};
use crate::geometry::LineIdx;
use crate::service::Service;
use crate::text::{lemma_match_positions_from_shape, match_positions, occurs_at, offsets};

verus! {

broadcast use vstd::std_specs::hash::group_hash_axioms;

/// The spans of kind `kind` that cover `len` bytes from each of `positions`.
pub open spec fn match_spans(positions: Seq<int>, len: int, kind: AnnotationType) -> Seq<Span> {
    positions.map_values(|p: int| Span { kind, start: p, end: p + len })
}

/// The spans `matches` with a `Selected` span put into every stretch that
/// they leave free between `from` and `to`: before each of them, and
/// after the last one.
pub open spec fn with_gaps_filled(matches: Seq<Span>, from: int, to: int) -> Seq<Span>
    decreases matches.len(),
{
    if matches.len() == 0 {
        if from < to {
            seq![Span { kind: AnnotationType::Selected, start: from, end: to }]
        } else {
            Seq::empty()
        }
    } else {
        let first = matches.first();
        let gap = if from < first.start {
            seq![Span { kind: AnnotationType::Selected, start: from, end: first.start }]
        } else {
            Seq::empty()
        };
        gap + seq![first] + with_gaps_filled(matches.drop_first(), first.end, to)
    }
}

/// The annotations of a line with the bytes `text`. Its occurrences of a
/// non-empty `query` are marked, as `SelectedMatch` on the selected line and as
/// `Match` elsewhere. On the selected line the rest is marked `Selected`, so
/// that the spans follow each other from the start of the line to its end.
pub open spec fn line_spans(text: Seq<u8>, query: Option<Seq<u8>>, selected: bool) -> Seq<Span> {
    let kind = if selected {
        AnnotationType::SelectedMatch
    } else {
        AnnotationType::Match
    };
    let matches = match query {
        Some(q) => match_spans(match_positions(text, q), q.len() as int, kind),
        None => Seq::empty(),
    };
    if selected {
        with_gaps_filled(matches, 0, text.len() as int)
    } else {
        matches
    }
}

/// The spans are non-empty, the first starts at `from`, each starts where
/// the one before ended, and the last ends at `to`; without spans, `from` is
/// `to`. Together they cover `[from, to)` with no gap and no overlap.
pub open spec fn covers_exactly(s: Seq<Span>, from: int, to: int) -> bool {
    if s.len() == 0 {
        from == to
    } else {
        &&& s.first().start == from
        &&& s.last().end == to
        &&& forall|i: int| 0 <= i < s.len() ==> (#[trigger] s[i]).start < s[i].end
        &&& forall|i: int, j: int|
            0 <= i && j == i + 1 && j < s.len() ==> (#[trigger] s[i]).end == (#[trigger] s[j]).start
    }
}

/// The spans are non-empty, lie between `from` and `to`, rise and do not
/// overlap.
pub open spec fn spaced_spans(s: Seq<Span>, from: int, to: int) -> bool {
    &&& forall|i: int| 0 <= i < s.len() ==> from <= (#[trigger] s[i]).start < s[i].end <= to
    &&& forall|i: int, j: int|
        0 <= i && j == i + 1 && j < s.len() ==> (#[trigger] s[i]).end <= (#[trigger] s[j]).start
}

/// Filling the gaps between spans that rise without overlap inside
/// `[from, to)` gives spans that cover `[from, to)` exactly.
pub proof fn lemma_gaps_filled_cover(matches: Seq<Span>, from: int, to: int)
    requires
        from <= to,
        spaced_spans(matches, from, to),
    ensures
        covers_exactly(with_gaps_filled(matches, from, to), from, to),
    decreases matches.len(),
{
    let all = with_gaps_filled(matches, from, to);
    if matches.len() > 0 {
        let first = matches.first();
        let rest = matches.drop_first();
        let tail = with_gaps_filled(rest, first.end, to);
        assert(spaced_spans(rest, first.end, to)) by {
            assert forall|i: int| 0 <= i < rest.len() implies first.end <= (#[trigger] rest[i]).start
                < rest[i].end <= to by {
                lemma_spaced_rises(matches, from, to, 0, i + 1);
                assert(rest[i] == matches[i + 1]);
            }
            assert forall|i: int, j: int| 0 <= i && j == i + 1 && j < rest.len() implies (
            #[trigger] rest[i]).end <= (#[trigger] rest[j]).start by {
                assert(rest[i] == matches[i + 1]);
                assert(rest[j] == matches[j + 1]);
            }
        }
        lemma_gaps_filled_cover(rest, first.end, to);
        let gap = if from < first.start {
            seq![Span { kind: AnnotationType::Selected, start: from, end: first.start }]
        } else {
            Seq::<Span>::empty()
        };
        let head = gap + seq![first];
        assert(all == head + tail);
        assert(head.len() >= 1 && head.first().start == from && head.last().end == first.end);
        assert forall|i: int| 0 <= i < all.len() implies (#[trigger] all[i]).start < all[i].end by {
            if i >= head.len() {
                assert(all[i] == tail[i - head.len()]);
            }
        }
        assert forall|i: int, j: int| 0 <= i && j == i + 1 && j < all.len() implies (
        #[trigger] all[i]).end == (#[trigger] all[j]).start by {
            if i >= head.len() {
                assert(all[i] == tail[i - head.len()]);
                assert(all[j] == tail[j - head.len()]);
            } else if i == head.len() - 1 {
                assert(all[j] == tail[0]);
                assert(tail.first().start == first.end);
            } else {
                assert(all[i] == head[i]);
                assert(all[j] == head[j]);
            }
        }
        if tail.len() > 0 {
            assert(all.last() == tail.last());
        } else {
            assert(all.last() == head.last());
        }
    }
}

/// Among spans that rise without overlap, a later one starts no earlier
/// than an earlier one ends.
pub proof fn lemma_spaced_rises(s: Seq<Span>, from: int, to: int, i: int, j: int)
    requires
        spaced_spans(s, from, to),
        0 <= i < j < s.len(),
    ensures
        s[i].end <= s[j].start,
    decreases j - i,
{
    if i + 1 < j {
        lemma_spaced_rises(s, from, to, i, j - 1);
        assert(s[j - 1].end <= s[j].start);
    } else {
        assert(s[i].end <= s[j].start);
    }
}

/// The occurrences of a query in a line, as spans, rise without overlap
/// inside the line.
pub proof fn lemma_match_spans_spaced(text: Seq<u8>, q: Seq<u8>, kind: AnnotationType)
    ensures
        spaced_spans(match_spans(match_positions(text, q), q.len() as int, kind), 0, text.len() as int),
{
    let positions = match_positions(text, q);
    lemma_match_positions_from_shape(text, q, 0);
    let s = match_spans(positions, q.len() as int, kind);
    if positions.len() > 0 {
        assert(q.len() > 0);
    }
    assert forall|i: int| 0 <= i < s.len() implies 0 <= (#[trigger] s[i]).start < s[i].end
        <= text.len() by {
        assert(occurs_at(text, q, positions[i]));
    }
    assert forall|i: int, j: int| 0 <= i && j == i + 1 && j < s.len() implies (#[trigger] s[i]).end
        <= (#[trigger] s[j]).start by {
        assert(positions[i] + q.len() <= positions[j]);
    }
}

/// On the selected line the annotations cover the line exactly: the spans
/// of the three kinds follow each other from the first byte to the last with
/// no gap and no overlap.
pub proof fn lemma_selected_line_covered(text: Seq<u8>, query: Option<Seq<u8>>)
    ensures
        covers_exactly(line_spans(text, query, true), 0, text.len() as int),
{
    match query {
        Some(q) => {
            lemma_match_spans_spaced(text, q, AnnotationType::SelectedMatch);
            lemma_gaps_filled_cover(
                match_spans(match_positions(text, q), q.len() as int, AnnotationType::SelectedMatch),
                0,
                text.len() as int,
            );
        },
        None => {
            lemma_gaps_filled_cover(Seq::empty(), 0, text.len() as int);
        },
    }
}

/// Every annotation of a line is non-empty and lies inside the line.
pub proof fn lemma_line_spans_within(text: Seq<u8>, query: Option<Seq<u8>>, selected: bool)
    ensures
        forall|i: int|
            0 <= i < line_spans(text, query, selected).len() ==> (#[trigger] line_spans(
                text,
                query,
                selected,
            )[i]).within(text.len() as int),
{
    let s = line_spans(text, query, selected);
    if selected {
        lemma_selected_line_covered(text, query);
        assert forall|i: int| 0 <= i < s.len() implies (#[trigger] s[i]).within(
            text.len() as int,
        ) by {
            lemma_cover_within(s, 0, text.len() as int, i);
        }
    } else {
        match query {
            Some(q) => {
                lemma_match_spans_spaced(text, q, AnnotationType::Match);
            },
            None => {},
        }
    }
}

/// A span of an exact cover of `[from, to)` lies inside `[from, to)`.
pub proof fn lemma_cover_within(s: Seq<Span>, from: int, to: int, i: int)
    requires
        covers_exactly(s, from, to),
        0 <= i < s.len(),
    ensures
        from <= s[i].start < s[i].end <= to,
{
    lemma_cover_rises(s, from, to, 0, i);
    lemma_cover_rises(s, from, to, i, s.len() - 1);
}

/// In an exact cover a later span starts no earlier, and ends no earlier,
/// than an earlier one.
pub proof fn lemma_cover_rises(s: Seq<Span>, from: int, to: int, i: int, j: int)
    requires
        covers_exactly(s, from, to),
        0 <= i <= j < s.len(),
    ensures
        s[i].start <= s[j].start,
        s[i].end <= s[j].end,
    decreases j - i,
{
    if i < j {
        lemma_cover_rises(s, from, to, i, j - 1);
        assert(s[j - 1].end == s[j].start);
    }
}

/// The annotations of the lines highlighted so far in one pass, for a fixed
/// query and a fixed selected line.
pub struct Highlighter<'a> {
    matched_word: Option<&'a str>,
    location: LineIdx,
    highlights: HashMap<LineIdx, Vec<Annotation>>,
}

impl<'a> Highlighter<'a> {
    /// The bytes of the query, if there is one.
    pub closed spec fn query(&self) -> Option<Seq<u8>> {
        match self.matched_word {
            Some(word) => Some(word.spec_bytes()),
            None => None,
        }
    }

    /// The index of the selected line.
    pub closed spec fn selected_location(&self) -> LineIdx {
        self.location
    }

    /// The annotations computed so far, by line index.
    pub closed spec fn highlights(&self) -> Map<LineIdx, Seq<Span>> {
        self.highlights@.map_values(|v: Vec<Annotation>| spans(v@))
    }

    /// A highlighter for one pass, with no line highlighted yet.
    pub fn new(matched_word: Option<&'a str>, location: LineIdx) -> (r: Self)
        ensures
            r.query() == match matched_word {
                Some(word) => Some(word.spec_bytes()),
                None => None,
            },
            r.selected_location() == location,
            r.highlights() == Map::<LineIdx, Seq<Span>>::empty(),
    {
        let r = Self { matched_word, location, highlights: HashMap::new() };
        proof {
            assert(r.highlights() =~= Map::<LineIdx, Seq<Span>>::empty());
        }
        r
    }

    /// Computes the annotations of the line `service`, which stands at index
    /// `idx`, and keeps them under that index: see [`line_spans`]. The line
    /// counts as selected where `idx` is the selected index and
    /// `highlight_selected_line` is set.
    pub fn highlight(&mut self, idx: LineIdx, service: &Service, highlight_selected_line: bool)
        ensures
            final(self).query() == old(self).query(),
            final(self).selected_location() == old(self).selected_location(),
            final(self).highlights() == old(self).highlights().insert(
                idx,
                line_spans(
                    service@.line_bytes(),
                    old(self).query(),
                    old(self).selected_location() == idx && highlight_selected_line,
                ),
            ),
    {
        let selected = self.location == idx && highlight_selected_line;
        let kind = if selected {
            AnnotationType::SelectedMatch
        } else {
            AnnotationType::Match
        };
        let len = service.len();
        let ghost text = service@.line_bytes();
        let mut found: Vec<usize> = Vec::new();
        let mut width: usize = 0;
        match self.matched_word {
            Some(word) => {
                found = service.find_all(word, 0..len);
                width = word.as_bytes().len();
                proof {
                    let q = word.spec_bytes();
                    assert(text.subrange(0, len as int) =~= text);
                    assert(match_positions(text, q).map_values(|p: int| p + 0) =~= match_positions(
                        text,
                        q,
                    ));
                }
            },
            None => {
                proof {
                    assert(offsets(found@) =~= Seq::<int>::empty());
                }
            },
        }
        let ghost matches = match_spans(offsets(found@), width as int, kind);
        proof {
            match self.matched_word {
                Some(word) => {
                    lemma_match_spans_spaced(text, word.spec_bytes(), kind);
                },
                None => {
                    assert(matches =~= Seq::<Span>::empty());
                },
            }
            assert(spaced_spans(matches, 0, len as int));
        }
        let mut result: Vec<Annotation> = Vec::new();
        let mut cursor: usize = 0;
        let mut i: usize = 0;
        proof {
            assert(matches.skip(0) =~= matches);
            assert(spans(result@) =~= Seq::<Span>::empty());
            assert(spans(result@) =~= matches.take(0));
        }
        while i < found.len()
            invariant
                i <= found.len(),
                cursor <= len,
                matches == match_spans(offsets(found@), width as int, kind),
                matches.len() == found.len(),
                spaced_spans(matches, 0, len as int),
                i > 0 ==> cursor == matches[i - 1].end,
                selected ==> spans(result@) + with_gaps_filled(matches.skip(i as int), cursor as int, len as int)
                    == with_gaps_filled(matches, 0, len as int),
                !selected ==> spans(result@) == matches.take(i as int),
            decreases found.len() - i,
        {
            let ghost before = spans(result@);
            let ghost current = matches[i as int];
            proof {
                assert(current.start == found@[i as int]);
                assert(0 <= current.start < current.end <= len);
                if i > 0 {
                    assert(matches[i - 1].end <= matches[i as int].start);
                }
            }
            let start: usize = found[i];
            let end: usize = start + width;
            let ghost gap = Seq::<Span>::empty();
            if selected && cursor < start {
                let filler = Annotation { annotation_type: AnnotationType::Selected, start: cursor, end: start };
                result.push(filler);
                proof {
                    gap = seq![filler@];
                    assert(spans(result@) =~= before + gap);
                }
            }
            let ghost with_gap = spans(result@);
            let mark = Annotation { annotation_type: kind, start, end };
            result.push(mark);
            proof {
                assert(mark@ == current);
                assert(spans(result@) =~= with_gap.push(current));
                let rest = matches.skip(i as int);
                assert(rest.first() == current);
                assert(rest.drop_first() =~= matches.skip(i + 1));
                if selected {
                    let tail = with_gaps_filled(matches.skip(i + 1), end as int, len as int);
                    assert(with_gaps_filled(rest, cursor as int, len as int) == gap + seq![current] + tail);
                    assert(spans(result@) + tail =~= before + (gap + seq![current] + tail));
                } else {
                    assert(matches.take(i + 1) =~= matches.take(i as int).push(current));
                }
            }
            cursor = end;
            i += 1;
        }
        if selected && cursor < len {
            let ghost before = spans(result@);
            let filler = Annotation { annotation_type: AnnotationType::Selected, start: cursor, end: len };
            result.push(filler);
            proof {
                assert(spans(result@) =~= before + seq![filler@]);
            }
        }
        proof {
            assert(matches.skip(i as int) =~= Seq::<Span>::empty());
            assert(matches.take(i as int) =~= matches);
            assert(spans(result@) + Seq::<Span>::empty() =~= spans(result@));
            assert(spans(result@) == line_spans(text, self.query(), selected));
        }
        let ghost before_map = self.highlights@;
        self.highlights.insert(idx, result);
        proof {
            let f = |v: Vec<Annotation>| spans(v@);
            assert(before_map.insert(idx, result).map_values(f) =~= before_map.map_values(f).insert(
                idx,
                f(result),
            ));
        }
    }

    /// The annotations that were computed for the line at index `idx`, if
    /// that line was highlighted in this pass.
    pub fn get_annotations(&self, idx: LineIdx) -> (r: Option<&Vec<Annotation>>)
        ensures
            match r {
                Some(list) => self.highlights().contains_key(idx) && spans(list@) == self.highlights()[idx],
                None => !self.highlights().contains_key(idx),
            },
    {
        self.highlights.get(&idx)
    }
}

} // verus!
