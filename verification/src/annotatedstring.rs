//! A text buffer with tagged byte ranges that follow the text as it is edited.

use vstd::prelude::*;
use vstd::string::StringSliceAdditionalSpecFns;
use crate::annotation::{remapping, spans, surviving, Annotation, AnnotationType, Span};
use crate::geometry::ByteIdx;
use crate::sequence::lemma_filter_keeps_all;

verus! {

/// The mathematical model of an [`AnnotatedString`]: the bytes of the text and
/// the spans laid over it, in the order in which they were added.
pub struct AnnotatedText {
    pub text: Seq<u8>,
    pub annotations: Seq<Span>,
}

impl AnnotatedText {
    /// Every span is non-empty and lies inside the text.
    pub open spec fn wf(self) -> bool {
        forall|i: int| 0 <= i < self.annotations.len() ==> (#[trigger] self.annotations[i]).within(self.text.len() as int)
    }

    /// The end of an edit that was asked for up to `end`: no further than the
    /// end of the text.
    pub open spec fn clamped_end(self, end: int) -> int {
        if end < self.text.len() {
            end
        } else {
            self.text.len() as int
        }
    }

    /// The text after the bytes `[start, end)` have given way to `new_text`,
    /// `end` clamped to the length of the text. An edit whose start lies
    /// after its clamped end changes nothing.
    pub open spec fn replaced_text(self, start: int, end: int, new_text: Seq<u8>) -> Seq<u8> {
        let end = self.clamped_end(end);
        if 0 <= start <= end {
            self.text.subrange(0, start) + new_text + self.text.subrange(end, self.text.len() as int)
        } else {
            self.text
        }
    }

    /// The value after the bytes `[start, end)` have given way to `new_text`:
    /// the text is edited, every span is remapped, and the spans that became
    /// empty or start past the end of the new text are dropped.
    pub open spec fn replaced(self, start: int, end: int, new_text: Seq<u8>) -> AnnotatedText {
        let end = self.clamped_end(end);
        if 0 <= start <= end {
            let text = self.replaced_text(start, end, new_text);
            AnnotatedText {
                text,
                annotations: self.annotations.map_values(
                    remapping(start, end, new_text.len() as int),
                ).filter(surviving(text.len() as int)),
            }
        } else {
            self
        }
    }
}

/// The mathematical model of an [`AnnotatedStringPart`]: a stretch of the
/// text and the kind it is shown in, if any.
pub struct PartSpan {
    pub start: int,
    pub end: int,
    pub kind: Option<AnnotationType>,
}

/// The span that decides how the byte at offset `at` is shown: the last of
/// the spans that cover it, if any does.
pub open spec fn covering(annotations: Seq<Span>, at: int) -> Option<Span>
    decreases annotations.len(),
{
    if annotations.len() == 0 {
        None
    } else if annotations.last().start <= at < annotations.last().end {
        Some(annotations.last())
    } else {
        covering(annotations.drop_last(), at)
    }
}

/// The least start of a span that starts after offset `at` and before
/// `limit`; `limit` if there is none.
pub open spec fn next_start(annotations: Seq<Span>, at: int, limit: int) -> int
    decreases annotations.len(),
{
    if annotations.len() == 0 {
        limit
    } else {
        let rest = next_start(annotations.drop_last(), at, limit);
        if at < annotations.last().start < rest {
            annotations.last().start
        } else {
            rest
        }
    }
}

impl AnnotatedText {
    /// The part that begins at offset `at`. Where a span covers `at`, the
    /// part has its kind and reaches to its end. Else the part is plain and
    /// reaches to the next start of a span, or to the end of the text.
    pub open spec fn part_at(self, at: int) -> PartSpan {
        match covering(self.annotations, at) {
            Some(span) => PartSpan {
                start: at,
                end: if span.end < self.text.len() {
                    span.end
                } else {
                    self.text.len() as int
                },
                kind: Some(span.kind),
            },
            None => PartSpan { start: at, end: next_start(self.annotations, at, self.text.len() as int), kind: None },
        }
    }

    /// The parts of the text from offset `at` on: each begins where the one
    /// before ended, and the last ends with the text.
    pub open spec fn parts_from(self, at: int) -> Seq<PartSpan>
        decreases self.text.len() - at,
    {
        if at < 0 || at >= self.text.len() || self.part_at(at).end <= at || self.part_at(at).end > self.text.len() {
            Seq::empty()
        } else {
            seq![self.part_at(at)] + self.parts_from(self.part_at(at).end)
        }
    }

    /// The parts of the whole text.
    pub open spec fn parts(self) -> Seq<PartSpan> {
        self.parts_from(0)
    }
}

/// A part that begins inside the text is not empty.
pub proof fn lemma_part_not_empty(value: AnnotatedText, at: int)
    requires
        0 <= at < value.text.len(),
    ensures
        at < value.part_at(at).end <= value.text.len(),
{
    lemma_covering_covers(value.annotations, at);
    lemma_next_start_bounds(value.annotations, at, value.text.len() as int);
}

/// The span that decides on an offset covers it.
pub proof fn lemma_covering_covers(annotations: Seq<Span>, at: int)
    ensures
        match covering(annotations, at) {
            Some(span) => span.start <= at < span.end,
            None => true,
        },
    decreases annotations.len(),
{
    if annotations.len() > 0 {
        lemma_covering_covers(annotations.drop_last(), at);
    }
}

/// The next start of a span after an offset lies after the offset and no
/// further than the limit.
pub proof fn lemma_next_start_bounds(annotations: Seq<Span>, at: int, limit: int)
    requires
        at < limit,
    ensures
        at < next_start(annotations, at, limit) <= limit,
    decreases annotations.len(),
{
    if annotations.len() > 0 {
        lemma_next_start_bounds(annotations.drop_last(), at, limit);
    }
}

/// One edit of a text: the range asked for and the bytes that take its place.
pub struct Replacement {
    pub start: int,
    pub end: int,
    pub new_text: Seq<u8>,
}

/// The value after the edits in `edits` were made one after the other.
pub open spec fn replaced_all(value: AnnotatedText, edits: Seq<Replacement>) -> AnnotatedText
    decreases edits.len(),
{
    if edits.len() == 0 {
        value
    } else {
        let e = edits.last();
        replaced_all(value, edits.drop_last()).replaced(e.start, e.end, e.new_text)
    }
}

/// A span inside the old text that survives an edit lies inside the new text.
pub proof fn lemma_remapped_within(s: Span, value: AnnotatedText, start: int, end: int, new_text: Seq<u8>)
    requires
        s.within(value.text.len() as int),
        0 <= start <= value.clamped_end(end),
    ensures
        ({
            let e = value.clamped_end(end);
            let r = s.remapped(start, e, new_text.len() as int);
            r.survives(value.replaced_text(start, end, new_text).len() as int) ==> r.within(
                value.replaced_text(start, end, new_text).len() as int,
            )
        }),
{
}

/// An edit keeps a well-formed value well-formed: every span that survives is
/// non-empty and lies inside the new text.
pub proof fn lemma_replaced_wf(value: AnnotatedText, start: int, end: int, new_text: Seq<u8>)
    requires
        value.wf(),
    ensures
        value.replaced(start, end, new_text).wf(),
{
    let e = value.clamped_end(end);
    if 0 <= start <= e {
        let text = value.replaced_text(start, e, new_text);
        let moved = value.annotations.map_values(remapping(start, e, new_text.len() as int));
        let kept = moved.filter(surviving(text.len() as int));
        assert(value.replaced(start, end, new_text).annotations == kept);
        assert forall|i: int| 0 <= i < kept.len() implies (#[trigger] kept[i]).within(
            text.len() as int,
        ) by {
            moved.lemma_filter_pred(surviving(text.len() as int), i);
            moved.lemma_filter_contains_rev(surviving(text.len() as int), kept[i]);
            let j = choose|j: int| 0 <= j < moved.len() && moved[j] == kept[i];
            lemma_remapped_within(value.annotations[j], value, start, end, new_text);
        }
    }
}

/// After any sequence of edits of a well-formed value, every span that is
/// left is non-empty and lies inside the text.
pub proof fn lemma_replaced_all_wf(value: AnnotatedText, edits: Seq<Replacement>)
    requires
        value.wf(),
    ensures
        replaced_all(value, edits).wf(),
    decreases edits.len(),
{
    if edits.len() > 0 {
        let e = edits.last();
        lemma_replaced_all_wf(value, edits.drop_last());
        lemma_replaced_wf(replaced_all(value, edits.drop_last()), e.start, e.end, e.new_text);
    }
}

/// An edit that puts as many bytes as it takes away leaves every span as it
/// was.
pub proof fn lemma_replaced_same_length(value: AnnotatedText, start: int, end: int, new_text: Seq<u8>)
    requires
        value.wf(),
        0 <= start <= value.clamped_end(end),
        new_text.len() == value.clamped_end(end) - start,
    ensures
        value.replaced(start, end, new_text).annotations == value.annotations,
        value.replaced(start, end, new_text).text.len() == value.text.len(),
{
    let e = value.clamped_end(end);
    let text = value.replaced_text(start, e, new_text);
    let moved = value.annotations.map_values(remapping(start, e, new_text.len() as int));
    assert(moved =~= value.annotations);
    lemma_filter_keeps_all(moved, surviving(text.len() as int));
}

/// A stretch `[start, end)` of the text of an annotated string, and the kind
/// it is shown in: `None` for plain text.
#[derive(Clone, Copy, Debug, PartialEq, Eq, Structural)]
pub struct AnnotatedStringPart {
    pub start: ByteIdx,
    pub end: ByteIdx,
    pub annotation_type: Option<AnnotationType>,
}

impl View for AnnotatedStringPart {
    type V = PartSpan;

    open spec fn view(&self) -> PartSpan {
        PartSpan { start: self.start as int, end: self.end as int, kind: self.annotation_type }
    }
}

/// The models of a sequence of parts, in the same order.
pub open spec fn part_spans(parts: Seq<AnnotatedStringPart>) -> Seq<PartSpan> {
    parts.map_values(|p: AnnotatedStringPart| p@)
}

/// A text buffer with tagged byte ranges. Every range is non-empty and lies
/// inside the text, and edits of the text move the ranges along.
#[derive(Debug)]
pub struct AnnotatedString {
    text: Vec<u8>,
    annotations: Vec<Annotation>,
}

impl View for AnnotatedString {
    type V = AnnotatedText;

    closed spec fn view(&self) -> AnnotatedText {
        AnnotatedText { text: self.text@, annotations: spans(self.annotations@) }
    }
}

/// Appends the bytes `[from, to)` of `src` to `out`.
fn append_bytes(out: &mut Vec<u8>, src: &[u8], from: usize, to: usize)
    requires
        from <= to <= src@.len(),
    ensures
        final(out)@ == old(out)@ + src@.subrange(from as int, to as int),
{
    let mut i: usize = from;
    while i < to
        invariant
            from <= i <= to <= src@.len(),
            out@ == old(out)@ + src@.subrange(from as int, i as int),
        decreases to - i,
    {
        out.push(src[i]);
        proof {
            assert(src@.subrange(from as int, i + 1) =~= src@.subrange(from as int, i as int).push(
                src@[i as int],
            ));
        }
        i += 1;
    }
}

/// Computes where a bound lies after an edit: see [`remap_bound`].
fn remap(b: usize, start: usize, end: usize, new_len: usize) -> (r: usize)
    requires
        start <= end,
        new_len >= end - start ==> b + (new_len - (end - start)) <= usize::MAX,
    ensures
        r == crate::annotation::remap_bound(b as int, start as int, end as int, new_len as int),
{
    let old_len: usize = end - start;
    if new_len >= old_len {
        let delta: usize = new_len - old_len;
        if b >= end {
            b + delta
        } else if b >= start {
            if b + delta < end {
                b + delta
            } else {
                end
            }
        } else {
            b
        }
    } else {
        let delta: usize = old_len - new_len;
        if b >= end {
            b - delta
        } else if b >= start {
            if b - start > delta {
                b - delta
            } else {
                start
            }
        } else {
            b
        }
    }
}

impl Default for AnnotatedString {
    fn default() -> (r: Self)
        ensures
            r.wf(),
            r@.text == Seq::<u8>::empty(),
            r@.annotations == Seq::<Span>::empty(),
    {
        let r = AnnotatedString { text: Vec::new(), annotations: Vec::new() };
        proof {
            assert(r@.annotations =~= Seq::<Span>::empty());
        }
        r
    }
}

impl AnnotatedString {
    /// Every annotation is non-empty and lies inside the text.
    pub open spec fn wf(&self) -> bool {
        self@.wf()
    }

    /// An annotated string with the bytes of `string` and no annotation.
    pub fn from(string: &str) -> (r: Self)
        ensures
            r@.text == string.spec_bytes(),
            r@.annotations == Seq::<Span>::empty(),
            r.wf(),
    {
        let bytes = string.as_bytes();
        let mut text: Vec<u8> = Vec::new();
        append_bytes(&mut text, bytes, 0, bytes.len());
        let r = Self { text, annotations: Vec::new() };
        proof {
            assert(bytes@.subrange(0, bytes@.len() as int) =~= bytes@);
            assert(r@.text =~= string.spec_bytes());
            assert(r@.annotations =~= Seq::<Span>::empty());
        }
        r
    }

    /// The text, byte by byte.
    pub fn as_bytes(&self) -> (r: &[u8])
        ensures
            r@ == self@.text,
    {
        self.text.as_slice()
    }

    /// The number of bytes of the text.
    pub fn len(&self) -> (r: usize)
        ensures
            r == self@.text.len(),
    {
        self.text.len()
    }

    /// The annotations, in the order in which they were added.
    pub fn annotations(&self) -> (r: &Vec<Annotation>)
        ensures
            spans(r@) == self@.annotations,
    {
        &self.annotations
    }

    /// Lays an annotation of the given kind over the bytes `[start, end)`. A
    /// range that is empty or does not lie inside the text is not added.
    pub fn add_annotation(&mut self, annotation_type: AnnotationType, start: ByteIdx, end: ByteIdx)
        requires
            old(self).wf(),
        ensures
            final(self).wf(),
            final(self)@.text == old(self)@.text,
            final(self)@.annotations == if start < end <= old(self)@.text.len() {
                old(self)@.annotations.push(Span { kind: annotation_type, start: start as int, end: end as int })
            } else {
                old(self)@.annotations
            },
    {
        if start < end && end <= self.text.len() {
            let annotation = Annotation { annotation_type, start, end };
            self.annotations.push(annotation);
            proof {
                let before = spans(old(self).annotations@);
                let after = spans(self.annotations@);
                assert(after =~= before.push(annotation@));
                assert forall|i: int| 0 <= i < after.len() implies (#[trigger] after[i]).within(
                    self.text@.len() as int,
                ) by {
                    if i < before.len() {
                        assert(after[i] == old(self)@.annotations[i]);
                    } else {
                        assert(after[i] == annotation@);
                    }
                }
            }
        }
    }

    /// Puts `new_string` in the place of the bytes `[start, end)`, `end`
    /// clamped to the length of the text, and moves the annotations along:
    /// see [`AnnotatedText::replaced`]. Where `start` lies after the clamped
    /// end, nothing changes.
    pub fn replace(&mut self, start: ByteIdx, end: ByteIdx, new_string: &str)
        requires
            old(self).wf(),
        ensures
            final(self)@ == old(self)@.replaced(start as int, end as int, new_string.spec_bytes()),
            final(self).wf(),
    {
        let len = self.text.len();
        let end: usize = if end < len {
            end
        } else {
            len
        };
        if start > end {
            return ;
        }
        let new_bytes = new_string.as_bytes();
        let added: usize = new_bytes.len();
        let removed: usize = end - start;
        let mut text: Vec<u8> = Vec::new();
        append_bytes(&mut text, self.text.as_slice(), 0, start);
        append_bytes(&mut text, new_bytes, 0, added);
        append_bytes(&mut text, self.text.as_slice(), end, len);
        let new_len: usize = text.len();
        proof {
            assert(new_bytes@.subrange(0, added as int) =~= new_bytes@);
            assert(text@ =~= old(self)@.replaced_text(start as int, end as int, new_bytes@));
            lemma_replaced_wf(old(self)@, start as int, end as int, new_bytes@);
        }
        self.text = text;
        if added == removed {
            proof {
                lemma_replaced_same_length(old(self)@, start as int, end as int, new_bytes@);
            }
            return ;
        }
        let ghost before = spans(self.annotations@);
        let ghost moving = remapping(start as int, end as int, added as int);
        let ghost keeping = surviving(new_len as int);
        let mut kept: Vec<Annotation> = Vec::new();
        let mut i: usize = 0;
        proof {
            assert(before.take(0).map_values(moving).filter(keeping) =~= spans(kept@)) by {
                reveal(Seq::filter);
            }
        }
        while i < self.annotations.len()
            invariant
                i <= self.annotations.len(),
                start <= end <= len,
                len == old(self)@.text.len(),
                new_len == len - (end - start) + added,
                before == spans(self.annotations@),
                before == old(self)@.annotations,
                old(self)@.wf(),
                moving == remapping(start as int, end as int, added as int),
                keeping == surviving(new_len as int),
                spans(kept@) == before.take(i as int).map_values(moving).filter(keeping),
            decreases self.annotations.len() - i,
        {
            let a = self.annotations[i];
            proof {
                assert(before[i as int] == a@);
                assert(a@.within(len as int));
            }
            let s = remap(a.start, start, end, added);
            let e = remap(a.end, start, end, added);
            let ghost kept_before = kept@;
            let moved = Annotation { annotation_type: a.annotation_type, start: s, end: e };
            if s < e && s < new_len {
                kept.push(moved);
            }
            proof {
                let head = before.take(i as int);
                assert(before.take(i + 1) =~= head.push(a@));
                head.lemma_push_map_commute(moving, a@);
                head.map_values(moving).lemma_filter_push(moving(a@), keeping);
                assert(moved@ == moving(a@));
                if s < e && s < new_len {
                    assert(spans(kept@) =~= spans(kept_before).push(moved@));
                }
            }
            i += 1;
        }
        proof {
            assert(before.take(i as int) =~= before);
        }
        self.annotations = kept;
    }

    /// The part that begins at offset `at`: see [`AnnotatedText::part_at`].
    fn part_at(&self, at: ByteIdx) -> (r: AnnotatedStringPart)
        requires
            self.wf(),
            at < self@.text.len(),
        ensures
            r@ == self@.part_at(at as int),
    {
        let len = self.text.len();
        let ghost all = spans(self.annotations@);
        let mut found: Option<Annotation> = None;
        let mut next: usize = len;
        let mut i: usize = 0;
        while i < self.annotations.len()
            invariant
                i <= self.annotations.len(),
                all == spans(self.annotations@),
                len == self@.text.len(),
                match found {
                    Some(a) => covering(all.take(i as int), at as int) == Some(a@),
                    None => covering(all.take(i as int), at as int).is_none(),
                },
                next == next_start(all.take(i as int), at as int, len as int),
            decreases self.annotations.len() - i,
        {
            let a = self.annotations[i];
            proof {
                assert(all.take(i + 1).drop_last() =~= all.take(i as int));
                assert(all.take(i + 1).last() == a@);
            }
            if a.start <= at && at < a.end {
                found = Some(a);
            }
            if at < a.start && a.start < next {
                next = a.start;
            }
            i += 1;
        }
        proof {
            assert(all.take(i as int) =~= all);
        }
        match found {
            Some(a) => AnnotatedStringPart {
                start: at,
                end: if a.end < len {
                    a.end
                } else {
                    len
                },
                annotation_type: Some(a.annotation_type),
            },
            None => AnnotatedStringPart { start: at, end: next, annotation_type: None },
        }
    }

    /// The parts of the text in their order, each with the kind it is shown
    /// in: see [`AnnotatedText::parts`].
    pub fn parts(&self) -> (r: Vec<AnnotatedStringPart>)
        requires
            self.wf(),
        ensures
            part_spans(r@) == self@.parts(),
    {
        let len = self.text.len();
        let mut out: Vec<AnnotatedStringPart> = Vec::new();
        let mut at: usize = 0;
        proof {
            assert(part_spans(out@) + self@.parts_from(0) =~= self@.parts());
        }
        while at < len
            invariant
                self.wf(),
                len == self@.text.len(),
                at <= len,
                part_spans(out@) + self@.parts_from(at as int) == self@.parts(),
            decreases len - at,
        {
            let part = self.part_at(at);
            let ghost before = part_spans(out@);
            proof {
                lemma_part_not_empty(self@, at as int);
            }
            out.push(part);
            proof {
                let rest = self@.parts_from(part.end as int);
                assert(part_spans(out@) =~= before.push(part@));
                assert(before.push(part@) + rest =~= before + (seq![part@] + rest));
            }
            at = part.end;
        }
        proof {
            assert(part_spans(out@) + Seq::<PartSpan>::empty() =~= part_spans(out@));
        }
        out
    }

    /// Removes the bytes before offset `until`.
    pub fn truncate_left_until(&mut self, until: ByteIdx)
        requires
            old(self).wf(),
        ensures
            final(self)@ == old(self)@.replaced(0, until as int, Seq::<u8>::empty()),
            final(self).wf(),
    {
        proof {
            reveal_strlit("");
            assert("".spec_bytes() =~= Seq::<u8>::empty()) by {
                reveal_with_fuel(vstd::utf8::encode_utf8, 1);
            }
        }
        self.replace(0, until, "");
    }

    /// Removes the bytes from offset `from` on.
    pub fn truncate_right_from(&mut self, from: ByteIdx)
        requires
            old(self).wf(),
        ensures
            final(self)@ == old(self)@.replaced(from as int, old(self)@.text.len() as int, Seq::<u8>::empty()),
            final(self).wf(),
    {
        proof {
            reveal_strlit("");
            assert("".spec_bytes() =~= Seq::<u8>::empty()) by {
                reveal_with_fuel(vstd::utf8::encode_utf8, 1);
            }
        }
        let len = self.text.len();
        self.replace(from, len, "");
    }
}

} // verus!
