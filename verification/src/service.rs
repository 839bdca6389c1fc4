//! One listed record: a line of display text and the name it begins with.

use std::ops::Range;
use vstd::prelude::*;
use vstd::slice::slice_subrange;
use vstd::string::StringSliceAdditionalSpecFns;
use vstd::utf8::encode_utf8;
use crate::annotatedstring::AnnotatedString;
use crate::annotation::{spans, Annotation, Span};
use crate::geometry::ByteIdx;
use crate::strings::{first_where, first_word, first_word_of, lemma_first_where_bounds};
use crate::text::{
    contains_bytes, contains_pattern, find_matches, lemma_match_positions_from_shape, match_positions, occurs_at,
    offsets, starts_with_bytes,
};

verus! {

/// The mathematical model of a [`Service`]: the characters of its line and of
/// its name.
pub struct Item {
    pub name: Seq<char>,
    pub line: Seq<char>,
}

impl Item {
    /// The bytes of the line, as it is stored and searched.
    pub open spec fn line_bytes(self) -> Seq<u8> {
        encode_utf8(self.line)
    }

    /// The bytes of the name.
    pub open spec fn name_bytes(self) -> Seq<u8> {
        encode_utf8(self.name)
    }

    /// The name is the first word of the line.
    pub open spec fn wf(self) -> bool {
        self.name == first_word(self.line)
    }
}

/// Text that is not empty has bytes.
pub proof fn lemma_encoded_not_empty(chars: Seq<char>)
    requires
        chars.len() > 0,
    ensures
        encode_utf8(chars).len() > 0,
{
    reveal_with_fuel(encode_utf8, 1);
}

/// An item with a name has a line that is not empty.
pub proof fn lemma_named_item_has_text(item: Item)
    requires
        item.wf(),
        item.name.len() > 0,
    ensures
        item.line_bytes().len() > 0,
{
    lemma_first_where_bounds(item.line, 0, false);
    let start = first_where(item.line, 0, false);
    lemma_first_where_bounds(item.line, start, true);
    lemma_encoded_not_empty(item.line);
}

/// The offsets of the leftmost non-overlapping occurrences of `pattern` in
/// the bytes `[start, end)` of `text`, `end` clamped to the length of `text`.
/// Empty where `start` lies after the clamped end.
pub open spec fn occurrences_within(text: Seq<u8>, pattern: Seq<u8>, start: int, end: int) -> Seq<int> {
    let end = if end < text.len() {
        end
    } else {
        text.len() as int
    };
    if 0 <= start <= end {
        match_positions(text.subrange(start, end), pattern).map_values(|p: int| p + start)
    } else {
        Seq::empty()
    }
}

/// The test that keeps the spans that are non-empty and lie inside a text of
/// `len` bytes.
pub open spec fn fitting(len: int) -> spec_fn(Span) -> bool {
    |s: Span| s.within(len)
}

/// One listed record, shown as one row.
#[derive(Debug)]
pub struct Service {
    name: String,
    string: String,
}

impl View for Service {
    type V = Item;

    closed spec fn view(&self) -> Item {
        Item { name: self.name@, line: self.string@ }
    }
}

impl Clone for Service {
    fn clone(&self) -> (r: Self)
        ensures
            r@ == self@,
    {
        Self { name: self.name.clone(), string: self.string.clone() }
    }
}

impl Service {
    /// The name is the first word of the line.
    pub open spec fn wf(&self) -> bool {
        self@.wf()
    }

    /// The record shown as `line`; its name is the first word of the line.
    pub fn new(line: String) -> (r: Self)
        ensures
            r@.line == line@,
            r@.name == first_word(line@),
            r.wf(),
    {
        let name = first_word_of(line.as_str());
        Self { name, string: line }
    }

    /// The number of bytes of the line.
    pub fn len(&self) -> (r: usize)
        ensures
            r == self@.line_bytes().len(),
    {
        self.string.as_str().as_bytes().len()
    }

    /// The line, as text.
    pub fn line(&self) -> (r: &str)
        ensures
            r@ == self@.line,
    {
        self.string.as_str()
    }

    /// A copy of the name.
    pub fn extract_name(&self) -> (r: String)
        ensures
            r@ == self@.name,
    {
        self.name.clone()
    }

    /// Tells whether the name is empty: the line holds white space only.
    pub fn has_empty_name(&self) -> (r: bool)
        ensures
            r == (self@.name.len() == 0),
    {
        self.name.as_str().is_empty()
    }

    /// Tells whether the line begins with the bytes of `query`.
    pub fn starts_with(&self, query: &str) -> (r: bool)
        ensures
            r == query.spec_bytes().is_prefix_of(self@.line_bytes()),
    {
        starts_with_bytes(self.string.as_str().as_bytes(), query.as_bytes())
    }

    /// Tells whether the name begins with the bytes of `query`.
    pub fn name_starts_with(&self, query: &str) -> (r: bool)
        ensures
            r == query.spec_bytes().is_prefix_of(self@.name_bytes()),
    {
        starts_with_bytes(self.name.as_str().as_bytes(), query.as_bytes())
    }

    /// Tells whether the bytes of `query` stand somewhere in the line.
    pub fn contains(&self, query: &str) -> (r: bool)
        ensures
            r == contains_pattern(self@.line_bytes(), query.spec_bytes()),
    {
        contains_bytes(self.string.as_str().as_bytes(), query.as_bytes())
    }

    /// The offsets in the line of the leftmost non-overlapping occurrences of
    /// `query` inside the byte range `range`, whose end is clamped to the
    /// length of the line. An empty query occurs nowhere.
    pub fn find_all(&self, query: &str, range: Range<ByteIdx>) -> (r: Vec<ByteIdx>)
        ensures
            offsets(r@) == occurrences_within(
                self@.line_bytes(),
                query.spec_bytes(),
                range.start as int,
                range.end as int,
            ),
    {
        let bytes = self.string.as_str().as_bytes();
        let start: usize = range.start;
        let end: usize = if range.end < bytes.len() {
            range.end
        } else {
            bytes.len()
        };
        let mut found: Vec<usize> = Vec::new();
        if start > end {
            proof {
                assert(offsets(found@) =~= Seq::<int>::empty());
            }
            return found;
        }
        let window = slice_subrange(bytes, start, end);
        let relative = find_matches(window, query.as_bytes());
        let ghost shift = |p: int| p + start;
        let mut i: usize = 0;
        proof {
            assert(offsets(found@) =~= offsets(relative@).take(0).map_values(shift));
        }
        while i < relative.len()
            invariant
                i <= relative.len(),
                end <= bytes@.len(),
                start <= end,
                shift == |p: int| p + start,
                window@ == bytes@.subrange(start as int, end as int),
                offsets(relative@) == match_positions(window@, query.spec_bytes()),
                offsets(found@) == offsets(relative@).take(i as int).map_values(shift),
            decreases relative.len() - i,
        {
            let ghost before = found@;
            proof {
                lemma_match_positions_from_shape(window@, query.spec_bytes(), 0);
                assert(occurs_at(window@, query.spec_bytes(), offsets(relative@)[i as int]));
            }
            found.push(relative[i] + start);
            proof {
                let head = offsets(relative@).take(i as int);
                assert(offsets(relative@).take(i + 1) =~= head.push(relative@[i as int] as int));
                assert(offsets(found@) =~= offsets(before).push(relative@[i as int] + start));
                assert(head.push(relative@[i as int] as int).map_values(shift) =~= head.map_values(
                    shift,
                ).push(relative@[i as int] + start));
            }
            i += 1;
        }
        proof {
            assert(offsets(relative@).take(i as int) =~= offsets(relative@));
        }
        found
    }

    /// The line as an annotated string that carries those of `annotations`
    /// that are non-empty and lie inside the line, in their order.
    pub fn get_annotated_string(&self, annotations: Option<&Vec<Annotation>>) -> (r: AnnotatedString)
        ensures
            r.wf(),
            r@.text == self@.line_bytes(),
            r@.annotations == match annotations {
                Some(list) => spans(list@).filter(fitting(self@.line_bytes().len() as int)),
                None => Seq::<Span>::empty(),
            },
    {
        let mut result = AnnotatedString::from(self.string.as_str());
        if let Some(list) = annotations {
            let ghost keep = fitting(self@.line_bytes().len() as int);
            let mut i: usize = 0;
            proof {
                assert(spans(list@).take(0).filter(keep) =~= Seq::<Span>::empty()) by {
                    reveal(Seq::filter);
                }
            }
            while i < list.len()
                invariant
                    i <= list.len(),
                    result.wf(),
                    result@.text == self@.line_bytes(),
                    keep == fitting(self@.line_bytes().len() as int),
                    result@.annotations == spans(list@).take(i as int).filter(keep),
                decreases list.len() - i,
            {
                let a = list[i];
                result.add_annotation(a.annotation_type, a.start, a.end);
                proof {
                    let head = spans(list@).take(i as int);
                    assert(spans(list@).take(i + 1) =~= head.push(a@));
                    head.lemma_filter_push(a@, keep);
                }
                i += 1;
            }
            proof {
                assert(spans(list@).take(i as int) =~= spans(list@));
            }
        }
        result
    }
}

} // verus!
