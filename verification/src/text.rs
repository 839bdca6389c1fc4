//! Byte-exact matching on text: prefixes, occurrences of a pattern, and the
//! leftmost non-overlapping occurrences that highlighting marks.

use vstd::prelude::*;

verus! {

/// `pattern` stands in `text` at byte offset `at`.
pub open spec fn occurs_at(text: Seq<u8>, pattern: Seq<u8>, at: int) -> bool {
    &&& 0 <= at
    &&& at + pattern.len() <= text.len()
    &&& text.subrange(at, at + pattern.len()) == pattern
}

/// `pattern` stands somewhere in `text`.
pub open spec fn contains_pattern(text: Seq<u8>, pattern: Seq<u8>) -> bool {
    exists|at: int| occurs_at(text, pattern, at)
}

/// The offsets, in rising order, of the occurrences of a non-empty `pattern`
/// that a scan from `from` to the end of `text` meets when it resumes after
/// each occurrence it found. An empty pattern occurs nowhere.
pub open spec fn match_positions_from(text: Seq<u8>, pattern: Seq<u8>, from: int) -> Seq<int>
    decreases text.len() - from,
{
    if pattern.len() == 0 || from < 0 || from + pattern.len() > text.len() {
        Seq::empty()
    } else if occurs_at(text, pattern, from) {
        seq![from] + match_positions_from(text, pattern, from + pattern.len())
    } else {
        match_positions_from(text, pattern, from + 1)
    }
}

/// The leftmost non-overlapping occurrences of `pattern` in `text`.
pub open spec fn match_positions(text: Seq<u8>, pattern: Seq<u8>) -> Seq<int> {
    match_positions_from(text, pattern, 0)
}

/// The offsets held by a vector of byte indices, as mathematical integers.
pub open spec fn offsets(v: Seq<usize>) -> Seq<int> {
    v.map_values(|p: usize| p as int)
}

/// The positions `m` are occurrences of `pattern` in `text` at or after
/// `from`, they rise, and two neighbours lie at least one pattern length apart.
pub open spec fn spaced_occurrences(m: Seq<int>, text: Seq<u8>, pattern: Seq<u8>, from: int) -> bool {
    &&& forall|k: int| 0 <= k < m.len() ==> from <= #[trigger] m[k] && occurs_at(text, pattern, m[k])
    &&& forall|k: int, l: int|
        0 <= k && l == k + 1 && l < m.len() ==> #[trigger] m[k] + pattern.len() <= #[trigger] m[l]
}

/// What a scan reports are occurrences, in rising order and without overlap.
pub proof fn lemma_match_positions_from_shape(text: Seq<u8>, pattern: Seq<u8>, from: int)
    requires
        0 <= from,
    ensures
        spaced_occurrences(match_positions_from(text, pattern, from), text, pattern, from),
    decreases text.len() - from,
{
    let m = match_positions_from(text, pattern, from);
    if pattern.len() == 0 || from + pattern.len() > text.len() {
        assert(m.len() == 0);
    } else if occurs_at(text, pattern, from) {
        let rest = match_positions_from(text, pattern, from + pattern.len());
        lemma_match_positions_from_shape(text, pattern, from + pattern.len());
        assert(m == seq![from] + rest);
        assert forall|k: int| 0 <= k < m.len() implies from <= #[trigger] m[k] && occurs_at(
            text,
            pattern,
            m[k],
        ) by {
            if k > 0 {
                assert(m[k] == rest[k - 1]);
            }
        }
        assert forall|k: int, l: int| 0 <= k && l == k + 1 && l < m.len() implies #[trigger] m[k]
            + pattern.len() <= #[trigger] m[l] by {
            assert(m[l] == rest[k]);
            if k > 0 {
                assert(m[k] == rest[k - 1]);
            }
        }
    } else {
        let rest = match_positions_from(text, pattern, from + 1);
        lemma_match_positions_from_shape(text, pattern, from + 1);
        assert(m == rest);
    }
}

/// A text holds itself.
pub proof fn lemma_contains_itself(text: Seq<u8>)
    ensures
        contains_pattern(text, text),
{
    assert(text.subrange(0, text.len() as int) =~= text);
    assert(occurs_at(text, text, 0));
}

/// Tells whether `pattern` stands in `text` at offset `at`.
pub fn matches_at(text: &[u8], pattern: &[u8], at: usize) -> (r: bool)
    ensures
        r == occurs_at(text@, pattern@, at as int),
{
    if pattern.len() > text.len() || at > text.len() - pattern.len() {
        return false;
    }
    let mut i: usize = 0;
    while i < pattern.len()
        invariant
            i <= pattern.len(),
            at + pattern.len() <= text.len(),
            forall|j: int| 0 <= j < i ==> text@[at + j] == pattern@[j],
        decreases pattern.len() - i,
    {
        if text[at + i] != pattern[i] {
            proof {
                let window = text@.subrange(at as int, at + pattern@.len());
                assert(window[i as int] == text@[at + i]);
            }
            return false;
        }
        i += 1;
    }
    proof {
        assert(text@.subrange(at as int, at + pattern@.len()) =~= pattern@);
    }
    true
}

/// Tells whether `text` begins with `pattern`.
pub fn starts_with_bytes(text: &[u8], pattern: &[u8]) -> (r: bool)
    ensures
        r == pattern@.is_prefix_of(text@),
{
    let r = matches_at(text, pattern, 0);
    proof {
        if pattern@.len() <= text@.len() {
            assert(text@.subrange(0, pattern@.len() as int) == pattern@ <==> pattern@
                =~= text@.subrange(0, pattern@.len() as int));
        }
    }
    r
}

/// Tells whether `pattern` stands somewhere in `text`.
pub fn contains_bytes(text: &[u8], pattern: &[u8]) -> (r: bool)
    ensures
        r == contains_pattern(text@, pattern@),
{
    if pattern.len() > text.len() {
        return false;
    }
    let last: usize = text.len() - pattern.len();
    let mut at: usize = 0;
    loop
        invariant
            last == text.len() - pattern.len(),
            at <= last,
            forall|j: int| 0 <= j < at ==> !occurs_at(text@, pattern@, j),
        decreases last - at,
    {
        if matches_at(text, pattern, at) {
            return true;
        }
        if at == last {
            return false;
        }
        at += 1;
    }
}

/// Collects the leftmost non-overlapping occurrences of `pattern` in `text`.
pub fn find_matches(text: &[u8], pattern: &[u8]) -> (r: Vec<usize>)
    ensures
        offsets(r@) == match_positions(text@, pattern@),
{
    let mut found: Vec<usize> = Vec::new();
    if pattern.len() == 0 || pattern.len() > text.len() {
        proof {
            assert(offsets(found@) =~= match_positions(text@, pattern@));
        }
        return found;
    }
    let last: usize = text.len() - pattern.len();
    let mut at: usize = 0;
    proof {
        assert(offsets(found@) + match_positions_from(text@, pattern@, 0) =~= match_positions(
            text@,
            pattern@,
        ));
    }
    while at <= last
        invariant
            pattern.len() > 0,
            last == text.len() - pattern.len(),
            offsets(found@) + match_positions_from(text@, pattern@, at as int) == match_positions(
                text@,
                pattern@,
            ),
        decreases text.len() - at,
    {
        let ghost before = found@;
        if matches_at(text, pattern, at) {
            found.push(at);
            proof {
                let rest = match_positions_from(text@, pattern@, at + pattern@.len());
                assert(offsets(found@) =~= offsets(before) + seq![at as int]);
                assert(offsets(found@) + rest =~= offsets(before) + (seq![at as int] + rest));
            }
            at += pattern.len();
        } else {
            at += 1;
        }
    }
    proof {
        assert(match_positions_from(text@, pattern@, at as int) =~= Seq::<int>::empty());
        assert(offsets(found@) + Seq::<int>::empty() =~= offsets(found@));
    }
    found
}

} // verus!
