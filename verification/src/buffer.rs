//! The collection of items, its filtered view, and cyclic search over the
//! active view.

use vstd::prelude::*;
use vstd::string::StringSliceAdditionalSpecFns;
use vstd::utf8::encode_utf8;
use crate::annotatedstring::AnnotatedString;
use crate::annotation::Span;
use crate::geometry::{sat_sub, LineIdx};
use crate::highlighter::{line_spans, Highlighter};
use crate::sequence::{
    embeds, is_subsequence, lemma_filter_is_subsequence, lemma_filter_keeps_all, lemma_filter_twice,
};
use crate::service::{fitting, lemma_named_item_has_text, Item, Service};
use crate::strings::{first_word, pad_right, spaces};
use crate::text::{contains_pattern, lemma_contains_itself};

verus! {

/// The models of a sequence of items, in the same order.
pub open spec fn items(services: Seq<Service>) -> Seq<Item> {
    services.map_values(|s: Service| s@)
}

/// The test that keeps the items whose name begins with the bytes `query`.
pub open spec fn name_begins_with(query: Seq<u8>) -> spec_fn(Item) -> bool {
    |item: Item| query.is_prefix_of(item.name_bytes())
}

/// The test that keeps the items that have a name.
pub open spec fn named() -> spec_fn(Item) -> bool {
    |item: Item| item.name.len() > 0
}

/// The characters of `line`, followed by as many spaces as its bytes fall
/// short of `width`.
pub open spec fn padded_line(line: Seq<char>, width: int) -> Seq<char> {
    line + spaces(sat_sub(width, encode_utf8(line).len() as int) as nat)
}

/// The item that a raw line becomes on a screen `width` columns wide: the
/// padded line, with its first word as the name.
pub open spec fn item_of_line(line: Seq<char>, width: int) -> Item {
    Item { name: first_word(padded_line(line, width)), line: padded_line(line, width) }
}

/// The making of an item from a raw line, as a function on lines.
pub open spec fn line_to_item(width: int) -> spec_fn(String) -> Item {
    |line: String| item_of_line(line@, width)
}

/// The items that the raw lines `lines` become: one for each line that has a
/// name, in the order of the lines.
pub open spec fn loaded_items(lines: Seq<String>, width: int) -> Seq<Item> {
    lines.map_values(line_to_item(width)).filter(named())
}

/// The query stands somewhere in the line of the item at index `i`.
pub open spec fn hit(items: Seq<Item>, query: Seq<u8>, i: int) -> bool {
    contains_pattern(items[i].line_bytes(), query)
}

/// The index reached from `start` after `k` steps forward in a cycle of `n`
/// indices.
pub open spec fn step_forward(start: int, k: int, n: int) -> int {
    if start + k < n {
        start + k
    } else {
        start + k - n
    }
}

/// The index reached from `start` after `k` steps backward in a cycle of `n`
/// indices.
pub open spec fn step_backward(start: int, k: int, n: int) -> int {
    if k <= start {
        start - k
    } else {
        start + n - k
    }
}

/// The index at which a forward search that was asked to start at `from`
/// starts: `from` wrapped into the collection.
pub open spec fn forward_start(from: int, n: int) -> int {
    from % n
}

/// The index at which a backward search that was asked to start at `from`
/// starts: `from`, or the last index where `from` lies past it.
pub open spec fn backward_start(from: int, n: int) -> int {
    if from < n {
        from
    } else {
        n - 1
    }
}

/// `idx` is the first index with a hit that a scan meets which starts at
/// `from`, wrapped into the collection, and goes forward once round the
/// cycle.
pub open spec fn is_first_hit_forward(items: Seq<Item>, query: Seq<u8>, from: int, idx: int) -> bool {
    let n = items.len() as int;
    let start = forward_start(from, n);
    exists|k: int|
        0 <= k < n && #[trigger] step_forward(start, k, n) == idx && hit(items, query, idx) && forall|j: int|
            0 <= j < k ==> !hit(items, query, #[trigger] step_forward(start, j, n))
}

/// `idx` is the first index with a hit that a scan meets which starts at
/// `from`, or at the last index where `from` lies past it, and goes
/// backward once round the cycle.
pub open spec fn is_first_hit_backward(items: Seq<Item>, query: Seq<u8>, from: int, idx: int) -> bool {
    let n = items.len() as int;
    let start = backward_start(from, n);
    exists|k: int|
        0 <= k < n && #[trigger] step_backward(start, k, n) == idx && hit(items, query, idx) && forall|j: int|
            0 <= j < k ==> !hit(items, query, #[trigger] step_backward(start, j, n))
}

/// The first index with a hit that a scan meets which has made `k` steps
/// from `start` and goes on, forward or backward, to the end of its one
/// round.
pub open spec fn scan(items: Seq<Item>, query: Seq<u8>, start: int, k: int, forward: bool) -> Option<int>
    decreases items.len() - k,
{
    let n = items.len() as int;
    if k < 0 || k >= n {
        None
    } else {
        let idx = if forward {
            step_forward(start, k, n)
        } else {
            step_backward(start, k, n)
        };
        if hit(items, query, idx) {
            Some(idx)
        } else {
            scan(items, query, start, k + 1, forward)
        }
    }
}

/// What a forward search from `from` finds: nothing for an empty query or
/// on an empty collection, else the first hit of a scan once round the cycle.
pub open spec fn forward_hit(items: Seq<Item>, query: Seq<u8>, from: int) -> Option<int> {
    if query.len() == 0 || items.len() == 0 {
        None
    } else {
        scan(items, query, forward_start(from, items.len() as int), 0, true)
    }
}

/// What a backward search from `from` finds: nothing for an empty query or
/// on an empty collection, else the first hit of a scan once round the cycle.
pub open spec fn backward_hit(items: Seq<Item>, query: Seq<u8>, from: int) -> Option<int> {
    if query.len() == 0 || items.len() == 0 {
        None
    } else {
        scan(items, query, backward_start(from, items.len() as int), 0, false)
    }
}

/// The index that a search returned, as a mathematical integer.
pub open spec fn found_index(r: Option<usize>) -> Option<int> {
    match r {
        Some(idx) => Some(idx as int),
        None => None,
    }
}

/// No item holds the query.
pub open spec fn no_hit(items: Seq<Item>, query: Seq<u8>) -> bool {
    forall|i: int| 0 <= i < items.len() ==> !hit(items, query, i)
}

/// A longer query filters more: where `shorter` is a prefix of `longer`, the
/// items kept for `longer` are those kept for `shorter`, filtered once more,
/// and so a subsequence of them.
pub proof fn lemma_filter_monotone(all: Seq<Item>, shorter: Seq<u8>, longer: Seq<u8>)
    requires
        shorter.is_prefix_of(longer),
    ensures
        all.filter(name_begins_with(longer)) == all.filter(name_begins_with(shorter)).filter(
            name_begins_with(longer),
        ),
        is_subsequence(all.filter(name_begins_with(longer)), all.filter(name_begins_with(shorter))),
{
    let lax = name_begins_with(shorter);
    let strict = name_begins_with(longer);
    assert forall|item: Item| #[trigger] strict(item) implies lax(item) by {
        let name = item.name_bytes();
        assert(shorter =~= name.subrange(0, shorter.len() as int)) by {
            assert(longer =~= name.subrange(0, longer.len() as int));
            assert(shorter =~= longer.subrange(0, shorter.len() as int));
        }
    }
    lemma_filter_twice(all, lax, strict);
    lemma_filter_is_subsequence(all.filter(lax), strict);
}

/// A scan that has a hit ahead of it finds a hit at an index of the
/// collection.
pub proof fn lemma_scan_finds(items: Seq<Item>, query: Seq<u8>, start: int, k: int, forward: bool, ahead: int)
    requires
        0 <= start < items.len(),
        0 <= k <= ahead < items.len(),
        hit(
            items,
            query,
            if forward {
                step_forward(start, ahead, items.len() as int)
            } else {
                step_backward(start, ahead, items.len() as int)
            },
        ),
    ensures
        scan(items, query, start, k, forward).is_some(),
        0 <= scan(items, query, start, k, forward).unwrap() < items.len(),
        hit(items, query, scan(items, query, start, k, forward).unwrap()),
    decreases ahead - k,
{
    let n = items.len() as int;
    let idx = if forward {
        step_forward(start, k, n)
    } else {
        step_backward(start, k, n)
    };
    if !hit(items, query, idx) {
        lemma_scan_finds(items, query, start, k + 1, forward, ahead);
    }
}

/// Search is total: in a collection whose items have names, a search for the
/// full text of one of the items finds, from every index and in both
/// directions, an index of the collection whose item holds the query. A
/// search for the empty query finds nothing.
pub proof fn lemma_search_total(items: Seq<Item>, query: Seq<u8>, from: int, at: int)
    requires
        forall|i: int| 0 <= i < items.len() ==> (#[trigger] items[i]).wf() && items[i].name.len() > 0,
        0 <= at < items.len(),
        items[at].line_bytes() == query,
        0 <= from,
    ensures
        forward_hit(items, query, from).is_some(),
        0 <= forward_hit(items, query, from).unwrap() < items.len(),
        hit(items, query, forward_hit(items, query, from).unwrap()),
        backward_hit(items, query, from).is_some(),
        0 <= backward_hit(items, query, from).unwrap() < items.len(),
        hit(items, query, backward_hit(items, query, from).unwrap()),
        forward_hit(items, Seq::<u8>::empty(), from).is_none(),
        backward_hit(items, Seq::<u8>::empty(), from).is_none(),
{
    let n = items.len() as int;
    lemma_named_item_has_text(items[at]);
    lemma_contains_itself(query);
    assert(hit(items, query, at));
    let start = forward_start(from, n);
    let ahead = if at >= start {
        at - start
    } else {
        at + n - start
    };
    assert(step_forward(start, ahead, n) == at);
    lemma_scan_finds(items, query, start, 0, true, ahead);
    let back = backward_start(from, n);
    let behind = if at <= back {
        back - at
    } else {
        back + n - at
    };
    assert(step_backward(back, behind, n) == at);
    lemma_scan_finds(items, query, back, 0, false, behind);
}

/// The indices held by a vector, as mathematical integers.
pub open spec fn indices(v: Seq<usize>) -> Seq<int> {
    v.map_values(|i: usize| i as int)
}

/// The collection of items, and the filtered view that stands for it while
/// a filter is set.
pub struct Buffer {
    services: Vec<Service>,
    filtered: Option<Vec<usize>>,
}

impl Default for Buffer {
    fn default() -> (r: Self)
        ensures
            r.wf(),
            r.all() == Seq::<Item>::empty(),
            r.active() == Seq::<Item>::empty(),
    {
        Buffer::new()
    }
}

impl Buffer {
    /// All items, in the order in which they were loaded.
    pub closed spec fn all(&self) -> Seq<Item> {
        items(self.services@)
    }

    /// The indices into [`Self::all`] of the items that the filter kept, if a
    /// filter is set.
    pub closed spec fn selection(&self) -> Option<Seq<int>> {
        match self.filtered {
            Some(picked) => Some(indices(picked@)),
            None => None,
        }
    }

    /// The active collection: the items that the filter kept if a filter is
    /// set, else all items.
    pub closed spec fn active(&self) -> Seq<Item> {
        match self.filtered {
            Some(picked) => picked@.map_values(|i: usize| self.services@[i as int]@),
            None => items(self.services@),
        }
    }

    /// Every item has a name, which is the first word of its line, and the
    /// active collection is a subsequence of all items, in their order.
    pub open spec fn wf(&self) -> bool {
        &&& forall|i: int| 0 <= i < self.all().len() ==> (#[trigger] self.all()[i]).wf() && self.all()[i].name.len() > 0
        &&& match self.selection() {
            Some(at) => embeds(self.active(), self.all(), at),
            None => self.active() == self.all(),
        }
    }

    /// A collection without items and without a filter.
    pub fn new() -> (r: Self)
        ensures
            r.wf(),
            r.all() == Seq::<Item>::empty(),
            r.active() == Seq::<Item>::empty(),
            r.selection().is_none(),
    {
        let r = Self { services: Vec::new(), filtered: None };
        proof {
            assert(r.all() =~= Seq::<Item>::empty());
        }
        r
    }

    /// A collection of the items that the raw lines `lines` become on a
    /// screen `terminal_width` columns wide, with no filter set.
    pub fn load(lines: &Vec<String>, terminal_width: usize) -> (r: Self)
        ensures
            r.wf(),
            r.all() == loaded_items(lines@, terminal_width as int),
            r.active() == r.all(),
    {
        let mut services: Vec<Service> = Vec::new();
        let ghost make = line_to_item(terminal_width as int);
        let mut i: usize = 0;
        proof {
            assert(lines@.take(0).map_values(make).filter(named()) =~= items(services@)) by {
                reveal(Seq::filter);
            }
        }
        while i < lines.len()
            invariant
                i <= lines.len(),
                make == line_to_item(terminal_width as int),
                items(services@) == lines@.take(i as int).map_values(make).filter(named()),
                forall|k: int| 0 <= k < services.len() ==> (#[trigger] services@[k]).wf() && services@[k]@.name.len() > 0,
            decreases lines.len() - i,
        {
            let line = lines[i].as_str();
            let short_by: usize = terminal_width.saturating_sub(line.as_bytes().len());
            let padded = pad_right(line, short_by);
            let service = Service::new(padded);
            let ghost before = services@;
            proof {
                assert(service@ == make(lines@[i as int]));
                let head = lines@.take(i as int);
                assert(lines@.take(i + 1) =~= head.push(lines@[i as int]));
                head.lemma_push_map_commute(make, lines@[i as int]);
                head.map_values(make).lemma_filter_push(service@, named());
            }
            if !service.has_empty_name() {
                services.push(service);
                proof {
                    assert(items(services@) =~= items(before).push(service@));
                }
            }
            i += 1;
        }
        proof {
            assert(lines@.take(i as int) =~= lines@);
        }
        let r = Self { services, filtered: None };
        proof {
            assert forall|k: int| 0 <= k < r.all().len() implies (#[trigger] r.all()[k]).wf() && r.all()[k].name.len() > 0 by {
                assert(r.all()[k] == services@[k]@);
            }
        }
        r
    }

    /// The item at index `idx` of the active collection, if there is one.
    pub fn get(&self, idx: LineIdx) -> (r: Option<&Service>)
        requires
            self.wf(),
        ensures
            match r {
                Some(service) => idx < self.active().len() && service@ == self.active()[idx as int],
                None => idx >= self.active().len(),
            },
    {
        match &self.filtered {
            Some(picked) => {
                if idx < picked.len() {
                    let at = picked[idx];
                    proof {
                        assert(indices(picked@)[idx as int] == at);
                    }
                    Some(&self.services[at])
                } else {
                    None
                }
            },
            None => {
                if idx < self.services.len() {
                    Some(&self.services[idx])
                } else {
                    None
                }
            },
        }
    }

    /// The number of items of the active collection.
    pub fn height(&self) -> (r: usize)
        ensures
            r == self.active().len(),
    {
        match &self.filtered {
            Some(picked) => picked.len(),
            None => self.services.len(),
        }
    }

    /// The name of the item at index `location` of the active collection, if
    /// there is one.
    pub fn get_selected_service_name(&self, location: LineIdx) -> (r: Option<String>)
        requires
            self.wf(),
        ensures
            match r {
                Some(name) => location < self.active().len() && name@ == self.active()[location as int].name,
                None => location >= self.active().len(),
            },
    {
        match self.get(location) {
            Some(service) => Some(service.extract_name()),
            None => None,
        }
    }

    /// The line at index `line_idx` of the active collection as an annotated
    /// string, if there is one. It carries the annotations that `highlighter`
    /// holds for that index, as far as they lie inside the line.
    pub fn get_highlighted_string(&self, line_idx: LineIdx, highlighter: &Highlighter) -> (r: Option<AnnotatedString>)
        requires
            self.wf(),
        ensures
            match r {
                Some(annotated) => {
                    &&& line_idx < self.active().len()
                    &&& annotated.wf()
                    &&& annotated@.text == self.active()[line_idx as int].line_bytes()
                    &&& annotated@.annotations == if highlighter.highlights().contains_key(line_idx) {
                        highlighter.highlights()[line_idx].filter(fitting(annotated@.text.len() as int))
                    } else {
                        Seq::<Span>::empty()
                    }
                },
                None => line_idx >= self.active().len(),
            },
    {
        match self.get(line_idx) {
            Some(service) => Some(service.get_annotated_string(highlighter.get_annotations(line_idx))),
            None => None,
        }
    }

    /// Sets the filter to `query`: the active collection becomes the items
    /// whose name begins with the bytes of `query`, in their order. An empty
    /// query clears the filter, and the active collection is all items.
    pub fn filter(&mut self, query: &str)
        requires
            old(self).wf(),
        ensures
            final(self).wf(),
            final(self).all() == old(self).all(),
            final(self).active() == old(self).all().filter(name_begins_with(query.spec_bytes())),
            query.spec_bytes().len() == 0 ==> final(self).active() == old(self).all() && final(self).selection().is_none(),
            query.spec_bytes().len() > 0 ==> final(self).selection().is_some(),
    {
        let ghost keep = name_begins_with(query.spec_bytes());
        let ghost all = self.all();
        if query.as_bytes().len() == 0 {
            self.filtered = None;
            proof {
                assert forall|i: int| 0 <= i < all.len() implies keep(#[trigger] all[i]) by {
                    assert(query.spec_bytes() =~= all[i].name_bytes().subrange(0, 0));
                }
                lemma_filter_keeps_all(all, keep);
            }
            return ;
        }
        let mut picked: Vec<usize> = Vec::new();
        let mut i: usize = 0;
        let ghost kept: Seq<Item> = Seq::empty();
        proof {
            assert(all.take(0).filter(keep) =~= kept) by {
                reveal(Seq::filter);
            }
        }
        while i < self.services.len()
            invariant
                i <= self.services.len(),
                all == items(self.services@),
                keep == name_begins_with(query.spec_bytes()),
                kept == all.take(i as int).filter(keep),
                kept == picked@.map_values(|at: usize| self.services@[at as int]@),
                embeds(kept, all, indices(picked@)),
                forall|k: int| 0 <= k < picked.len() ==> #[trigger] picked@[k] < i,
            decreases self.services.len() - i,
        {
            let ghost before = picked@;
            let ghost item = self.services@[i as int]@;
            proof {
                let head = all.take(i as int);
                assert(all.take(i + 1) =~= head.push(item));
                head.lemma_filter_push(item, keep);
            }
            if self.services[i].name_starts_with(query) {
                picked.push(i);
                proof {
                    let longer = kept.push(item);
                    assert(picked@.map_values(|at: usize| self.services@[at as int]@) =~= longer);
                    assert(indices(picked@) =~= indices(before).push(i as int));
                    assert forall|k: int| 0 <= k < longer.len() implies 0 <= #[trigger] indices(picked@)[k]
                        < all.len() && all[indices(picked@)[k]] == longer[k] by {
                        if k < before.len() {
                            assert(indices(picked@)[k] == indices(before)[k]);
                            assert(longer[k] == kept[k]);
                        }
                    }
                    assert forall|k: int, l: int| 0 <= k < l < longer.len() implies #[trigger] indices(
                        picked@,
                    )[k] < #[trigger] indices(picked@)[l] by {
                        assert(indices(picked@)[k] == before[k]);
                        if l < before.len() {
                            assert(indices(picked@)[k] == indices(before)[k]);
                            assert(indices(picked@)[l] == indices(before)[l]);
                        }
                    }
                    kept = longer;
                }
            }
            i += 1;
        }
        proof {
            assert(all.take(i as int) =~= all);
        }
        self.filtered = Some(picked);
    }

    /// Every item of the active collection has a name and a line that is not
    /// empty.
    pub proof fn lemma_active_items_named(&self, i: int)
        requires
            self.wf(),
            0 <= i < self.active().len(),
        ensures
            self.active()[i].wf(),
            self.active()[i].name.len() > 0,
            self.active()[i].line_bytes().len() > 0,
    {
        match self.selection() {
            Some(at) => {
                assert(self.all()[at[i]] == self.active()[i]);
            },
            None => {},
        }
        lemma_named_item_has_text(self.active()[i]);
    }

    /// Searches the active collection for an item whose line holds the bytes
    /// of `query`. The scan starts at index `from`, wrapped into the
    /// collection, goes forward, and passes every item once. The result is
    /// the first index it meets with such an item. It is `None` for an empty
    /// query, on an empty collection, and where no item holds the query.
    pub fn search_forward(&self, query: &str, from: LineIdx) -> (r: Option<LineIdx>)
        requires
            self.wf(),
        ensures
            match r {
                Some(idx) => {
                    &&& query.spec_bytes().len() > 0
                    &&& idx < self.active().len()
                    &&& is_first_hit_forward(self.active(), query.spec_bytes(), from as int, idx as int)
                },
                None => query.spec_bytes().len() == 0 || no_hit(self.active(), query.spec_bytes()),
            },
            (exists|i: int| 0 <= i < self.active().len() && (#[trigger] self.active()[i]).line_bytes() == query.spec_bytes())
                ==> r.is_some(),
            found_index(r) == forward_hit(self.active(), query.spec_bytes(), from as int),
    {
        let n = self.height();
        let ghost list = self.active();
        let ghost q = query.spec_bytes();
        proof {
            if exists|i: int| 0 <= i < list.len() && (#[trigger] list[i]).line_bytes() == q {
                let i = choose|i: int| 0 <= i < list.len() && (#[trigger] list[i]).line_bytes() == q;
                self.lemma_active_items_named(i);
                lemma_contains_itself(q);
                assert(hit(list, q, i));
            }
        }
        if query.as_bytes().len() == 0 || n == 0 {
            return None;
        }
        let start: usize = from % n;
        let mut idx: usize = start;
        let mut k: usize = 0;
        while k < n
            invariant
                self.wf(),
                n == self.active().len(),
                list == self.active(),
                q == query.spec_bytes(),
                q.len() > 0,
                n > 0,
                start == forward_start(from as int, n as int),
                0 <= start < n,
                k <= n,
                k < n ==> idx == step_forward(start as int, k as int, n as int),
                idx < n,
                forall|j: int| 0 <= j < k ==> !hit(list, q, #[trigger] step_forward(start as int, j, n as int)),
                scan(list, q, start as int, k as int, true) == scan(list, q, start as int, 0, true),
            decreases n - k,
        {
            match self.get(idx) {
                Some(service) => {
                    if service.contains(query) {
                        return Some(idx);
                    }
                },
                None => {},
            }
            idx = if idx + 1 == n {
                0
            } else {
                idx + 1
            };
            k += 1;
        }
        proof {
            assert forall|i: int| 0 <= i < list.len() implies !hit(list, q, i) by {
                let j = if i >= start {
                    i - start
                } else {
                    i + n - start
                };
                assert(step_forward(start as int, j, n as int) == i);
            }
        }
        None
    }

    /// Searches the active collection for an item whose line holds the bytes
    /// of `query`. The scan starts at index `from`, or at the last index
    /// where `from` lies past it, goes backward, and passes every item
    /// once. The result is the first index it meets with such an item. It
    /// is `None` for an empty query, on an empty collection, and where no
    /// item holds the query.
    pub fn search_backward(&self, query: &str, from: LineIdx) -> (r: Option<LineIdx>)
        requires
            self.wf(),
        ensures
            match r {
                Some(idx) => {
                    &&& query.spec_bytes().len() > 0
                    &&& idx < self.active().len()
                    &&& is_first_hit_backward(self.active(), query.spec_bytes(), from as int, idx as int)
                },
                None => query.spec_bytes().len() == 0 || no_hit(self.active(), query.spec_bytes()),
            },
            (exists|i: int| 0 <= i < self.active().len() && (#[trigger] self.active()[i]).line_bytes() == query.spec_bytes())
                ==> r.is_some(),
            found_index(r) == backward_hit(self.active(), query.spec_bytes(), from as int),
    {
        let n = self.height();
        let ghost list = self.active();
        let ghost q = query.spec_bytes();
        proof {
            if exists|i: int| 0 <= i < list.len() && (#[trigger] list[i]).line_bytes() == q {
                let i = choose|i: int| 0 <= i < list.len() && (#[trigger] list[i]).line_bytes() == q;
                self.lemma_active_items_named(i);
                lemma_contains_itself(q);
                assert(hit(list, q, i));
            }
        }
        if query.as_bytes().len() == 0 || n == 0 {
            return None;
        }
        let start: usize = if from < n {
            from
        } else {
            n - 1
        };
        let mut idx: usize = start;
        let mut k: usize = 0;
        while k < n
            invariant
                self.wf(),
                n == self.active().len(),
                list == self.active(),
                q == query.spec_bytes(),
                q.len() > 0,
                n > 0,
                start == backward_start(from as int, n as int),
                0 <= start < n,
                k <= n,
                k < n ==> idx == step_backward(start as int, k as int, n as int),
                idx < n,
                forall|j: int| 0 <= j < k ==> !hit(list, q, #[trigger] step_backward(start as int, j, n as int)),
                scan(list, q, start as int, k as int, false) == scan(list, q, start as int, 0, false),
            decreases n - k,
        {
            match self.get(idx) {
                Some(service) => {
                    if service.contains(query) {
                        return Some(idx);
                    }
                },
                None => {},
            }
            idx = if idx == 0 {
                n - 1
            } else {
                idx - 1
            };
            k += 1;
        }
        proof {
            assert forall|i: int| 0 <= i < list.len() implies !hit(list, q, i) by {
                let j = if i <= start {
                    start - i
                } else {
                    start + n - i
                };
                assert(step_backward(start as int, j, n as int) == i);
            }
        }
        None
    }

    /// Has `highlighter` compute the annotations of the line at index `idx` of
    /// the active collection. Without such a line, nothing happens.
    pub fn highlight(&self, idx: LineIdx, highlighter: &mut Highlighter, highlight_selected_line: bool)
        requires
            self.wf(),
        ensures
            final(highlighter).query() == old(highlighter).query(),
            final(highlighter).selected_location() == old(highlighter).selected_location(),
            final(highlighter).highlights() == if idx < self.active().len() {
                old(highlighter).highlights().insert(
                    idx,
                    line_spans(
                        self.active()[idx as int].line_bytes(),
                        old(highlighter).query(),
                        old(highlighter).selected_location() == idx && highlight_selected_line,
                    ),
                )
            } else {
                old(highlighter).highlights()
            },
    {
        if let Some(line) = self.get(idx) {
            highlighter.highlight(idx, line, highlight_selected_line);
        }
    }
}

} // verus!
