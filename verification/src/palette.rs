//! First-seen numbering: every distinct block content gets the next free
//! index when it is met for the first time.

use vstd::prelude::*;
use crate::raster::Color;

verus! {

/// Whether position `j` holds `value` and no earlier position of `items` does.
pub open spec fn is_first_occurrence<T>(items: Seq<T>, j: int, value: T) -> bool {
    &&& 0 <= j < items.len()
    &&& items[j] == value
    &&& forall|i: int| 0 <= i < j ==> items[i] != value
}

/// The earliest position of `items` that holds the same value as position `k`.
pub open spec fn first_occurrence<T>(items: Seq<T>, k: int) -> int {
    choose|j: int| is_first_occurrence(items, j, items[k])
}

/// How many different values `items` holds.
pub open spec fn distinct_count<T>(items: Seq<T>) -> nat {
    items.to_set().len()
}

/// The index that first-seen numbering gives to the value at position `k`:
/// the number of different values that come before its first occurrence.
pub open spec fn first_seen_index<T>(items: Seq<T>, k: int) -> nat {
    distinct_count(items.take(first_occurrence(items, k)))
}

/// The different values of `items`, ordered by their first occurrence.
pub open spec fn distinct_in_order<T>(items: Seq<T>) -> Seq<T>
    decreases items.len(),
{
    if items.len() == 0 {
        Seq::empty()
    } else {
        let earlier = distinct_in_order(items.drop_last());
        if earlier.contains(items.last()) {
            earlier
        } else {
            earlier.push(items.last())
        }
    }
}

/// Every position has a first occurrence of its value, at or before itself.
pub proof fn lemma_first_occurrence<T>(items: Seq<T>, k: int)
    requires
        0 <= k < items.len(),
    ensures
        is_first_occurrence(items, first_occurrence(items, k), items[k]),
        first_occurrence(items, k) <= k,
    decreases k,
{
    if exists|i: int| 0 <= i < k && items[i] == items[k] {
        let i = choose|i: int| 0 <= i < k && items[i] == items[k];
        lemma_first_occurrence(items, i);
        assert(is_first_occurrence(items, first_occurrence(items, i), items[k]));
    } else {
        assert(is_first_occurrence(items, k, items[k]));
    }
}

/// The palette of a sequence holds each of its values once and nothing else,
/// so it has as many entries as the sequence has different values.
pub proof fn lemma_distinct_in_order<T>(items: Seq<T>)
    ensures
        distinct_in_order(items).no_duplicates(),
        distinct_in_order(items).to_set() == items.to_set(),
        distinct_in_order(items).len() == distinct_count(items),
        distinct_count(items) <= items.len(),
    decreases items.len(),
{
    let d = distinct_in_order(items);
    if items.len() == 0 {
        assert(d.to_set() =~= items.to_set());
    } else {
        let init = items.drop_last();
        let earlier = distinct_in_order(init);
        lemma_distinct_in_order(init);
        assert(items =~= init.push(items.last()));
        init.lemma_push_to_set_commute(items.last());
        if earlier.contains(items.last()) {
            assert(init.to_set().contains(items.last()));
            assert(init.to_set().insert(items.last()) =~= init.to_set());
        } else {
            earlier.lemma_push_to_set_commute(items.last());
        }
        assert(d.to_set() =~= items.to_set());
    }
    d.unique_seq_to_set();
    items.lemma_cardinality_of_set();
}

/// Reading on never reorders what was numbered: the palette of a prefix is a
/// prefix of the palette of the whole.
pub proof fn lemma_distinct_in_order_prefix<T>(items: Seq<T>, n: int)
    requires
        0 <= n <= items.len(),
    ensures
        distinct_in_order(items.take(n)).is_prefix_of(distinct_in_order(items)),
    decreases items.len() - n,
{
    if n == items.len() {
        assert(items.take(n) =~= items);
    } else {
        assert(items.drop_last().take(n) =~= items.take(n));
        lemma_distinct_in_order_prefix(items.drop_last(), n);
    }
}

/// The place of a value in the palette is its first-seen index.
pub proof fn lemma_palette_position<T>(items: Seq<T>, k: int, j: int)
    requires
        0 <= k < items.len(),
        0 <= j < distinct_in_order(items).len(),
        distinct_in_order(items)[j] == items[k],
    ensures
        j == first_seen_index(items, k),
{
    let d = distinct_in_order(items);
    let f = first_occurrence(items, k);
    lemma_first_occurrence(items, k);
    let before = items.take(f);
    let upto = items.take(f + 1);
    let seen = distinct_in_order(before);
    lemma_distinct_in_order(before);
    assert(!seen.contains(items[k])) by {
        if seen.contains(items[k]) {
            assert(seen.to_set().contains(items[k]));
            assert(before.contains(items[k]));
        }
    }
    assert(upto.drop_last() =~= before);
    assert(upto.last() == items[k]);
    assert(distinct_in_order(upto) == seen.push(items[k]));
    lemma_distinct_in_order_prefix(items, f + 1);
    assert(d[seen.len() as int] == distinct_in_order(upto)[seen.len() as int]);
    lemma_distinct_in_order(items);
}

/// Equal values share one index, and that index is the number of different
/// values before the first of them.
pub proof fn lemma_first_seen_ordering<T>(items: Seq<T>, first: int, later: int)
    requires
        0 <= first <= later < items.len(),
        is_first_occurrence(items, first, items[first]),
        items[later] == items[first],
    ensures
        first_seen_index(items, first) == first_seen_index(items, later),
        first_seen_index(items, later) == distinct_count(items.take(first)),
{
    lemma_first_occurrence(items, first);
    lemma_first_occurrence(items, later);
}

/// Every value stands in the palette at its first-seen index.
pub proof fn lemma_in_palette<T>(items: Seq<T>, k: int)
    requires
        0 <= k < items.len(),
    ensures
        first_seen_index(items, k) < distinct_in_order(items).len(),
        distinct_in_order(items)[first_seen_index(items, k) as int] == items[k],
{
    let d = distinct_in_order(items);
    lemma_distinct_in_order(items);
    assert(items.to_set().contains(items[k]));
    assert(d.contains(items[k]));
    let j = choose|j: int| 0 <= j < d.len() && d[j] == items[k];
    lemma_palette_position(items, k, j);
}

/// Different values never share an index.
pub proof fn lemma_first_seen_injective<T>(items: Seq<T>, a: int, b: int)
    requires
        0 <= a < items.len(),
        0 <= b < items.len(),
        first_seen_index(items, a) == first_seen_index(items, b),
    ensures
        items[a] == items[b],
{
    lemma_in_palette(items, a);
    lemma_in_palette(items, b);
}

/// Every index is below the number of different values, and there are at
/// most as many different values as there are items.
pub proof fn lemma_index_bound<T>(items: Seq<T>, k: int)
    requires
        0 <= k < items.len(),
    ensures
        first_seen_index(items, k) < distinct_count(items),
        distinct_count(items) <= items.len(),
{
    lemma_in_palette(items, k);
    lemma_distinct_in_order(items);
}

/// Whether two blocks hold the same pixels in the same order.
pub fn same_block(a: &Vec<Color>, b: &Vec<Color>) -> (same: bool)
    ensures
        same == (a@ == b@),
{
    if a.len() != b.len() {
        return false;
    }
    let mut i: usize = 0;
    while i < a.len()
        invariant
            a@.len() == b@.len(),
            i <= a@.len(),
            forall|j: int| 0 <= j < i ==> a@[j] == b@[j],
        decreases a@.len() - i,
    {
        if a[i] != b[i] {
            return false;
        }
        i += 1;
    }
    assert(a@ =~= b@);
    true
}

/// The ordered list of the distinct block contents met so far.
pub struct Palette {
    entries: Vec<Vec<Color>>,
}

impl View for Palette {
    type V = Seq<Seq<Color>>;

    closed spec fn view(&self) -> Seq<Seq<Color>> {
        Seq::new(self.entries@.len(), |i: int| self.entries@[i]@)
    }
}

impl Palette {
    /// A palette holds no content twice.
    pub open spec fn wf(&self) -> bool {
        self@.no_duplicates()
    }

    /// The empty palette.
    pub fn new() -> (palette: Palette)
        ensures
            palette@ == Seq::<Seq<Color>>::empty(),
            palette.wf(),
    {
        let palette = Palette { entries: Vec::new() };
        assert(palette@ =~= Seq::<Seq<Color>>::empty());
        palette
    }

    /// The number of entries.
    pub fn len(&self) -> (n: usize)
        ensures
            n == self@.len(),
    {
        self.entries.len()
    }

    /// The content stored under `index`.
    pub fn get(&self, index: usize) -> (block: &Vec<Color>)
        requires
            index < self@.len(),
        ensures
            block@ == self@[index as int],
    {
        &self.entries[index]
    }

    /// Looks for `block` from the first entry on and returns the index of the
    /// first entry that equals it.
    pub fn position(&self, block: &Vec<Color>) -> (found: Option<usize>)
        ensures
            match found {
                Some(i) => is_first_occurrence(self@, i as int, block@),
                None => !self@.contains(block@),
            },
    {
        let mut i: usize = 0;
        while i < self.entries.len()
            invariant
                i <= self.entries@.len(),
                self@.len() == self.entries@.len(),
                forall|j: int| 0 <= j < i ==> self@[j] != block@,
            decreases self.entries@.len() - i,
        {
            if same_block(&self.entries[i], block) {
                return Some(i);
            }
            i += 1;
        }
        None
    }

    /// Returns the index of `block`, appending it first when no entry equals
    /// it yet.
    pub fn intern(&mut self, block: Vec<Color>) -> (index: usize)
        ensures
            old(self)@.contains(block@) ==> final(self)@ == old(self)@ && is_first_occurrence(
                old(self)@,
                index as int,
                block@,
            ),
            !old(self)@.contains(block@) ==> final(self)@ == old(self)@.push(block@) && index
                == old(self)@.len(),
            old(self).wf() ==> final(self).wf(),
    {
        match self.position(&block) {
            Some(index) => index,
            None => {
                self.entries.push(block);
                assert(self@ =~= old(self)@.push(block@));
                self.entries.len() - 1
            },
        }
    }
}

} // verus!
