//! What lies in a directory, in the order of its paths.

use vstd::prelude::*;
use vstd::relations::{
    antisymmetric, reflexive, sorted_by, strongly_connected, total_ordering, transitive,
};
use vstd::seq_lib::{lemma_multiset_commutative, lemma_sorted_unique};

use crate::agent::path::{LexPath, PathView};
use crate::order::{lemma_text_order_is_total, lex_order, text_order, texts_leq};

verus! {

/// Something that lies in a directory.
#[derive(Debug)]
pub struct Entry {
    pub path: LexPath,
    pub is_dir: bool,
    pub is_file: bool,
}

/// The view of an [`Entry`].
pub struct EntryView {
    pub path: PathView,
    pub is_dir: bool,
    pub is_file: bool,
}

impl View for Entry {
    type V = EntryView;

    open spec fn view(&self) -> EntryView {
        EntryView { path: self.path@, is_dir: self.is_dir, is_file: self.is_file }
    }
}

/// The views of a list of entries.
pub open spec fn entry_views(entries: Seq<Entry>) -> Seq<EntryView> {
    Seq::new(entries.len(), |i: int| entries[i]@)
}

/// Whether an entry stands before another or is the same: its path decides, segment by segment.
pub open spec fn entry_leq(a: EntryView, b: EntryView) -> bool {
    if a.path.absolute != b.path.absolute {
        a.path.absolute
    } else if a.path.segments != b.path.segments {
        lex_order(text_order())(a.path.segments, b.path.segments)
    } else if a.is_dir != b.is_dir {
        b.is_dir
    } else {
        b.is_file || !a.is_file
    }
}

/// The order of entries.
pub open spec fn entry_order() -> spec_fn(EntryView, EntryView) -> bool {
    |a: EntryView, b: EntryView| entry_leq(a, b)
}

/// Entries in the order of their paths.
pub open spec fn in_order(entries: Seq<EntryView>) -> Seq<EntryView> {
    entries.sort_by(entry_order())
}

/// Entries are totally ordered.
pub proof fn lemma_entry_order_is_total()
    ensures
        total_ordering(entry_order()),
{
    lemma_text_order_is_total();
    let o = entry_order();
    let t = lex_order(text_order());
    assert forall|a: EntryView, b: EntryView| #[trigger] o(a, b) && #[trigger] o(b, a) implies a == b by {
        if a.path.absolute == b.path.absolute && a.path.segments != b.path.segments {
            assert(t(a.path.segments, b.path.segments) && t(b.path.segments, a.path.segments));
        }
    }
    assert forall|a: EntryView, b: EntryView, c: EntryView| #[trigger] o(a, b) && #[trigger] o(
        b,
        c,
    ) implies o(a, c) by {
        if a.path.absolute == b.path.absolute && b.path.absolute == c.path.absolute {
            if a.path.segments != b.path.segments && b.path.segments != c.path.segments {
                assert(t(a.path.segments, b.path.segments) && t(b.path.segments, c.path.segments));
                assert(t(a.path.segments, c.path.segments));
                if a.path.segments == c.path.segments {
                    assert(t(b.path.segments, a.path.segments));
                }
            }
        }
    }
    assert forall|a: EntryView, b: EntryView| #[trigger] o(a, b) || #[trigger] o(b, a) by {
        assert(t(a.path.segments, b.path.segments) || t(b.path.segments, a.path.segments));
    }
    assert(reflexive(o));
    assert(antisymmetric(o));
    assert(transitive(o));
    assert(strongly_connected(o));
}

impl Entry {
    /// A copy of the entry.
    pub fn copy(&self) -> (r: Entry)
        ensures
            r@ == self@,
    {
        Entry { path: self.path.copy(), is_dir: self.is_dir, is_file: self.is_file }
    }

    /// Whether the entry stands before another or is the same.
    pub fn leq(&self, other: &Entry) -> (r: bool)
        ensures
            r == entry_leq(self@, other@),
    {
        if self.path.absolute != other.path.absolute {
            self.path.absolute
        } else if !self.path.is_same(&other.path) {
            texts_leq(&self.path.segments, &other.path.segments)
        } else if self.is_dir != other.is_dir {
            other.is_dir
        } else {
            other.is_file || !self.is_file
        }
    }
}

fn copy_range(entries: &Vec<Entry>, from: usize, to: usize) -> (r: Vec<Entry>)
    requires
        from <= to <= entries@.len(),
    ensures
        entry_views(r@) == entry_views(entries@).subrange(from as int, to as int),
{
    let mut out: Vec<Entry> = Vec::new();
    let ghost all = entry_views(entries@);
    let mut i: usize = from;
    assert(entry_views(out@) =~= all.subrange(from as int, from as int));
    while i < to
        invariant
            from <= i <= to <= entries@.len(),
            all == entry_views(entries@),
            entry_views(out@) == all.subrange(from as int, i as int),
        decreases to - i,
    {
        let ghost before = out@;
        out.push(entries[i].copy());
        assert(entry_views(out@) =~= entry_views(before).push(all[i as int]));
        assert(all.subrange(from as int, i + 1) =~= all.subrange(from as int, i as int).push(
            all[i as int],
        ));
        i += 1;
    }
    out
}

proof fn lemma_push_sorted(out: Seq<EntryView>, e: EntryView)
    requires
        sorted_by(out, entry_order()),
        forall|k: int| 0 <= k < out.len() ==> entry_leq(#[trigger] out[k], e),
    ensures
        sorted_by(out.push(e), entry_order()),
{
    let o = entry_order();
    assert forall|i: int, j: int| 0 <= i < j < out.push(e).len() implies #[trigger] o(
        out.push(e)[i],
        out.push(e)[j],
    ) by {
        if j < out.len() {
            assert(o(out[i], out[j]));
        } else {
            assert(entry_leq(out[i], e));
        }
    }
}

fn merge(a: &Vec<Entry>, b: &Vec<Entry>) -> (r: Vec<Entry>)
    requires
        sorted_by(entry_views(a@), entry_order()),
        sorted_by(entry_views(b@), entry_order()),
    ensures
        sorted_by(entry_views(r@), entry_order()),
        entry_views(r@).to_multiset() == (entry_views(a@) + entry_views(b@)).to_multiset(),
{
    broadcast use vstd::seq_lib::group_to_multiset_ensures;

    let ghost x = entry_views(a@);
    let ghost y = entry_views(b@);
    let ghost o = entry_order();
    let mut out: Vec<Entry> = Vec::new();
    let mut i: usize = 0;
    let mut j: usize = 0;
    proof {
        lemma_entry_order_is_total();
        assert(entry_views(out@) =~= Seq::empty());
        assert(x.take(0) =~= Seq::empty());
        assert(y.take(0) =~= Seq::empty());
        assert(x.take(0) + y.take(0) =~= Seq::empty());
    }
    while i < a.len() || j < b.len()
        invariant
            x == entry_views(a@),
            y == entry_views(b@),
            o == entry_order(),
            total_ordering(o),
            i <= a@.len(),
            j <= b@.len(),
            sorted_by(x, o),
            sorted_by(y, o),
            sorted_by(entry_views(out@), o),
            entry_views(out@).to_multiset() == (x.take(i as int) + y.take(j as int)).to_multiset(),
            forall|k: int| 0 <= k < out@.len() && i < a@.len() ==> entry_leq(
                #[trigger] entry_views(out@)[k],
                x[i as int],
            ),
            forall|k: int| 0 <= k < out@.len() && j < b@.len() ==> entry_leq(
                #[trigger] entry_views(out@)[k],
                y[j as int],
            ),
        decreases (a@.len() - i) + (b@.len() - j),
    {
        broadcast use vstd::seq_lib::group_to_multiset_ensures;

        let ghost before = entry_views(out@);
        let left: bool = j >= b.len() || (i < a.len() && a[i].leq(&b[j]));
        if left {
            out.push(a[i].copy());
            proof {
                let e = x[i as int];
                assert(entry_views(out@) =~= before.push(e));
                lemma_push_sorted(before, e);
                lemma_multiset_commutative(x.take(i as int), y.take(j as int));
                lemma_multiset_commutative(x.take(i + 1), y.take(j as int));
                assert(x.take(i + 1) =~= x.take(i as int).push(e));
                assert(entry_views(out@).to_multiset() =~= (x.take(i + 1) + y.take(
                    j as int,
                )).to_multiset());
                assert forall|k: int| 0 <= k < out@.len() && i + 1 < a@.len() implies entry_leq(
                    #[trigger] entry_views(out@)[k],
                    x[i + 1],
                ) by {
                    assert(o(x[i as int], x[i + 1]));
                    if k < before.len() {
                        assert(entry_leq(before[k], x[i as int]));
                        assert(o(before[k], x[i as int]));
                    }
                }
                assert forall|k: int| 0 <= k < out@.len() && j < b@.len() implies entry_leq(
                    #[trigger] entry_views(out@)[k],
                    y[j as int],
                ) by {
                    if k < before.len() {
                        assert(entry_leq(before[k], y[j as int]));
                    }
                }
            }
            i += 1;
        } else {
            out.push(b[j].copy());
            proof {
                let e = y[j as int];
                assert(entry_views(out@) =~= before.push(e));
                lemma_push_sorted(before, e);
                lemma_multiset_commutative(x.take(i as int), y.take(j as int));
                lemma_multiset_commutative(x.take(i as int), y.take(j + 1));
                assert(y.take(j + 1) =~= y.take(j as int).push(e));
                assert(entry_views(out@).to_multiset() =~= (x.take(i as int) + y.take(
                    j + 1,
                )).to_multiset());
                assert forall|k: int| 0 <= k < out@.len() && j + 1 < b@.len() implies entry_leq(
                    #[trigger] entry_views(out@)[k],
                    y[j + 1],
                ) by {
                    assert(o(y[j as int], y[j + 1]));
                    if k < before.len() {
                        assert(entry_leq(before[k], y[j as int]));
                        assert(o(before[k], y[j as int]));
                    }
                }
                assert forall|k: int| 0 <= k < out@.len() && i < a@.len() implies entry_leq(
                    #[trigger] entry_views(out@)[k],
                    x[i as int],
                ) by {
                    assert(o(x[i as int], y[j as int]) || o(y[j as int], x[i as int]));
                    if k < before.len() {
                        assert(entry_leq(before[k], x[i as int]));
                    }
                }
            }
            j += 1;
        }
    }
    assert(x.take(i as int) =~= x);
    assert(y.take(j as int) =~= y);
    out
}

/// Puts entries in the order of their paths.
pub fn sort_entries(entries: &Vec<Entry>) -> (r: Vec<Entry>)
    ensures
        entry_views(r@) == in_order(entry_views(entries@)),
    decreases entries@.len(),
{
    broadcast use vstd::seq_lib::group_to_multiset_ensures;

    let ghost all = entry_views(entries@);
    let ghost o = entry_order();
    proof {
        lemma_entry_order_is_total();
        all.lemma_sort_by_ensures(o);
    }
    if entries.len() <= 1 {
        let out: Vec<Entry> = copy_range(entries, 0, entries.len());
        proof {
            assert(entry_views(out@) =~= all);
            assert(sorted_by(all, o));
            lemma_sorted_unique(all, in_order(all), o);
        }
        return out;
    }
    let half: usize = entries.len() / 2;
    let front: Vec<Entry> = copy_range(entries, 0, half);
    let back: Vec<Entry> = copy_range(entries, half, entries.len());
    assert(entry_views(front@).len() < all.len() && entry_views(back@).len() < all.len());
    let a: Vec<Entry> = sort_entries(&front);
    let b: Vec<Entry> = sort_entries(&back);
    proof {
        entry_views(front@).lemma_sort_by_ensures(o);
        entry_views(back@).lemma_sort_by_ensures(o);
    }
    let out: Vec<Entry> = merge(&a, &b);
    proof {
        lemma_multiset_commutative(entry_views(a@), entry_views(b@));
        lemma_multiset_commutative(entry_views(front@), entry_views(back@));
        assert(entry_views(front@) + entry_views(back@) =~= all);
        lemma_sorted_unique(entry_views(out@), in_order(all), o);
    }
    out
}

/// Putting entries in order neither adds nor loses one, and leaves them in order.
pub proof fn law_order_keeps_entries(entries: Seq<EntryView>)
    ensures
        in_order(entries).to_multiset() == entries.to_multiset(),
        sorted_by(in_order(entries), entry_order()),
{
    lemma_entry_order_is_total();
    entries.lemma_sort_by_ensures(entry_order());
}

} // verus!
