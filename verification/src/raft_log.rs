//! The replicated log as a node sees it: what is on stable storage, what is not
//! there yet, and how far the log is committed and applied.

use vstd::prelude::*;

use crate::eraftpb::{entry_views, Entry, Snapshot};

verus! {

/// What has not reached stable storage yet.
#[derive(Debug)]
pub struct Unstable {
    /// A snapshot that has come in and is not saved.
    pub snapshot: Option<Snapshot>,
    /// The entries at the end of the log that are not saved.
    pub entries: Vec<Entry>,
}

/// The replicated log of one node.
#[derive(Debug)]
pub struct RaftLog {
    /// The saved entries that the log still holds.
    pub stable: Vec<Entry>,
    /// What comes after them.
    pub unstable: Unstable,
    /// The highest index that is known to be committed.
    pub committed: u64,
    /// The highest index that the application has applied.
    pub applied: u64,
}

/// The position of the last entry with this index and term, or -1.
pub open spec fn last_position(entries: Seq<Entry>, index: u64, term: u64) -> int
    decreases entries.len(),
{
    if entries.len() == 0 {
        -1
    } else if entries.last().index == index && entries.last().term == term {
        entries.len() - 1
    } else {
        last_position(entries.drop_last(), index, term)
    }
}

impl RaftLog {
    /// All entries of the log, saved or not, in log order.
    pub open spec fn entries(self) -> Seq<Entry> {
        self.stable@ + self.unstable.entries@
    }

    /// The committed entries above an index, in log order.
    pub open spec fn committed_since(self, since_idx: u64) -> Seq<Entry> {
        self.entries().filter(in_range(since_idx, self.committed))
    }

    /// The entries that are not saved, if there are any.
    pub fn unstable_entries(&self) -> (r: Option<&[Entry]>)
        ensures
            r is Some <==> self.unstable.entries@.len() > 0,
            r matches Some(s) ==> s@ == self.unstable.entries@,
    {
        if self.unstable.entries.is_empty() {
            None
        } else {
            Some(self.unstable.entries.as_slice())
        }
    }

    /// The committed entries above an index, if there are any.
    pub fn next_entries_since(&self, since_idx: u64) -> (r: Option<Vec<Entry>>)
        ensures
            r is Some <==> self.committed_since(since_idx).len() > 0,
            r matches Some(es) ==> entry_views(es@) == entry_views(self.committed_since(since_idx)),
    {
        let mut next: Vec<Entry> = Vec::new();
        collect_range(&self.stable, since_idx, self.committed, &mut next);
        collect_range(&self.unstable.entries, since_idx, self.committed, &mut next);
        proof {
            let keep = in_range(since_idx, self.committed);
            Seq::filter_distributes_over_add(self.stable@, self.unstable.entries@, keep);
            assert(entry_views(next@) =~= entry_views(self.committed_since(since_idx)));
            assert(entry_views(next@).len() == next@.len());
        }
        if next.is_empty() {
            None
        } else {
            Some(next)
        }
    }

    /// The committed entries that are not applied, if there are any.
    pub fn next_entries(&self) -> (r: Option<Vec<Entry>>)
        ensures
            r is Some <==> self.committed_since(self.applied).len() > 0,
            r matches Some(es) ==> entry_views(es@) == entry_views(
                self.committed_since(self.applied),
            ),
    {
        self.next_entries_since(self.applied)
    }

    /// Whether there are committed entries above an index.
    pub fn has_next_entries_since(&self, since_idx: u64) -> (b: bool)
        ensures
            b == (self.committed_since(since_idx).len() > 0),
    {
        let b = any_in_range(&self.stable, since_idx, self.committed) || any_in_range(
            &self.unstable.entries,
            since_idx,
            self.committed,
        );
        proof {
            let keep = in_range(since_idx, self.committed);
            Seq::filter_distributes_over_add(self.stable@, self.unstable.entries@, keep);
        }
        b
    }

    /// Whether there are committed entries that are not applied.
    pub fn has_next_entries(&self) -> (b: bool)
        ensures
            b == (self.committed_since(self.applied).len() > 0),
    {
        self.has_next_entries_since(self.applied)
    }

    /// Notes that the unsaved entries up to the one with this index and term have been
    /// saved. Does nothing if no unsaved entry has this index and term: the log may have been
    /// overwritten meanwhile.
    pub fn stable_to(&mut self, index: u64, term: u64)
        ensures
            ({
                let unsaved = old(self).unstable.entries@;
                let n = last_position(unsaved, index, term) + 1;
                &&& final(self).stable@ == old(self).stable@ + unsaved.take(n)
                &&& final(self).unstable.entries@ == unsaved.skip(n)
            }),
            final(self).unstable.snapshot == old(self).unstable.snapshot,
            final(self).committed == old(self).committed,
            final(self).applied == old(self).applied,
    {
        let ghost unsaved = self.unstable.entries@;
        let mut n: usize = self.unstable.entries.len();
        assert(unsaved.take(n as int) =~= unsaved);
        while n > 0 && !(self.unstable.entries[n - 1].index == index
            && self.unstable.entries[n - 1].term == term)
            invariant
                n <= unsaved.len(),
                self.unstable.entries@ == unsaved,
                last_position(unsaved, index, term) == last_position(
                    unsaved.take(n as int),
                    index,
                    term,
                ),
                *self == *old(self),
            decreases n,
        {
            assert(unsaved.take(n as int).drop_last() =~= unsaved.take(n - 1));
            n = n - 1;
        }
        let mut saved: Vec<Entry> = self.unstable.entries.split_off(n);
        std::mem::swap(&mut saved, &mut self.unstable.entries);
        self.stable.append(&mut saved);
    }

    /// Notes that the snapshot with this index has been saved. Does nothing if another one has
    /// come in meanwhile.
    pub fn stable_snap_to(&mut self, index: u64)
        ensures
            final(self).unstable.snapshot == (match old(self).unstable.snapshot {
                Some(s) if s@.index() != index => Some(s),
                _ => None,
            }),
            final(self).unstable.entries == old(self).unstable.entries,
            final(self).stable == old(self).stable,
            final(self).committed == old(self).committed,
            final(self).applied == old(self).applied,
    {
        let saved = match &self.unstable.snapshot {
            Some(s) => s.index() == index,
            None => false,
        };
        if saved {
            self.unstable.snapshot = None;
        }
    }
}

/// Which entries lie above one index and not above another.
pub open spec fn in_range(above: u64, upto: u64) -> spec_fn(Entry) -> bool {
    |e: Entry| above < e.index && e.index <= upto
}

/// Appends copies of the entries in a range of indices, in their order.
fn collect_range(entries: &Vec<Entry>, above: u64, upto: u64, out: &mut Vec<Entry>)
    ensures
        entry_views(final(out)@) == entry_views(old(out)@) + entry_views(
            entries@.filter(in_range(above, upto)),
        ),
{
    let ghost keep = in_range(above, upto);
    let ghost before = entry_views(out@);
    let mut i: usize = 0;
    assert(entries@.take(0).filter(keep) =~= Seq::empty());
    assert(entry_views(out@) =~= before + entry_views(entries@.take(0).filter(keep)));
    while i < entries.len()
        invariant
            i <= entries.len(),
            keep == in_range(above, upto),
            entry_views(out@) == before + entry_views(entries@.take(i as int).filter(keep)),
        decreases entries.len() - i,
    {
        reveal(Seq::filter);
        let ghost done = out@;
        let ghost head = entries@.take(i + 1);
        assert(head.drop_last() =~= entries@.take(i as int));
        assert(head.last() == entries@[i as int]);
        let e = &entries[i];
        if above < e.index && e.index <= upto {
            let c = e.clone();
            out.push(c);
            assert(entry_views(out@) =~= entry_views(done).push(c@));
            assert(head.filter(keep) == head.drop_last().filter(keep).push(*e));
            assert(entry_views(head.filter(keep)) =~= entry_views(
                entries@.take(i as int).filter(keep),
            ).push(e@));
        } else {
            assert(head.filter(keep) == head.drop_last().filter(keep));
        }
        assert(entry_views(out@) =~= before + entry_views(head.filter(keep)));
        i = i + 1;
    }
    assert(entries@.take(i as int) =~= entries@);
}

/// Whether an entry lies in a range of indices.
fn any_in_range(entries: &Vec<Entry>, above: u64, upto: u64) -> (b: bool)
    ensures
        b == (entries@.filter(in_range(above, upto)).len() > 0),
{
    let ghost keep = in_range(above, upto);
    let mut i: usize = 0;
    while i < entries.len()
        invariant
            i <= entries.len(),
            keep == in_range(above, upto),
            forall|k: int| 0 <= k < i ==> !keep(#[trigger] entries@[k]),
        decreases entries.len() - i,
    {
        if above < entries[i].index && entries[i].index <= upto {
            proof {
                entries@.lemma_filter_contains(keep, i as int);
            }
            return true;
        }
        i = i + 1;
    }
    proof {
        entries@.lemma_all_neg_filter_empty(keep);
    }
    false
}

} // verus!
