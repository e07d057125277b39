//! The shared status store: a mapping from group name to its latest
//! published sample, written by the poll loop and read by the metric
//! callback. The embedding binary guards one store value with a mutual
//! exclusion lock and keeps each critical section to a single `upsert` or a
//! single `snapshot`; the store itself guarantees that every update replaces
//! a whole sample at its key and that a snapshot is a complete copy.

use vstd::prelude::*;
use crate::status::JobStatusSample;

verus! {

/// One stored binding: a group name and its latest sample.
#[derive(Debug)]
pub struct StoreEntry {
    pub name: String,
    pub sample: JobStatusSample,
}

impl StoreEntry {
    /// The key under which this entry stands: the group name's characters.
    pub open spec fn key(self) -> Seq<char> {
        self.name@
    }
}

/// The mapping that a sequence of entries denotes: later entries win.
pub open spec fn map_of(entries: Seq<StoreEntry>) -> Map<Seq<char>, JobStatusSample>
    decreases entries.len(),
{
    if entries.len() == 0 {
        Map::empty()
    } else {
        map_of(entries.drop_last()).insert(entries.last().key(), entries.last().sample)
    }
}

/// Group name to latest sample, backed by a vector of entries with pairwise
/// distinct names. Entries are inserted or replaced, never removed: a group
/// that stops appearing in poll results keeps its last known sample.
pub struct StatusStore {
    entries: Vec<StoreEntry>,
}

impl View for StatusStore {
    type V = Map<Seq<char>, JobStatusSample>;

    open spec fn view(&self) -> Map<Seq<char>, JobStatusSample> {
        map_of(self.entries_seq())
    }
}

impl StatusStore {
    /// The stored entries, in insertion order.
    pub closed spec fn entries_seq(&self) -> Seq<StoreEntry> {
        self.entries@
    }

    /// Well-formedness: no two entries share a name.
    pub open spec fn wf(&self) -> bool {
        forall|p: int, q: int|
            0 <= p < q < self.entries_seq().len() ==> self.entries_seq()[p].key()
                != self.entries_seq()[q].key()
    }

    /// An empty store.
    pub fn new() -> (s: StatusStore)
        ensures
            s.wf(),
            s.entries_seq() == Seq::<StoreEntry>::empty(),
            s@ == Map::<Seq<char>, JobStatusSample>::empty(),
    {
        StatusStore { entries: Vec::new() }
    }

    /// How many groups the store knows.
    pub fn len(&self) -> (n: usize)
        ensures
            n == self.entries_seq().len(),
    {
        self.entries.len()
    }

    /// Inserts or replaces the sample for `name`. The whole sample is
    /// replaced as one unit: afterwards the store maps `name` to exactly
    /// `sample`, and every other binding is untouched.
    pub fn upsert(&mut self, name: String, sample: JobStatusSample)
        requires
            old(self).wf(),
        ensures
            final(self).wf(),
            final(self)@ == old(self)@.insert(name@, sample),
            old(self)@.contains_key(name@) ==> final(self).entries_seq().len() == old(
                self,
            ).entries_seq().len(),
            !old(self)@.contains_key(name@) ==> final(self).entries_seq().len() == old(
                self,
            ).entries_seq().len() + 1,
    {
        let n = self.entries.len();
        let mut i: usize = 0;
        while i < n
            invariant
                i <= n,
                n == self.entries@.len(),
                old(self).wf(),
                self.entries@ == old(self).entries@,
                forall|j: int| 0 <= j < i ==> self.entries@[j].key() != name@,
            decreases n - i,
        {
            if self.entries[i].name == name {
                self.entries[i].sample = sample;
                proof {
                    let updated = StoreEntry { name: old(self).entries@[i as int].name, sample };
                    assert(old(self).entries_seq() == old(self).entries@);
                    lemma_map_of_contains(old(self).entries@, name@);
                    assert(old(self).entries@[i as int].key() == name@);
                    assert(self.entries@ =~= old(self).entries@.update(i as int, updated));
                    lemma_map_of_update(old(self).entries@, i as int, updated);
                    assert(final(self)@ =~= old(self)@.insert(name@, sample));
                    assert(forall|j: int|
                        0 <= j < self.entries@.len() ==> self.entries@[j].key() == old(
                            self,
                        ).entries@[j].key());
                }
                return;
            }
            i += 1;
        }
        let entry = StoreEntry { name, sample };
        self.entries.push(entry);
        proof {
            lemma_map_of_contains(old(self).entries@, entry.key());
            assert(self.entries@.drop_last() =~= old(self).entries@);
            assert(final(self)@ =~= old(self)@.insert(entry.key(), entry.sample));
        }
    }

    /// A complete point-in-time copy of the store: the same entries, in the
    /// same order, each one a whole copy of its sample. The caller walks the
    /// copy with no lock held.
    pub fn snapshot(&self) -> (res: Vec<StoreEntry>)
        ensures
            res@ == self.entries_seq(),
            map_of(res@) == self@,
    {
        let n = self.entries.len();
        let mut res: Vec<StoreEntry> = Vec::new();
        let mut i: usize = 0;
        while i < n
            invariant
                i <= n,
                n == self.entries@.len(),
                res@.len() == i,
                forall|j: int| 0 <= j < i ==> res@[j] == self.entries@[j],
            decreases n - i,
        {
            let copy = StoreEntry { name: self.entries[i].name.clone(), sample: self.entries[i].sample };
            res.push(copy);
            i += 1;
        }
        proof {
            assert(res@ =~= self.entries@);
        }
        res
    }
}

/// Replacing an entry's sample in place denotes the same mapping as
/// inserting under that entry's key, provided names are pairwise distinct.
proof fn lemma_map_of_update(s: Seq<StoreEntry>, i: int, e: StoreEntry)
    requires
        0 <= i < s.len(),
        e.key() == s[i].key(),
        forall|p: int, q: int| 0 <= p < q < s.len() ==> s[p].key() != s[q].key(),
    ensures
        map_of(s.update(i, e)) == map_of(s).insert(e.key(), e.sample),
    decreases s.len(),
{
    let t = s.update(i, e);
    if i == s.len() - 1 {
        assert(t.drop_last() =~= s.drop_last());
        assert(map_of(t) =~= map_of(s).insert(e.key(), e.sample));
    } else {
        assert(t.drop_last() =~= s.drop_last().update(i, e));
        assert(forall|j: int| 0 <= j < s.len() - 1 ==> s.drop_last()[j] == s[j]);
        lemma_map_of_update(s.drop_last(), i, e);
        assert(s[i].key() != s[s.len() - 1].key());
        assert(map_of(t) =~= map_of(s).insert(e.key(), e.sample));
    }
}

/// A key stands in the denoted mapping exactly when some entry carries it.
pub proof fn lemma_map_of_contains(s: Seq<StoreEntry>, k: Seq<char>)
    ensures
        map_of(s).contains_key(k) <==> exists|i: int| 0 <= i < s.len() && s[i].key() == k,
    decreases s.len(),
{
    if s.len() > 0 {
        lemma_map_of_contains(s.drop_last(), k);
        assert(forall|i: int| 0 <= i < s.len() - 1 ==> s.drop_last()[i] == s[i]);
        if s.last().key() == k {
            assert(s[s.len() - 1].key() == k);
        } else {
            if map_of(s).contains_key(k) {
                let i = choose|i: int| 0 <= i < s.len() - 1 && s.drop_last()[i].key() == k;
                assert(s[i].key() == k);
            }
            if exists|i: int| 0 <= i < s.len() && s[i].key() == k {
                let i = choose|i: int| 0 <= i < s.len() && s[i].key() == k;
                assert(s.drop_last()[i].key() == k);
            }
        }
    }
}

/// The mapping that a sequence of upserts leaves behind, starting from `m`.
pub open spec fn apply_upserts(
    m: Map<Seq<char>, JobStatusSample>,
    ups: Seq<(Seq<char>, JobStatusSample)>,
) -> Map<Seq<char>, JobStatusSample>
    decreases ups.len(),
{
    if ups.len() == 0 {
        m
    } else {
        apply_upserts(m, ups.drop_last()).insert(ups.last().0, ups.last().1)
    }
}

/// Last write wins per key: after any sequence of upserts, the store maps an
/// upserted key to the sample of the latest upsert with that key.
pub proof fn lemma_last_write_wins(
    m: Map<Seq<char>, JobStatusSample>,
    ups: Seq<(Seq<char>, JobStatusSample)>,
    i: int,
)
    requires
        0 <= i < ups.len(),
        forall|j: int| i < j < ups.len() ==> ups[j].0 != ups[i].0,
    ensures
        apply_upserts(m, ups).contains_key(ups[i].0),
        apply_upserts(m, ups)[ups[i].0] == ups[i].1,
    decreases ups.len(),
{
    if i < ups.len() - 1 {
        assert(forall|j: int| 0 <= j < ups.len() - 1 ==> ups.drop_last()[j] == ups[j]);
        lemma_last_write_wins(m, ups.drop_last(), i);
        assert(ups[ups.len() - 1].0 != ups[i].0);
    }
}

/// A key that no upsert touches keeps its prior binding.
pub proof fn lemma_untouched_key(
    m: Map<Seq<char>, JobStatusSample>,
    ups: Seq<(Seq<char>, JobStatusSample)>,
    k: Seq<char>,
)
    requires
        forall|j: int| 0 <= j < ups.len() ==> ups[j].0 != k,
    ensures
        apply_upserts(m, ups).contains_key(k) == m.contains_key(k),
        m.contains_key(k) ==> apply_upserts(m, ups)[k] == m[k],
    decreases ups.len(),
{
    if ups.len() > 0 {
        assert(forall|j: int| 0 <= j < ups.len() - 1 ==> ups.drop_last()[j] == ups[j]);
        lemma_untouched_key(m, ups.drop_last(), k);
    }
}

/// Every binding a snapshot can observe is a whole sample: either one that
/// was present before the upserts ran, or exactly the sample handed to one
/// of the upserts — never a mixture of fields from different writes.
pub proof fn lemma_samples_are_whole(
    m: Map<Seq<char>, JobStatusSample>,
    ups: Seq<(Seq<char>, JobStatusSample)>,
    k: Seq<char>,
)
    requires
        apply_upserts(m, ups).contains_key(k),
    ensures
        (m.contains_key(k) && apply_upserts(m, ups)[k] == m[k]) || (exists|j: int|
            0 <= j < ups.len() && ups[j].0 == k && ups[j].1 == apply_upserts(m, ups)[k]),
    decreases ups.len(),
{
    if ups.len() > 0 {
        if ups.last().0 == k {
            assert(ups[ups.len() - 1].0 == k && ups[ups.len() - 1].1 == apply_upserts(m, ups)[k]);
        } else {
            lemma_samples_are_whole(m, ups.drop_last(), k);
        }
    }
}

} // verus!
