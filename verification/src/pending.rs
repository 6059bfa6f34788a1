//! Tables of the operations that are under way.

use vstd::prelude::*;

use crate::path::{components, Part, WorktreePath};

verus! {

/// What an operation can be registered under. Two values with one key stand for the same thing.
pub trait PendingKey: Sized {
    type Key;

    spec fn key(&self) -> Self::Key;

    fn same_key(&self, other: &Self) -> (res: bool)
        ensures
            res == (self.key() == other.key()),
    ;
}

impl PendingKey for WorktreePath {
    type Key = Seq<Part>;

    open spec fn key(&self) -> Seq<Part> {
        components(self@)
    }

    fn same_key(&self, other: &Self) -> (res: bool) {
        self.same_path(other)
    }
}

impl PendingKey for String {
    type Key = Seq<char>;

    open spec fn key(&self) -> Seq<char> {
        self@
    }

    fn same_key(&self, other: &Self) -> (res: bool) {
        *self == *other
    }
}

/// The operations that a list of entries registers. A later entry takes the place of an earlier
/// one.
pub open spec fn registered<K: PendingKey>(entries: Seq<(K, u64)>) -> Map<K::Key, u64>
    decreases entries.len(),
{
    if entries.len() == 0 {
        Map::empty()
    } else {
        let last = entries.last();
        registered(entries.drop_last()).insert(last.0.key(), last.1)
    }
}

/// A list registers finitely many operations.
proof fn lemma_finite<K: PendingKey>(entries: Seq<(K, u64)>)
    ensures
        registered(entries).dom().finite(),
    decreases entries.len(),
{
    if entries.len() > 0 {
        lemma_finite(entries.drop_last());
    }
}

/// Without one entry, the operations under all other keys stay.
proof fn lemma_drop_entry<K: PendingKey>(entries: Seq<(K, u64)>, i: int)
    requires
        0 <= i < entries.len(),
    ensures
        registered(entries.remove(i)).remove(entries[i].0.key()) == registered(entries).remove(
            entries[i].0.key(),
        ),
    decreases entries.len(),
{
    let key = entries[i].0.key();
    if i == entries.len() - 1 {
        assert(entries.remove(i) =~= entries.drop_last());
        assert(registered(entries).remove(key) =~= registered(entries.drop_last()).remove(key));
    } else {
        lemma_drop_entry(entries.drop_last(), i);
        let less = entries.remove(i);
        assert(less.drop_last() =~= entries.drop_last().remove(i));
        assert(less.last() == entries.last());
        let a = registered(less.drop_last());
        let b = registered(entries.drop_last());
        assert forall|k: K::Key|
            registered(less).remove(key).dom().contains(k) == registered(entries).remove(
                key,
            ).dom().contains(k) by {
            assert(a.remove(key).dom().contains(k) == b.remove(key).dom().contains(k));
        }
        assert forall|k: K::Key|
            registered(less).remove(key).dom().contains(k) implies registered(less).remove(key)[k]
            == registered(entries).remove(key)[k] by {
            assert(a.remove(key).dom().contains(k) ==> a.remove(key)[k] == b.remove(key)[k]);
        }
        assert(registered(less).remove(key) =~= registered(entries).remove(key));
    }
}

/// A key that no entry has is not registered.
proof fn lemma_unregistered<K: PendingKey>(entries: Seq<(K, u64)>, key: K::Key)
    requires
        forall|j: int| 0 <= j < entries.len() ==> #[trigger] entries[j].0.key() != key,
    ensures
        !registered(entries).dom().contains(key),
    decreases entries.len(),
{
    if entries.len() > 0 {
        let rest = entries.drop_last();
        assert forall|j: int| 0 <= j < rest.len() implies #[trigger] rest[j].0.key() != key by {
            assert(rest[j] == entries[j]);
        }
        lemma_unregistered(rest, key);
    }
}

/// Operation numbers by what they are registered under.
pub struct PendingTable<K> {
    entries: Vec<(K, u64)>,
}

impl<K: PendingKey> View for PendingTable<K> {
    type V = Map<K::Key, u64>;

    closed spec fn view(&self) -> Map<K::Key, u64> {
        registered(self.entries@)
    }
}

impl<K: PendingKey> PendingTable<K> {
    /// A table holds finitely many operations.
    pub proof fn law_finite(self)
        ensures
            self@.dom().finite(),
    {
        lemma_finite(self.entries@);
    }

    /// A table without operations.
    pub fn new() -> (res: Self)
        ensures
            res@ == Map::<K::Key, u64>::empty(),
    {
        PendingTable { entries: Vec::new() }
    }

    /// The operation registered under `key`.
    pub fn get(&self, key: &K) -> (res: Option<u64>)
        ensures
            res == if self@.dom().contains(key.key()) {
                Some(self@[key.key()])
            } else {
                None
            },
    {
        let mut end: usize = self.entries.len();
        let ghost all = self.entries@;
        assert(all.take(end as int) =~= all);
        while end > 0
            invariant
                end <= all.len(),
                all == self.entries@,
                registered(all).dom().contains(key.key()) == registered(
                    all.take(end as int),
                ).dom().contains(key.key()),
                registered(all).dom().contains(key.key()) ==> registered(all)[key.key()]
                    == registered(all.take(end as int))[key.key()],
            decreases end,
        {
            assert(all.take(end as int).drop_last() =~= all.take(end - 1));
            let entry = &self.entries[end - 1];
            if entry.0.same_key(key) {
                return Some(entry.1);
            }
            end = end - 1;
        }
        None
    }

    /// Whether an operation is registered under `key`.
    pub fn contains_key(&self, key: &K) -> (res: bool)
        ensures
            res == self@.dom().contains(key.key()),
    {
        self.get(key).is_some()
    }

    /// Takes the operation registered under `key` out of the table.
    pub fn remove(&mut self, key: &K)
        ensures
            final(self)@ == old(self)@.remove(key.key()),
    {
        let mut i: usize = 0;
        while i < self.entries.len()
            invariant
                i <= self.entries@.len(),
                forall|j: int| 0 <= j < i ==> #[trigger] self.entries@[j].0.key() != key.key(),
                self@.remove(key.key()) == old(self)@.remove(key.key()),
            decreases self.entries.len() - i,
        {
            if self.entries[i].0.same_key(key) {
                proof {
                    lemma_drop_entry(self.entries@, i as int);
                }
                self.entries.remove(i);
            } else {
                i = i + 1;
            }
        }
        proof {
            lemma_unregistered(self.entries@, key.key());
            assert(self@.remove(key.key()) =~= self@);
        }
    }

    /// Registers `operation` under `key`, in place of any other operation there.
    pub fn insert(&mut self, key: K, operation: u64)
        ensures
            final(self)@ == old(self)@.insert(key.key(), operation),
    {
        self.remove(&key);
        let ghost before = self.entries@;
        self.entries.push((key, operation));
        assert(self.entries@.drop_last() =~= before);
        assert(self@ =~= old(self)@.insert(key.key(), operation));
    }
}

} // verus!
