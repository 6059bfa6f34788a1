//! The operations under way.

use vstd::prelude::*;

use crate::path::Part;

verus! {

/// Which operations are under way. Creations and removals are registered under the components of
/// the checkout's path, removals also under the id of their workspace.
#[verifier::ext_equal]
pub struct Ledger {
    pub creates: Map<Seq<Part>, u64>,
    pub removes: Map<Seq<char>, u64>,
    pub remove_paths: Map<Seq<Part>, u64>,
    pub next_id: u64,
}

impl Ledger {
    /// After an operation number was given out.
    pub open spec fn issued(self) -> Ledger {
        Ledger {
            next_id: if self.next_id < u64::MAX {
                (self.next_id + 1) as u64
            } else {
                u64::MAX
            },
            ..self
        }
    }

    /// Whether a checkout cannot be created now.
    pub open spec fn create_busy(self, key: Seq<Part>) -> bool {
        self.creates.dom().contains(key) || self.remove_paths.dom().contains(key)
    }

    /// After a creation was registered.
    pub open spec fn with_create(self, key: Seq<Part>) -> Ledger {
        Ledger { creates: self.creates.insert(key, self.next_id), ..self.issued() }
    }

    /// After one creation was registered under each of the keys, all with one number.
    pub open spec fn with_creates(self, keys: Seq<Seq<Part>>) -> Ledger {
        Ledger { creates: all_inserted(self.creates, keys, self.next_id), ..self.issued() }
    }

    /// Whether the creation under `key` is the one with the given number.
    pub open spec fn create_is(self, key: Seq<Part>, operation: u64) -> bool {
        self.creates.dom().contains(key) && self.creates[key] == operation
    }

    /// After the creation under `key` ended.
    pub open spec fn without_create(self, key: Seq<Part>) -> Ledger {
        Ledger { creates: self.creates.remove(key), ..self }
    }

    /// After the creations under all the keys ended.
    pub open spec fn without_creates(self, keys: Seq<Seq<Part>>) -> Ledger {
        Ledger { creates: all_removed(self.creates, keys), ..self }
    }

    /// Whether a checkout cannot be removed now.
    pub open spec fn remove_busy(self, workspace: Seq<char>, key: Seq<Part>) -> bool {
        self.removes.dom().contains(workspace) || self.create_busy(key)
    }

    /// After a removal was registered.
    pub open spec fn with_remove(self, workspace: Seq<char>, key: Seq<Part>) -> Ledger {
        Ledger {
            removes: self.removes.insert(workspace, self.next_id),
            remove_paths: self.remove_paths.insert(key, self.next_id),
            ..self.issued()
        }
    }

    /// Whether the removal under both keys is the one with the given number.
    pub open spec fn remove_is(
        self,
        workspace: Seq<char>,
        key: Seq<Part>,
        operation: u64,
    ) -> bool {
        &&& self.removes.dom().contains(workspace)
        &&& self.removes[workspace] == operation
        &&& self.remove_paths.dom().contains(key)
        &&& self.remove_paths[key] == operation
    }

    /// After the removal under both keys ended.
    pub open spec fn without_remove(self, workspace: Seq<char>, key: Seq<Part>) -> Ledger {
        Ledger {
            removes: self.removes.remove(workspace),
            remove_paths: self.remove_paths.remove(key),
            ..self
        }
    }

    /// Whether one request or result can turn these operations into those of `after`, except by
    /// a new branch over a checkout that is being removed.
    pub open spec fn moves_apart(self, after: Ledger) -> bool {
        ||| after == self
        ||| after == self.issued()
        ||| exists|key: Seq<Part>|
            !self.create_busy(key) && after == #[trigger] self.with_create(key)
        ||| exists|key: Seq<Part>, operation: u64| #[trigger]
            self.create_is(key, operation) && after == self.without_create(key)
        ||| exists|workspace: Seq<char>, key: Seq<Part>|
            !self.remove_busy(workspace, key) && after == #[trigger] self.with_remove(
                workspace,
                key,
            )
        ||| exists|workspace: Seq<char>, key: Seq<Part>, operation: u64| #[trigger]
            self.remove_is(workspace, key, operation) && after == self.without_remove(
                workspace,
                key,
            )
        ||| exists|keys: Seq<Seq<Part>>|
            self.none_removed(keys) && after == #[trigger] self.with_creates(keys)
        ||| exists|keys: Seq<Seq<Part>>| after == #[trigger] self.without_creates(keys)
    }

    /// Whether one request or result can turn these operations into those of `after`.
    pub open spec fn moves(self, after: Ledger) -> bool {
        ||| self.moves_apart(after)
        ||| exists|keys: Seq<Seq<Part>>| after == #[trigger] self.with_creates(keys)
    }

    /// Whether none of the checkouts is being removed.
    pub open spec fn none_removed(self, keys: Seq<Seq<Part>>) -> bool {
        forall|i: int|
            0 <= i < keys.len() ==> !self.remove_paths.dom().contains(#[trigger] keys[i])
    }

    /// Whether the two tables of removals have the same size and the same numbers in them.
    pub open spec fn balanced(self) -> bool {
        &&& self.removes.len() == self.remove_paths.len()
        &&& self.removes.values() == self.remove_paths.values()
    }
}

/// `table` with `operation` under each of the keys.
pub open spec fn all_inserted(
    table: Map<Seq<Part>, u64>,
    keys: Seq<Seq<Part>>,
    operation: u64,
) -> Map<Seq<Part>, u64>
    decreases keys.len(),
{
    if keys.len() == 0 {
        table
    } else {
        all_inserted(table, keys.drop_last(), operation).insert(keys.last(), operation)
    }
}

/// `table` without any of the keys.
pub open spec fn all_removed(
    table: Map<Seq<Part>, u64>,
    keys: Seq<Seq<Part>>,
) -> Map<Seq<Part>, u64>
    decreases keys.len(),
{
    if keys.len() == 0 {
        table
    } else {
        all_removed(table, keys.drop_last()).remove(keys.last())
    }
}

} // verus!
