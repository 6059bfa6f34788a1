//! What holds of the operations under way, whatever order requests and results come in.

use vstd::prelude::*;

use crate::app::App;
use crate::branch_out::BranchOutStep;
use crate::branch_out_finish::{next_checkout, BranchOutFinishStep, RepoOutcome};
use crate::create::CreateStep;
use crate::create_finish::AddStep;
use crate::ledger::{all_inserted, all_removed, Ledger};
use crate::model::WorktreeRemoveDialog;
use crate::path::Part;
use crate::remove::RemoveStep;
use crate::remove_finish::{remove_dialog_failed, RemoveFinishStep};

verus! {

/// No checkout is created and removed at once.
pub open spec fn exclusive(ledger: Ledger) -> bool {
    forall|key: Seq<Part>|
        !(#[trigger] ledger.creates.dom().contains(key) && ledger.remove_paths.dom().contains(key))
}

/// All operations under way have numbers that were given out.
pub open spec fn numbered(ledger: Ledger) -> bool {
    &&& forall|key: Seq<Part>| #[trigger]
        ledger.creates.dom().contains(key) ==> ledger.creates[key] < ledger.next_id
    &&& forall|workspace: Seq<char>| #[trigger]
        ledger.removes.dom().contains(workspace) ==> ledger.removes[workspace] < ledger.next_id
    &&& forall|key: Seq<Part>| #[trigger]
        ledger.remove_paths.dom().contains(key) ==> ledger.remove_paths[key] < ledger.next_id
}

/// Whether a workspace and a checkout are registered for the same removal.
pub open spec fn same_removal(
    ledger: Ledger,
    workspace: Seq<char>,
    key: Seq<Part>,
) -> bool {
    &&& ledger.removes.dom().contains(workspace)
    &&& ledger.remove_paths.dom().contains(key)
    &&& ledger.removes[workspace] == ledger.remove_paths[key]
}

/// Every removal under way has one workspace and one checkout.
pub open spec fn paired(ledger: Ledger) -> bool {
    &&& forall|workspace: Seq<char>| #[trigger]
        ledger.removes.dom().contains(workspace) ==> exists|key: Seq<Part>|
            same_removal(ledger, workspace, key)
    &&& forall|key: Seq<Part>| #[trigger]
        ledger.remove_paths.dom().contains(key) ==> exists|workspace: Seq<char>|
            same_removal(ledger, workspace, key)
    &&& forall|a: Seq<char>, b: Seq<char>| #[trigger]
        ledger.removes.dom().contains(a) && #[trigger] ledger.removes.dom().contains(b)
            && ledger.removes[a] == ledger.removes[b] ==> a == b
    &&& forall|a: Seq<Part>, b: Seq<Part>| #[trigger]
        ledger.remove_paths.dom().contains(a) && #[trigger] ledger.remove_paths.dom().contains(b)
            && ledger.remove_paths[a] == ledger.remove_paths[b] ==> a == b
}

/// All numbers of operations under way are accounted for.
pub open spec fn accounted(ledger: Ledger) -> bool {
    numbered(ledger) && paired(ledger)
}

/// The operations under way do not get in each other's way.
pub open spec fn sound(ledger: Ledger) -> bool {
    exclusive(ledger) && accounted(ledger)
}

/// Where nothing is under way, nothing is in the way.
pub proof fn law_sound_at_first(ledger: Ledger)
    requires
        ledger.creates == Map::<Seq<Part>, u64>::empty(),
        ledger.removes == Map::<Seq<char>, u64>::empty(),
        ledger.remove_paths == Map::<Seq<Part>, u64>::empty(),
    ensures
        sound(ledger),
{
}

/// Registering a creation that is not refused keeps the operations under way sound, as long as
/// there are numbers left.
pub proof fn law_create_keeps_sound(ledger: Ledger, key: Seq<Part>)
    requires
        sound(ledger),
        !ledger.create_busy(key),
        ledger.next_id < u64::MAX,
    ensures
        sound(ledger.with_create(key)),
{
    let after = ledger.with_create(key);
    lemma_same_removals(ledger, after);
}

/// The end of a creation keeps the operations under way sound.
pub proof fn law_create_end_keeps_sound(ledger: Ledger, key: Seq<Part>)
    requires
        sound(ledger),
    ensures
        sound(ledger.without_create(key)),
{
    let after = ledger.without_create(key);
    lemma_same_removals(ledger, after);
}

/// Registering a removal that is not refused keeps the operations under way sound, as long as
/// there are numbers left.
pub proof fn law_remove_keeps_sound(ledger: Ledger, workspace: Seq<char>, key: Seq<Part>)
    requires
        sound(ledger),
        !ledger.remove_busy(workspace, key),
        ledger.next_id < u64::MAX,
    ensures
        sound(ledger.with_remove(workspace, key)),
{
    lemma_new_removal(ledger, workspace, key);
}

/// A new removal has a number of its own.
proof fn lemma_new_removal(ledger: Ledger, workspace: Seq<char>, key: Seq<Part>)
    requires
        accounted(ledger),
        !ledger.remove_busy(workspace, key),
        ledger.next_id < u64::MAX,
    ensures
        accounted(ledger.with_remove(workspace, key)),
        exclusive(ledger) ==> exclusive(ledger.with_remove(workspace, key)),
{
    let after = ledger.with_remove(workspace, key);
    assert(same_removal(after, workspace, key));
    assert forall|w: Seq<char>| #[trigger] after.removes.dom().contains(w) implies exists|
        k: Seq<Part>,
    | same_removal(after, w, k) by {
        if w != workspace {
            assert(ledger.removes.dom().contains(w));
            let k = choose|k: Seq<Part>| same_removal(ledger, w, k);
            assert(same_removal(after, w, k));
        }
    }
    assert forall|k: Seq<Part>| #[trigger] after.remove_paths.dom().contains(k) implies exists|
        w: Seq<char>,
    | same_removal(after, w, k) by {
        if k != key {
            assert(ledger.remove_paths.dom().contains(k));
            let w = choose|w: Seq<char>| same_removal(ledger, w, k);
            assert(same_removal(after, w, k));
        }
    }
    assert forall|a: Seq<char>, b: Seq<char>| #[trigger]
        after.removes.dom().contains(a) && #[trigger] after.removes.dom().contains(b)
            && after.removes[a] == after.removes[b] implies a == b by {
        assert(a != workspace ==> ledger.removes.dom().contains(a));
        assert(b != workspace ==> ledger.removes.dom().contains(b));
    }
    assert forall|a: Seq<Part>, b: Seq<Part>| #[trigger]
        after.remove_paths.dom().contains(a) && #[trigger] after.remove_paths.dom().contains(b)
            && after.remove_paths[a] == after.remove_paths[b] implies a == b by {
        assert(a != key ==> ledger.remove_paths.dom().contains(a));
        assert(b != key ==> ledger.remove_paths.dom().contains(b));
    }
}

/// The end of a removal keeps the operations under way sound.
pub proof fn law_remove_end_keeps_sound(
    ledger: Ledger,
    workspace: Seq<char>,
    key: Seq<Part>,
    operation: u64,
)
    requires
        sound(ledger),
        ledger.remove_is(workspace, key, operation),
    ensures
        sound(ledger.without_remove(workspace, key)),
{
    lemma_ended_removal(ledger, workspace, key, operation);
}

/// The end of a removal takes its number out of both tables.
proof fn lemma_ended_removal(
    ledger: Ledger,
    workspace: Seq<char>,
    key: Seq<Part>,
    operation: u64,
)
    requires
        accounted(ledger),
        ledger.remove_is(workspace, key, operation),
    ensures
        accounted(ledger.without_remove(workspace, key)),
        exclusive(ledger) ==> exclusive(ledger.without_remove(workspace, key)),
{
    let after = ledger.without_remove(workspace, key);
    assert forall|w: Seq<char>| #[trigger] after.removes.dom().contains(w) implies exists|
        k: Seq<Part>,
    | same_removal(after, w, k) by {
        assert(ledger.removes.dom().contains(w));
        let k = choose|k: Seq<Part>| same_removal(ledger, w, k);
        assert(same_removal(after, w, k));
    }
    assert forall|k: Seq<Part>| #[trigger] after.remove_paths.dom().contains(k) implies exists|
        w: Seq<char>,
    | same_removal(after, w, k) by {
        assert(ledger.remove_paths.dom().contains(k));
        let w = choose|w: Seq<char>| same_removal(ledger, w, k);
        assert(same_removal(after, w, k));
    }
    assert forall|a: Seq<char>, b: Seq<char>| #[trigger]
        after.removes.dom().contains(a) && #[trigger] after.removes.dom().contains(b)
            && after.removes[a] == after.removes[b] implies a == b by {
        assert(ledger.removes.dom().contains(a) && ledger.removes.dom().contains(b));
    }
    assert forall|a: Seq<Part>, b: Seq<Part>| #[trigger]
        after.remove_paths.dom().contains(a) && #[trigger] after.remove_paths.dom().contains(b)
            && after.remove_paths[a] == after.remove_paths[b] implies a == b by {
        assert(ledger.remove_paths.dom().contains(a) && ledger.remove_paths.dom().contains(b));
    }
}

/// Creating a branch keeps the operations under way sound where none of its checkouts is being
/// removed, as long as there are numbers left.
pub proof fn law_branch_out_keeps_sound(ledger: Ledger, keys: Seq<Seq<Part>>)
    requires
        sound(ledger),
        ledger.none_removed(keys),
        ledger.next_id < u64::MAX,
    ensures
        sound(ledger.with_creates(keys)),
{
    let after = ledger.with_creates(keys);
    lemma_all_inserted(ledger.creates, keys, ledger.next_id);
    lemma_same_removals(ledger, after);
    assert forall|key: Seq<Part>|
        !(#[trigger] after.creates.dom().contains(key) && after.remove_paths.dom().contains(
            key,
        )) by {
        if after.creates.dom().contains(key) && keys.contains(key) {
            let i = choose|i: int| 0 <= i < keys.len() && keys[i] == key;
            assert(!ledger.remove_paths.dom().contains(keys[i]));
        }
    }
}

/// The end of a branch keeps the operations under way sound.
pub proof fn law_branch_out_end_keeps_sound(ledger: Ledger, keys: Seq<Seq<Part>>)
    requires
        sound(ledger),
    ensures
        sound(ledger.without_creates(keys)),
{
    let after = ledger.without_creates(keys);
    lemma_all_removed(ledger.creates, keys);
    lemma_same_removals(ledger, after);
}

/// A number that is given out and not used keeps the operations under way sound, as long as there
/// are numbers left.
pub proof fn law_number_keeps_sound(ledger: Ledger)
    requires
        ledger.next_id < u64::MAX,
    ensures
        sound(ledger) ==> sound(ledger.issued()),
        accounted(ledger) ==> accounted(ledger.issued()),
{
    if accounted(ledger) {
        lemma_same_removals(ledger, ledger.issued());
    }
}

/// Creating a branch keeps all numbers accounted for, whatever its checkouts are, as long as there
/// are numbers left.
pub proof fn law_branch_out_keeps_accounted(ledger: Ledger, keys: Seq<Seq<Part>>)
    requires
        accounted(ledger),
        ledger.next_id < u64::MAX,
    ensures
        accounted(ledger.with_creates(keys)),
{
    lemma_all_inserted(ledger.creates, keys, ledger.next_id);
    lemma_same_removals(ledger, ledger.with_creates(keys));
}

/// Whatever requests and results come in, and in whatever order, all numbers stay accounted for,
/// as long as there are numbers left.
pub proof fn law_always_accounted(ledgers: Seq<Ledger>, i: int)
    requires
        ledgers.len() > 0,
        ledgers[0].creates == Map::<Seq<Part>, u64>::empty(),
        ledgers[0].removes == Map::<Seq<char>, u64>::empty(),
        ledgers[0].remove_paths == Map::<Seq<Part>, u64>::empty(),
        forall|j: int|
            #![trigger ledgers[j]]
            0 <= j < ledgers.len() - 1 ==> ledgers[j].next_id < u64::MAX && ledgers[j].moves(
                ledgers[j + 1],
            ),
        0 <= i < ledgers.len(),
    ensures
        accounted(ledgers[i]),
    decreases i,
{
    if i == 0 {
        law_sound_at_first(ledgers[0]);
    } else {
        law_always_accounted(ledgers, i - 1);
        let before = ledgers[i - 1];
        let after = ledgers[i];
        assert(before.moves(after));
        if before.moves_apart(after) {
            lemma_move_keeps(before, after);
        } else {
            let keys = choose|keys: Seq<Seq<Part>>| after == #[trigger] before.with_creates(keys);
            law_branch_out_keeps_accounted(before, keys);
        }
    }
}

/// Whatever requests and results come in, and in whatever order, the operations under way stay
/// sound, as long as there are numbers left and no branch is created over a checkout that is being
/// removed.
pub proof fn law_always_sound(ledgers: Seq<Ledger>, i: int)
    requires
        ledgers.len() > 0,
        ledgers[0].creates == Map::<Seq<Part>, u64>::empty(),
        ledgers[0].removes == Map::<Seq<char>, u64>::empty(),
        ledgers[0].remove_paths == Map::<Seq<Part>, u64>::empty(),
        forall|j: int|
            #![trigger ledgers[j]]
            0 <= j < ledgers.len() - 1 ==> ledgers[j].next_id < u64::MAX && ledgers[j].moves_apart(
                ledgers[j + 1],
            ),
        0 <= i < ledgers.len(),
    ensures
        sound(ledgers[i]),
    decreases i,
{
    if i == 0 {
        law_sound_at_first(ledgers[0]);
    } else {
        law_always_sound(ledgers, i - 1);
        assert(ledgers[i - 1].moves_apart(ledgers[i]));
        lemma_move_keeps(ledgers[i - 1], ledgers[i]);
    }
}

/// One move that does not put a branch over a removal keeps all numbers accounted for, and creation
/// and removal apart.
proof fn lemma_move_keeps(before: Ledger, after: Ledger)
    requires
        accounted(before),
        before.next_id < u64::MAX,
        before.moves_apart(after),
    ensures
        accounted(after),
        exclusive(before) ==> exclusive(after),
{
    if after == before {
    } else if after == before.issued() {
        law_number_keeps_sound(before);
    } else if exists|key: Seq<Part>|
        !before.create_busy(key) && after == #[trigger] before.with_create(key) {
        lemma_same_removals(before, after);
    } else if exists|key: Seq<Part>, operation: u64| #[trigger]
        before.create_is(key, operation) && after == before.without_create(key) {
        lemma_same_removals(before, after);
    } else if exists|workspace: Seq<char>, key: Seq<Part>|
        !before.remove_busy(workspace, key) && after == #[trigger] before.with_remove(
            workspace,
            key,
        ) {
        let (workspace, key) = choose|workspace: Seq<char>, key: Seq<Part>|
            !before.remove_busy(workspace, key) && after == #[trigger] before.with_remove(
                workspace,
                key,
            );
        lemma_new_removal(before, workspace, key);
    } else if exists|workspace: Seq<char>, key: Seq<Part>, operation: u64| #[trigger]
        before.remove_is(workspace, key, operation) && after == before.without_remove(
            workspace,
            key,
        ) {
        let (workspace, key, operation) = choose|
            workspace: Seq<char>,
            key: Seq<Part>,
            operation: u64,
        | #[trigger]
            before.remove_is(workspace, key, operation) && after == before.without_remove(
                workspace,
                key,
            );
        lemma_ended_removal(before, workspace, key, operation);
    } else if exists|keys: Seq<Seq<Part>>|
        before.none_removed(keys) && after == #[trigger] before.with_creates(keys) {
        let keys = choose|keys: Seq<Seq<Part>>|
            before.none_removed(keys) && after == #[trigger] before.with_creates(keys);
        law_branch_out_keeps_accounted(before, keys);
        if exclusive(before) {
            law_branch_out_keeps_sound(before, keys);
        }
    } else {
        let keys = choose|keys: Seq<Seq<Part>>|
            after == #[trigger] before.without_creates(keys);
        lemma_all_removed(before.creates, keys);
        lemma_same_removals(before, after);
    }
}

/// Where removals are paired, as many workspaces as checkouts are being removed, under the same
/// numbers.
pub proof fn law_paired_is_balanced(ledger: Ledger)
    requires
        paired(ledger),
        ledger.removes.dom().finite(),
        ledger.remove_paths.dom().finite(),
    ensures
        ledger.balanced(),
{
    let numbers = ledger.removes.values();
    assert forall|n: u64| #[trigger] numbers.contains(n) implies ledger.remove_paths.values().contains(
        n,
    ) by {
        let workspace = choose|w: Seq<char>|
            #[trigger] ledger.removes.dom().contains(w) && ledger.removes[w] == n;
        let key = choose|key: Seq<Part>| same_removal(ledger, workspace, key);
        assert(ledger.remove_paths.dom().contains(key) && ledger.remove_paths[key] == n);
    }
    assert forall|n: u64| #[trigger] ledger.remove_paths.values().contains(n) implies numbers.contains(
        n,
    ) by {
        let key = choose|k: Seq<Part>|
            #[trigger] ledger.remove_paths.dom().contains(k) && ledger.remove_paths[k] == n;
        let workspace = choose|w: Seq<char>| same_removal(ledger, w, key);
        assert(ledger.removes.dom().contains(workspace) && ledger.removes[workspace] == n);
    }
    assert(numbers =~= ledger.remove_paths.values());
    lemma_as_many_numbers(ledger.removes);
    lemma_as_many_numbers(ledger.remove_paths);
}

/// In the tables of an application, paired removals are balanced.
pub proof fn law_removals_balanced(app: App)
    requires
        paired(app.ledger()),
    ensures
        app.ledger().balanced(),
{
    app.pending_api_worktree_removes.law_finite();
    app.pending_api_worktree_remove_paths.law_finite();
    law_paired_is_balanced(app.ledger());
}

/// A table in which no number occurs twice has as many entries as numbers.
proof fn lemma_as_many_numbers<K>(table: Map<K, u64>)
    requires
        table.dom().finite(),
        forall|a: K, b: K| #[trigger]
            table.dom().contains(a) && #[trigger] table.dom().contains(b) && table[a] == table[b]
                ==> a == b,
    ensures
        table.values().finite(),
        table.values().len() == table.len(),
    decreases table.len(),
{
    if table.len() == 0 {
        assert(table.dom() =~= Set::empty());
        assert(table.values() =~= Set::empty());
    } else {
        let key = table.dom().choose();
        let less = table.remove(key);
        assert forall|a: K, b: K| #[trigger]
            less.dom().contains(a) && #[trigger] less.dom().contains(b) && less[a] == less[b]
                implies a == b by {
            assert(table.dom().contains(a) && table.dom().contains(b));
        }
        lemma_as_many_numbers(less);
        assert(!less.values().contains(table[key])) by {
            if less.values().contains(table[key]) {
                let other = choose|k: K| #[trigger] less.dom().contains(k) && less[k] == table[key];
                assert(table.dom().contains(other));
            }
        }
        assert forall|n: u64| #[trigger] table.values().contains(n) implies less.values().insert(
            table[key],
        ).contains(n) by {
            let k = choose|k: K| #[trigger] table.dom().contains(k) && table[k] == n;
            if k != key {
                assert(less.dom().contains(k) && less[k] == n);
            }
        }
        assert forall|n: u64| #[trigger] less.values().insert(table[key]).contains(n) implies
            table.values().contains(n) by {
            if n == table[key] {
                assert(table.dom().contains(key));
            } else {
                let k = choose|k: K| #[trigger] less.dom().contains(k) && less[k] == n;
                assert(table.dom().contains(k) && table[k] == n);
            }
        }
        assert(table.values() =~= less.values().insert(table[key]));
    }
}

/// A removal that is not refused is registered in both tables under one number, and takes the
/// place of nothing: where the tables had the same size and the same numbers, they still do, and
/// what was registered stays.
pub proof fn law_removal_in_both(ledger: Ledger, workspace: Seq<char>, key: Seq<Part>)
    requires
        ledger.removes.dom().finite(),
        ledger.remove_paths.dom().finite(),
        !ledger.remove_busy(workspace, key),
    ensures
        ({
            let after = ledger.with_remove(workspace, key);
            &&& ledger.balanced() ==> after.balanced()
            &&& ledger.removes.submap_of(after.removes)
            &&& ledger.remove_paths.submap_of(after.remove_paths)
            &&& after.removes[workspace] == ledger.next_id
            &&& after.remove_paths[key] == ledger.next_id
            &&& after.removes.len() == ledger.removes.len() + 1
            &&& after.remove_paths.len() == ledger.remove_paths.len() + 1
        }),
{
    lemma_one_more(ledger.removes, workspace, ledger.next_id);
    lemma_one_more(ledger.remove_paths, key, ledger.next_id);
}

/// A new entry in a table.
proof fn lemma_one_more<K>(table: Map<K, u64>, key: K, number: u64)
    requires
        table.dom().finite(),
        !table.dom().contains(key),
    ensures
        table.insert(key, number).len() == table.len() + 1,
        table.insert(key, number).values() == table.values().insert(number),
        table.submap_of(table.insert(key, number)),
{
    let after = table.insert(key, number);
    assert forall|n: u64| #[trigger] after.values().contains(n) implies table.values().insert(
        number,
    ).contains(n) by {
        let k = choose|k: K| #[trigger] after.dom().contains(k) && after[k] == n;
        if k != key {
            assert(table.dom().contains(k) && table[k] == n);
        }
    }
    assert forall|n: u64| #[trigger] table.values().insert(number).contains(n) implies
        after.values().contains(n) by {
        if n == number {
            assert(after.dom().contains(key) && after[key] == n);
        } else {
            let k = choose|k: K| #[trigger] table.dom().contains(k) && table[k] == n;
            assert(after.dom().contains(k) && after[k] == n);
        }
    }
    assert(after.values() =~= table.values().insert(number));
}

/// While an operation on a checkout is under way, others on it are refused.
pub proof fn law_under_way_is_busy(
    ledger: Ledger,
    key: Seq<Part>,
    workspace: Seq<char>,
    other: Seq<char>,
    keys: Seq<Seq<Part>>,
)
    ensures
        ledger.with_create(key).create_busy(key),
        ledger.with_create(key).remove_busy(other, key),
        keys.contains(key) ==> ledger.with_creates(keys).create_busy(key),
        keys.contains(key) ==> ledger.with_creates(keys).remove_busy(other, key),
        ledger.with_remove(workspace, key).create_busy(key),
        ledger.with_remove(workspace, key).remove_busy(other, key),
        forall|any: Seq<Part>| ledger.with_remove(workspace, key).remove_busy(workspace, any),
{
    lemma_all_inserted(ledger.creates, keys, ledger.next_id);
}

/// The end of an operation that was not refused undoes its registration: the tables are what they
/// were, and a number was given out.
pub proof fn law_end_undoes_start(ledger: Ledger, workspace: Seq<char>, key: Seq<Part>)
    ensures
        !ledger.create_busy(key) ==> {
            &&& ledger.with_create(key).create_is(key, ledger.next_id)
            &&& ledger.with_create(key).without_create(key) == ledger.issued()
        },
        !ledger.remove_busy(workspace, key) ==> {
            &&& ledger.with_remove(workspace, key).remove_is(workspace, key, ledger.next_id)
            &&& ledger.with_remove(workspace, key).without_remove(workspace, key)
                == ledger.issued()
        },
{
    if !ledger.create_busy(key) {
        assert(ledger.with_create(key).without_create(key) =~= ledger.issued());
    }
    if !ledger.remove_busy(workspace, key) {
        assert(ledger.with_remove(workspace, key).without_remove(workspace, key)
            =~= ledger.issued());
    }
}

/// The end of a branch whose checkouts were all created, and were not being created before,
/// undoes its registration.
pub proof fn law_branch_out_end_undoes_start(ledger: Ledger, keys: Seq<Seq<Part>>)
    requires
        forall|i: int| 0 <= i < keys.len() ==> !ledger.creates.dom().contains(#[trigger] keys[i]),
    ensures
        ledger.with_creates(keys).without_creates(keys) == ledger.issued(),
{
    let inserted = all_inserted(ledger.creates, keys, ledger.next_id);
    lemma_all_inserted(ledger.creates, keys, ledger.next_id);
    lemma_all_removed(inserted, keys);
    assert forall|key: Seq<Part>| keys.contains(key) implies !ledger.creates.dom().contains(
        key,
    ) by {
        let i = choose|i: int| 0 <= i < keys.len() && keys[i] == key;
        assert(!ledger.creates.dom().contains(keys[i]));
    }
    assert(all_removed(inserted, keys) =~= ledger.creates);
}

/// The end of a branch frees the checkouts that were created, whatever they were registered for.
/// All other creations stay as they are.
pub proof fn law_branch_out_end_frees(
    ledger: Ledger,
    keys: Seq<Seq<Part>>,
    key: Seq<Part>,
    operation: u64,
)
    ensures
        keys.contains(key) ==> !ledger.without_creates(keys).creates.dom().contains(key),
        !keys.contains(key) ==> (ledger.without_creates(keys).create_is(key, operation)
            <==> ledger.create_is(key, operation)),
{
    lemma_all_removed(ledger.creates, keys);
}

/// A creation under way stays registered while requests for other checkouts are registered and
/// other results come in, so its own result is not stale.
pub proof fn law_creation_stays(
    ledger: Ledger,
    key: Seq<Part>,
    operation: u64,
    other: Seq<Part>,
    other_operation: u64,
    workspace: Seq<char>,
    keys: Seq<Seq<Part>>,
)
    requires
        ledger.create_is(key, operation),
        !keys.contains(key),
    ensures
        !ledger.create_busy(other) ==> ledger.with_create(other).create_is(key, operation),
        ledger.with_creates(keys).create_is(key, operation),
        ledger.without_creates(keys).create_is(key, operation),
        ledger.with_remove(workspace, other).create_is(key, operation),
        ledger.without_remove(workspace, other).create_is(key, operation),
        other_operation != operation && ledger.create_is(other, other_operation)
            ==> ledger.without_create(other).create_is(key, operation),
{
    lemma_all_inserted(ledger.creates, keys, ledger.next_id);
    lemma_all_removed(ledger.creates, keys);
}

/// A removal under way stays registered while other requests are registered and other results
/// come in, so its own result is not stale.
pub proof fn law_removal_stays(
    ledger: Ledger,
    workspace: Seq<char>,
    key: Seq<Part>,
    operation: u64,
    other_workspace: Seq<char>,
    other: Seq<Part>,
    other_operation: u64,
    keys: Seq<Seq<Part>>,
)
    requires
        ledger.remove_is(workspace, key, operation),
    ensures
        ledger.with_create(other).remove_is(workspace, key, operation),
        ledger.without_create(other).remove_is(workspace, key, operation),
        ledger.with_creates(keys).remove_is(workspace, key, operation),
        ledger.without_creates(keys).remove_is(workspace, key, operation),
        !ledger.remove_busy(other_workspace, other) ==> ledger.with_remove(
            other_workspace,
            other,
        ).remove_is(workspace, key, operation),
        other_operation != operation && ledger.remove_is(other_workspace, other, other_operation)
            ==> ledger.without_remove(other_workspace, other).remove_is(workspace, key, operation),
{
}

/// A branch takes the place of the creations of its checkouts: their results are stale from then
/// on.
pub proof fn law_branch_out_supersedes(
    ledger: Ledger,
    keys: Seq<Seq<Part>>,
    key: Seq<Part>,
    operation: u64,
)
    requires
        numbered(ledger),
        ledger.create_is(key, operation),
        keys.contains(key),
    ensures
        !ledger.with_creates(keys).create_is(key, operation),
        ledger.with_creates(keys).create_is(key, ledger.next_id),
{
    lemma_all_inserted(ledger.creates, keys, ledger.next_id);
}

/// Numbers go up until the largest one, which is given out ever after. The next number is not
/// that of an operation under way.
pub proof fn law_numbers(ledger: Ledger, key: Seq<Part>, workspace: Seq<char>)
    ensures
        numbered(ledger) ==> {
            &&& !ledger.create_is(key, ledger.next_id)
            &&& !ledger.remove_is(workspace, key, ledger.next_id)
        },
        ledger.issued().next_id >= ledger.next_id,
        ledger.issued().next_id > ledger.next_id <==> ledger.next_id < u64::MAX,
{
}

/// The steps of a request to create a worktree all serve one caller, and come to an end. The caller
/// is answered or hands over to its job in the last step and in no other. No other step is an end.
pub proof fn law_create_run<R>(steps: Seq<CreateStep<R>>, i: int)
    requires
        steps.len() > 0,
        forall|j: int|
            #![trigger steps[j]]
            0 <= j < steps.len() - 1 ==> steps[j].followed_by(steps[j + 1]),
        0 <= i < steps.len(),
    ensures
        steps[i].caller() == steps[0].caller(),
        steps[i].left() + i <= steps[0].left(),
        i < steps.len() - 1 ==> !(steps[i] is Answer) && !(steps[i] is Spawn),
        steps[i].left() == 0 <==> steps[i] is Answer || steps[i] is Spawn,
    decreases i,
{
    if i > 0 {
        law_create_run(steps, i - 1);
        assert(steps[i - 1].followed_by(steps[i]));
    }
    if i < steps.len() - 1 {
        assert(steps[i].followed_by(steps[i + 1]));
    }
}

/// The steps of a request to remove a worktree all serve one caller, and come to an end. The caller
/// is answered or hands over to its job in the last step and in no other. No other step is an end.
pub proof fn law_remove_run<R>(steps: Seq<RemoveStep<R>>, i: int)
    requires
        steps.len() > 0,
        forall|j: int|
            #![trigger steps[j]]
            0 <= j < steps.len() - 1 ==> steps[j].followed_by(steps[j + 1]),
        0 <= i < steps.len(),
    ensures
        steps[i].caller() == steps[0].caller(),
        steps[i].left() + i <= steps[0].left(),
        i < steps.len() - 1 ==> !(steps[i] is Answer) && !(steps[i] is Spawn),
        steps[i].left() == 0 <==> steps[i] is Answer || steps[i] is Spawn,
    decreases i,
{
    if i > 0 {
        law_remove_run(steps, i - 1);
        assert(steps[i - 1].followed_by(steps[i]));
    }
    if i < steps.len() - 1 {
        assert(steps[i].followed_by(steps[i + 1]));
    }
}

/// The steps of a request to create a branch all serve one caller, and come to an end. The caller
/// is answered or hands over to its job in the last step and in no other. No other step is an end.
pub proof fn law_branch_out_run<R>(steps: Seq<BranchOutStep<R>>, i: int)
    requires
        steps.len() > 0,
        forall|j: int|
            #![trigger steps[j]]
            0 <= j < steps.len() - 1 ==> steps[j].followed_by(steps[j + 1]),
        0 <= i < steps.len(),
    ensures
        steps[i].caller() == steps[0].caller(),
        steps[i].left() + i <= steps[0].left(),
        i < steps.len() - 1 ==> !(steps[i] is Answer) && !(steps[i] is Spawn),
        steps[i].left() == 0 <==> steps[i] is Answer || steps[i] is Spawn,
    decreases i,
{
    if i > 0 {
        law_branch_out_run(steps, i - 1);
        assert(steps[i - 1].followed_by(steps[i]));
    }
    if i < steps.len() - 1 {
        assert(steps[i].followed_by(steps[i + 1]));
    }
}

/// The steps of a worktree that was added all serve one caller, and come to an end. The caller
/// is answered in the last step and in no other. Only a step that answers, or that has nobody to
/// answer, is an end.
pub proof fn law_add_finish_run<R>(steps: Seq<AddStep<R>>, i: int)
    requires
        steps.len() > 0,
        forall|j: int|
            #![trigger steps[j]]
            0 <= j < steps.len() - 1 ==> steps[j].followed_by(steps[j + 1]),
        0 <= i < steps.len(),
    ensures
        steps[i].caller() == steps[0].caller(),
        steps[i].left() + i <= steps[0].left(),
        i < steps.len() - 1 ==> !(steps[i] is Answer),
        steps[i].left() == 0 <==> steps[i] is Answer || steps[i] is Ignored,
    decreases i,
{
    if i > 0 {
        law_add_finish_run(steps, i - 1);
        assert(steps[i - 1].followed_by(steps[i]));
    }
    if i < steps.len() - 1 {
        assert(steps[i].followed_by(steps[i + 1]));
    }
}

/// The steps of a worktree that was removed all serve one caller, and come to an end. The caller
/// is answered in the last step and in no other. Only a step that answers, or that has nobody to
/// answer, is an end.
pub proof fn law_remove_finish_run<R>(steps: Seq<RemoveFinishStep<R>>, i: int)
    requires
        steps.len() > 0,
        forall|j: int|
            #![trigger steps[j]]
            0 <= j < steps.len() - 1 ==> steps[j].followed_by(steps[j + 1]),
        0 <= i < steps.len(),
    ensures
        steps[i].caller() == steps[0].caller(),
        steps[i].left() + i <= steps[0].left(),
        i < steps.len() - 1 ==> !(steps[i] is Answer),
        steps[i].left() == 0 <==> steps[i] is Answer || steps[i] is Ignored,
    decreases i,
{
    if i > 0 {
        law_remove_finish_run(steps, i - 1);
        assert(steps[i - 1].followed_by(steps[i]));
    }
    if i < steps.len() - 1 {
        assert(steps[i].followed_by(steps[i + 1]));
    }
}

/// The steps of a branch that was created all serve one caller, and come to an end. The caller
/// is answered in the last step and in no other. Only a step that answers is an end.
pub proof fn law_branch_out_finish_run<R>(steps: Seq<BranchOutFinishStep<R>>, i: int)
    requires
        steps.len() > 0,
        forall|j: int|
            #![trigger steps[j]]
            0 <= j < steps.len() - 1 ==> steps[j].followed_by(steps[j + 1]),
        0 <= i < steps.len(),
    ensures
        steps[i].caller() == steps[0].caller(),
        steps[i].left() + i <= steps[0].left(),
        i < steps.len() - 1 ==> !(steps[i] is Answer),
        steps[i].left() == 0 <==> steps[i] is Answer,
    decreases i,
{
    if i > 0 {
        law_branch_out_finish_run(steps, i - 1);
        assert(steps[i - 1].followed_by(steps[i]));
    }
    if i < steps.len() - 1 {
        assert(steps[i].followed_by(steps[i + 1]));
    }
}

/// The results that get a tab, in order, when the tabs are made from the result `from` on.
pub open spec fn tab_order(results: Seq<RepoOutcome>, from: int) -> Seq<int>
    decreases results.len() - from,
    via tab_order_ends
{
    let i = next_checkout(results, from);
    if 0 <= from && i < results.len() {
        seq![i] + tab_order(results, i + 1)
    } else {
        Seq::empty()
    }
}

#[via_fn]
proof fn tab_order_ends(results: Seq<RepoOutcome>, from: int) {
    lemma_next_checkout(results, from);
}

/// The next checkout is a checkout, and there is none before it.
proof fn lemma_next_checkout(results: Seq<RepoOutcome>, from: int)
    ensures
        from < results.len() ==> from <= next_checkout(results, from) <= results.len(),
        from >= results.len() ==> next_checkout(results, from) == results.len(),
        0 <= from && next_checkout(results, from) < results.len() ==> results[next_checkout(
            results,
            from,
        )].outcome is Ok,
        forall|j: int|
            from <= j < next_checkout(results, from) && 0 <= j < results.len() ==> !(
            #[trigger] results[j].outcome is Ok),
    decreases results.len() - from,
{
    if from < results.len() && !(results[from].outcome is Ok) {
        lemma_next_checkout(results, from + 1);
    }
}

/// Every checkout of a branch gets a tab, once and in order, and nothing else does.
pub proof fn law_tabs(results: Seq<RepoOutcome>, from: int)
    requires
        0 <= from,
    ensures
        forall|j: int|
            #![trigger tab_order(results, from).contains(j)]
            tab_order(results, from).contains(j) <==> from <= j < results.len()
                && results[j].outcome is Ok,
        forall|a: int, b: int|
            #![trigger tab_order(results, from)[a], tab_order(results, from)[b]]
            0 <= a < b < tab_order(results, from).len() ==> tab_order(results, from)[a]
                < tab_order(results, from)[b],
    decreases results.len() - from,
{
    let order = tab_order(results, from);
    let i = next_checkout(results, from);
    lemma_next_checkout(results, from);
    if i < results.len() {
        let rest = tab_order(results, i + 1);
        law_tabs(results, i + 1);
        assert(order == seq![i] + rest);
        assert forall|j: int| #[trigger] order.contains(j) <==> from <= j < results.len()
            && results[j].outcome is Ok by {
            if order.contains(j) {
                let k = choose|k: int| 0 <= k < order.len() && order[k] == j;
                if k > 0 {
                    assert(rest[k - 1] == j);
                    assert(rest.contains(j));
                }
            }
            if from <= j < results.len() && results[j].outcome is Ok {
                if j > i {
                    assert(rest.contains(j));
                    let k = choose|k: int| 0 <= k < rest.len() && rest[k] == j;
                    assert(order[k + 1] == j);
                } else {
                    assert(order[0] == j);
                }
            }
        }
        assert forall|a: int, b: int|
            #![trigger order[a], order[b]]
            0 <= a < b < order.len() implies order[a] < order[b] by {
            assert(order[b] == rest[b - 1]);
            assert(rest.contains(rest[b - 1]));
            if a > 0 {
                assert(order[a] == rest[a - 1]);
            }
        }
    }
}

/// A dialog that removes a worktree with changes first asks whether to go on. If changes are in
/// the way again, it shows why.
pub proof fn law_second_refusal_is_shown(
    remove: WorktreeRemoveDialog,
    first: String,
    second: String,
)
    requires
        !remove.force_confirmation,
    ensures
        ({
            let asks = remove_dialog_failed(remove, true, first);
            let shows = remove_dialog_failed(asks, true, second);
            &&& asks.force_confirmation
            &&& asks.error is None
            &&& shows.force_confirmation
            &&& shows.error == Some(second)
            &&& !asks.removing
            &&& !shows.removing
        }),
{
}

/// In a table after `operation` was put under each of the keys, they have `operation`, and all else
/// is as it was.
pub proof fn law_inserted(
    table: Map<Seq<Part>, u64>,
    keys: Seq<Seq<Part>>,
    operation: u64,
)
    ensures
        forall|key: Seq<Part>|
            #![trigger all_inserted(table, keys, operation).dom().contains(key)]
            {
                let after = all_inserted(table, keys, operation);
                &&& after.dom().contains(key) <==> table.dom().contains(key) || keys.contains(key)
                &&& keys.contains(key) ==> after[key] == operation
                &&& table.dom().contains(key) && !keys.contains(key) ==> after[key] == table[key]
            },
{
    lemma_all_inserted(table, keys, operation);
}

/// A table without any of the keys has none of them, and all else is as it was.
pub proof fn law_removed(table: Map<Seq<Part>, u64>, keys: Seq<Seq<Part>>)
    ensures
        forall|key: Seq<Part>|
            #![trigger all_removed(table, keys).dom().contains(key)]
            {
                let after = all_removed(table, keys);
                &&& after.dom().contains(key) <==> table.dom().contains(key) && !keys.contains(key)
                &&& after.dom().contains(key) ==> after[key] == table[key]
            },
{
    lemma_all_removed(table, keys);
}

/// What is in a table after `operation` was put under each of the keys.
proof fn lemma_all_inserted(
    table: Map<Seq<Part>, u64>,
    keys: Seq<Seq<Part>>,
    operation: u64,
)
    ensures
        forall|key: Seq<Part>|
            #![trigger all_inserted(table, keys, operation).dom().contains(key)]
            {
                let after = all_inserted(table, keys, operation);
                &&& after.dom().contains(key) <==> table.dom().contains(key) || keys.contains(key)
                &&& keys.contains(key) ==> after[key] == operation
                &&& table.dom().contains(key) && !keys.contains(key) ==> after[key] == table[key]
            },
    decreases keys.len(),
{
    if keys.len() > 0 {
        let rest = keys.drop_last();
        lemma_all_inserted(table, rest, operation);
        let before = all_inserted(table, rest, operation);
        let after = all_inserted(table, keys, operation);
        assert forall|key: Seq<Part>| #[trigger] after.dom().contains(key) <==> table.dom().contains(
            key,
        ) || keys.contains(key) by {
            assert(before.dom().contains(key) <==> table.dom().contains(key) || rest.contains(key));
            lemma_contains_last(keys, key);
        }
        assert forall|key: Seq<Part>|
            #![trigger after.dom().contains(key)]
            {
                &&& keys.contains(key) ==> after[key] == operation
                &&& table.dom().contains(key) && !keys.contains(key) ==> after[key] == table[key]
            } by {
            assert(before.dom().contains(key) <==> table.dom().contains(key) || rest.contains(key));
            lemma_contains_last(keys, key);
        }
    }
}

/// What is in a table without any of the keys.
proof fn lemma_all_removed(table: Map<Seq<Part>, u64>, keys: Seq<Seq<Part>>)
    ensures
        forall|key: Seq<Part>|
            #![trigger all_removed(table, keys).dom().contains(key)]
            {
                let after = all_removed(table, keys);
                &&& after.dom().contains(key) <==> table.dom().contains(key) && !keys.contains(key)
                &&& after.dom().contains(key) ==> after[key] == table[key]
            },
    decreases keys.len(),
{
    if keys.len() > 0 {
        let rest = keys.drop_last();
        lemma_all_removed(table, rest);
        let before = all_removed(table, rest);
        let after = all_removed(table, keys);
        assert forall|key: Seq<Part>|
            #![trigger after.dom().contains(key)]
            {
                &&& after.dom().contains(key) <==> table.dom().contains(key) && !keys.contains(key)
                &&& after.dom().contains(key) ==> after[key] == table[key]
            } by {
            assert(before.dom().contains(key) <==> table.dom().contains(key) && !rest.contains(key));
            lemma_contains_last(keys, key);
        }
    }
}

/// The last element is in a sequence, and so are those before it.
proof fn lemma_contains_last(keys: Seq<Seq<Part>>, key: Seq<Part>)
    requires
        keys.len() > 0,
    ensures
        keys.contains(key) <==> keys.drop_last().contains(key) || keys.last() == key,
{
    let rest = keys.drop_last();
    if keys.contains(key) {
        let i = choose|i: int| 0 <= i < keys.len() && keys[i] == key;
        if i < rest.len() {
            assert(rest[i] == key);
        }
    }
    if rest.contains(key) {
        let i = choose|i: int| 0 <= i < rest.len() && rest[i] == key;
        assert(keys[i] == key);
    }
    assert(keys[keys.len() - 1] == keys.last());
}

/// Where the removals are the same, they are paired in the same way.
proof fn lemma_same_removals(before: Ledger, after: Ledger)
    requires
        paired(before),
        after.removes == before.removes,
        after.remove_paths == before.remove_paths,
    ensures
        paired(after),
{
    assert forall|workspace: Seq<char>| #[trigger]
        after.removes.dom().contains(workspace) implies exists|key: Seq<Part>|
        same_removal(after, workspace, key) by {
        let key = choose|key: Seq<Part>| same_removal(before, workspace, key);
        assert(same_removal(after, workspace, key));
    }
    assert forall|key: Seq<Part>| #[trigger]
        after.remove_paths.dom().contains(key) implies exists|workspace: Seq<char>|
        same_removal(after, workspace, key) by {
        let workspace = choose|workspace: Seq<char>| same_removal(before, workspace, key);
        assert(same_removal(after, workspace, key));
    }
}

} // verus!
