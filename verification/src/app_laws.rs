//! What holds of requests, answers, numbers and tables.

use vstd::prelude::*;

use crate::app::{App, DeferredStep};
use crate::branch_out_start_laws::{lemma_starts, starts_branch};
use crate::create_laws::starts_creating;
use crate::law_terms::{
    first_with_id, none_with_id, number_taken, refuses, same_but_tables,
};
use crate::model::{
    find_workspace, law_workspace_index, Workspace, WorktreeInfo, WorktreeSpaceMembership,
};
use crate::path::{components, WorktreePath};
use crate::pending::{PendingKey, PendingTable};
use crate::protocol::{pass_on, refuse, refuse_with, ApiError, Method, Reply, Request, Response};
use crate::remove::RemoveStep;
use crate::source_laws::same_membership;
use crate::text::{join_texts, joined_texts, law_trimmed_inside, revision_or_head, texts};

verus! {

/// Requests to create a worktree, to create a branch and to remove a worktree are taken, each by the
/// operation that it is for, with all that the client said. No other request is taken.
pub proof fn law_dispatch<R>(
    app: App,
    request: Request,
    respond_to: R,
    res: Option<DeferredStep<R>>,
)
    requires
        call_ensures(
            App::handle_deferred_worktree_api_request::<R>,
            (&app, request, respond_to),
            res,
        ),
    ensures
        match request.method {
            Method::Other => res is None,
            Method::WorktreeCreate(params) => {
                &&& res matches Some(DeferredStep::Create(step))
                &&& starts_creating(request.id, params, respond_to, step)
            },
            Method::WorktreeBranchOut(params) => {
                &&& res matches Some(DeferredStep::BranchOut(step))
                &&& starts_branch(app, request.id, params, respond_to, step)
            },
            Method::WorktreeRemove(params) => {
                &&& res matches Some(DeferredStep::Remove(RemoveStep::ParseWorkspaceId(asks)))
                &&& asks.id == request.id
                &&& asks.params == params
                &&& asks.respond_to == respond_to
            },
        },
{
    match request.method {
        Method::WorktreeCreate(params) => {
            if let Some(branch) = params.branch {
                law_trimmed_inside(branch@);
            }
        },
        Method::WorktreeBranchOut(params) => {
            if let Some(DeferredStep::BranchOut(step)) = res {
                lemma_starts(app, request.id, params, respond_to, step);
            }
        },
        _ => {},
    }
}

/// Each number is given out once, in order, until the largest one. Nothing else changes.
pub proof fn law_number_given_out(app: &mut App, res: u64)
    requires
        call_ensures(App::next_api_worktree_operation_id, (app,), res),
    ensures
        res == old(app).next_api_worktree_operation_id,
        number_taken(*old(app), *final(app)),
        final(app).pending_api_worktree_creates@ == old(app).pending_api_worktree_creates@,
        final(app).pending_api_worktree_removes@ == old(app).pending_api_worktree_removes@,
        final(app).pending_api_worktree_remove_paths@
            == old(app).pending_api_worktree_remove_paths@,
        same_but_tables(*old(app), *final(app)),
{
}

/// An answer goes unchanged to the client that it is for.
pub proof fn law_answers<R>(
    app: App,
    respond_to: R,
    response: Response,
    sent: Reply<R>,
    id: String,
    workspace_idx: usize,
    worktree: WorktreeInfo,
    created: Reply<R>,
)
    requires
        call_ensures(App::send_api_response::<R>, (respond_to, response), sent),
        workspace_idx < app.workspaces@.len(),
        call_ensures(
            App::created_reply::<R>,
            (&app, respond_to, id, workspace_idx, worktree),
            created,
        ),
    ensures
        sent.respond_to == respond_to,
        sent.response == response,
        created.respond_to == respond_to,
        created.response == (Response::WorktreeCreated {
            id,
            workspace_idx,
            tab_idx: app.workspaces@[workspace_idx as int].active_tab,
            worktree,
        }),
{
}

/// An error goes unchanged to the client that it is for, whoever found it.
pub proof fn law_errors<R>(
    respond_to: R,
    id: String,
    code: &str,
    message: &str,
    text: String,
    error: ApiError,
    own: Reply<R>,
    composed: Reply<R>,
    passed: Reply<R>,
)
    requires
        call_ensures(refuse::<R>, (respond_to, id, code, message), own),
        call_ensures(refuse_with::<R>, (respond_to, id, code, text), composed),
        call_ensures(pass_on::<R>, (respond_to, id, error), passed),
    ensures
        refuses(own, respond_to, id, code@, message@),
        refuses(composed, respond_to, id, code@, text@),
        refuses(passed, respond_to, id, error.code@, error.message@),
{
}

/// What was registered under a key is what is found there, until it is taken out. What is registered
/// under other keys stays.
pub proof fn law_table<K: PendingKey>(
    inserted: &mut PendingTable<K>,
    removed: &mut PendingTable<K>,
    key: K,
    operation: u64,
    other: K,
    before: Option<u64>,
    after_insert: Option<u64>,
    after_remove: Option<u64>,
)
    requires
        call_ensures(PendingTable::<K>::insert, (inserted, key, operation), ()),
        call_ensures(PendingTable::<K>::remove, (removed, &key), ()),
        *old(inserted) == *old(removed),
        call_ensures(PendingTable::<K>::get, (&*old(inserted), &other), before),
        call_ensures(PendingTable::<K>::get, (&*final(inserted), &other), after_insert),
        call_ensures(PendingTable::<K>::get, (&*final(removed), &other), after_remove),
    ensures
        other.key() == key.key() ==> after_insert == Some(operation) && after_remove is None,
        other.key() != key.key() ==> after_insert == before && after_remove == before,
{
}

/// Something is found in a table exactly where it is registered, and nothing is in a new table.
pub proof fn law_table_lookup<K: PendingKey>(
    table: PendingTable<K>,
    fresh: PendingTable<K>,
    key: K,
    found: Option<u64>,
    has: bool,
    in_fresh: bool,
)
    requires
        call_ensures(PendingTable::<K>::new, (), fresh),
        call_ensures(PendingTable::<K>::get, (&table, &key), found),
        call_ensures(PendingTable::<K>::contains_key, (&table, &key), has),
        call_ensures(PendingTable::<K>::contains_key, (&fresh, &key), in_fresh),
    ensures
        has == found is Some,
        !in_fresh,
{
}

/// Operations are registered under the components of paths and under the characters of ids.
pub proof fn law_table_keys(a: WorktreePath, b: WorktreePath, x: String, y: String)
    ensures
        a.key() == b.key() <==> components(a@) == components(b@),
        x.key() == y.key() <==> x@ == y@,
{
}

/// The first workspace with an id is found, wherever it stands, and nothing where there is none.
pub proof fn law_find_workspace(workspaces: Vec<Workspace>, id: String, res: Option<usize>, i: int)
    requires
        call_ensures(find_workspace, (&workspaces, &id), res),
    ensures
        first_with_id(workspaces@, id@, i) ==> res is Some && res->0 == i,
        none_with_id(workspaces@, id@) ==> res is None,
        res matches Some(idx) ==> first_with_id(workspaces@, id@, idx as int),
{
    law_workspace_index(workspaces@, id@);
}

/// Two memberships are the same only where all they say is the same.
pub proof fn law_same_membership(
    a: WorktreeSpaceMembership,
    b: WorktreeSpaceMembership,
    res: bool,
)
    requires
        call_ensures(WorktreeSpaceMembership::same_as, (&a, &b), res),
    ensures
        res == same_membership(a, b),
{
}

/// A revision that was given is kept, and `HEAD` stands for one that was not.
pub proof fn law_revision(given: String, kept: String, none: String)
    requires
        call_ensures(revision_or_head, (Some(given),), kept),
        call_ensures(revision_or_head, (None,), none),
    ensures
        kept@ == given@,
        none@ == "HEAD"@,
{
}

/// Texts come out in order, with the separator between any two.
pub proof fn law_join_texts(list: Vec<String>, separator: &str, res: String)
    requires
        call_ensures(join_texts, (&list, separator), res),
    ensures
        res@ == joined_texts(Seq::new(list@.len(), |i: int| list@[i]@), separator@),
{
    assert(texts(list@) =~= Seq::new(list@.len(), |i: int| list@[i]@));
}

} // verus!
