//! What the requests to remove a worktree come to.

use vstd::prelude::*;

use crate::app::App;
use crate::law_terms::{number_taken, refuses, same_but_tables, same_tables};
use crate::model::{WorkspaceInfo, WorktreeInfo};
use crate::path::{components, WorktreePath};
use crate::prefix::Platform;
use crate::protocol::{Effect, WorktreeRemoveParams};
use crate::remove::{
    RemoveFailure, RemoveJob, RemovePlan, RemoveRequest, RemoveStep, WorktreeRemoveResult,
};

verus! {

/// A request first asks for its workspace, and loses nothing.
pub proof fn law_remove_starts<R>(
    app: App,
    id: String,
    params: WorktreeRemoveParams,
    respond_to: R,
    res: RemoveStep<R>,
)
    requires
        call_ensures(App::start_api_worktree_remove::<R>, (&app, id, params, respond_to), res),
    ensures
        res matches RemoveStep::ParseWorkspaceId(request) && request.id == id && request.params
            == params && request.respond_to == respond_to,
{
}

/// A plan is about the workspace that was found and its membership, for the same caller, with the
/// force that the client asked for.
pub open spec fn plans<R>(
    plan: RemovePlan<R>,
    app: App,
    request: RemoveRequest<R>,
    idx: usize,
) -> bool {
    let workspace = app.workspaces@[idx as int];
    &&& plan.id == request.id
    &&& plan.respond_to == request.respond_to
    &&& plan.force == request.params.force
    &&& plan.workspace_idx == idx
    &&& plan.workspace_internal_id == workspace.id
    &&& workspace.worktree_space matches Some(space)
    &&& plan.space.key@ == space.key@
    &&& plan.space.label@ == space.label@
    &&& plan.space.repo_root@ == space.repo_root@
    &&& plan.space.checkout_path@ == space.checkout_path@
    &&& plan.space.is_linked_worktree
}

/// Only the linked worktree of a known workspace is removed. On Windows it is looked through for
/// changes first, unless the client forces the removal.
pub proof fn law_remove_workspace<R>(
    app: App,
    request: RemoveRequest<R>,
    parsed: Option<usize>,
    res: RemoveStep<R>,
)
    requires
        call_ensures(App::remove_workspace_parsed::<R>, (&app, request, parsed), res),
    ensures
        parsed is None ==> {
            &&& res matches RemoveStep::Answer(reply)
            &&& refuses(
                reply,
                request.respond_to,
                request.id,
                "workspace_not_found"@,
                "workspace "@ + request.params.workspace_id@ + " not found"@,
            )
        },
        parsed matches Some(idx) ==> if idx >= app.workspaces@.len()
            || app.workspaces@[idx as int].worktree_space is None {
            res matches RemoveStep::Answer(reply) && refuses(
                reply,
                request.respond_to,
                request.id,
                "not_linked_worktree"@,
                "workspace is not a Herdr-managed worktree checkout"@,
            )
        } else if !app.workspaces@[idx as int].worktree_space->0.is_linked_worktree {
            res matches RemoveStep::Answer(reply) && refuses(
                reply,
                request.respond_to,
                request.id,
                "not_linked_worktree"@,
                "workspace is not a linked worktree checkout"@,
            )
        } else {
            if app.platform == Platform::Windows && !request.params.force {
                &&& res matches RemoveStep::LookForChanges(plan)
                &&& plans(plan, app, request, idx)
            } else {
                &&& res matches RemoveStep::Canonicalize(plan)
                &&& plans(plan, app, request, idx)
            }
        },
{
}

/// Changes that were found are in the way. Where none were found, or nothing could be found out,
/// the same plan goes on.
pub proof fn law_remove_changes<R>(
    app: App,
    plan: RemovePlan<R>,
    changed: Option<bool>,
    res: RemoveStep<R>,
)
    requires
        call_ensures(App::remove_changes_looked_for::<R>, (&app, plan, changed), res),
    ensures
        changed == Some(true) ==> res == RemoveStep::DescribeChanges(plan),
        changed != Some(true) ==> res == RemoveStep::Canonicalize(plan),
{
}

/// The client is told of changes in the words of the host, and that the removal can be forced.
pub proof fn law_remove_changes_told<R>(
    app: App,
    plan: RemovePlan<R>,
    message: String,
    res: RemoveStep<R>,
)
    requires
        call_ensures(App::remove_changes_described::<R>, (&app, plan, message), res),
    ensures
        res matches RemoveStep::Answer(reply) && refuses(
            reply,
            plan.respond_to,
            plan.id,
            "dirty_worktree_requires_force"@,
            message@,
        ),
{
}

/// A workspace or checkout with an operation under way is not removed: the client is told, and
/// nothing changes. Any other is registered under both, with one new number, and nothing else
/// changes.
pub proof fn law_remove_registers<R>(
    app: &mut App,
    plan: RemovePlan<R>,
    key: WorktreePath,
    ends_terminals: bool,
    res: RemoveStep<R>,
)
    requires
        call_ensures(App::remove_checkout_keyed::<R>, (app, plan, key, ends_terminals), res),
    ensures
        ({
            let before = *old(app);
            let after = *final(app);
            let workspace = plan.workspace_internal_id@;
            let place = components(key@);
            let number = before.next_api_worktree_operation_id;
            &&& same_but_tables(before, after)
            &&& if before.pending_api_worktree_removes@.dom().contains(workspace)
                || before.pending_api_worktree_remove_paths@.dom().contains(place)
                || before.pending_api_worktree_creates@.dom().contains(place) {
                &&& same_tables(before, after)
                &&& res matches RemoveStep::Answer(reply)
                &&& refuses(
                    reply,
                    plan.respond_to,
                    plan.id,
                    "worktree_operation_in_progress"@,
                    "worktree operation is already in progress for this checkout"@,
                )
            } else {
                &&& after.pending_api_worktree_removes@
                    == before.pending_api_worktree_removes@.insert(workspace, number)
                &&& after.pending_api_worktree_remove_paths@
                    == before.pending_api_worktree_remove_paths@.insert(place, number)
                &&& after.pending_api_worktree_creates@ == before.pending_api_worktree_creates@
                &&& number_taken(before, after)
                &&& res is Spawn
            }
        }),
{
}

/// The job is about the workspace and worktree of its plan, with the force that the client asked
/// for, and remembers its caller and what it is registered under. The terminals of this workspace,
/// and no others, end before it where that was said.
pub proof fn law_remove_job<R>(
    app: &mut App,
    plan: RemovePlan<R>,
    key: WorktreePath,
    ends_terminals: bool,
    effects: Vec<Effect>,
    job: RemoveJob<R>,
)
    requires
        call_ensures(
            App::remove_checkout_keyed::<R>,
            (app, plan, key, ends_terminals),
            RemoveStep::Spawn { effects, job },
        ),
    ensures
        job.workspace_idx == plan.workspace_idx,
        job.workspace_internal_id == plan.workspace_internal_id,
        job.space == plan.space,
        job.force == plan.force,
        job.api_request.id == plan.id,
        job.api_request.respond_to == plan.respond_to,
        job.api_request.operation_id == old(app).next_api_worktree_operation_id,
        job.api_request.checkout_key == key,
        ends_terminals ==> effects@.len() == 1 && effects@[0] == (
        Effect::ShutdownWorkspaceRuntimes { workspace_idx: plan.workspace_idx }),
        !ends_terminals ==> effects@.len() == 0,
{
}

/// The result of a job is about its own workspace and checkout and for its own caller, with what
/// clients saw when it started and what git said.
pub proof fn law_remove_result<R>(
    job: RemoveJob<R>,
    workspace: WorkspaceInfo,
    worktree: WorktreeInfo,
    ran: Result<(), RemoveFailure>,
    result: WorktreeRemoveResult<R>,
)
    requires
        call_ensures(RemoveJob::<R>::removed, (job, workspace, worktree, ran), result),
    ensures
        result.workspace_id == job.workspace_internal_id,
        result.path == job.space.checkout_path,
        result.workspace == Some(workspace),
        result.worktree == Some(worktree),
        result.forced == job.force,
        result.api_request == Some(job.api_request),
        result.result == ran,
{
}

} // verus!
