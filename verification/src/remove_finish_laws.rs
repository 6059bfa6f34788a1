//! What the results of removing worktrees come to.

use vstd::prelude::*;
use vstd::utf8::{decode_utf8, encode_utf8, valid_utf8};

use crate::app::App;
use crate::law_terms::{
    first_with_id, refuses, same_keyboard, same_place, same_tables, same_workspaces,
};
use crate::model::{law_workspace_index, Mode, Workspace, WorktreeInfo};
use crate::path::components;
use crate::protocol::{Effect, Reply, Response};
use crate::remove::WorktreeRemoveResult;
use crate::remove_finish::{
    ClosingFacts, RemoveAnnounced, RemoveClosed, RemoveFinish, RemoveFinishStep,
};

verus! {

/// A result that nobody asked for through the API is ignored and changes nothing.
pub proof fn law_remove_unasked<R>(
    app: &mut App,
    result: WorktreeRemoveResult<R>,
    res: RemoveFinishStep<R>,
)
    requires
        call_ensures(App::handle_api_worktree_remove_finished::<R>, (app, result), res),
        result.api_request is None,
    ensures
        res is Ignored,
        *final(app) == *old(app),
{
}

/// The number of the result is the one registered, both for its workspace and for its checkout.
pub open spec fn counts<R>(app: App, result: WorktreeRemoveResult<R>) -> bool {
    let workspaces = app.pending_api_worktree_removes@;
    let paths = app.pending_api_worktree_remove_paths@;
    let workspace = result.workspace_id@;
    let place = components(result.api_request->0.checkout_key@);
    let number = result.api_request->0.operation_id;
    &&& workspaces.dom().contains(workspace) && workspaces[workspace] == number
    &&& paths.dom().contains(place) && paths[place] == number
}

/// A result counts only where its own number is registered both for its workspace and for its
/// checkout. Any other is stale: the client is told, and nothing changes.
pub proof fn law_remove_stale<R>(
    app: &mut App,
    result: WorktreeRemoveResult<R>,
    res: RemoveFinishStep<R>,
)
    requires
        call_ensures(App::handle_api_worktree_remove_finished::<R>, (app, result), res),
        result.api_request is Some,
        !counts(*old(app), result),
    ensures
        *final(app) == *old(app),
        res matches RemoveFinishStep::Answer(reply) && refuses(
            reply,
            result.api_request->0.respond_to,
            result.api_request->0.id,
            "stale_worktree_operation"@,
            "worktree remove completed after the operation was superseded"@,
        ),
{
}

/// A result that counts ends its own registration in both tables and no other, whether git succeeded
/// or not.
pub proof fn law_remove_ends<R>(
    app: &mut App,
    result: WorktreeRemoveResult<R>,
    res: RemoveFinishStep<R>,
)
    requires
        call_ensures(App::handle_api_worktree_remove_finished::<R>, (app, result), res),
        result.api_request is Some,
        counts(*old(app), result),
    ensures
        final(app).pending_api_worktree_removes@ == old(app).pending_api_worktree_removes@.remove(
            result.workspace_id@,
        ),
        final(app).pending_api_worktree_remove_paths@
            == old(app).pending_api_worktree_remove_paths@.remove(
            components(result.api_request->0.checkout_key@),
        ),
        final(app).pending_api_worktree_creates@ == old(app).pending_api_worktree_creates@,
        final(app).next_api_worktree_operation_id == old(app).next_api_worktree_operation_id,
        same_workspaces(*old(app), *final(app)),
        same_keyboard(*old(app), *final(app)),
        final(app).worktree_create == old(app).worktree_create,
        result.result is Ok ==> final(app).worktree_remove == old(app).worktree_remove,
{
}

/// Where git failed, the client is told why. That the removal can be forced is said only where
/// changes were in the way and it was not forced already.
pub proof fn law_remove_failure_is_told<R>(
    app: &mut App,
    result: WorktreeRemoveResult<R>,
    res: RemoveFinishStep<R>,
)
    requires
        call_ensures(App::handle_api_worktree_remove_finished::<R>, (app, result), res),
        result.api_request is Some,
        counts(*old(app), result),
        result.result is Err,
    ensures
        res matches RemoveFinishStep::Answer(reply) && refuses(
            reply,
            result.api_request->0.respond_to,
            result.api_request->0.id,
            if result.result->Err_0.dirty_worktree && !result.forced {
                "dirty_worktree_requires_force"@
            } else {
                "worktree_remove_failed"@
            },
            result.result->Err_0.message@,
        ),
{
}

/// Where git failed, the dialog about this worktree stops waiting. If changes are in the way for the
/// first time, it asks whether to go on, and shows no error. Else it shows why. A dialog about
/// another worktree is left alone, and none comes up.
pub proof fn law_remove_failure_is_shown<R>(
    app: &mut App,
    result: WorktreeRemoveResult<R>,
    res: RemoveFinishStep<R>,
)
    requires
        call_ensures(App::handle_api_worktree_remove_finished::<R>, (app, result), res),
        result.api_request is Some,
        counts(*old(app), result),
        result.result is Err,
    ensures
        ({
            let before = old(app).worktree_remove;
            let after = final(app).worktree_remove;
            let failure = result.result->Err_0;
            &&& before is None ==> after is None
            &&& before matches Some(dialog) ==> if dialog.workspace_id@ == result.workspace_id@
                && same_place(dialog.path@, result.path@) {
                let asks = failure.dirty_worktree && !result.forced && !dialog.force_confirmation;
                &&& after matches Some(shows)
                &&& !shows.removing
                &&& shows.workspace_id == dialog.workspace_id
                &&& shows.path == dialog.path
                &&& shows.force_confirmation == (dialog.force_confirmation || asks)
                &&& asks ==> shows.error is None
                &&& !asks ==> shows.error == Some(failure.message)
            } else {
                after == before
            }
        }),
{
}

/// The workspace is a linked worktree with the checkout of the result.
pub open spec fn still_shows<R>(workspace: Workspace, result: WorktreeRemoveResult<R>) -> bool {
    &&& workspace.worktree_space matches Some(space)
    &&& space.is_linked_worktree
    &&& same_place(space.checkout_path@, result.path@)
}

/// What clients saw and who waits are taken over from the result.
pub open spec fn takes_over<R>(finish: RemoveFinish<R>, result: WorktreeRemoveResult<R>) -> bool {
    &&& finish.id == result.api_request->0.id
    &&& finish.respond_to == result.api_request->0.respond_to
    &&& finish.workspace_id == result.workspace_id
    &&& finish.path == result.path
    &&& finish.forced == result.forced
    &&& finish.workspace == result.workspace
    &&& finish.worktree == result.worktree
}

/// A workspace that still shows the removed worktree is closed, wherever it stands in the list: if
/// the first workspace with the result's id is a linked worktree with the result's checkout, it is
/// that one that gets closed.
pub proof fn law_removed_worktree_is_closed<R>(
    app: &mut App,
    result: WorktreeRemoveResult<R>,
    res: RemoveFinishStep<R>,
    i: int,
)
    requires
        call_ensures(App::handle_api_worktree_remove_finished::<R>, (app, result), res),
        result.api_request is Some,
        counts(*old(app), result),
        result.result is Ok,
        first_with_id(old(app).workspaces@, result.workspace_id@, i),
        still_shows(old(app).workspaces@[i], result),
    ensures
        res matches RemoveFinishStep::DescribeClosing { workspace_idx, finish } && workspace_idx == i
            && takes_over(finish, result),
{
    law_workspace_index(old(app).workspaces@, result.workspace_id@);
}

/// Only such a workspace is closed.
pub proof fn law_only_removed_worktree_is_closed<R>(
    app: &mut App,
    result: WorktreeRemoveResult<R>,
    workspace_idx: usize,
    finish: RemoveFinish<R>,
)
    requires
        call_ensures(
            App::handle_api_worktree_remove_finished::<R>,
            (app, result),
            RemoveFinishStep::DescribeClosing { workspace_idx, finish },
        ),
    ensures
        result.result is Ok,
        result.api_request is Some,
        counts(*old(app), result),
        first_with_id(old(app).workspaces@, result.workspace_id@, workspace_idx as int),
        still_shows(old(app).workspaces@[workspace_idx as int], result),
        takes_over(finish, result),
{
    law_workspace_index(old(app).workspaces@, result.workspace_id@);
}

/// The step tells clients of the removal, under the public id, with what they saw before. Without
/// the worktree that they saw, the client is told that it was lost.
pub open spec fn tells<R>(
    step: RemoveFinishStep<R>,
    finish: RemoveFinish<R>,
    worktree: Option<WorktreeInfo>,
    public_id: String,
) -> bool {
    match worktree {
        None => step matches RemoveFinishStep::Answer(reply) && refuses(
            reply,
            finish.respond_to,
            finish.id,
            "worktree_remove_failed"@,
            "removed worktree but lost worktree snapshot"@,
        ),
        Some(info) => step matches RemoveFinishStep::Announce { effects, announced } && {
            &&& effects@.len() == 1
            &&& effects@[0] == (Effect::EmitWorktreeRemoved {
                workspace_id: public_id,
                workspace: finish.workspace,
                worktree: info,
                forced: finish.forced,
            })
            &&& announced.id == finish.id
            &&& announced.respond_to == finish.respond_to
            &&& announced.workspace_id == finish.workspace_id
            &&& announced.path == finish.path
            &&& announced.forced == finish.forced
            &&& announced.public_id == public_id
        },
    }
}

/// Where no workspace shows the worktree any more, clients are told at once, under the id that they
/// saw, or else under the id of the application's own.
pub proof fn law_removed_worktree_was_closed<R>(
    app: &mut App,
    result: WorktreeRemoveResult<R>,
    res: RemoveFinishStep<R>,
)
    requires
        call_ensures(App::handle_api_worktree_remove_finished::<R>, (app, result), res),
        result.api_request is Some,
        counts(*old(app), result),
        result.result is Ok,
        forall|i: int| #[trigger]
            first_with_id(old(app).workspaces@, result.workspace_id@, i) ==> !still_shows(
                old(app).workspaces@[i],
                result,
            ),
    ensures
        exists|finish: RemoveFinish<R>| #[trigger]
            takes_over(finish, result) && tells(
                res,
                finish,
                result.worktree,
                if result.workspace is Some {
                    result.workspace->0.workspace_id
                } else {
                    result.workspace_id
                },
            ),
{
    law_workspace_index(old(app).workspaces@, result.workspace_id@);
    let finish = RemoveFinish {
        id: result.api_request->0.id,
        respond_to: result.api_request->0.respond_to,
        workspace_id: result.workspace_id,
        path: result.path,
        forced: result.forced,
        workspace: result.workspace,
        worktree: result.worktree,
    };
    if let Some(i) = crate::model::workspace_index(old(app).workspaces@, result.workspace_id@) {
        assert(first_with_id(old(app).workspaces@, result.workspace_id@, i));
    }
    assert(takes_over(finish, result));
}

/// A workspace is closed, its terminals end and clients hear of it, in this order. What clients saw
/// when the removal started goes before what they see now, and the id is the one they know now.
pub proof fn law_removed_closing<R>(
    app: App,
    workspace_idx: usize,
    finish: RemoveFinish<R>,
    facts: ClosingFacts,
    res: RemoveFinishStep<R>,
)
    requires
        call_ensures(
            App::remove_closing_described::<R>,
            (&app, workspace_idx, finish, facts),
            res,
        ),
    ensures
        res matches RemoveFinishStep::Close { effects, closed } && {
            &&& effects@.len() == 3
            &&& effects@[0] == (Effect::CloseWorkspace { workspace_idx })
            &&& effects@[1] == Effect::ShutdownDetachedRuntimes
            &&& effects@[2] == (Effect::EmitWorkspaceClosed {
                workspace_id: facts.public_id,
                workspace: closed.finish.workspace,
            })
            &&& closed.public_id == facts.public_id
            &&& closed.finish.id == finish.id
            &&& closed.finish.respond_to == finish.respond_to
            &&& closed.finish.workspace_id == finish.workspace_id
            &&& closed.finish.path == finish.path
            &&& closed.finish.forced == finish.forced
            &&& finish.workspace is Some ==> closed.finish.workspace == finish.workspace
            &&& finish.workspace is None ==> closed.finish.workspace == Some(facts.workspace)
            &&& finish.worktree is Some ==> closed.finish.worktree == finish.worktree
            &&& finish.worktree is None ==> closed.finish.worktree == Some(facts.worktree)
        },
{
}

/// Once the workspace is closed, clients are told of the removal under the id that they know.
pub proof fn law_removed_closed<R>(app: App, closed: RemoveClosed<R>, res: RemoveFinishStep<R>)
    requires
        call_ensures(App::remove_closed::<R>, (&app, closed), res),
    ensures
        tells(res, closed.finish, closed.finish.worktree, closed.public_id),
{
    let effects: Vec<Effect> = arbitrary();
    assert((RemoveFinishStep::Close { effects, closed }).followed_by(res));
}

/// The dialog about this worktree is closed, and the keyboard goes to the terminal of the active
/// workspace, or to the list of workspaces if none is active. A dialog about another worktree is left
/// alone.
pub proof fn law_removed_dialog<R>(
    app: &mut App,
    announced: RemoveAnnounced<R>,
    otherwise: String,
    res: Reply<R>,
)
    requires
        call_ensures(App::remove_announced::<R>, (app, announced, otherwise), res),
    ensures
        same_tables(*old(app), *final(app)),
        same_workspaces(*old(app), *final(app)),
        final(app).worktree_create == old(app).worktree_create,
        final(app).name_input == old(app).name_input,
        final(app).name_input_replace_on_type == old(app).name_input_replace_on_type,
        old(app).worktree_remove is None ==> final(app).worktree_remove is None && final(app).mode
            == old(app).mode,
        old(app).worktree_remove matches Some(dialog) ==> if dialog.workspace_id@
            == announced.workspace_id@ && same_place(dialog.path@, announced.path@) {
            &&& final(app).worktree_remove is None
            &&& old(app).active is Some ==> final(app).mode == Mode::Terminal
            &&& old(app).active is None ==> final(app).mode == Mode::Navigate
        } else {
            &&& final(app).worktree_remove == old(app).worktree_remove
            &&& final(app).mode == old(app).mode
        },
{
}

/// The client is answered under the id that clients know, with the path as its text, and whether the
/// removal was forced.
pub proof fn law_removed_answered<R>(
    app: &mut App,
    announced: RemoveAnnounced<R>,
    otherwise: String,
    res: Reply<R>,
)
    requires
        call_ensures(App::remove_announced::<R>, (app, announced, otherwise), res),
    ensures
        res.respond_to == announced.respond_to,
        res.response matches Response::WorktreeRemoved { id, workspace_id, path, forced } && {
            &&& id == announced.id
            &&& workspace_id == announced.public_id
            &&& forced == announced.forced
            &&& valid_utf8(announced.path@.bytes) ==> path@ == decode_utf8(announced.path@.bytes)
                && encode_utf8(path@) == announced.path@.bytes
            &&& !valid_utf8(announced.path@.bytes) ==> path@ == otherwise@
        },
{
    if valid_utf8(announced.path@.bytes) {
        vstd::utf8::decode_utf8_encode_utf8(announced.path@.bytes);
    }
}

} // verus!
