//! What the results of adding worktrees come to.

use vstd::prelude::*;

use crate::app::App;
use crate::create::WorktreeAddResult;
use crate::create_finish::{AddAnnounced, AddFinish, AddOpened, AddSourced, AddStep};
use crate::law_terms::{
    refuses, same_but_tables, same_keyboard, same_place, same_tables, same_workspaces,
};
use crate::model::{Mode, WorktreeInfo, WorktreeSource};
use crate::path::components;
use crate::protocol::{ApiError, Effect, Reply, Response};

verus! {

/// A result that nobody asked for through the API is ignored and changes nothing.
pub proof fn law_add_unasked<R>(app: &mut App, result: WorktreeAddResult<R>, res: AddStep<R>)
    requires
        call_ensures(App::handle_api_worktree_add_finished::<R>, (app, result), res),
        result.api_request is None,
    ensures
        res is Ignored,
        *final(app) == *old(app),
{
}

/// A result counts only where its own number is registered for its checkout. Any other is stale:
/// the client is told, and nothing changes.
pub proof fn law_add_stale<R>(app: &mut App, result: WorktreeAddResult<R>, res: AddStep<R>)
    requires
        call_ensures(App::handle_api_worktree_add_finished::<R>, (app, result), res),
        result.api_request is Some,
        ({
            let table = old(app).pending_api_worktree_creates@;
            let place = components(result.api_request->0.checkout_key@);
            !table.dom().contains(place) || table[place] != result.api_request->0.operation_id
        }),
    ensures
        *final(app) == *old(app),
        res matches AddStep::Answer(reply) && refuses(
            reply,
            result.api_request->0.respond_to,
            result.api_request->0.id,
            "stale_worktree_operation"@,
            "worktree create completed after the operation was superseded"@,
        ),
{
}

/// A result that counts ends its own registration and no other, whether git succeeded or not.
pub proof fn law_add_ends<R>(app: &mut App, result: WorktreeAddResult<R>, res: AddStep<R>)
    requires
        call_ensures(App::handle_api_worktree_add_finished::<R>, (app, result), res),
        result.api_request is Some,
        ({
            let table = old(app).pending_api_worktree_creates@;
            let place = components(result.api_request->0.checkout_key@);
            table.dom().contains(place) && table[place] == result.api_request->0.operation_id
        }),
    ensures
        ({
            let place = components(result.api_request->0.checkout_key@);
            &&& final(app).pending_api_worktree_creates@
                == old(app).pending_api_worktree_creates@.remove(place)
            &&& final(app).pending_api_worktree_removes@ == old(app).pending_api_worktree_removes@
            &&& final(app).pending_api_worktree_remove_paths@
                == old(app).pending_api_worktree_remove_paths@
            &&& final(app).next_api_worktree_operation_id
                == old(app).next_api_worktree_operation_id
            &&& same_workspaces(*old(app), *final(app))
            &&& same_keyboard(*old(app), *final(app))
            &&& final(app).worktree_remove == old(app).worktree_remove
        }),
        result.result is Ok ==> {
            &&& final(app).worktree_create == old(app).worktree_create
            &&& res matches AddStep::FindSource(finish)
            &&& finish.path == result.path
            &&& finish.api == result.api_request->0
        },
        result.result matches Err(error) ==> res matches AddStep::Answer(reply) && refuses(
            reply,
            result.api_request->0.respond_to,
            result.api_request->0.id,
            "worktree_create_failed"@,
            error@,
        ),
{
}

/// Where git failed, the dialog about this checkout stops waiting and shows why. A dialog about
/// another checkout is left alone, and none comes up.
pub proof fn law_add_failure_is_shown<R>(
    app: &mut App,
    result: WorktreeAddResult<R>,
    res: AddStep<R>,
)
    requires
        call_ensures(App::handle_api_worktree_add_finished::<R>, (app, result), res),
        result.result is Err,
        res matches AddStep::Answer(reply) && reply.response matches Response::Error { code, .. }
            && code@ == "worktree_create_failed"@,
    ensures
        ({
            let before = old(app).worktree_create;
            let after = final(app).worktree_create;
            &&& before is None ==> after is None
            &&& before matches Some(dialog) ==> if same_place(dialog.checkout_path@, result.path@) {
                &&& after matches Some(shows)
                &&& !shows.creating
                &&& shows.error == Some(result.result->Err_0)
                &&& shows.checkout_path == dialog.checkout_path
            } else {
                after == before
            }
        }),
{
    reveal_strlit("worktree_create_failed");
    reveal_strlit("stale_worktree_operation");
    assert("worktree_create_failed"@.len() != "stale_worktree_operation"@.len());
}

/// The source of the worktree is the one of the request, with the workspace that was found.
pub proof fn law_add_source<R>(
    app: App,
    finish: AddFinish<R>,
    found: Option<usize>,
    res: AddStep<R>,
)
    requires
        call_ensures(App::add_source_found::<R>, (&app, finish, found), res),
    ensures
        res matches AddStep::EnsureParent(next) && {
            &&& next.id == finish.api.id
            &&& next.respond_to == finish.api.respond_to
            &&& next.label == finish.api.label
            &&& next.focus == finish.api.focus
            &&& next.path == finish.path
            &&& next.source.workspace_idx == found
            &&& next.source.source_checkout_path == finish.api.source_checkout_path
            &&& next.source.source_repo_root == finish.api.source_repo_root
            &&& next.source.repo_key == finish.api.repo_key
            &&& next.source.repo_name == finish.api.repo_name
        },
{
}

/// The host's changes to the source are taken over, and nothing else changes. Its error goes to the
/// client.
pub proof fn law_add_parent<R>(
    app: App,
    sourced: AddSourced<R>,
    ensured: Result<WorktreeSource, ApiError>,
    res: AddStep<R>,
)
    requires
        call_ensures(App::add_parent_ensured::<R>, (&app, sourced, ensured), res),
    ensures
        match ensured {
            Err(error) => res matches AddStep::Answer(reply) && refuses(
                reply,
                sourced.respond_to,
                sourced.id,
                error.code@,
                error.message@,
            ),
            Ok(source) => res matches AddStep::FindOpenWorkspace(next) && {
                &&& next.source == source
                &&& next.id == sourced.id
                &&& next.respond_to == sourced.respond_to
                &&& next.label == sourced.label
                &&& next.focus == sourced.focus
                &&& next.path == sourced.path
            },
        },
{
}

/// What is done for a worktree that is open: its membership is noted, once. It is renamed only if
/// the client gave a label, and then to that label. It is focused only if the client wished so and
/// it was open before. Focus comes first, the name last, and nothing else is done.
pub open spec fn records<R>(
    effects: Seq<Effect>,
    sourced: AddSourced<R>,
    workspace_idx: usize,
    was_open: bool,
) -> bool {
    let focused: int = if sourced.focus && was_open {
        1
    } else {
        0
    };
    let named: int = if sourced.label is Some {
        1
    } else {
        0
    };
    &&& effects.len() == focused + 1 + named
    &&& focused == 1 ==> effects[0] == (Effect::SwitchWorkspace { workspace_idx })
    &&& effects[focused] == (Effect::MarkMembership {
        source: sourced.source,
        workspace_idx,
        path: sourced.path,
        is_linked_worktree: true,
        already_open: was_open,
    })
    &&& sourced.label matches Some(name) ==> effects[focused + 1] == (Effect::RenameWorkspace {
        workspace_idx,
        name,
    })
}

/// The step opens the worktree of the request in the workspace at `workspace_idx`.
pub open spec fn opens<R>(
    step: AddStep<R>,
    sourced: AddSourced<R>,
    workspace_idx: usize,
    was_open: bool,
) -> bool {
    &&& step matches AddStep::Record { effects, opened }
    &&& records(effects@, sourced, workspace_idx, was_open)
    &&& opened.id == sourced.id
    &&& opened.respond_to == sourced.respond_to
    &&& opened.path@ == sourced.path@
    &&& opened.workspace_idx == workspace_idx
    &&& opened.created == !was_open
}

/// A worktree that is open in a workspace is recorded there. Where there is none, one is made for
/// the same request.
pub proof fn law_add_open<R>(
    app: App,
    sourced: AddSourced<R>,
    found: Option<usize>,
    res: AddStep<R>,
)
    requires
        call_ensures(App::add_open_workspace_found::<R>, (&app, sourced, found), res),
    ensures
        match found {
            Some(workspace_idx) => opens(res, sourced, workspace_idx, true),
            None => res == AddStep::CreateWorkspace(sourced),
        },
{
}

/// A worktree whose workspace was made is recorded there. Where it could not be made, the client is
/// told why.
pub proof fn law_add_created<R>(
    app: App,
    sourced: AddSourced<R>,
    made: Result<usize, String>,
    res: AddStep<R>,
)
    requires
        call_ensures(App::add_workspace_created::<R>, (&app, sourced, made), res),
    ensures
        match made {
            Ok(workspace_idx) => opens(res, sourced, workspace_idx, false),
            Err(error) => res matches AddStep::Answer(reply) && refuses(
                reply,
                sourced.respond_to,
                sourced.id,
                "worktree_open_failed"@,
                "created worktree but failed to open workspace: "@ + error@,
            ),
        },
{
}

/// Without a label no workspace is renamed. With one, the only new name is the label, for the
/// workspace of the worktree.
pub proof fn law_add_names<R>(
    app: App,
    sourced: AddSourced<R>,
    found: Option<usize>,
    made: Result<usize, String>,
    step: AddStep<R>,
    k: int,
)
    requires
        call_ensures(App::add_open_workspace_found::<R>, (&app, sourced, found), step)
            || call_ensures(App::add_workspace_created::<R>, (&app, sourced, made), step),
        step is Record,
        0 <= k < step->Record_effects@.len(),
        step->Record_effects@[k] is RenameWorkspace,
    ensures
        sourced.label is Some,
        step->Record_effects@[k] == (Effect::RenameWorkspace {
            workspace_idx: step->Record_opened.workspace_idx,
            name: sourced.label->0,
        }),
{
}

/// The dialog that asked for this checkout is closed, with its input, and the keyboard goes to the
/// terminal. A dialog about another checkout, and the keyboard with it, are left alone. The session
/// is saved in any case, and clients hear of a workspace that was made.
pub proof fn law_add_recorded<R>(app: &mut App, opened: AddOpened<R>, res: AddStep<R>)
    requires
        call_ensures(App::add_membership_recorded::<R>, (app, opened), res),
    ensures
        same_tables(*old(app), *final(app)),
        same_workspaces(*old(app), *final(app)),
        final(app).worktree_remove == old(app).worktree_remove,
        old(app).worktree_create is None ==> same_but_tables(*old(app), *final(app)),
        old(app).worktree_create matches Some(dialog) ==> if same_place(
            dialog.checkout_path@,
            opened.path@,
        ) {
            &&& final(app).worktree_create is None
            &&& final(app).name_input@.len() == 0
            &&& !final(app).name_input_replace_on_type
            &&& final(app).mode == Mode::Terminal
        } else {
            same_but_tables(*old(app), *final(app))
        },
        res matches AddStep::Describe { effects, opened: next } && {
            &&& next == opened
            &&& effects@.len() == if opened.created {
                2int
            } else {
                1
            }
            &&& effects@[0] == Effect::MarkSessionDirty
            &&& opened.created ==> effects@[1] == (Effect::EmitWorkspaceOpened {
                workspace_idx: opened.workspace_idx,
            })
        },
{
}

/// Clients hear of a worktree that can be described, once. Where it cannot, the client is told.
pub proof fn law_add_described<R>(
    app: App,
    opened: AddOpened<R>,
    info: Option<WorktreeInfo>,
    res: AddStep<R>,
)
    requires
        call_ensures(App::add_described::<R>, (&app, opened, info), res),
    ensures
        match info {
            None => res matches AddStep::Answer(reply) && refuses(
                reply,
                opened.respond_to,
                opened.id,
                "worktree_open_failed"@,
                "created worktree but failed to record workspace membership"@,
            ),
            Some(worktree) => res matches AddStep::Announce { effects, announced } && {
                &&& effects@.len() == 1
                &&& effects@[0] == (Effect::EmitWorktreeCreated {
                    workspace_idx: opened.workspace_idx,
                    worktree,
                })
                &&& announced.id == opened.id
                &&& announced.respond_to == opened.respond_to
                &&& announced.workspace_idx == opened.workspace_idx
                &&& announced.worktree == worktree
            },
        },
{
    let effects: Vec<Effect> = arbitrary();
    assert((AddStep::Describe { effects, opened }).followed_by(res));
}

/// The client is answered with the worktree that clients heard of, and with the workspace it is
/// open in, at the tab that is active there.
pub proof fn law_add_answered<R>(app: App, announced: AddAnnounced<R>, res: Reply<R>)
    requires
        announced.workspace_idx < app.workspaces@.len(),
        call_ensures(App::add_announced::<R>, (&app, announced), res),
    ensures
        res.respond_to == announced.respond_to,
        res.response matches Response::WorktreeCreated { id, workspace_idx, tab_idx, worktree } && {
            &&& id == announced.id
            &&& workspace_idx == announced.workspace_idx
            &&& tab_idx == app.workspaces@[workspace_idx as int].active_tab
            &&& worktree == announced.worktree
        },
{
}

} // verus!
