//! Answering a request once its worktree was removed.

use vstd::prelude::*;

use crate::app::App;
use crate::model::{
    find_workspace, workspace_index, Mode, Workspace, WorkspaceInfo, WorktreeInfo,
    WorktreeRemoveDialog,
};
use crate::path::{components, shown, PathView, WorktreePath};
use crate::protocol::{refuse, refuse_with, Effect, Reply, Response};
use crate::remove::WorktreeRemoveResult;

verus! {

/// A worktree that was removed. `workspace` and `worktree` are what clients saw of them before.
pub struct RemoveFinish<R> {
    pub id: String,
    pub respond_to: R,
    /// The id that the application knows the workspace by.
    pub workspace_id: String,
    pub path: WorktreePath,
    pub forced: bool,
    pub workspace: Option<WorkspaceInfo>,
    pub worktree: Option<WorktreeInfo>,
}

/// What clients see of a workspace that is about to be closed.
pub struct ClosingFacts {
    pub public_id: String,
    pub workspace: WorkspaceInfo,
    pub worktree: WorktreeInfo,
}

/// A worktree that was removed and shows in no workspace any more.
pub struct RemoveClosed<R> {
    pub finish: RemoveFinish<R>,
    /// The id that clients know the workspace by.
    pub public_id: String,
}

/// A removal that clients were told about.
pub struct RemoveAnnounced<R> {
    pub id: String,
    pub respond_to: R,
    pub workspace_id: String,
    pub path: WorktreePath,
    pub forced: bool,
    pub public_id: String,
}

/// What happens next to a worktree that was removed.
pub enum RemoveFinishStep<R> {
    /// Nobody asked for the removal through the API.
    Ignored,
    Answer(Reply<R>),
    /// Find out what clients see of the workspace at `workspace_idx` and of its worktree, then
    /// `remove_closing_described`.
    DescribeClosing { workspace_idx: usize, finish: RemoveFinish<R> },
    /// Do the effects, then `remove_closed`.
    Close { effects: Vec<Effect>, closed: RemoveClosed<R> },
    /// Do the effects, make a text of `path` as far as it can be shown, then `remove_announced`.
    Announce { effects: Vec<Effect>, announced: RemoveAnnounced<R> },
}

impl<R> RemoveFinish<R> {
    /// Who waits for the answer.
    pub open spec fn caller(self) -> (R, String) {
        (self.respond_to, self.id)
    }
}

impl<R> RemoveFinishStep<R> {
    /// Who is answered, or waits for the answer.
    pub open spec fn caller(self) -> Option<(R, String)> {
        match self {
            RemoveFinishStep::Ignored => None,
            RemoveFinishStep::Answer(reply) => Some(reply.caller()),
            RemoveFinishStep::DescribeClosing { finish, .. } => Some(finish.caller()),
            RemoveFinishStep::Close { closed, .. } => Some(closed.finish.caller()),
            RemoveFinishStep::Announce { announced, .. } => Some(
                (announced.respond_to, announced.id),
            ),
        }
    }

    /// How many steps are left at most.
    pub open spec fn left(self) -> nat {
        match self {
            RemoveFinishStep::DescribeClosing { .. } => 3,
            RemoveFinishStep::Close { .. } => 2,
            RemoveFinishStep::Announce { .. } => 1,
            RemoveFinishStep::Answer(_) | RemoveFinishStep::Ignored => 0,
        }
    }

    /// Whether the step `next` brings the request nearer to its end, for the same caller.
    pub open spec fn followed_by(self, next: RemoveFinishStep<R>) -> bool {
        next.caller() == self.caller() && next.left() < self.left()
    }
}

/// Whether the dialog is about the worktree at `path` of the workspace with the given id.
pub open spec fn remove_dialog_for(
    dialog: Option<WorktreeRemoveDialog>,
    workspace_id: Seq<char>,
    path: PathView,
) -> bool {
    &&& dialog matches Some(remove)
    &&& remove.workspace_id@ == workspace_id
    &&& components(remove.path@) == components(path)
}

/// A dialog once its worktree could not be removed. The first time that changes are in the way,
/// it asks whether to remove the worktree all the same; any other failure is shown.
pub open spec fn remove_dialog_failed(
    remove: WorktreeRemoveDialog,
    dirty: bool,
    message: String,
) -> WorktreeRemoveDialog {
    if dirty && !remove.force_confirmation {
        WorktreeRemoveDialog { removing: false, force_confirmation: true, error: None, ..remove }
    } else {
        WorktreeRemoveDialog { removing: false, error: Some(message), ..remove }
    }
}

/// The dialog once a worktree could not be removed. A dialog about another worktree stays.
pub open spec fn remove_dialog_after_failure(
    dialog: Option<WorktreeRemoveDialog>,
    workspace_id: Seq<char>,
    path: PathView,
    dirty: bool,
    message: String,
) -> Option<WorktreeRemoveDialog> {
    if remove_dialog_for(dialog, workspace_id, path) {
        Some(remove_dialog_failed(dialog->0, dirty, message))
    } else {
        dialog
    }
}

/// The code of the answer to a removal that failed.
pub open spec fn remove_failure_code(dirty: bool) -> Seq<char> {
    if dirty {
        "dirty_worktree_requires_force"@
    } else {
        "worktree_remove_failed"@
    }
}

/// Whether a workspace still shows the worktree at `path`.
pub open spec fn shows_worktree(workspace: Workspace, path: PathView) -> bool {
    &&& workspace.worktree_space matches Some(space)
    &&& space.is_linked_worktree
    &&& components(space.checkout_path@) == components(path)
}

/// The workspace with the given id, if it still shows the worktree at `path`.
pub open spec fn closing_index(
    workspaces: Seq<Workspace>,
    workspace_id: Seq<char>,
    path: PathView,
) -> Option<int> {
    match workspace_index(workspaces, workspace_id) {
        Some(i) => if shows_worktree(workspaces[i], path) {
            Some(i)
        } else {
            None
        },
        None => None,
    }
}

/// The id that clients know a workspace by, as far as it was written down.
pub open spec fn written_id<R>(finish: RemoveFinish<R>) -> String {
    match finish.workspace {
        Some(info) => info.workspace_id,
        None => finish.workspace_id,
    }
}

/// Whether `step` tells clients of a removal, or fails for want of what they saw before.
pub open spec fn concluded<R>(
    finish: RemoveFinish<R>,
    public_id: String,
    step: RemoveFinishStep<R>,
) -> bool {
    match finish.worktree {
        None => step matches RemoveFinishStep::Answer(reply) && reply.is_error(
            "worktree_remove_failed"@,
            "removed worktree but lost worktree snapshot"@,
        ),
        Some(worktree) => {
            &&& step matches RemoveFinishStep::Announce { effects, announced }
            &&& effects@ == seq![
                Effect::EmitWorktreeRemoved {
                    workspace_id: public_id,
                    workspace: finish.workspace,
                    worktree,
                    forced: finish.forced,
                },
            ]
            &&& announced == RemoveAnnounced {
                id: finish.id,
                respond_to: finish.respond_to,
                workspace_id: finish.workspace_id,
                path: finish.path,
                forced: finish.forced,
                public_id,
            }
        },
    }
}

/// Tells clients of a removal.
fn conclude<R>(finish: RemoveFinish<R>, public_id: String) -> (res: RemoveFinishStep<R>)
    ensures
        concluded(finish, public_id, res),
        res.caller() == Some(finish.caller()),
        res.left() < 2,
{
    let worktree = match finish.worktree {
        Some(worktree) => worktree,
        None => return RemoveFinishStep::Answer(
            refuse(
                finish.respond_to,
                finish.id,
                "worktree_remove_failed",
                "removed worktree but lost worktree snapshot",
            ),
        ),
    };
    let mut effects: Vec<Effect> = Vec::new();
    effects.push(
        Effect::EmitWorktreeRemoved {
            workspace_id: public_id.clone(),
            workspace: finish.workspace,
            worktree,
            forced: finish.forced,
        },
    );
    RemoveFinishStep::Announce {
        effects,
        announced: RemoveAnnounced {
            id: finish.id,
            respond_to: finish.respond_to,
            workspace_id: finish.workspace_id,
            path: finish.path,
            forced: finish.forced,
            public_id,
        },
    }
}

/// The workspace with the given id, if it still shows the worktree at `path`.
fn find_closing(workspaces: &Vec<Workspace>, workspace_id: &String, path: &WorktreePath) -> (res:
    Option<usize>)
    ensures
        res is Some == closing_index(workspaces@, workspace_id@, path@) is Some,
        res matches Some(i) ==> closing_index(workspaces@, workspace_id@, path@) == Some(i as int),
{
    match find_workspace(workspaces, workspace_id) {
        Some(idx) => match &workspaces[idx].worktree_space {
            Some(space) => if space.is_linked_worktree && space.checkout_path.same_path(path) {
                Some(idx)
            } else {
                None
            },
            None => None,
        },
        None => None,
    }
}

/// What a result leaves to do once the removal itself succeeded.
pub open spec fn finish_of<R>(result: WorktreeRemoveResult<R>) -> RemoveFinish<R> {
    RemoveFinish {
        id: result.api_request->0.id,
        respond_to: result.api_request->0.respond_to,
        workspace_id: result.workspace_id,
        path: result.path,
        forced: result.forced,
        workspace: result.workspace,
        worktree: result.worktree,
    }
}

impl App {
    /// Takes in that a worktree was removed, or was not. A result that is not of the removal under
    /// way for its workspace and checkout is stale and changes nothing.
    pub fn handle_api_worktree_remove_finished<R>(&mut self, result: WorktreeRemoveResult<R>) -> (
    res: RemoveFinishStep<R>)
        ensures
            old(self).ledger().moves_apart(final(self).ledger()),
            match result.api_request {
                None => res is Ignored && *final(self) == *old(self),
                Some(api) => {
                    let workspace = result.workspace_id@;
                    let key = components(api.checkout_key@);
                    &&& res.caller() == Some(api.caller())
                    &&& final(self).same_but_ledger_and_dialogs(*old(self))
                    &&& final(self).same_input(*old(self))
                    &&& final(self).worktree_create == old(self).worktree_create
                    &&& if !old(self).ledger().remove_is(workspace, key, api.operation_id) {
                        &&& *final(self) == *old(self)
                        &&& res matches RemoveFinishStep::Answer(reply)
                        &&& reply.is_error(
                            "stale_worktree_operation"@,
                            "worktree remove completed after the operation was superseded"@,
                        )
                    } else {
                        &&& final(self).ledger() == old(self).ledger().without_remove(
                            workspace,
                            key,
                        )
                        &&& match result.result {
                            Err(failure) => {
                                let dirty = !result.forced && failure.dirty_worktree;
                                &&& final(self).worktree_remove == remove_dialog_after_failure(
                                    old(self).worktree_remove,
                                    workspace,
                                    result.path@,
                                    dirty,
                                    failure.message,
                                )
                                &&& res matches RemoveFinishStep::Answer(reply)
                                &&& reply.is_error(remove_failure_code(dirty), failure.message@)
                            },
                            Ok(()) => {
                                let finish = finish_of(result);
                                &&& final(self).worktree_remove == old(self).worktree_remove
                                &&& match closing_index(
                                    old(self).workspaces@,
                                    workspace,
                                    result.path@,
                                ) {
                                    Some(i) => res matches RemoveFinishStep::DescribeClosing {
                                        workspace_idx,
                                        finish: f,
                                    } && workspace_idx == i && f == finish,
                                    None => concluded(finish, written_id(finish), res),
                                }
                            },
                        }
                    }
                },
            },
    {
        let api = match result.api_request {
            Some(api) => api,
            None => return RemoveFinishStep::Ignored,
        };
        let workspace_matches = match self.pending_api_worktree_removes.get(&result.workspace_id) {
            Some(operation_id) => operation_id == api.operation_id,
            None => false,
        };
        let path_matches = match self.pending_api_worktree_remove_paths.get(&api.checkout_key) {
            Some(operation_id) => operation_id == api.operation_id,
            None => false,
        };
        if !(workspace_matches && path_matches) {
            return RemoveFinishStep::Answer(
                refuse(
                    api.respond_to,
                    api.id,
                    "stale_worktree_operation",
                    "worktree remove completed after the operation was superseded",
                ),
            );
        }
        self.pending_api_worktree_removes.remove(&result.workspace_id);
        self.pending_api_worktree_remove_paths.remove(&api.checkout_key);
        proof {
            let workspace = result.workspace_id@;
            let key = components(api.checkout_key@);
            assert(old(self).ledger().remove_is(workspace, key, api.operation_id));
            assert(self.ledger() =~= old(self).ledger().without_remove(workspace, key));
        }
        match result.result {
            Err(failure) => {
                let dirty = !result.forced && failure.dirty_worktree;
                if let Some(remove) = self.worktree_remove.take() {
                    if remove.workspace_id == result.workspace_id && remove.path.same_path(
                        &result.path,
                    ) {
                        if dirty && !remove.force_confirmation {
                            self.worktree_remove = Some(
                                WorktreeRemoveDialog {
                                    workspace_id: remove.workspace_id,
                                    path: remove.path,
                                    removing: false,
                                    force_confirmation: true,
                                    error: None,
                                },
                            );
                        } else {
                            self.worktree_remove = Some(
                                WorktreeRemoveDialog {
                                    workspace_id: remove.workspace_id,
                                    path: remove.path,
                                    removing: false,
                                    force_confirmation: remove.force_confirmation,
                                    error: Some(failure.message.clone()),
                                },
                            );
                        }
                    } else {
                        self.worktree_remove = Some(remove);
                    }
                }
                let code = if dirty {
                    "dirty_worktree_requires_force"
                } else {
                    "worktree_remove_failed"
                };
                RemoveFinishStep::Answer(
                    refuse_with(api.respond_to, api.id, code, failure.message),
                )
            },
            Ok(()) => {
                let closing = find_closing(&self.workspaces, &result.workspace_id, &result.path);
                let finish = RemoveFinish {
                    id: api.id,
                    respond_to: api.respond_to,
                    workspace_id: result.workspace_id,
                    path: result.path,
                    forced: result.forced,
                    workspace: result.workspace,
                    worktree: result.worktree,
                };
                match closing {
                    Some(workspace_idx) => RemoveFinishStep::DescribeClosing {
                        workspace_idx,
                        finish,
                    },
                    None => {
                        let public_id = match &finish.workspace {
                            Some(info) => info.workspace_id.clone(),
                            None => finish.workspace_id.clone(),
                        };
                        conclude(finish, public_id)
                    },
                }
            },
        }
    }

    /// Closes the workspace of a worktree that was removed. What clients saw when the removal
    /// started goes before what they see now.
    pub fn remove_closing_described<R>(
        &self,
        workspace_idx: usize,
        finish: RemoveFinish<R>,
        facts: ClosingFacts,
    ) -> (res: RemoveFinishStep<R>)
        ensures
            res matches RemoveFinishStep::Close { effects, closed } && {
                let workspace = match finish.workspace {
                    Some(info) => info,
                    None => facts.workspace,
                };
                let worktree = match finish.worktree {
                    Some(info) => info,
                    None => facts.worktree,
                };
                &&& effects@ == seq![
                    Effect::CloseWorkspace { workspace_idx },
                    Effect::ShutdownDetachedRuntimes,
                    Effect::EmitWorkspaceClosed {
                        workspace_id: facts.public_id,
                        workspace: Some(workspace),
                    },
                ]
                &&& closed == RemoveClosed {
                    finish: RemoveFinish {
                        workspace: Some(workspace),
                        worktree: Some(worktree),
                        ..finish
                    },
                    public_id: facts.public_id,
                }
            },
            (RemoveFinishStep::DescribeClosing { workspace_idx, finish }).followed_by(res),
    {
        let workspace = match finish.workspace {
            Some(info) => info,
            None => facts.workspace,
        };
        let worktree = match finish.worktree {
            Some(info) => info,
            None => facts.worktree,
        };
        let mut effects: Vec<Effect> = Vec::new();
        effects.push(Effect::CloseWorkspace { workspace_idx });
        effects.push(Effect::ShutdownDetachedRuntimes);
        effects.push(
            Effect::EmitWorkspaceClosed {
                workspace_id: facts.public_id.clone(),
                workspace: Some(workspace.clone()),
            },
        );
        RemoveFinishStep::Close {
            effects,
            closed: RemoveClosed {
                finish: RemoveFinish {
                    id: finish.id,
                    respond_to: finish.respond_to,
                    workspace_id: finish.workspace_id,
                    path: finish.path,
                    forced: finish.forced,
                    workspace: Some(workspace),
                    worktree: Some(worktree),
                },
                public_id: facts.public_id,
            },
        }
    }

    /// Goes on once the workspace was closed.
    pub fn remove_closed<R>(&self, closed: RemoveClosed<R>) -> (res: RemoveFinishStep<R>)
        ensures
            concluded(closed.finish, closed.public_id, res),
            forall|effects: Vec<Effect>|
                #![trigger (RemoveFinishStep::Close { effects, closed }).followed_by(res)]
                (RemoveFinishStep::Close { effects, closed }).followed_by(res),
    {
        conclude(closed.finish, closed.public_id)
    }

    /// Closes the dialog that asked for the removal and answers that the worktree was removed.
    /// `otherwise` is the text of a path that is no text.
    pub fn remove_announced<R>(
        &mut self,
        announced: RemoveAnnounced<R>,
        otherwise: String,
    ) -> (res: Reply<R>)
        ensures
            final(self).same_but_ledger_and_dialogs(*old(self)),
            final(self).ledger() == old(self).ledger(),
            final(self).worktree_create == old(self).worktree_create,
            final(self).name_input == old(self).name_input,
            final(self).name_input_replace_on_type == old(self).name_input_replace_on_type,
            if remove_dialog_for(
                old(self).worktree_remove,
                announced.workspace_id@,
                announced.path@,
            ) {
                &&& final(self).worktree_remove is None
                &&& final(self).mode == if old(self).active is Some {
                    Mode::Terminal
                } else {
                    Mode::Navigate
                }
            } else {
                &&& final(self).worktree_remove == old(self).worktree_remove
                &&& final(self).mode == old(self).mode
            },
            res.respond_to == announced.respond_to,
            res.response matches Response::WorktreeRemoved { id, workspace_id, path, forced } && {
                &&& id == announced.id
                &&& workspace_id == announced.public_id
                &&& path@ == shown(announced.path@, otherwise@)
                &&& forced == announced.forced
            },
            forall|effects: Vec<Effect>|
                #![trigger (RemoveFinishStep::Announce { effects, announced }).followed_by(RemoveFinishStep::Answer(res))]
                (RemoveFinishStep::Announce { effects, announced }).followed_by(
                    RemoveFinishStep::Answer(res),
                ),
    {
        let matching = match &self.worktree_remove {
            Some(remove) => remove.workspace_id == announced.workspace_id && remove.path.same_path(
                &announced.path,
            ),
            None => false,
        };
        if matching {
            self.worktree_remove = None;
            self.mode = if self.active.is_some() {
                Mode::Terminal
            } else {
                Mode::Navigate
            };
        }
        Self::send_api_response(
            announced.respond_to,
            Response::WorktreeRemoved {
                id: announced.id,
                workspace_id: announced.public_id,
                path: announced.path.show(otherwise),
                forced: announced.forced,
            },
        )
    }
}

} // verus!
