//! Answering a request once its worktree was added.

use vstd::prelude::*;

use crate::app::App;
use crate::create::{ApiWorktreeAddRequest, WorktreeAddResult};
use crate::model::{Mode, WorktreeCreateDialog, WorktreeInfo, WorktreeSource};
use crate::path::{components, PathView, WorktreePath};
use crate::protocol::{pass_on, refuse, refuse_with, ApiError, Effect, Reply, Response};

verus! {

/// A worktree whose source workspace has to be found.
pub struct AddFinish<R> {
    pub path: WorktreePath,
    pub api: ApiWorktreeAddRequest<R>,
}

/// A worktree whose source is known.
pub struct AddSourced<R> {
    pub id: String,
    pub respond_to: R,
    pub label: Option<String>,
    pub focus: bool,
    pub path: WorktreePath,
    pub source: WorktreeSource,
}

/// A worktree that is open in a workspace.
pub struct AddOpened<R> {
    pub id: String,
    pub respond_to: R,
    pub path: WorktreePath,
    pub workspace_idx: usize,
    /// Whether the workspace was made for the worktree.
    pub created: bool,
}

/// A worktree that clients were told about.
pub struct AddAnnounced<R> {
    pub id: String,
    pub respond_to: R,
    pub workspace_idx: usize,
    pub worktree: WorktreeInfo,
}

/// What happens next to a worktree that was added.
pub enum AddStep<R> {
    /// Nobody asked for the worktree through the API.
    Ignored,
    Answer(Reply<R>),
    /// Find the source workspace with `api_create_source_workspace_idx`, then
    /// `add_source_found`.
    FindSource(AddFinish<R>),
    /// See to it that a workspace stands for the source's repository, then
    /// `add_parent_ensured`.
    EnsureParent(AddSourced<R>),
    /// Find the workspace that shows `path`, then `add_open_workspace_found`.
    FindOpenWorkspace(AddSourced<R>),
    /// Make a workspace at `path`, focused if `focus` is set, then `add_workspace_created`.
    CreateWorkspace(AddSourced<R>),
    /// Do the effects, then `add_membership_recorded`.
    Record { effects: Vec<Effect>, opened: AddOpened<R> },
    /// Do the effects, find out what clients see of the workspace's worktree, then
    /// `add_described`.
    Describe { effects: Vec<Effect>, opened: AddOpened<R> },
    /// Do the effects, then `add_announced`.
    Announce { effects: Vec<Effect>, announced: AddAnnounced<R> },
}

impl<R> AddSourced<R> {
    /// Who waits for the answer.
    pub open spec fn caller(self) -> (R, String) {
        (self.respond_to, self.id)
    }
}

impl<R> AddOpened<R> {
    /// Who waits for the answer.
    pub open spec fn caller(self) -> (R, String) {
        (self.respond_to, self.id)
    }
}

impl<R> AddStep<R> {
    /// Who is answered, or waits for the answer.
    pub open spec fn caller(self) -> Option<(R, String)> {
        match self {
            AddStep::Ignored => None,
            AddStep::Answer(reply) => Some(reply.caller()),
            AddStep::FindSource(finish) => Some(finish.api.caller()),
            AddStep::EnsureParent(sourced) => Some(sourced.caller()),
            AddStep::FindOpenWorkspace(sourced) => Some(sourced.caller()),
            AddStep::CreateWorkspace(sourced) => Some(sourced.caller()),
            AddStep::Record { opened, .. } => Some(opened.caller()),
            AddStep::Describe { opened, .. } => Some(opened.caller()),
            AddStep::Announce { announced, .. } => Some((announced.respond_to, announced.id)),
        }
    }

    /// How many steps are left at most.
    pub open spec fn left(self) -> nat {
        match self {
            AddStep::FindSource(_) => 7,
            AddStep::EnsureParent(_) => 6,
            AddStep::FindOpenWorkspace(_) => 5,
            AddStep::CreateWorkspace(_) => 4,
            AddStep::Record { .. } => 3,
            AddStep::Describe { .. } => 2,
            AddStep::Announce { .. } => 1,
            AddStep::Answer(_) | AddStep::Ignored => 0,
        }
    }

    /// Whether the step `next` brings the request nearer to its end, for the same caller.
    pub open spec fn followed_by(self, next: AddStep<R>) -> bool {
        next.caller() == self.caller() && next.left() < self.left()
    }
}

/// Whether the dialog is about the checkout at `path`.
pub open spec fn create_dialog_for(dialog: Option<WorktreeCreateDialog>, path: PathView) -> bool {
    dialog matches Some(create) && components(create.checkout_path@) == components(path)
}

/// The dialog once the checkout at `path` could not be created: it waits again and shows why.
/// A dialog about another checkout stays.
pub open spec fn create_dialog_after_failure(
    dialog: Option<WorktreeCreateDialog>,
    path: PathView,
    error: String,
) -> Option<WorktreeCreateDialog> {
    if create_dialog_for(dialog, path) {
        Some(WorktreeCreateDialog { creating: false, error: Some(error), ..dialog->0 })
    } else {
        dialog
    }
}

/// How a worktree that is open at `workspace_idx` is recorded: an open workspace is focused if
/// the client wished, its membership is noted, and it gets the client's label.
pub open spec fn record_effects<R>(
    sourced: AddSourced<R>,
    workspace_idx: usize,
    created: bool,
) -> Seq<Effect> {
    let focus = if sourced.focus && !created {
        seq![Effect::SwitchWorkspace { workspace_idx }]
    } else {
        Seq::empty()
    };
    let mark = Effect::MarkMembership {
        source: sourced.source,
        workspace_idx,
        path: sourced.path,
        is_linked_worktree: true,
        already_open: !created,
    };
    let name = match sourced.label {
        Some(name) => seq![Effect::RenameWorkspace { workspace_idx, name }],
        None => Seq::empty(),
    };
    focus.push(mark) + name
}

/// Whether `step` records a worktree that is open at `workspace_idx`.
pub open spec fn recorded<R>(
    sourced: AddSourced<R>,
    workspace_idx: usize,
    created: bool,
    step: AddStep<R>,
) -> bool {
    &&& step matches AddStep::Record { effects, opened }
    &&& effects@ == record_effects(sourced, workspace_idx, created)
    &&& opened.path@ == sourced.path@
    &&& opened.workspace_idx == workspace_idx
    &&& opened.created == created
}

/// Records a worktree that is open at `workspace_idx`.
fn record<R>(sourced: AddSourced<R>, workspace_idx: usize, created: bool) -> (res: AddStep<R>)
    ensures
        recorded(sourced, workspace_idx, created, res),
        AddStep::CreateWorkspace(sourced).followed_by(res),
{
    let opened = AddOpened {
        id: sourced.id,
        respond_to: sourced.respond_to,
        path: sourced.path.clone(),
        workspace_idx,
        created,
    };
    let mut effects: Vec<Effect> = Vec::new();
    if sourced.focus && !created {
        effects.push(Effect::SwitchWorkspace { workspace_idx });
    }
    effects.push(
        Effect::MarkMembership {
            source: sourced.source,
            workspace_idx,
            path: sourced.path,
            is_linked_worktree: true,
            already_open: !created,
        },
    );
    if let Some(name) = sourced.label {
        effects.push(Effect::RenameWorkspace { workspace_idx, name });
    }
    assert(effects@ =~= record_effects(sourced, workspace_idx, created));
    AddStep::Record { effects, opened }
}

impl App {
    /// Takes in that a worktree was added, or was not. A result that is not of the creation under
    /// way for its checkout is stale and changes nothing.
    pub fn handle_api_worktree_add_finished<R>(&mut self, result: WorktreeAddResult<R>) -> (res:
        AddStep<R>)
        ensures
            old(self).ledger().moves_apart(final(self).ledger()),
            match result.api_request {
                None => res is Ignored && *final(self) == *old(self),
                Some(api) => {
                    let key = components(api.checkout_key@);
                    &&& res.caller() == Some(api.caller())
                    &&& final(self).same_but_ledger_and_dialogs(*old(self))
                    &&& final(self).same_input(*old(self))
                    &&& final(self).worktree_remove == old(self).worktree_remove
                    &&& if !old(self).ledger().create_is(key, api.operation_id) {
                        &&& *final(self) == *old(self)
                        &&& res matches AddStep::Answer(reply)
                        &&& reply.is_error(
                            "stale_worktree_operation"@,
                            "worktree create completed after the operation was superseded"@,
                        )
                    } else {
                        &&& final(self).ledger() == old(self).ledger().without_create(key)
                        &&& match result.result {
                            Err(error) => {
                                &&& final(self).worktree_create == create_dialog_after_failure(
                                    old(self).worktree_create,
                                    result.path@,
                                    error,
                                )
                                &&& res matches AddStep::Answer(reply)
                                &&& reply.is_error("worktree_create_failed"@, error@)
                            },
                            Ok(()) => {
                                &&& final(self).worktree_create == old(self).worktree_create
                                &&& res == AddStep::FindSource(
                                    AddFinish { path: result.path, api },
                                )
                            },
                        }
                    }
                },
            },
    {
        let api = match result.api_request {
            Some(api) => api,
            None => return AddStep::Ignored,
        };
        let operation_matches = match self.pending_api_worktree_creates.get(&api.checkout_key) {
            Some(operation_id) => operation_id == api.operation_id,
            None => false,
        };
        if !operation_matches {
            return AddStep::Answer(
                refuse(
                    api.respond_to,
                    api.id,
                    "stale_worktree_operation",
                    "worktree create completed after the operation was superseded",
                ),
            );
        }
        self.pending_api_worktree_creates.remove(&api.checkout_key);
        proof {
            let key = components(api.checkout_key@);
            assert(old(self).ledger().create_is(key, api.operation_id));
            assert(self.ledger() =~= old(self).ledger().without_create(key));
        }
        match result.result {
            Err(error) => {
                if let Some(create) = self.worktree_create.take() {
                    if create.checkout_path.same_path(&result.path) {
                        self.worktree_create = Some(
                            WorktreeCreateDialog {
                                checkout_path: create.checkout_path,
                                creating: false,
                                error: Some(error.clone()),
                            },
                        );
                    } else {
                        self.worktree_create = Some(create);
                    }
                }
                AddStep::Answer(
                    refuse_with(api.respond_to, api.id, "worktree_create_failed", error),
                )
            },
            Ok(()) => AddStep::FindSource(AddFinish { path: result.path, api }),
        }
    }

    /// Goes on once the source workspace was looked for.
    pub fn add_source_found<R>(&self, finish: AddFinish<R>, workspace_idx: Option<usize>) -> (res:
        AddStep<R>)
        ensures
            res == AddStep::EnsureParent(
                AddSourced {
                    id: finish.api.id,
                    respond_to: finish.api.respond_to,
                    label: finish.api.label,
                    focus: finish.api.focus,
                    path: finish.path,
                    source: WorktreeSource {
                        workspace_idx,
                        source_checkout_path: finish.api.source_checkout_path,
                        source_repo_root: finish.api.source_repo_root,
                        repo_key: finish.api.repo_key,
                        repo_name: finish.api.repo_name,
                    },
                },
            ),
            AddStep::FindSource(finish).followed_by(res),
    {
        let api = finish.api;
        AddStep::EnsureParent(
            AddSourced {
                id: api.id,
                respond_to: api.respond_to,
                label: api.label,
                focus: api.focus,
                path: finish.path,
                source: WorktreeSource {
                    workspace_idx,
                    source_checkout_path: api.source_checkout_path,
                    source_repo_root: api.source_repo_root,
                    repo_key: api.repo_key,
                    repo_name: api.repo_name,
                },
            },
        )
    }

    /// Goes on once a workspace stands for the source's repository. The host may have changed
    /// the source to name it.
    pub fn add_parent_ensured<R>(
        &self,
        sourced: AddSourced<R>,
        ensured: Result<WorktreeSource, ApiError>,
    ) -> (res: AddStep<R>)
        ensures
            match ensured {
                Ok(source) => res == AddStep::FindOpenWorkspace(AddSourced { source, ..sourced }),
                Err(error) => res matches AddStep::Answer(reply) && reply.is_error(
                    error.code@,
                    error.message@,
                ),
            },
            AddStep::EnsureParent(sourced).followed_by(res),
    {
        match ensured {
            Ok(source) => AddStep::FindOpenWorkspace(
                AddSourced {
                    id: sourced.id,
                    respond_to: sourced.respond_to,
                    label: sourced.label,
                    focus: sourced.focus,
                    path: sourced.path,
                    source,
                },
            ),
            Err(error) => AddStep::Answer(pass_on(sourced.respond_to, sourced.id, error)),
        }
    }

    /// Goes on once a workspace for the checkout was looked for.
    pub fn add_open_workspace_found<R>(&self, sourced: AddSourced<R>, found: Option<usize>) -> (res:
        AddStep<R>)
        ensures
            match found {
                Some(workspace_idx) => recorded(sourced, workspace_idx, false, res),
                None => res == AddStep::CreateWorkspace(sourced),
            },
            AddStep::FindOpenWorkspace(sourced).followed_by(res),
    {
        match found {
            Some(workspace_idx) => record(sourced, workspace_idx, false),
            None => AddStep::CreateWorkspace(sourced),
        }
    }

    /// Goes on once a workspace was made for the checkout, or was not.
    pub fn add_workspace_created<R>(
        &self,
        sourced: AddSourced<R>,
        made: Result<usize, String>,
    ) -> (res: AddStep<R>)
        ensures
            match made {
                Ok(workspace_idx) => recorded(sourced, workspace_idx, true, res),
                Err(error) => res matches AddStep::Answer(reply) && reply.is_error(
                    "worktree_open_failed"@,
                    "created worktree but failed to open workspace: "@ + error@,
                ),
            },
            AddStep::CreateWorkspace(sourced).followed_by(res),
    {
        match made {
            Ok(workspace_idx) => record(sourced, workspace_idx, true),
            Err(error) => {
                let message = "created worktree but failed to open workspace: ".to_string().concat(
                    error.as_str(),
                );
                AddStep::Answer(
                    refuse_with(sourced.respond_to, sourced.id, "worktree_open_failed", message),
                )
            },
        }
    }

    /// Closes the dialog that asked for the worktree, and has the session saved.
    pub fn add_membership_recorded<R>(&mut self, opened: AddOpened<R>) -> (res: AddStep<R>)
        ensures
            final(self).same_but_ledger_and_dialogs(*old(self)),
            final(self).ledger() == old(self).ledger(),
            final(self).worktree_remove == old(self).worktree_remove,
            if create_dialog_for(old(self).worktree_create, opened.path@) {
                &&& final(self).worktree_create is None
                &&& final(self).name_input@ == Seq::<char>::empty()
                &&& !final(self).name_input_replace_on_type
                &&& final(self).mode == Mode::Terminal
            } else {
                &&& final(self).worktree_create == old(self).worktree_create
                &&& final(self).same_input(*old(self))
            },
            res matches AddStep::Describe { effects, opened: o } && o == opened && effects@
                == if opened.created {
                seq![
                    Effect::MarkSessionDirty,
                    Effect::EmitWorkspaceOpened { workspace_idx: opened.workspace_idx },
                ]
            } else {
                seq![Effect::MarkSessionDirty]
            },
            forall|effects: Vec<Effect>|
                #![trigger (AddStep::Record { effects, opened }).followed_by(res)]
                (AddStep::Record { effects, opened }).followed_by(res),
    {
        let matching = match &self.worktree_create {
            Some(create) => create.checkout_path.same_path(&opened.path),
            None => false,
        };
        if matching {
            self.worktree_create = None;
            self.name_input = String::new();
            self.name_input_replace_on_type = false;
            self.mode = Mode::Terminal;
        }
        let mut effects: Vec<Effect> = Vec::new();
        effects.push(Effect::MarkSessionDirty);
        if opened.created {
            effects.push(Effect::EmitWorkspaceOpened { workspace_idx: opened.workspace_idx });
        }
        AddStep::Describe { effects, opened }
    }

    /// Tells clients of the worktree.
    pub fn add_described<R>(&self, opened: AddOpened<R>, info: Option<WorktreeInfo>) -> (res:
        AddStep<R>)
        ensures
            match info {
                None => res matches AddStep::Answer(reply) && reply.is_error(
                    "worktree_open_failed"@,
                    "created worktree but failed to record workspace membership"@,
                ),
                Some(worktree) => {
                    &&& res matches AddStep::Announce { effects, announced }
                    &&& effects@ == seq![
                        Effect::EmitWorktreeCreated {
                            workspace_idx: opened.workspace_idx,
                            worktree,
                        },
                    ]
                    &&& announced.workspace_idx == opened.workspace_idx
                    &&& announced.worktree == worktree
                },
            },
            forall|effects: Vec<Effect>|
                #![trigger (AddStep::Describe { effects, opened }).followed_by(res)]
                (AddStep::Describe { effects, opened }).followed_by(res),
    {
        match info {
            None => AddStep::Answer(
                refuse(
                    opened.respond_to,
                    opened.id,
                    "worktree_open_failed",
                    "created worktree but failed to record workspace membership",
                ),
            ),
            Some(worktree) => {
                let mut effects: Vec<Effect> = Vec::new();
                effects.push(
                    Effect::EmitWorktreeCreated {
                        workspace_idx: opened.workspace_idx,
                        worktree: worktree.clone(),
                    },
                );
                AddStep::Announce {
                    effects,
                    announced: AddAnnounced {
                        id: opened.id,
                        respond_to: opened.respond_to,
                        workspace_idx: opened.workspace_idx,
                        worktree,
                    },
                }
            },
        }
    }

    /// Answers that the worktree was created.
    pub fn add_announced<R>(&self, announced: AddAnnounced<R>) -> (res: Reply<R>)
        requires
            announced.workspace_idx < self.workspaces@.len(),
        ensures
            res == (Reply {
                respond_to: announced.respond_to,
                response: Response::WorktreeCreated {
                    id: announced.id,
                    workspace_idx: announced.workspace_idx,
                    tab_idx: self.workspaces@[announced.workspace_idx as int].active_tab,
                    worktree: announced.worktree,
                },
            }),
            forall|effects: Vec<Effect>|
                #![trigger (AddStep::Announce { effects, announced }).followed_by(AddStep::Answer(res))]
                (AddStep::Announce { effects, announced }).followed_by(AddStep::Answer(res)),
    {
        self.created_reply(
            announced.respond_to,
            announced.id,
            announced.workspace_idx,
            announced.worktree,
        )
    }
}

} // verus!
