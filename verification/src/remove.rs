//! Removing one worktree.
//!
//! A request goes through `App::start_api_worktree_remove` and the steps after it until it is
//! answered or a job is spawned.

use vstd::prelude::*;

use crate::app::App;
use crate::laws::law_removal_in_both;
use crate::model::{WorkspaceInfo, WorktreeInfo, WorktreeSpaceMembership};
use crate::path::{components, WorktreePath};
use crate::prefix::Platform;
use crate::protocol::{refuse, refuse_with, Effect, Reply, WorktreeRemoveParams};

verus! {

/// A request whose workspace is not known yet.
pub struct RemoveRequest<R> {
    pub id: String,
    pub params: WorktreeRemoveParams,
    pub respond_to: R,
}

/// A request whose worktree is known.
pub struct RemovePlan<R> {
    pub id: String,
    pub respond_to: R,
    pub workspace_idx: usize,
    pub workspace_internal_id: String,
    pub space: WorktreeSpaceMembership,
    pub force: bool,
}

/// What an API request needs once its worktree was removed.
pub struct ApiWorktreeRemoveRequest<R> {
    pub id: String,
    pub operation_id: u64,
    pub checkout_key: WorktreePath,
    pub respond_to: R,
}

/// The work of removing a worktree. First the host writes down what clients see of the workspace
/// and of the worktree. Then git removes the space's `checkout_path` from its `repo_root`.
pub struct RemoveJob<R> {
    pub workspace_idx: usize,
    pub workspace_internal_id: String,
    pub space: WorktreeSpaceMembership,
    pub force: bool,
    pub api_request: ApiWorktreeRemoveRequest<R>,
}

/// Why a worktree was not removed.
pub struct RemoveFailure {
    pub message: String,
    /// Whether the message says that the worktree has changes.
    pub dirty_worktree: bool,
}

/// The result of removing a worktree.
pub struct WorktreeRemoveResult<R> {
    pub workspace_id: String,
    pub path: WorktreePath,
    pub workspace: Option<WorkspaceInfo>,
    pub worktree: Option<WorktreeInfo>,
    pub forced: bool,
    pub api_request: Option<ApiWorktreeRemoveRequest<R>>,
    pub result: Result<(), RemoveFailure>,
}

/// What happens next to a request to remove a worktree.
pub enum RemoveStep<R> {
    Answer(Reply<R>),
    /// Find the workspace by the public id in the parameters, then `remove_workspace_parsed`.
    ParseWorkspaceId(RemoveRequest<R>),
    /// Look for changes in the space's `checkout_path`, then `remove_changes_looked_for`.
    LookForChanges(RemovePlan<R>),
    /// Say in words that the space's `checkout_path` has changes, then
    /// `remove_changes_described`.
    DescribeChanges(RemovePlan<R>),
    /// Find the canonical form of the space's `checkout_path`, if it has one, and whether the
    /// terminals of a workspace end before a removal with this `force`, then
    /// `remove_checkout_keyed`.
    Canonicalize(RemovePlan<R>),
    /// Do the effects, run the job, then hand its result to
    /// `handle_api_worktree_remove_finished`.
    Spawn { effects: Vec<Effect>, job: RemoveJob<R> },
}

impl<R> RemovePlan<R> {
    /// Who waits for the answer.
    pub open spec fn caller(self) -> (R, String) {
        (self.respond_to, self.id)
    }
}

impl<R> ApiWorktreeRemoveRequest<R> {
    /// Who waits for the answer.
    pub open spec fn caller(self) -> (R, String) {
        (self.respond_to, self.id)
    }
}

impl<R> RemoveStep<R> {
    /// Who is answered, or waits for the answer.
    pub open spec fn caller(self) -> (R, String) {
        match self {
            RemoveStep::Answer(reply) => reply.caller(),
            RemoveStep::ParseWorkspaceId(request) => (request.respond_to, request.id),
            RemoveStep::LookForChanges(plan) => plan.caller(),
            RemoveStep::DescribeChanges(plan) => plan.caller(),
            RemoveStep::Canonicalize(plan) => plan.caller(),
            RemoveStep::Spawn { job, .. } => job.api_request.caller(),
        }
    }

    /// How many steps are left at most.
    pub open spec fn left(self) -> nat {
        match self {
            RemoveStep::ParseWorkspaceId(_) => 3,
            RemoveStep::LookForChanges(_) => 2,
            RemoveStep::DescribeChanges(_) | RemoveStep::Canonicalize(_) => 1,
            RemoveStep::Answer(_) | RemoveStep::Spawn { .. } => 0,
        }
    }

    /// Whether the step `next` brings the request nearer to its end, for the same caller.
    pub open spec fn followed_by(self, next: RemoveStep<R>) -> bool {
        next.caller() == self.caller() && next.left() < self.left()
    }
}

impl<R> RemoveJob<R> {
    /// Ends the job with what git said. The other two are what clients saw of the workspace and
    /// of the worktree when the job started.
    pub fn removed(
        self,
        workspace: WorkspaceInfo,
        worktree: WorktreeInfo,
        result: Result<(), RemoveFailure>,
    ) -> (res: WorktreeRemoveResult<R>)
        ensures
            res == (WorktreeRemoveResult {
                workspace_id: self.workspace_internal_id,
                path: self.space.checkout_path,
                workspace: Some(workspace),
                worktree: Some(worktree),
                forced: self.force,
                api_request: Some(self.api_request),
                result,
            }),
    {
        WorktreeRemoveResult {
            workspace_id: self.workspace_internal_id,
            path: self.space.checkout_path,
            workspace: Some(workspace),
            worktree: Some(worktree),
            forced: self.force,
            api_request: Some(self.api_request),
            result,
        }
    }
}

impl App {
    /// How a request to remove a worktree starts.
    pub open spec fn remove_started<R>(
        self,
        id: String,
        params: WorktreeRemoveParams,
        respond_to: R,
        step: RemoveStep<R>,
    ) -> bool {
        step == RemoveStep::ParseWorkspaceId(RemoveRequest { id, params, respond_to })
    }

    /// Starts to remove a worktree.
    pub fn start_api_worktree_remove<R>(
        &self,
        id: String,
        params: WorktreeRemoveParams,
        respond_to: R,
    ) -> (res: RemoveStep<R>)
        ensures
            self.remove_started(id, params, respond_to, res),
            res.caller() == (respond_to, id),
    {
        RemoveStep::ParseWorkspaceId(RemoveRequest { id, params, respond_to })
    }

    /// Whether `plan` is the plan to remove the worktree of the workspace at `idx`.
    pub open spec fn remove_plan_for<R>(
        self,
        request: RemoveRequest<R>,
        idx: usize,
        plan: RemovePlan<R>,
    ) -> bool {
        let workspace = self.workspaces@[idx as int];
        &&& plan.workspace_idx == idx
        &&& plan.workspace_internal_id == workspace.id
        &&& plan.space@ == workspace.worktree_space->0@
        &&& plan.force == request.params.force
    }

    /// Goes on once the workspace was looked for. Only a linked worktree is removed.
    pub fn remove_workspace_parsed<R>(&self, request: RemoveRequest<R>, parsed: Option<usize>) -> (
    res: RemoveStep<R>)
        ensures
            RemoveStep::ParseWorkspaceId(request).followed_by(res),
            match parsed {
                None => res matches RemoveStep::Answer(reply) && reply.is_error(
                    "workspace_not_found"@,
                    "workspace "@ + request.params.workspace_id@ + " not found"@,
                ),
                Some(idx) => if idx >= self.workspaces@.len()
                    || self.workspaces@[idx as int].worktree_space is None {
                    res matches RemoveStep::Answer(reply) && reply.is_error(
                        "not_linked_worktree"@,
                        "workspace is not a Herdr-managed worktree checkout"@,
                    )
                } else if !self.workspaces@[idx as int].worktree_space->0.is_linked_worktree {
                    res matches RemoveStep::Answer(reply) && reply.is_error(
                        "not_linked_worktree"@,
                        "workspace is not a linked worktree checkout"@,
                    )
                } else if self.platform == Platform::Windows && !request.params.force {
                    res matches RemoveStep::LookForChanges(plan) && self.remove_plan_for(
                        request,
                        idx,
                        plan,
                    )
                } else {
                    res matches RemoveStep::Canonicalize(plan) && self.remove_plan_for(
                        request,
                        idx,
                        plan,
                    )
                },
            },
    {
        let workspace_idx: usize = match parsed {
            Some(idx) => idx,
            None => {
                let message = "workspace ".to_string().concat(
                    request.params.workspace_id.as_str(),
                ).concat(" not found");
                return RemoveStep::Answer(
                    refuse_with(request.respond_to, request.id, "workspace_not_found", message),
                );
            },
        };
        let managed = workspace_idx < self.workspaces.len()
            && self.workspaces[workspace_idx].worktree_space.is_some();
        if !managed {
            return RemoveStep::Answer(
                refuse(
                    request.respond_to,
                    request.id,
                    "not_linked_worktree",
                    "workspace is not a Herdr-managed worktree checkout",
                ),
            );
        }
        let workspace = &self.workspaces[workspace_idx];
        let space: WorktreeSpaceMembership = workspace.worktree_space.as_ref().unwrap().clone();
        if !space.is_linked_worktree {
            return RemoveStep::Answer(
                refuse(
                    request.respond_to,
                    request.id,
                    "not_linked_worktree",
                    "workspace is not a linked worktree checkout",
                ),
            );
        }
        let plan = RemovePlan {
            id: request.id,
            respond_to: request.respond_to,
            workspace_idx,
            workspace_internal_id: workspace.id.clone(),
            space,
            force: request.params.force,
        };
        if self.platform == Platform::Windows && !request.params.force {
            RemoveStep::LookForChanges(plan)
        } else {
            RemoveStep::Canonicalize(plan)
        }
    }

    /// Goes on once the checkout was looked through. Where that failed, git has the last word.
    pub fn remove_changes_looked_for<R>(&self, plan: RemovePlan<R>, changed: Option<bool>) -> (res:
        RemoveStep<R>)
        ensures
            res == if changed == Some(true) {
                RemoveStep::DescribeChanges(plan)
            } else {
                RemoveStep::Canonicalize(plan)
            },
            RemoveStep::LookForChanges(plan).followed_by(res),
    {
        match changed {
            Some(true) => RemoveStep::DescribeChanges(plan),
            _ => RemoveStep::Canonicalize(plan),
        }
    }

    /// Refuses to remove a worktree with changes.
    pub fn remove_changes_described<R>(&self, plan: RemovePlan<R>, message: String) -> (res:
        RemoveStep<R>)
        ensures
            RemoveStep::DescribeChanges(plan).followed_by(res),
            res matches RemoveStep::Answer(reply) && reply.is_error(
                "dirty_worktree_requires_force"@,
                message@,
            ),
    {
        RemoveStep::Answer(
            refuse_with(plan.respond_to, plan.id, "dirty_worktree_requires_force", message),
        )
    }

    /// Registers the removal and spawns its job, unless an operation on the workspace or on the
    /// checkout is under way. Where `ends_terminals` is set, the workspace's terminals end before
    /// the job.
    pub fn remove_checkout_keyed<R>(
        &mut self,
        plan: RemovePlan<R>,
        checkout_key: WorktreePath,
        ends_terminals: bool,
    ) -> (res: RemoveStep<R>)
        ensures
            final(self).same_but_ledger(*old(self)),
            old(self).ledger().moves_apart(final(self).ledger()),
            old(self).ledger().balanced() ==> final(self).ledger().balanced(),
            RemoveStep::Canonicalize(plan).followed_by(res),
            if old(self).ledger().remove_busy(
                plan.workspace_internal_id@,
                components(checkout_key@),
            ) {
                &&& final(self).ledger() == old(self).ledger()
                &&& res matches RemoveStep::Answer(reply)
                &&& reply.is_error(
                    "worktree_operation_in_progress"@,
                    "worktree operation is already in progress for this checkout"@,
                )
            } else {
                &&& final(self).ledger() == old(self).ledger().with_remove(
                    plan.workspace_internal_id@,
                    components(checkout_key@),
                )
                &&& res matches RemoveStep::Spawn { effects, job }
                &&& effects@ == if ends_terminals {
                    seq![Effect::ShutdownWorkspaceRuntimes { workspace_idx: plan.workspace_idx }]
                } else {
                    Seq::empty()
                }
                &&& job == RemoveJob {
                    workspace_idx: plan.workspace_idx,
                    workspace_internal_id: plan.workspace_internal_id,
                    space: plan.space,
                    force: plan.force,
                    api_request: ApiWorktreeRemoveRequest {
                        id: plan.id,
                        operation_id: old(self).ledger().next_id,
                        checkout_key,
                        respond_to: plan.respond_to,
                    },
                }
            },
    {
        if self.pending_api_worktree_removes.contains_key(&plan.workspace_internal_id)
            || self.pending_api_worktree_remove_paths.contains_key(&checkout_key)
            || self.pending_api_worktree_creates.contains_key(&checkout_key) {
            return RemoveStep::Answer(
                refuse(
                    plan.respond_to,
                    plan.id,
                    "worktree_operation_in_progress",
                    "worktree operation is already in progress for this checkout",
                ),
            );
        }
        proof {
            self.pending_api_worktree_removes.law_finite();
            self.pending_api_worktree_remove_paths.law_finite();
            law_removal_in_both(
                self.ledger(),
                plan.workspace_internal_id@,
                components(checkout_key@),
            );
        }
        let operation_id: u64 = self.next_api_worktree_operation_id();
        self.pending_api_worktree_removes.insert(plan.workspace_internal_id.clone(), operation_id);
        self.pending_api_worktree_remove_paths.insert(checkout_key.clone(), operation_id);
        let mut effects: Vec<Effect> = Vec::new();
        if ends_terminals {
            effects.push(Effect::ShutdownWorkspaceRuntimes { workspace_idx: plan.workspace_idx });
        }
        RemoveStep::Spawn {
            effects,
            job: RemoveJob {
                workspace_idx: plan.workspace_idx,
                workspace_internal_id: plan.workspace_internal_id,
                space: plan.space,
                force: plan.force,
                api_request: ApiWorktreeRemoveRequest {
                    id: plan.id,
                    operation_id,
                    checkout_key,
                    respond_to: plan.respond_to,
                },
            },
        }
    }
}

} // verus!
