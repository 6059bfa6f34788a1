//! The state of the application that the worktree operations work on.

use vstd::prelude::*;

use crate::branch_out::BranchOutStep;
use crate::create::CreateStep;
use crate::ledger::Ledger;
use crate::model::{Mode, Workspace, WorktreeCreateDialog, WorktreeInfo, WorktreeRemoveDialog};
use crate::path::WorktreePath;
use crate::pending::PendingTable;
use crate::prefix::Platform;
use crate::protocol::{Method, Reply, Request, Response};
use crate::remove::RemoveStep;

verus! {

/// The application.
pub struct App {
    pub workspaces: Vec<Workspace>,
    pub active: Option<usize>,
    pub mode: Mode,
    pub name_input: String,
    pub name_input_replace_on_type: bool,
    pub worktree_create: Option<WorktreeCreateDialog>,
    pub worktree_remove: Option<WorktreeRemoveDialog>,
    /// What the application runs on. On Windows a checkout is looked through for changes before it
    /// is removed.
    pub platform: Platform,
    pub pending_api_worktree_creates: PendingTable<WorktreePath>,
    pub pending_api_worktree_removes: PendingTable<String>,
    pub pending_api_worktree_remove_paths: PendingTable<WorktreePath>,
    pub next_api_worktree_operation_id: u64,
}

/// What a deferred request does first.
pub enum DeferredStep<R> {
    Create(CreateStep<R>),
    BranchOut(BranchOutStep<R>),
    Remove(RemoveStep<R>),
}

impl<R> DeferredStep<R> {
    /// Who waits for the answer.
    pub open spec fn caller(self) -> (R, String) {
        match self {
            DeferredStep::Create(step) => step.caller(),
            DeferredStep::BranchOut(step) => step.caller(),
            DeferredStep::Remove(step) => step.caller(),
        }
    }
}

impl App {
    /// The operations under way.
    pub open spec fn ledger(self) -> Ledger {
        Ledger {
            creates: self.pending_api_worktree_creates@,
            removes: self.pending_api_worktree_removes@,
            remove_paths: self.pending_api_worktree_remove_paths@,
            next_id: self.next_api_worktree_operation_id,
        }
    }

    /// Whether the two states differ in nothing but the operations under way.
    pub open spec fn same_but_ledger(self, other: App) -> bool {
        &&& self.same_but_ledger_and_dialogs(other)
        &&& self.worktree_create == other.worktree_create
        &&& self.worktree_remove == other.worktree_remove
        &&& self.same_input(other)
    }

    /// Whether the keyboard input of the two states is the same.
    pub open spec fn same_input(self, other: App) -> bool {
        &&& self.mode == other.mode
        &&& self.name_input == other.name_input
        &&& self.name_input_replace_on_type == other.name_input_replace_on_type
    }

    /// Whether the two states differ in nothing but the operations under way, the dialogs and
    /// the keyboard input.
    pub open spec fn same_but_ledger_and_dialogs(self, other: App) -> bool {
        &&& self.workspaces == other.workspaces
        &&& self.active == other.active
        &&& self.platform == other.platform
    }

    /// Answers a request.
    pub fn send_api_response<R>(respond_to: R, response: Response) -> (res: Reply<R>)
        ensures
            res == (Reply { respond_to, response }),
    {
        Reply { respond_to, response }
    }

    /// Gives out an operation number. The largest number is given out again and again.
    pub fn next_api_worktree_operation_id(&mut self) -> (res: u64)
        ensures
            res == old(self).next_api_worktree_operation_id,
            final(self).ledger() == old(self).ledger().issued(),
            old(self).ledger().moves_apart(final(self).ledger()),
            final(self).same_but_ledger(*old(self)),
    {
        let id: u64 = self.next_api_worktree_operation_id;
        self.next_api_worktree_operation_id = self.next_api_worktree_operation_id.saturating_add(1);
        id
    }

    /// Starts on a request that is answered later. Other requests are not taken.
    pub fn handle_deferred_worktree_api_request<R>(
        &self,
        request: Request,
        respond_to: R,
    ) -> (res: Option<DeferredStep<R>>)
        ensures
            res is None <==> request.method is Other,
            res matches Some(step) ==> step.caller() == (respond_to, request.id),
            match request.method {
                Method::WorktreeCreate(params) => res matches Some(DeferredStep::Create(step))
                    && self.create_started(request.id, params, respond_to, step),
                Method::WorktreeBranchOut(params) => res matches Some(DeferredStep::BranchOut(step))
                    && self.branch_out_started(request.id, params, respond_to, step),
                Method::WorktreeRemove(params) => res matches Some(DeferredStep::Remove(step))
                    && self.remove_started(request.id, params, respond_to, step),
                Method::Other => true,
            },
    {
        match request.method {
            Method::WorktreeCreate(params) => Some(
                DeferredStep::Create(self.start_api_worktree_create(request.id, params, respond_to)),
            ),
            Method::WorktreeBranchOut(params) => Some(
                DeferredStep::BranchOut(
                    self.start_api_worktree_branch_out(request.id, params, respond_to),
                ),
            ),
            Method::WorktreeRemove(params) => Some(
                DeferredStep::Remove(self.start_api_worktree_remove(request.id, params, respond_to)),
            ),
            Method::Other => None,
        }
    }

    /// Answers that a worktree was created and is open in a workspace.
    pub fn created_reply<R>(
        &self,
        respond_to: R,
        id: String,
        workspace_idx: usize,
        worktree: WorktreeInfo,
    ) -> (res: Reply<R>)
        requires
            workspace_idx < self.workspaces@.len(),
        ensures
            res == (Reply {
                respond_to,
                response: Response::WorktreeCreated {
                    id,
                    workspace_idx,
                    tab_idx: self.workspaces@[workspace_idx as int].active_tab,
                    worktree,
                },
            }),
    {
        let tab_idx: usize = self.workspaces[workspace_idx].active_tab;
        Self::send_api_response(
            respond_to,
            Response::WorktreeCreated { id, workspace_idx, tab_idx, worktree },
        )
    }
}

} // verus!
