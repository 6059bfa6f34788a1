//! Requests, answers, and what the host is asked to do.

use vstd::prelude::*;

use crate::app::App;
use crate::model::{WorkspaceInfo, WorktreeInfo, WorktreeSource};
use crate::path::WorktreePath;

verus! {

/// A request to create a worktree.
pub struct WorktreeCreateParams {
    pub workspace_id: Option<String>,
    pub cwd: Option<String>,
    pub branch: Option<String>,
    pub base: Option<String>,
    pub path: Option<String>,
    pub label: Option<String>,
    pub focus: bool,
}

/// A request to remove the worktree of a workspace.
pub struct WorktreeRemoveParams {
    pub workspace_id: String,
    pub force: bool,
}

/// A request to create one branch in every base repository.
pub struct WorktreeBranchOutParams {
    pub parent_workspace_id: String,
    pub branch: String,
    pub label: Option<String>,
}

/// What a client asks for.
pub enum Method {
    WorktreeCreate(WorktreeCreateParams),
    WorktreeBranchOut(WorktreeBranchOutParams),
    WorktreeRemove(WorktreeRemoveParams),
    Other,
}

/// A client's request.
pub struct Request {
    pub id: String,
    pub method: Method,
}

/// Why the host could not do what it was asked.
pub struct ApiError {
    pub code: String,
    pub message: String,
}

/// The answer to a request.
pub enum Response {
    Error { id: String, code: String, message: String },
    /// The host adds what it knows of the workspace, of its tab and of the tab's root pane.
    WorktreeCreated { id: String, workspace_idx: usize, tab_idx: usize, worktree: WorktreeInfo },
    WorktreeRemoved { id: String, workspace_id: String, path: String, forced: bool },
}

impl Response {
    /// The id of the request that is answered.
    pub open spec fn request_id(self) -> String {
        match self {
            Response::Error { id, .. } => id,
            Response::WorktreeCreated { id, .. } => id,
            Response::WorktreeRemoved { id, .. } => id,
        }
    }
}

/// An answer and where it goes.
pub struct Reply<R> {
    pub respond_to: R,
    pub response: Response,
}

impl<R> Reply<R> {
    /// Who is answered: the handle to answer through and the id of the request.
    pub open spec fn caller(self) -> (R, String) {
        (self.respond_to, self.response.request_id())
    }

    /// Whether the answer is the error with the given code and message.
    pub open spec fn is_error(self, code: Seq<char>, message: Seq<char>) -> bool {
        self.response matches Response::Error { code: c, message: m, .. } && c@ == code && m@
            == message
    }
}

/// Answers with an error of the library's own.
pub fn refuse<R>(respond_to: R, id: String, code: &str, message: &str) -> (res: Reply<R>)
    ensures
        res.caller() == (respond_to, id),
        res.is_error(code@, message@),
{
    refuse_with(respond_to, id, code, message.to_string())
}

/// Answers with an error whose message was put together.
pub fn refuse_with<R>(respond_to: R, id: String, code: &str, message: String) -> (res: Reply<R>)
    ensures
        res.caller() == (respond_to, id),
        res.is_error(code@, message@),
        res.response matches Response::Error { message: m, .. } && m == message,
{
    App::send_api_response(respond_to, Response::Error { id, code: code.to_string(), message })
}

/// Answers with an error that the host reported.
pub fn pass_on<R>(respond_to: R, id: String, error: ApiError) -> (res: Reply<R>)
    ensures
        res == (Reply {
            respond_to,
            response: Response::Error { id, code: error.code, message: error.message },
        }),
{
    App::send_api_response(
        respond_to,
        Response::Error { id, code: error.code, message: error.message },
    )
}

/// Something the host does without reporting back. The effects of a step are done in their
/// order, after the step and before the next one.
pub enum Effect {
    /// Focus a workspace.
    SwitchWorkspace { workspace_idx: usize },
    /// Record that a workspace is a checkout of the source's repository. `already_open` says
    /// that the workspace was there before the worktree.
    MarkMembership {
        source: WorktreeSource,
        workspace_idx: usize,
        path: WorktreePath,
        is_linked_worktree: bool,
        already_open: bool,
    },
    /// Give a workspace a name, if the workspace is there.
    RenameWorkspace { workspace_idx: usize, name: String },
    /// Give a tab a name, if the workspace and the tab are there.
    RenameTab { workspace_idx: usize, tab_idx: usize, name: String },
    /// Register the runtime of a terminal that was made for a new tab, under the terminal's id.
    RegisterTerminalRuntime { terminal_id: String },
    /// Register a terminal that was made for a new tab, under its id.
    RegisterTerminal { terminal_id: String },
    /// Drop the alias that the root pane of a new tab stands in front of, if there is one.
    RemoveShadowedAlias { workspace_idx: usize, tab_idx: usize },
    /// Focus a tab of a workspace.
    SwitchTab { workspace_idx: usize, tab_idx: usize },
    /// Note that the session has to be saved.
    MarkSessionDirty,
    /// Note that the screen has to be drawn, and wake up whoever draws it.
    RequestRender,
    /// Tell clients that a workspace was opened.
    EmitWorkspaceOpened { workspace_idx: usize },
    /// Tell clients that a worktree was created.
    EmitWorktreeCreated { workspace_idx: usize, worktree: WorktreeInfo },
    /// Close the workspace of a worktree that was removed.
    CloseWorkspace { workspace_idx: usize },
    /// End the terminals of a workspace whose worktree is about to be removed.
    ShutdownWorkspaceRuntimes { workspace_idx: usize },
    /// End the terminals that no workspace shows any more.
    ShutdownDetachedRuntimes,
    /// Tell clients that a workspace was closed.
    EmitWorkspaceClosed { workspace_id: String, workspace: Option<WorkspaceInfo> },
    /// Tell clients that a worktree was removed.
    EmitWorktreeRemoved {
        workspace_id: String,
        workspace: Option<WorkspaceInfo>,
        worktree: WorktreeInfo,
        forced: bool,
    },
}

} // verus!
