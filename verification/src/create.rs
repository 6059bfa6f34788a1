//! Creating one worktree.
//!
//! A request goes through `App::start_api_worktree_create` and the steps after it until it is
//! answered or a job is spawned. The job's result goes through
//! `App::handle_api_worktree_add_finished` and the steps after it until the request is answered.

use vstd::prelude::*;

use crate::app::App;
use crate::model::{
    copy_text, find_workspace, membership_view, workspace_index, MembershipView, Workspace,
    WorktreeSource, WorktreeSpaceMembership,
};
use crate::path::{components, parent_of, WorktreePath};
use crate::protocol::{pass_on, refuse, ApiError, Reply, WorktreeCreateParams};
use crate::text::{or_head, revision_or_head, trimmed};

verus! {

/// The number that a generated branch name is made from: the microseconds since 1970, as far as
/// they fit, or zero where the clock stands before 1970.
pub fn branch_seed(micros_since_epoch: Option<u128>) -> (res: u64)
    ensures
        res == match micros_since_epoch {
            Some(micros) => if micros <= u64::MAX {
                micros as u64
            } else {
                u64::MAX
            },
            None => 0u64,
        },
{
    match micros_since_epoch {
        Some(micros) => if micros <= 0xffff_ffff_ffff_ffffu128 {
            micros as u64
        } else {
            u64::MAX
        },
        None => 0,
    }
}

/// A request that waits for a generated branch name.
pub struct CreateRequest<R> {
    pub id: String,
    pub params: WorktreeCreateParams,
    pub respond_to: R,
}

/// A request whose branch is known.
pub struct CreatePlan<R> {
    pub id: String,
    pub respond_to: R,
    pub branch: String,
    pub base: String,
    pub workspace_id: Option<String>,
    pub cwd: Option<String>,
    pub path: Option<String>,
    pub label: Option<String>,
    pub focus: bool,
}

/// A request whose source is known too.
pub struct CreateSourced<R> {
    pub plan: CreatePlan<R>,
    pub source: WorktreeSource,
}

/// A request whose checkout path is known too.
pub struct CreateLocated<R> {
    pub plan: CreatePlan<R>,
    pub source: WorktreeSource,
    pub checkout_path: WorktreePath,
}

/// What an API request needs once its worktree was added.
pub struct ApiWorktreeAddRequest<R> {
    pub id: String,
    pub operation_id: u64,
    pub checkout_key: WorktreePath,
    pub source_workspace_id: Option<String>,
    pub source_existing_membership: Option<WorktreeSpaceMembership>,
    pub source_checkout_path: WorktreePath,
    pub source_repo_root: WorktreePath,
    pub repo_key: String,
    pub repo_name: String,
    pub label: Option<String>,
    pub focus: bool,
    pub respond_to: R,
}

/// The work of adding a worktree. The host makes `parent_dir`, then runs git in the request's
/// `source_checkout_path` to add `path` on the new branch `branch` from `base`.
pub struct AddJob<R> {
    pub parent_dir: Option<WorktreePath>,
    pub path: WorktreePath,
    pub branch: String,
    pub base: String,
    pub api_request: ApiWorktreeAddRequest<R>,
}

/// The result of adding a worktree.
pub struct WorktreeAddResult<R> {
    pub path: WorktreePath,
    pub api_request: Option<ApiWorktreeAddRequest<R>>,
    pub result: Result<(), String>,
}

/// What an add job does next.
pub enum AddJobStep<R> {
    RunGit(AddJob<R>),
    Done(WorktreeAddResult<R>),
}

/// What happens next to a request to create a worktree.
pub enum CreateStep<R> {
    Answer(Reply<R>),
    /// Make up a branch name from the clock, then `create_branch_generated`.
    GenerateBranch(CreateRequest<R>),
    /// Find the source by the plan's `workspace_id` and `cwd`, then `create_source_resolved`.
    ResolveSource(CreatePlan<R>),
    /// Make the plan's `path` absolute, then `create_checkout_located`.
    AbsolutePath(CreateSourced<R>),
    /// Find the default path for the source's `repo_name` and the plan's `branch`, then
    /// `create_checkout_located`.
    DefaultPath(CreateSourced<R>),
    /// Find the canonical form of `checkout_path`, if it has one, then `create_checkout_keyed`.
    Canonicalize(CreateLocated<R>),
    /// Run the job, then hand its result to `handle_api_worktree_add_finished`.
    Spawn(AddJob<R>),
}

impl<R> CreatePlan<R> {
    /// Who waits for the answer.
    pub open spec fn caller(self) -> (R, String) {
        (self.respond_to, self.id)
    }
}

impl<R> ApiWorktreeAddRequest<R> {
    /// Who waits for the answer.
    pub open spec fn caller(self) -> (R, String) {
        (self.respond_to, self.id)
    }
}

impl<R> CreateStep<R> {
    /// Who is answered, or waits for the answer.
    pub open spec fn caller(self) -> (R, String) {
        match self {
            CreateStep::Answer(reply) => reply.caller(),
            CreateStep::GenerateBranch(request) => (request.respond_to, request.id),
            CreateStep::ResolveSource(plan) => plan.caller(),
            CreateStep::AbsolutePath(sourced) => sourced.plan.caller(),
            CreateStep::DefaultPath(sourced) => sourced.plan.caller(),
            CreateStep::Canonicalize(located) => located.plan.caller(),
            CreateStep::Spawn(job) => job.api_request.caller(),
        }
    }

    /// How many steps are left at most.
    pub open spec fn left(self) -> nat {
        match self {
            CreateStep::GenerateBranch(_) => 4,
            CreateStep::ResolveSource(_) => 3,
            CreateStep::AbsolutePath(_) | CreateStep::DefaultPath(_) => 2,
            CreateStep::Canonicalize(_) => 1,
            CreateStep::Answer(_) | CreateStep::Spawn(_) => 0,
        }
    }

    /// Whether the step `next` brings the request nearer to its end, for the same caller.
    pub open spec fn followed_by(self, next: CreateStep<R>) -> bool {
        next.caller() == self.caller() && next.left() < self.left()
    }
}

impl<R> AddJob<R> {
    /// Goes on once the parent directory was made. A path without a parent needs none.
    pub fn parent_made(self, made: Result<(), String>) -> (res: AddJobStep<R>)
        ensures
            res == match made {
                Ok(()) => AddJobStep::RunGit(self),
                Err(error) => AddJobStep::Done(
                    WorktreeAddResult {
                        path: self.path,
                        api_request: Some(self.api_request),
                        result: Err(error),
                    },
                ),
            },
    {
        match made {
            Ok(()) => AddJobStep::RunGit(self),
            Err(error) => AddJobStep::Done(
                WorktreeAddResult {
                    path: self.path,
                    api_request: Some(self.api_request),
                    result: Err(error),
                },
            ),
        }
    }

    /// Ends the job with what git said.
    pub fn added(self, result: Result<(), String>) -> (res: WorktreeAddResult<R>)
        ensures
            res == (WorktreeAddResult {
                path: self.path,
                api_request: Some(self.api_request),
                result,
            }),
    {
        WorktreeAddResult { path: self.path, api_request: Some(self.api_request), result }
    }
}

/// The id of the workspace at an index, if there is one.
pub open spec fn id_at(workspaces: Seq<Workspace>, idx: Option<usize>) -> Option<String> {
    match idx {
        Some(i) => if i < workspaces.len() {
            Some(workspaces[i as int].id)
        } else {
            None
        },
        None => None,
    }
}

/// The membership of the first workspace with the given id.
pub open spec fn membership_of(
    workspaces: Seq<Workspace>,
    id: Option<String>,
) -> Option<MembershipView> {
    match id {
        Some(text) => match workspace_index(workspaces, text@) {
            Some(i) => membership_view(workspaces[i].worktree_space),
            None => None,
        },
        None => None,
    }
}

/// How a request with the branch name `branch` goes on: it is refused where nothing but white
/// space is in the name.
pub open spec fn branch_chosen<R>(
    request: CreateRequest<R>,
    branch: Seq<char>,
    step: CreateStep<R>,
) -> bool {
    if trimmed(branch).len() == 0 {
        step matches CreateStep::Answer(reply) && reply.is_error(
            "invalid_request"@,
            "branch is required"@,
        )
    } else {
        &&& step matches CreateStep::ResolveSource(plan)
        &&& plan.branch@ == trimmed(branch)
        &&& plan.base@ == or_head(request.params.base)
        &&& plan.workspace_id == request.params.workspace_id
        &&& plan.cwd == request.params.cwd
        &&& plan.path == request.params.path
        &&& plan.label == request.params.label
        &&& plan.focus == request.params.focus
    }
}

impl App {
    /// How a request to create a worktree starts.
    pub open spec fn create_started<R>(
        self,
        id: String,
        params: WorktreeCreateParams,
        respond_to: R,
        step: CreateStep<R>,
    ) -> bool {
        let request = CreateRequest { id, params, respond_to };
        match params.branch {
            Some(branch) => branch_chosen(request, branch@, step),
            None => step == CreateStep::GenerateBranch(request),
        }
    }

    /// Starts to create a worktree. A request without a branch gets a generated one.
    pub fn start_api_worktree_create<R>(
        &self,
        id: String,
        params: WorktreeCreateParams,
        respond_to: R,
    ) -> (res: CreateStep<R>)
        ensures
            self.create_started(id, params, respond_to, res),
            res.caller() == (respond_to, id),
    {
        match copy_text(&params.branch) {
            Some(branch) => self.create_branch_generated(
                CreateRequest { id, params, respond_to },
                branch,
            ),
            None => CreateStep::GenerateBranch(CreateRequest { id, params, respond_to }),
        }
    }

    /// Goes on with a branch name.
    pub fn create_branch_generated<R>(&self, request: CreateRequest<R>, branch: String) -> (res:
        CreateStep<R>)
        ensures
            branch_chosen(request, branch@, res),
            CreateStep::GenerateBranch(request).followed_by(res),
    {
        let branch = branch.as_str().trim().to_string();
        if branch.as_str().is_empty() {
            return CreateStep::Answer(
                refuse(request.respond_to, request.id, "invalid_request", "branch is required"),
            );
        }
        CreateStep::ResolveSource(
            CreatePlan {
                id: request.id,
                respond_to: request.respond_to,
                branch,
                base: revision_or_head(request.params.base),
                workspace_id: request.params.workspace_id,
                cwd: request.params.cwd,
                path: request.params.path,
                label: request.params.label,
                focus: request.params.focus,
            },
        )
    }

    /// Goes on once the source was looked for. The checkout is where the client said, else at
    /// the default place.
    pub fn create_source_resolved<R>(
        &self,
        plan: CreatePlan<R>,
        resolved: Result<WorktreeSource, ApiError>,
    ) -> (res: CreateStep<R>)
        ensures
            match resolved {
                Ok(source) => if plan.path is Some {
                    res == CreateStep::AbsolutePath(CreateSourced { plan, source })
                } else {
                    res == CreateStep::DefaultPath(CreateSourced { plan, source })
                },
                Err(error) => res matches CreateStep::Answer(reply) && reply.is_error(
                    error.code@,
                    error.message@,
                ),
            },
            CreateStep::ResolveSource(plan).followed_by(res),
    {
        match resolved {
            Ok(source) => if plan.path.is_some() {
                CreateStep::AbsolutePath(CreateSourced { plan, source })
            } else {
                CreateStep::DefaultPath(CreateSourced { plan, source })
            },
            Err(error) => CreateStep::Answer(pass_on(plan.respond_to, plan.id, error)),
        }
    }

    /// Goes on once the checkout path was looked for.
    pub fn create_checkout_located<R>(
        &self,
        sourced: CreateSourced<R>,
        located: Result<WorktreePath, ApiError>,
    ) -> (res: CreateStep<R>)
        ensures
            match located {
                Ok(checkout_path) => res == CreateStep::Canonicalize(
                    CreateLocated { plan: sourced.plan, source: sourced.source, checkout_path },
                ),
                Err(error) => res matches CreateStep::Answer(reply) && reply.is_error(
                    error.code@,
                    error.message@,
                ),
            },
            CreateStep::AbsolutePath(sourced).followed_by(res),
            CreateStep::DefaultPath(sourced).followed_by(res),
    {
        match located {
            Ok(checkout_path) => CreateStep::Canonicalize(
                CreateLocated { plan: sourced.plan, source: sourced.source, checkout_path },
            ),
            Err(error) => CreateStep::Answer(
                pass_on(sourced.plan.respond_to, sourced.plan.id, error),
            ),
        }
    }

    /// Registers the creation and spawns its job, unless an operation on the checkout is under
    /// way.
    pub fn create_checkout_keyed<R>(
        &mut self,
        located: CreateLocated<R>,
        checkout_key: WorktreePath,
    ) -> (res: CreateStep<R>)
        ensures
            final(self).same_but_ledger(*old(self)),
            old(self).ledger().moves_apart(final(self).ledger()),
            CreateStep::Canonicalize(located).followed_by(res),
            if old(self).ledger().create_busy(components(checkout_key@)) {
                &&& final(self).ledger() == old(self).ledger()
                &&& res matches CreateStep::Answer(reply)
                &&& reply.is_error(
                    "worktree_operation_in_progress"@,
                    "worktree operation is already in progress for this checkout"@,
                )
            } else {
                &&& final(self).ledger() == old(self).ledger().with_create(
                    components(checkout_key@),
                )
                &&& res matches CreateStep::Spawn(job)
                &&& old(self).add_job_for(located, checkout_key, job)
            },
    {
        if self.pending_api_worktree_creates.contains_key(&checkout_key)
            || self.pending_api_worktree_remove_paths.contains_key(&checkout_key) {
            return CreateStep::Answer(
                refuse(
                    located.plan.respond_to,
                    located.plan.id,
                    "worktree_operation_in_progress",
                    "worktree operation is already in progress for this checkout",
                ),
            );
        }
        let operation_id: u64 = self.next_api_worktree_operation_id();
        self.pending_api_worktree_creates.insert(checkout_key.clone(), operation_id);
        assert(self.ledger() =~= old(self).ledger().with_create(components(checkout_key@)));
        let parent_dir = located.checkout_path.parent();
        let source_workspace_id: Option<String> = match located.source.workspace_idx {
            Some(idx) => if idx < self.workspaces.len() {
                Some(self.workspaces[idx].id.clone())
            } else {
                None
            },
            None => None,
        };
        let source_existing_membership: Option<WorktreeSpaceMembership> =
            match &source_workspace_id {
            Some(workspace_id) => match find_workspace(&self.workspaces, workspace_id) {
                Some(idx) => match &self.workspaces[idx].worktree_space {
                    Some(space) => Some(space.clone()),
                    None => None,
                },
                None => None,
            },
            None => None,
        };
        CreateStep::Spawn(
            AddJob {
                parent_dir,
                path: located.checkout_path,
                branch: located.plan.branch,
                base: located.plan.base,
                api_request: ApiWorktreeAddRequest {
                    id: located.plan.id,
                    operation_id,
                    checkout_key,
                    source_workspace_id,
                    source_existing_membership,
                    source_checkout_path: located.source.source_checkout_path,
                    source_repo_root: located.source.source_repo_root,
                    repo_key: located.source.repo_key,
                    repo_name: located.source.repo_name,
                    label: located.plan.label,
                    focus: located.plan.focus,
                    respond_to: located.plan.respond_to,
                },
            },
        )
    }

    /// Whether `job` is the job for a request in this state. The request remembers its source
    /// workspace by id, with the membership that the workspace has now.
    pub open spec fn add_job_for<R>(
        self,
        located: CreateLocated<R>,
        checkout_key: WorktreePath,
        job: AddJob<R>,
    ) -> bool {
        let api = job.api_request;
        let source_id = id_at(self.workspaces@, located.source.workspace_idx);
        &&& job.parent_dir is Some == parent_of(located.checkout_path@) is Some
        &&& job.parent_dir matches Some(dir) ==> Some(dir@) == parent_of(located.checkout_path@)
        &&& job.path == located.checkout_path
        &&& job.branch == located.plan.branch
        &&& job.base == located.plan.base
        &&& api.operation_id == self.ledger().next_id
        &&& api.checkout_key == checkout_key
        &&& api.source_workspace_id == source_id
        &&& membership_view(api.source_existing_membership) == membership_of(
            self.workspaces@,
            source_id,
        )
        &&& api.source_checkout_path == located.source.source_checkout_path
        &&& api.source_repo_root == located.source.source_repo_root
        &&& api.repo_key == located.source.repo_key
        &&& api.repo_name == located.source.repo_name
        &&& api.label == located.plan.label
        &&& api.focus == located.plan.focus
    }
}

} // verus!
