//! Creating one branch in every base repository.
//!
//! A request goes through `App::start_api_worktree_branch_out` and `App::branch_out_keyed` until
//! it is answered or a job is spawned.

use vstd::prelude::*;
use vstd::utf8::encode_utf8;

use crate::app::App;
use crate::ledger::all_inserted;
use crate::model::{copy_text, find_workspace, workspace_index, Workspace};
use crate::path::{components, ends_with_name, joined, parent_of, Part, PathView, WorktreePath};
use crate::path_laws::law_named_child;
use crate::protocol::{refuse, Reply, WorktreeBranchOutParams};
use crate::text::{or_head, revision_or_head, trimmed};

verus! {

/// Where the branch of one repository is checked out.
pub struct RepoCheckout {
    pub repo_root: WorktreePath,
    pub repo_name: String,
    pub checkout_path: WorktreePath,
    /// The directory that has to be there before git adds the checkout.
    pub checkout_parent: Option<WorktreePath>,
    /// The directory that collects links to the checkouts of the branch.
    pub features_dir: WorktreePath,
    /// The link to the checkout.
    pub link: WorktreePath,
}

/// A request whose repositories are known.
pub struct BranchOutPlan<R> {
    pub id: String,
    pub respond_to: R,
    pub branch: String,
    pub label: Option<String>,
    pub base: String,
    pub repos: Vec<RepoCheckout>,
}

/// The work of creating the branch in each of the repositories, one after the other.
pub struct BranchOutJob<R> {
    pub id: String,
    pub operation_id: u64,
    pub branch: String,
    pub label: Option<String>,
    pub respond_to: R,
    pub base: String,
    pub repos: Vec<RepoCheckout>,
}

/// The result of creating the branch: for each repository its checkout, or why there is none.
pub struct BranchOutResult<R> {
    pub id: String,
    pub operation_id: u64,
    pub branch: String,
    pub label: Option<String>,
    pub respond_to: R,
    pub results: Vec<(String, Result<WorktreePath, String>)>,
}

/// What happens next to a request to create a branch.
pub enum BranchOutStep<R> {
    Answer(Reply<R>),
    /// Find the canonical form of each repository's `checkout_path`, if it has one, then
    /// `branch_out_keyed`.
    Canonicalize(BranchOutPlan<R>),
    /// Run the job from `BranchOutJob::begin` on, then hand its result to
    /// `handle_worktree_branch_out_finished`.
    Spawn(BranchOutJob<R>),
}

impl<R> BranchOutStep<R> {
    /// Who is answered, or waits for the answer.
    pub open spec fn caller(self) -> (R, String) {
        match self {
            BranchOutStep::Answer(reply) => reply.caller(),
            BranchOutStep::Canonicalize(plan) => (plan.respond_to, plan.id),
            BranchOutStep::Spawn(job) => (job.respond_to, job.id),
        }
    }

    /// How many steps are left at most.
    pub open spec fn left(self) -> nat {
        match self {
            BranchOutStep::Canonicalize(_) => 1,
            BranchOutStep::Answer(_) | BranchOutStep::Spawn(_) => 0,
        }
    }

    /// Whether the step `next` brings the request nearer to its end, for the same caller.
    pub open spec fn followed_by(self, next: BranchOutStep<R>) -> bool {
        next.caller() == self.caller() && next.left() < self.left()
    }
}

/// The name of the base repository that a directory holds.
pub open spec fn base_repo_name(cwd: PathView) -> Option<Seq<char>> {
    if ends_with_name(cwd, encode_utf8("hanson"@)) {
        Some("hanson"@)
    } else if ends_with_name(cwd, encode_utf8("smarkets"@)) {
        Some("smarkets"@)
    } else if ends_with_name(cwd, encode_utf8("pricing_config"@)) {
        Some("pricing_config"@)
    } else {
        None
    }
}

/// The workspaces of base repositories. The one with the id `wM` is not one of them.
pub open spec fn is_base_workspace(workspace: Workspace) -> bool {
    base_repo_name(workspace.identity_cwd@) is Some && workspace.id@ != "wM"@
}

/// The workspaces of base repositories, in their order.
pub open spec fn base_workspaces(workspaces: Seq<Workspace>) -> Seq<Workspace> {
    workspaces.filter(|workspace: Workspace| is_base_workspace(workspace))
}

/// Whether `repo` is where `branch` is checked out for the repository at `cwd`: next to the
/// repository, below `<name>.worktrees`, with a link below `features`.
pub open spec fn repo_checkout_for(cwd: PathView, branch: Seq<char>, repo: RepoCheckout) -> bool {
    let dir = parent_of(cwd)->0;
    let name = repo.repo_name@;
    &&& base_repo_name(cwd) == Some(name)
    &&& parent_of(cwd) is Some
    &&& repo.repo_root@ == cwd
    &&& repo.checkout_path@ == joined(
        joined(dir, encode_utf8(name + ".worktrees"@)),
        encode_utf8(branch),
    )
    &&& repo.checkout_parent is Some == parent_of(repo.checkout_path@) is Some
    &&& repo.checkout_parent matches Some(above) ==> Some(above@) == parent_of(
        repo.checkout_path@,
    )
    &&& repo.features_dir@ == joined(joined(dir, encode_utf8("features"@)), encode_utf8(branch))
    &&& repo.link@ == joined(repo.features_dir@, encode_utf8(name))
}

/// Whether `repos` are the checkouts of `branch` for the base workspaces.
pub open spec fn checkouts_for(
    workspaces: Seq<Workspace>,
    branch: Seq<char>,
    repos: Seq<RepoCheckout>,
) -> bool {
    &&& repos.len() == base_workspaces(workspaces).len()
    &&& forall|i: int|
        0 <= i < repos.len() ==> repo_checkout_for(
            base_workspaces(workspaces)[i].identity_cwd@,
            branch,
            #[trigger] repos[i],
        )
}

/// The keys that a list of paths stands for.
pub open spec fn path_keys(paths: Seq<WorktreePath>) -> Seq<Seq<Part>> {
    Seq::new(paths.len(), |i: int| components(paths[i]@))
}

/// The directory of a base repository has a parent.
proof fn lemma_base_has_parent(cwd: PathView)
    requires
        base_repo_name(cwd) is Some,
    ensures
        parent_of(cwd) is Some,
{
    law_named_child(cwd, encode_utf8(base_repo_name(cwd)->0));
}

/// The checkout of `branch` for the repository at `cwd`, if that is a base repository.
fn repo_checkout(cwd: &WorktreePath, branch: &str) -> (res: Option<RepoCheckout>)
    ensures
        res is Some == base_repo_name(cwd@) is Some,
        res matches Some(repo) ==> repo_checkout_for(cwd@, branch@, repo),
{
    let repo_name: String = if cwd.ends_with("hanson") {
        "hanson".to_string()
    } else if cwd.ends_with("smarkets") {
        "smarkets".to_string()
    } else if cwd.ends_with("pricing_config") {
        "pricing_config".to_string()
    } else {
        return None;
    };
    proof {
        lemma_base_has_parent(cwd@);
    }
    let dir: WorktreePath = cwd.parent().unwrap();
    let checkout_dir_name = repo_name.clone().concat(".worktrees");
    let checkout_path = dir.join(checkout_dir_name.as_str()).join(branch);
    let checkout_parent = checkout_path.parent();
    let features_dir = dir.join("features").join(branch);
    let link = features_dir.join(repo_name.as_str());
    Some(
        RepoCheckout {
            repo_root: cwd.clone(),
            repo_name,
            checkout_path,
            checkout_parent,
            features_dir,
            link,
        },
    )
}

/// The checkouts of `branch` for the base workspaces.
fn repo_checkouts(workspaces: &Vec<Workspace>, branch: &str) -> (res: Vec<RepoCheckout>)
    ensures
        checkouts_for(workspaces@, branch@, res@),
{
    let mut res: Vec<RepoCheckout> = Vec::new();
    let mut i: usize = 0;
    proof {
        reveal(Seq::filter);
        assert(workspaces@.take(0) =~= Seq::empty());
    }
    while i < workspaces.len()
        invariant
            i <= workspaces@.len(),
            checkouts_for(workspaces@.take(i as int), branch@, res@),
        decreases workspaces.len() - i,
    {
        let ghost before = workspaces@.take(i as int);
        let ghost after = workspaces@.take(i + 1);
        let ghost done = res@;
        proof {
            reveal(Seq::filter);
            assert(after.drop_last() =~= before);
            assert(after.last() == workspaces@[i as int]);
        }
        let workspace = &workspaces[i];
        let master = workspace.id == "wM".to_string();
        if !master {
            if let Some(repo) = repo_checkout(&workspace.identity_cwd, branch) {
                res.push(repo);
                assert forall|j: int| 0 <= j < res@.len() implies repo_checkout_for(
                    base_workspaces(after)[j].identity_cwd@,
                    branch@,
                    #[trigger] res@[j],
                ) by {
                    if j < done.len() {
                        assert(res@[j] == done[j]);
                    }
                }
            }
        }
        i = i + 1;
    }
    assert(workspaces@.take(workspaces@.len() as int) =~= workspaces@);
    res
}

impl App {
    /// How a request to create a branch starts.
    pub open spec fn branch_out_started<R>(
        self,
        id: String,
        params: WorktreeBranchOutParams,
        respond_to: R,
        step: BranchOutStep<R>,
    ) -> bool {
        let branch = trimmed(params.branch@);
        let parent = workspace_index(self.workspaces@, params.parent_workspace_id@);
        if branch.len() == 0 {
            step matches BranchOutStep::Answer(reply) && reply.is_error(
                "invalid_request"@,
                "branch is required"@,
            )
        } else if parent is None {
            step matches BranchOutStep::Answer(reply) && reply.is_error(
                "workspace_not_found"@,
                "parent workspace not found"@,
            )
        } else if base_workspaces(self.workspaces@).len() == 0 {
            step matches BranchOutStep::Answer(reply) && reply.is_error(
                "invalid_request"@,
                "no base repositories found to branch out"@,
            )
        } else {
            &&& step matches BranchOutStep::Canonicalize(plan)
            &&& plan.branch@ == branch
            &&& plan.label == params.label
            &&& plan.base@ == or_head(self.workspaces@[parent->0].cached_git_branch)
            &&& checkouts_for(self.workspaces@, branch, plan.repos@)
        }
    }

    /// Starts to create a branch in every base repository, from the branch of the parent
    /// workspace.
    pub fn start_api_worktree_branch_out<R>(
        &self,
        id: String,
        params: WorktreeBranchOutParams,
        respond_to: R,
    ) -> (res: BranchOutStep<R>)
        ensures
            self.branch_out_started(id, params, respond_to, res),
            res.caller() == (respond_to, id),
    {
        let branch = params.branch.as_str().trim().to_string();
        if branch.as_str().is_empty() {
            return BranchOutStep::Answer(
                refuse(respond_to, id, "invalid_request", "branch is required"),
            );
        }
        let parent: usize = match find_workspace(&self.workspaces, &params.parent_workspace_id) {
            Some(idx) => idx,
            None => return BranchOutStep::Answer(
                refuse(respond_to, id, "workspace_not_found", "parent workspace not found"),
            ),
        };
        let base = revision_or_head(copy_text(&self.workspaces[parent].cached_git_branch));
        let repos = repo_checkouts(&self.workspaces, branch.as_str());
        if repos.len() == 0 {
            return BranchOutStep::Answer(
                refuse(
                    respond_to,
                    id,
                    "invalid_request",
                    "no base repositories found to branch out",
                ),
            );
        }
        BranchOutStep::Canonicalize(
            BranchOutPlan { id, respond_to, branch, label: params.label, base, repos },
        )
    }

    /// Registers the checkouts of the branch, in place of any other creation of them, and spawns
    /// the job.
    pub fn branch_out_keyed<R>(&mut self, plan: BranchOutPlan<R>, checkout_keys: &Vec<WorktreePath>)
        -> (res: BranchOutStep<R>)
        requires
            checkout_keys@.len() == plan.repos@.len(),
        ensures
            final(self).same_but_ledger(*old(self)),
            final(self).ledger() == old(self).ledger().with_creates(path_keys(checkout_keys@)),
            old(self).ledger().moves(final(self).ledger()),
            old(self).ledger().none_removed(path_keys(checkout_keys@))
                ==> old(self).ledger().moves_apart(final(self).ledger()),
            res == BranchOutStep::Spawn(
                BranchOutJob {
                    id: plan.id,
                    operation_id: old(self).ledger().next_id,
                    branch: plan.branch,
                    label: plan.label,
                    respond_to: plan.respond_to,
                    base: plan.base,
                    repos: plan.repos,
                },
            ),
            BranchOutStep::Canonicalize(plan).followed_by(res),
    {
        let operation_id: u64 = self.next_api_worktree_operation_id();
        let ghost issued = *self;
        let ghost keys = path_keys(checkout_keys@);
        let mut i: usize = 0;
        assert(keys.take(0) =~= Seq::empty());
        while i < checkout_keys.len()
            invariant
                i <= checkout_keys@.len(),
                keys == path_keys(checkout_keys@),
                self.same_but_ledger(issued),
                self.pending_api_worktree_creates@ == all_inserted(
                    issued.pending_api_worktree_creates@,
                    keys.take(i as int),
                    operation_id,
                ),
                self.pending_api_worktree_removes == issued.pending_api_worktree_removes,
                self.pending_api_worktree_remove_paths == issued.pending_api_worktree_remove_paths,
                self.next_api_worktree_operation_id == issued.next_api_worktree_operation_id,
            decreases checkout_keys.len() - i,
        {
            self.pending_api_worktree_creates.insert(checkout_keys[i].clone(), operation_id);
            assert(keys.take(i + 1).drop_last() =~= keys.take(i as int));
            i = i + 1;
        }
        assert(keys.take(keys.len() as int) =~= keys);
        assert(self.ledger() =~= old(self).ledger().with_creates(keys));
        BranchOutStep::Spawn(
            BranchOutJob {
                id: plan.id,
                operation_id,
                branch: plan.branch,
                label: plan.label,
                respond_to: plan.respond_to,
                base: plan.base,
                repos: plan.repos,
            },
        )
    }
}

} // verus!
