//! Creating the branch in one repository after the other.
//!
//! A job goes through `BranchOutJob::begin` and the steps after it until its result is complete.

use vstd::prelude::*;

use crate::branch_out::{BranchOutJob, BranchOutResult, RepoCheckout};
use crate::path::WorktreePath;
use crate::prefix::Platform;

verus! {

/// A job that is at work on `repo`. The repositories in `rest` come after it, and those before it
/// have their results.
pub struct BranchOutRun<R> {
    pub id: String,
    pub operation_id: u64,
    pub branch: String,
    pub label: Option<String>,
    pub respond_to: R,
    pub base: String,
    pub repo: RepoCheckout,
    pub rest: Vec<RepoCheckout>,
    pub results: Vec<(String, Result<WorktreePath, String>)>,
}

/// What a job does next.
pub enum BranchOutJobStep<R> {
    /// Make the repository's `checkout_parent`, then `parent_made`.
    MakeParent(BranchOutRun<R>),
    /// Run git in the repository's `repo_root` to add `checkout_path` on the new branch `branch`
    /// from `base`, then `git_ran`.
    RunGit(BranchOutRun<R>),
    /// Make the repository's `features_dir`, then `features_made`.
    MakeFeatures(BranchOutRun<R>),
    /// Remove the file at the repository's `link`, then `old_link_removed`.
    RemoveOldLink(BranchOutRun<R>),
    /// Make the repository's `link` a symbolic link to `checkout_path`, then `link_put`.
    PutLink(BranchOutRun<R>),
    Done(BranchOutResult<R>),
}

/// The names of repositories, in order.
pub open spec fn repo_names(repos: Seq<RepoCheckout>) -> Seq<String> {
    Seq::new(repos.len(), |i: int| repos[i].repo_name)
}

/// The names of the repositories that have results, in order.
pub open spec fn result_names(results: Seq<(String, Result<WorktreePath, String>)>) -> Seq<
    String,
> {
    Seq::new(results.len(), |i: int| results[i].0)
}

impl<R> BranchOutRun<R> {
    /// Who waits for the answer, and what the answer is made from.
    pub open spec fn header(self) -> (R, String, u64, String, Option<String>) {
        (self.respond_to, self.id, self.operation_id, self.branch, self.label)
    }

    /// The names of all the repositories of the job, in order.
    pub open spec fn names(self) -> Seq<String> {
        result_names(self.results@).push(self.repo.repo_name) + repo_names(self.rest@)
    }
}

impl<R> BranchOutJobStep<R> {
    /// Who waits for the answer, and what the answer is made from.
    pub open spec fn header(self) -> (R, String, u64, String, Option<String>) {
        match self {
            BranchOutJobStep::MakeParent(run) => run.header(),
            BranchOutJobStep::RunGit(run) => run.header(),
            BranchOutJobStep::MakeFeatures(run) => run.header(),
            BranchOutJobStep::RemoveOldLink(run) => run.header(),
            BranchOutJobStep::PutLink(run) => run.header(),
            BranchOutJobStep::Done(result) => (
                result.respond_to,
                result.id,
                result.operation_id,
                result.branch,
                result.label,
            ),
        }
    }

    /// The names of all the repositories of the job, in order.
    pub open spec fn names(self) -> Seq<String> {
        match self {
            BranchOutJobStep::MakeParent(run) => run.names(),
            BranchOutJobStep::RunGit(run) => run.names(),
            BranchOutJobStep::MakeFeatures(run) => run.names(),
            BranchOutJobStep::RemoveOldLink(run) => run.names(),
            BranchOutJobStep::PutLink(run) => run.names(),
            BranchOutJobStep::Done(result) => result_names(result.results@),
        }
    }

    /// The revision that git starts the branch at in the repositories that are left.
    pub open spec fn base(self) -> Option<String> {
        match self {
            BranchOutJobStep::MakeParent(run) => Some(run.base),
            BranchOutJobStep::RunGit(run) => Some(run.base),
            BranchOutJobStep::MakeFeatures(run) => Some(run.base),
            BranchOutJobStep::RemoveOldLink(run) => Some(run.base),
            BranchOutJobStep::PutLink(run) => Some(run.base),
            BranchOutJobStep::Done(_) => None,
        }
    }

    /// The results that are known, in order.
    pub open spec fn known(self) -> Seq<(String, Result<WorktreePath, String>)> {
        match self {
            BranchOutJobStep::MakeParent(run) => run.results@,
            BranchOutJobStep::RunGit(run) => run.results@,
            BranchOutJobStep::MakeFeatures(run) => run.results@,
            BranchOutJobStep::RemoveOldLink(run) => run.results@,
            BranchOutJobStep::PutLink(run) => run.results@,
            BranchOutJobStep::Done(result) => result.results@,
        }
    }

    /// How many steps are left at most.
    pub open spec fn left(self) -> nat {
        match self {
            BranchOutJobStep::MakeParent(run) => 5 * run.rest@.len() + 5,
            BranchOutJobStep::RunGit(run) => 5 * run.rest@.len() + 4,
            BranchOutJobStep::MakeFeatures(run) => 5 * run.rest@.len() + 3,
            BranchOutJobStep::RemoveOldLink(run) => 5 * run.rest@.len() + 2,
            BranchOutJobStep::PutLink(run) => 5 * run.rest@.len() + 1,
            BranchOutJobStep::Done(_) => 0,
        }
    }

    /// Whether the step `next` brings the job nearer to its end, for the same caller, the same
    /// repositories and the same base, and leaves the known results as they are.
    pub open spec fn followed_by(self, next: BranchOutJobStep<R>) -> bool {
        &&& next.header() == self.header()
        &&& next.names() == self.names()
        &&& next.base() is Some ==> next.base() == self.base()
        &&& self.known().is_prefix_of(next.known())
        &&& next.left() < self.left()
    }
}

/// Whether `step` starts on the repositories `repos`, once those before them have the results
/// `results`. Where a checkout has no parent directory, none is made. Where no repository is left,
/// the job is done.
pub open spec fn started_on<R>(
    header: (R, String, u64, String, Option<String>),
    base: String,
    repos: Seq<RepoCheckout>,
    results: Seq<(String, Result<WorktreePath, String>)>,
    step: BranchOutJobStep<R>,
) -> bool {
    &&& step.header() == header
    &&& step.known() == results
    &&& if repos.len() == 0 {
        step is Done
    } else {
        let run = if repos[0].checkout_parent is Some {
            step->MakeParent_0
        } else {
            step->RunGit_0
        };
        &&& repos[0].checkout_parent is Some ==> step is MakeParent
        &&& repos[0].checkout_parent is None ==> step is RunGit
        &&& run.base == base
        &&& run.repo == repos[0]
        &&& run.rest@ == repos.skip(1)
    }
}

/// Whether `step` comes after the repository of `run` got the result `outcome`.
pub open spec fn settled<R>(
    run: BranchOutRun<R>,
    outcome: Result<WorktreePath, String>,
    step: BranchOutJobStep<R>,
) -> bool {
    started_on(
        run.header(),
        run.base,
        run.rest@,
        run.results@.push((run.repo.repo_name, outcome)),
        step,
    )
}

impl<R> BranchOutJob<R> {
    /// Starts on the first repository.
    pub fn begin(self) -> (res: BranchOutJobStep<R>)
        ensures
            started_on(
                (self.respond_to, self.id, self.operation_id, self.branch, self.label),
                self.base,
                self.repos@,
                Seq::empty(),
                res,
            ),
            res.names() == repo_names(self.repos@),
    {
        let results: Vec<(String, Result<WorktreePath, String>)> = Vec::new();
        assert(results@ =~= Seq::empty());
        let ghost repos = self.repos@;
        let mut rest: Vec<RepoCheckout> = self.repos;
        if rest.len() == 0 {
            assert(result_names(results@) =~= repo_names(repos));
            return BranchOutJobStep::Done(
                BranchOutResult {
                    id: self.id,
                    operation_id: self.operation_id,
                    branch: self.branch,
                    label: self.label,
                    respond_to: self.respond_to,
                    results,
                },
            );
        }
        let repo = rest.remove(0);
        assert(rest@ =~= repos.skip(1));
        assert(result_names(results@).push(repo.repo_name) + repo_names(rest@) =~= repo_names(
            repos,
        ));
        BranchOutRun {
            id: self.id,
            operation_id: self.operation_id,
            branch: self.branch,
            label: self.label,
            respond_to: self.respond_to,
            base: self.base,
            repo,
            rest,
            results,
        }.start()
    }
}

impl<R> BranchOutRun<R> {
    /// Starts on the repository.
    fn start(self) -> (res: BranchOutJobStep<R>)
        ensures
            res == if self.repo.checkout_parent is Some {
                BranchOutJobStep::MakeParent(self)
            } else {
                BranchOutJobStep::RunGit(self)
            },
    {
        if self.repo.checkout_parent.is_some() {
            BranchOutJobStep::MakeParent(self)
        } else {
            BranchOutJobStep::RunGit(self)
        }
    }

    /// Notes the checkout of the repository, or why there is none, and goes on to the next one.
    fn settle(self, failure: Option<String>) -> (res: BranchOutJobStep<R>)
        ensures
            match failure {
                None => settled(self, Ok(self.repo.checkout_path), res),
                Some(error) => settled(self, Err(error), res),
            },
            BranchOutJobStep::PutLink(self).followed_by(res),
    {
        let ghost names = self.names();
        let ghost before = self.results@;
        let ghost repos = self.rest@;
        let mut results: Vec<(String, Result<WorktreePath, String>)> = self.results;
        let mut rest: Vec<RepoCheckout> = self.rest;
        let outcome: Result<WorktreePath, String> = match failure {
            None => Ok(self.repo.checkout_path),
            Some(error) => Err(error),
        };
        results.push((self.repo.repo_name, outcome));
        assert(result_names(results@) =~= result_names(before).push(self.repo.repo_name));
        if rest.len() == 0 {
            assert(result_names(results@) =~= names);
            return BranchOutJobStep::Done(
                BranchOutResult {
                    id: self.id,
                    operation_id: self.operation_id,
                    branch: self.branch,
                    label: self.label,
                    respond_to: self.respond_to,
                    results,
                },
            );
        }
        let repo = rest.remove(0);
        assert(rest@ =~= repos.skip(1));
        assert(result_names(results@).push(repo.repo_name) + repo_names(rest@) =~= names);
        BranchOutRun {
            id: self.id,
            operation_id: self.operation_id,
            branch: self.branch,
            label: self.label,
            respond_to: self.respond_to,
            base: self.base,
            repo,
            rest,
            results,
        }.start()
    }

    /// Goes on once the parent directory was made, or was not: git has the last word.
    pub fn parent_made(self, _made: bool) -> (res: BranchOutJobStep<R>)
        ensures
            res == BranchOutJobStep::RunGit(self),
            BranchOutJobStep::MakeParent(self).followed_by(res),
    {
        BranchOutJobStep::RunGit(self)
    }

    /// Goes on with what git said. A checkout that was added is linked to on Unix. A repository
    /// that failed does not stop the next one.
    pub fn git_ran(self, result: Result<(), String>) -> (res: BranchOutJobStep<R>)
        ensures
            match result {
                Ok(()) => if self.repo.checkout_path.platform == Platform::Unix {
                    res == BranchOutJobStep::MakeFeatures(self)
                } else {
                    settled(self, Ok(self.repo.checkout_path), res)
                },
                Err(error) => settled(self, Err(error), res),
            },
            BranchOutJobStep::RunGit(self).followed_by(res),
    {
        match result {
            Ok(()) => if self.repo.checkout_path.platform == Platform::Unix {
                BranchOutJobStep::MakeFeatures(self)
            } else {
                self.settle(None)
            },
            Err(error) => self.settle(Some(error)),
        }
    }

    /// Goes on once the directory of the links was made, or was not. Without it there is no link.
    pub fn features_made(self, made: bool) -> (res: BranchOutJobStep<R>)
        ensures
            if made {
                res == BranchOutJobStep::RemoveOldLink(self)
            } else {
                settled(self, Ok(self.repo.checkout_path), res)
            },
            BranchOutJobStep::MakeFeatures(self).followed_by(res),
    {
        if made {
            BranchOutJobStep::RemoveOldLink(self)
        } else {
            self.settle(None)
        }
    }

    /// Goes on once an old link was removed, or was not.
    pub fn old_link_removed(self, _removed: bool) -> (res: BranchOutJobStep<R>)
        ensures
            res == BranchOutJobStep::PutLink(self),
            BranchOutJobStep::RemoveOldLink(self).followed_by(res),
    {
        BranchOutJobStep::PutLink(self)
    }

    /// Goes on once the link was put in its place, or was not. The checkout is there all the same.
    pub fn link_put(self, _put: bool) -> (res: BranchOutJobStep<R>)
        ensures
            settled(self, Ok(self.repo.checkout_path), res),
            BranchOutJobStep::PutLink(self).followed_by(res),
    {
        self.settle(None)
    }
}

/// The steps of a job all serve one caller, the same repositories and the same base, keep the results
/// that are known, and come to an end. In the last step, every repository has its result, in order.
pub proof fn law_branch_out_job_run<R>(steps: Seq<BranchOutJobStep<R>>, i: int)
    requires
        steps.len() > 0,
        forall|j: int|
            #![trigger steps[j]]
            0 <= j < steps.len() - 1 ==> steps[j].followed_by(steps[j + 1]),
        0 <= i < steps.len(),
    ensures
        steps[i].header() == steps[0].header(),
        steps[i].names() == steps[0].names(),
        steps[i].base() is Some ==> steps[i].base() == steps[0].base(),
        steps[0].known().is_prefix_of(steps[i].known()),
        steps[i].left() + i <= steps[0].left(),
        steps[i].left() == 0 <==> steps[i] is Done,
        steps[i] is Done ==> i == steps.len() - 1 && result_names(steps[i].known())
            == steps[0].names(),
    decreases i,
{
    if i > 0 {
        law_branch_out_job_run(steps, i - 1);
        assert(steps[i - 1].followed_by(steps[i]));
        assert(steps[i - 1].base() is Some);
    }
    if i < steps.len() - 1 {
        assert(steps[i].followed_by(steps[i + 1]));
    }
}

} // verus!
