//! What a branch-out job does in each of its repositories.

use vstd::prelude::*;

use crate::branch_out::BranchOutJob;
use crate::branch_out_job::{BranchOutJobStep, BranchOutRun};
use crate::path::WorktreePath;
use crate::prefix::Platform;

verus! {

/// The run is the next one of the same job: for the same caller, on the same branch and from the
/// same base, for the repository that comes next, with one more result.
pub open spec fn next_run<R>(
    next: BranchOutRun<R>,
    run: BranchOutRun<R>,
    outcome: Result<WorktreePath, String>,
) -> bool {
    &&& next.id == run.id
    &&& next.operation_id == run.operation_id
    &&& next.branch == run.branch
    &&& next.label == run.label
    &&& next.respond_to == run.respond_to
    &&& next.base == run.base
    &&& next.repo == run.rest@[0]
    &&& next.rest@ == run.rest@.skip(1)
    &&& next.results@.len() == run.results@.len() + 1
    &&& next.results@.take(run.results@.len() as int) == run.results@
    &&& next.results@[run.results@.len() as int] == (run.repo.repo_name, outcome)
}

/// The repository of the run has its result. The next repository is started on, with its parent
/// directory if it has one, or the job is done if there is none.
pub open spec fn goes_on<R>(
    step: BranchOutJobStep<R>,
    run: BranchOutRun<R>,
    outcome: Result<WorktreePath, String>,
) -> bool {
    if run.rest@.len() > 0 {
        if run.rest@[0].checkout_parent is Some {
            step matches BranchOutJobStep::MakeParent(next) && next_run(next, run, outcome)
        } else {
            step matches BranchOutJobStep::RunGit(next) && next_run(next, run, outcome)
        }
    } else {
        &&& step matches BranchOutJobStep::Done(result)
        &&& result.id == run.id
        &&& result.operation_id == run.operation_id
        &&& result.branch == run.branch
        &&& result.label == run.label
        &&& result.respond_to == run.respond_to
        &&& result.results@.len() == run.results@.len() + 1
        &&& result.results@.take(run.results@.len() as int) == run.results@
        &&& result.results@[run.results@.len() as int] == (run.repo.repo_name, outcome)
    }
}

/// The run is the first one of the job.
pub open spec fn first_run<R>(run: BranchOutRun<R>, job: BranchOutJob<R>) -> bool {
    &&& run.id == job.id
    &&& run.operation_id == job.operation_id
    &&& run.branch == job.branch
    &&& run.label == job.label
    &&& run.respond_to == job.respond_to
    &&& run.base == job.base
    &&& run.repo == job.repos@[0]
    &&& run.rest@ == job.repos@.skip(1)
    &&& run.results@.len() == 0
}

/// A job starts on its first repository, with nothing done yet. A job without repositories is done.
pub proof fn law_job_begins<R>(job: BranchOutJob<R>, res: BranchOutJobStep<R>)
    requires
        call_ensures(BranchOutJob::<R>::begin, (job,), res),
    ensures
        if job.repos@.len() == 0 {
            &&& res matches BranchOutJobStep::Done(result)
            &&& result.id == job.id
            &&& result.operation_id == job.operation_id
            &&& result.branch == job.branch
            &&& result.label == job.label
            &&& result.respond_to == job.respond_to
            &&& result.results@.len() == 0
        } else if job.repos@[0].checkout_parent is Some {
            res matches BranchOutJobStep::MakeParent(run) && first_run(run, job)
        } else {
            res matches BranchOutJobStep::RunGit(run) && first_run(run, job)
        },
{
}

/// Git runs whether the parent directory could be made or not.
pub proof fn law_job_parent<R>(run: BranchOutRun<R>, made: bool, res: BranchOutJobStep<R>)
    requires
        call_ensures(BranchOutRun::<R>::parent_made, (run, made), res),
    ensures
        res == BranchOutJobStep::RunGit(run),
{
}

/// A repository in which git failed has git's error as its result, and the job goes on. One in which
/// git succeeded gets its link on Unix; elsewhere its checkout is its result, and the job goes on.
pub proof fn law_job_git<R>(
    run: BranchOutRun<R>,
    ran: Result<(), String>,
    res: BranchOutJobStep<R>,
)
    requires
        call_ensures(BranchOutRun::<R>::git_ran, (run, ran), res),
    ensures
        match ran {
            Err(error) => goes_on(res, run, Err(error)),
            Ok(()) => if run.repo.checkout_path.platform == Platform::Unix {
                res == BranchOutJobStep::MakeFeatures(run)
            } else {
                goes_on(res, run, Ok(run.repo.checkout_path))
            },
        },
{
}

/// A link is put only where its directory could be made, and an old one is removed before. Whatever
/// comes of the links, the result of the repository is its checkout, and the job goes on.
pub proof fn law_job_links<R>(
    run: BranchOutRun<R>,
    made: bool,
    removed: bool,
    put: bool,
    features: BranchOutJobStep<R>,
    old_link: BranchOutJobStep<R>,
    link: BranchOutJobStep<R>,
)
    requires
        call_ensures(BranchOutRun::<R>::features_made, (run, made), features),
        call_ensures(BranchOutRun::<R>::old_link_removed, (run, removed), old_link),
        call_ensures(BranchOutRun::<R>::link_put, (run, put), link),
    ensures
        made ==> features == BranchOutJobStep::RemoveOldLink(run),
        !made ==> goes_on(features, run, Ok(run.repo.checkout_path)),
        old_link == BranchOutJobStep::PutLink(run),
        goes_on(link, run, Ok(run.repo.checkout_path)),
{
}

/// One call of any of the job's functions leads from `run` to `step`.
pub open spec fn leads_to<R>(run: BranchOutRun<R>, step: BranchOutJobStep<R>) -> bool {
    ||| exists|made: bool| #[trigger]
        call_ensures(BranchOutRun::<R>::parent_made, (run, made), step)
    ||| exists|ran: Result<(), String>| #[trigger]
        call_ensures(BranchOutRun::<R>::git_ran, (run, ran), step)
    ||| exists|made: bool| #[trigger]
        call_ensures(BranchOutRun::<R>::features_made, (run, made), step)
    ||| exists|removed: bool| #[trigger]
        call_ensures(BranchOutRun::<R>::old_link_removed, (run, removed), step)
    ||| exists|put: bool| #[trigger] call_ensures(BranchOutRun::<R>::link_put, (run, put), step)
}

/// The step is at work on a repository in the run `run`.
pub open spec fn at_work<R>(step: BranchOutJobStep<R>, run: BranchOutRun<R>) -> bool {
    ||| step == BranchOutJobStep::MakeParent(run)
    ||| step == BranchOutJobStep::RunGit(run)
    ||| step == BranchOutJobStep::MakeFeatures(run)
    ||| step == BranchOutJobStep::RemoveOldLink(run)
    ||| step == BranchOutJobStep::PutLink(run)
}

/// One call leads from a step in the run `run` to a step in the run `next`.
pub open spec fn comes_after<R>(run: BranchOutRun<R>, next: BranchOutRun<R>) -> bool {
    exists|step: BranchOutJobStep<R>| #[trigger] leads_to(run, step) && at_work(step, next)
}

/// In all repositories of a job git creates the same branch from the same base: those of the job.
pub proof fn law_job_base<R>(
    job: BranchOutJob<R>,
    first: BranchOutJobStep<R>,
    runs: Seq<BranchOutRun<R>>,
    i: int,
)
    requires
        call_ensures(BranchOutJob::<R>::begin, (job,), first),
        runs.len() > 0,
        at_work(first, runs[0]),
        forall|j: int|
            #![trigger runs[j]]
            0 <= j < runs.len() - 1 ==> comes_after(runs[j], runs[j + 1]),
        0 <= i < runs.len(),
    ensures
        runs[i].base == job.base,
        runs[i].branch == job.branch,
        runs[i].id == job.id,
        runs[i].respond_to == job.respond_to,
        runs[i].operation_id == job.operation_id,
        runs[i].label == job.label,
    decreases i,
{
    if i == 0 {
        law_job_begins(job, first);
    } else {
        law_job_base(job, first, runs, i - 1);
        let run = runs[i - 1];
        assert(comes_after(run, runs[i]));
        let step = choose|step: BranchOutJobStep<R>| #[trigger]
            leads_to(run, step) && at_work(step, runs[i]);
        lemma_same_job(run, step, runs[i]);
    }
}

/// One call keeps the branch, the base and the caller of a job.
proof fn lemma_same_job<R>(
    run: BranchOutRun<R>,
    step: BranchOutJobStep<R>,
    next: BranchOutRun<R>,
)
    requires
        leads_to(run, step),
        at_work(step, next),
    ensures
        next.base == run.base,
        next.branch == run.branch,
        next.id == run.id,
        next.respond_to == run.respond_to,
        next.operation_id == run.operation_id,
        next.label == run.label,
{
    if exists|made: bool| #[trigger]
        call_ensures(BranchOutRun::<R>::parent_made, (run, made), step) {
    } else if exists|ran: Result<(), String>| #[trigger]
        call_ensures(BranchOutRun::<R>::git_ran, (run, ran), step) {
        let ran = choose|ran: Result<(), String>| #[trigger]
            call_ensures(BranchOutRun::<R>::git_ran, (run, ran), step);
        law_job_git(run, ran, step);
    } else if exists|made: bool| #[trigger]
        call_ensures(BranchOutRun::<R>::features_made, (run, made), step) {
    } else if exists|removed: bool| #[trigger]
        call_ensures(BranchOutRun::<R>::old_link_removed, (run, removed), step) {
    }
}

} // verus!
