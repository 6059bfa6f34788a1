//! What the requests to create a worktree come to.

use vstd::prelude::*;

use crate::app::App;
use crate::create::{
    branch_seed, AddJob, AddJobStep, CreateLocated, CreatePlan, CreateRequest, CreateSourced,
    CreateStep, WorktreeAddResult,
};
use crate::law_terms::{
    first_with_id, is_blank, is_inside, number_taken, refuses, same_but_tables, same_tables,
};
use crate::model::{law_workspace_index, WorktreeSource};
use crate::path::{components, WorktreePath};
use crate::path_laws::law_parent;
use crate::protocol::{ApiError, WorktreeCreateParams};
use crate::text::law_trimmed_inside;

verus! {

/// A plan keeps all that its request says. Git starts at the base that the client gave, and at
/// `HEAD` only where the client gave none.
pub open spec fn keeps_request<R>(
    plan: CreatePlan<R>,
    id: String,
    params: WorktreeCreateParams,
    respond_to: R,
) -> bool {
    &&& plan.id == id
    &&& plan.respond_to == respond_to
    &&& params.base matches Some(base) ==> plan.base@ == base@
    &&& params.base is None ==> plan.base@ == "HEAD"@
    &&& plan.workspace_id == params.workspace_id
    &&& plan.cwd == params.cwd
    &&& plan.path == params.path
    &&& plan.label == params.label
    &&& plan.focus == params.focus
}

/// Microseconds that fit are the seed, more than fit give the largest one, and a clock before 1970
/// gives zero. Later moments never give smaller seeds.
pub proof fn law_branch_seed(earlier: u128, later: u128, a: u64, b: u64, none: u64)
    requires
        call_ensures(branch_seed, (Some(earlier),), a),
        call_ensures(branch_seed, (Some(later),), b),
        call_ensures(branch_seed, (None,), none),
    ensures
        earlier <= u64::MAX ==> a == earlier,
        earlier > u64::MAX ==> a == u64::MAX,
        earlier <= later ==> a <= b,
        none == 0,
{
}

/// How a request to create a worktree starts. Without a branch it waits for one and loses nothing.
/// With a blank branch it is refused. Any other goes on with the branch, without the white space
/// around it, and with all else that the client said.
pub open spec fn starts_creating<R>(
    id: String,
    params: WorktreeCreateParams,
    respond_to: R,
    step: CreateStep<R>,
) -> bool {
    match params.branch {
        None => step == CreateStep::GenerateBranch(CreateRequest { id, params, respond_to }),
        Some(branch) => if is_blank(branch@) {
            step matches CreateStep::Answer(reply) && refuses(
                reply,
                respond_to,
                id,
                "invalid_request"@,
                "branch is required"@,
            )
        } else {
            step matches CreateStep::ResolveSource(plan) && is_inside(branch@, plan.branch@)
                && keeps_request(plan, id, params, respond_to)
        },
    }
}

/// A request to create a worktree starts in this way.
pub proof fn law_create_starts<R>(
    app: App,
    id: String,
    params: WorktreeCreateParams,
    respond_to: R,
    res: CreateStep<R>,
)
    requires
        call_ensures(App::start_api_worktree_create::<R>, (&app, id, params, respond_to), res),
    ensures
        starts_creating(id, params, respond_to, res),
{
    if let Some(branch) = params.branch {
        law_trimmed_inside(branch@);
    }
}

/// The same holds of a branch that was generated.
pub proof fn law_generated_branch<R>(
    app: App,
    request: CreateRequest<R>,
    branch: String,
    res: CreateStep<R>,
)
    requires
        call_ensures(App::create_branch_generated::<R>, (&app, request, branch), res),
    ensures
        if is_blank(branch@) {
            res matches CreateStep::Answer(reply) && refuses(
                reply,
                request.respond_to,
                request.id,
                "invalid_request"@,
                "branch is required"@,
            )
        } else {
            res matches CreateStep::ResolveSource(plan) && is_inside(branch@, plan.branch@)
                && keeps_request(plan, request.id, request.params, request.respond_to)
        },
{
    law_trimmed_inside(branch@);
}

/// The base that the client gave decides alone where git starts: two requests that differ in
/// anything else start at the same revision.
pub proof fn law_base_is_the_clients<R>(
    app: App,
    a: CreateRequest<R>,
    b: CreateRequest<R>,
    branch_a: String,
    branch_b: String,
    plan_a: CreatePlan<R>,
    plan_b: CreatePlan<R>,
)
    requires
        call_ensures(
            App::create_branch_generated::<R>,
            (&app, a, branch_a),
            CreateStep::ResolveSource(plan_a),
        ),
        call_ensures(
            App::create_branch_generated::<R>,
            (&app, b, branch_b),
            CreateStep::ResolveSource(plan_b),
        ),
        a.params.base is Some,
        b.params.base is Some,
    ensures
        a.params.base->0@ == b.params.base->0@ <==> plan_a.base@ == plan_b.base@,
{
}

/// Where the source was found, the request goes on with it unchanged: to the client's path if there
/// is one, else to the default one. Where it was not, the client gets the host's error.
pub proof fn law_create_source<R>(
    app: App,
    plan: CreatePlan<R>,
    resolved: Result<WorktreeSource, ApiError>,
    res: CreateStep<R>,
)
    requires
        call_ensures(App::create_source_resolved::<R>, (&app, plan, resolved), res),
    ensures
        match resolved {
            Err(error) => res matches CreateStep::Answer(reply) && refuses(
                reply,
                plan.respond_to,
                plan.id,
                error.code@,
                error.message@,
            ),
            Ok(source) => match plan.path {
                Some(_) => res matches CreateStep::AbsolutePath(next) && next.plan == plan
                    && next.source == source,
                None => res matches CreateStep::DefaultPath(next) && next.plan == plan
                    && next.source == source,
            },
        },
{
}

/// Where the path was found, the request goes on with it unchanged. Where it was not, the client
/// gets the host's error.
pub proof fn law_create_path<R>(
    app: App,
    sourced: CreateSourced<R>,
    located: Result<WorktreePath, ApiError>,
    res: CreateStep<R>,
)
    requires
        call_ensures(App::create_checkout_located::<R>, (&app, sourced, located), res),
    ensures
        match located {
            Err(error) => res matches CreateStep::Answer(reply) && refuses(
                reply,
                sourced.plan.respond_to,
                sourced.plan.id,
                error.code@,
                error.message@,
            ),
            Ok(path) => res matches CreateStep::Canonicalize(next) && next.plan == sourced.plan
                && next.source == sourced.source && next.checkout_path == path,
        },
{
}

/// A checkout that is being created or removed is not created: the client is told, and nothing
/// changes. Any other is registered under a new number, and nothing else changes.
pub proof fn law_create_registers<R>(
    app: &mut App,
    located: CreateLocated<R>,
    key: WorktreePath,
    res: CreateStep<R>,
)
    requires
        call_ensures(App::create_checkout_keyed::<R>, (app, located, key), res),
    ensures
        ({
            let before = *old(app);
            let after = *final(app);
            let place = components(key@);
            let number = before.next_api_worktree_operation_id;
            &&& same_but_tables(before, after)
            &&& if before.pending_api_worktree_creates@.dom().contains(place)
                || before.pending_api_worktree_remove_paths@.dom().contains(place) {
                &&& same_tables(before, after)
                &&& res matches CreateStep::Answer(reply)
                &&& refuses(
                    reply,
                    located.plan.respond_to,
                    located.plan.id,
                    "worktree_operation_in_progress"@,
                    "worktree operation is already in progress for this checkout"@,
                )
            } else {
                &&& after.pending_api_worktree_creates@
                    == before.pending_api_worktree_creates@.insert(place, number)
                &&& after.pending_api_worktree_removes@ == before.pending_api_worktree_removes@
                &&& after.pending_api_worktree_remove_paths@
                    == before.pending_api_worktree_remove_paths@
                &&& number_taken(before, after)
                &&& res is Spawn
            }
        }),
{
}

/// The job has the branch, the base and the path of the request, and remembers all that is needed
/// once git is done: the number and the key it is registered under, the caller, the label, the
/// focus and the source.
pub proof fn law_create_job<R>(
    app: &mut App,
    located: CreateLocated<R>,
    key: WorktreePath,
    job: AddJob<R>,
)
    requires
        call_ensures(
            App::create_checkout_keyed::<R>,
            (app, located, key),
            CreateStep::Spawn(job),
        ),
    ensures
        job.path == located.checkout_path,
        job.branch == located.plan.branch,
        job.base == located.plan.base,
        job.api_request.id == located.plan.id,
        job.api_request.respond_to == located.plan.respond_to,
        job.api_request.label == located.plan.label,
        job.api_request.focus == located.plan.focus,
        job.api_request.operation_id == old(app).next_api_worktree_operation_id,
        job.api_request.checkout_key == key,
        job.api_request.source_checkout_path == located.source.source_checkout_path,
        job.api_request.source_repo_root == located.source.source_repo_root,
        job.api_request.repo_key == located.source.repo_key,
        job.api_request.repo_name == located.source.repo_name,
{
}

/// The directory that the job makes has all the components of the checkout but the last. There is
/// none only where the checkout's path does not end in a name.
pub proof fn law_create_parent<R>(
    app: &mut App,
    located: CreateLocated<R>,
    key: WorktreePath,
    job: AddJob<R>,
)
    requires
        call_ensures(
            App::create_checkout_keyed::<R>,
            (app, located, key),
            CreateStep::Spawn(job),
        ),
    ensures
        ({
            let own = components(located.checkout_path@);
            &&& job.parent_dir matches Some(dir) ==> components(dir@) == own.drop_last()
            &&& job.parent_dir is Some <==> own.len() > 0 && own[own.len() - 1] is Named
        }),
{
    law_parent(located.checkout_path@);
}

/// The job remembers the source workspace by its id, with the membership that the first workspace
/// of this id has now. Without a source workspace it remembers neither.
pub proof fn law_create_source_memory<R>(
    app: &mut App,
    located: CreateLocated<R>,
    key: WorktreePath,
    job: AddJob<R>,
)
    requires
        call_ensures(
            App::create_checkout_keyed::<R>,
            (app, located, key),
            CreateStep::Spawn(job),
        ),
    ensures
        ({
            let workspaces = old(app).workspaces@;
            let id = job.api_request.source_workspace_id;
            let known = job.api_request.source_existing_membership;
            match located.source.workspace_idx {
                Some(idx) if idx < workspaces.len() => {
                    &&& id == Some(workspaces[idx as int].id)
                    &&& forall|i: int| #[trigger]
                        first_with_id(workspaces, id->0@, i) ==> {
                            &&& known is Some <==> workspaces[i].worktree_space is Some
                            &&& known matches Some(space) ==> space@
                                == workspaces[i].worktree_space->0@
                        }
                },
                _ => id is None && known is None,
            }
        }),
{
    let workspaces = old(app).workspaces@;
    if let Some(idx) = located.source.workspace_idx {
        if idx < workspaces.len() {
            let id = workspaces[idx as int].id@;
            law_workspace_index(workspaces, id);
        }
    }
}

/// Whether a job ends early or late, its result is about its own path and for its own caller. Git
/// runs only where the directory could be made, and what went wrong is in the result.
pub proof fn law_add_job<R>(
    job: AddJob<R>,
    made: Result<(), String>,
    step: AddJobStep<R>,
    ran: Result<(), String>,
    result: WorktreeAddResult<R>,
)
    requires
        call_ensures(AddJob::<R>::parent_made, (job, made), step),
        call_ensures(AddJob::<R>::added, (job, ran), result),
    ensures
        made is Ok ==> step == AddJobStep::RunGit(job),
        made matches Err(error) ==> step matches AddJobStep::Done(early) && early.path == job.path
            && early.api_request == Some(job.api_request) && early.result == Err::<(), String>(
            error,
        ),
        result.path == job.path,
        result.api_request == Some(job.api_request),
        result.result == ran,
{
}

} // verus!
