//! Which repositories a branch is created in, from where, and where to.

use vstd::prelude::*;
use vstd::utf8::{encode_utf8, is_ascii_chars_encode_utf8};

use crate::app::App;
use crate::branch_out::{
    base_repo_name, base_workspaces, is_base_workspace, path_keys, BranchOutPlan, BranchOutStep,
    RepoCheckout,
};
use crate::law_terms::{
    first_with_id, is_blank, is_inside, none_with_id, number_taken, refuses, same_but_tables,
};
use crate::laws::law_inserted;
use crate::model::{law_workspace_index, Workspace};
use crate::path::{components, joined, parent_of, Part, PathView, WorktreePath};
use crate::path_laws::law_parent;
use crate::protocol::WorktreeBranchOutParams;
use crate::text::law_trimmed_inside;

verus! {

/// The last component of the directory is the given name.
pub open spec fn is_in(cwd: PathView, name: Seq<char>) -> bool {
    let parts = components(cwd);
    parts.len() > 0 && parts[parts.len() - 1] == Part::Named(encode_utf8(name))
}

/// The directory holds one of the three base repositories.
pub open spec fn holds_base_repo(cwd: PathView) -> bool {
    is_in(cwd, "hanson"@) || is_in(cwd, "smarkets"@) || is_in(cwd, "pricing_config"@)
}

/// The branch is created in the repository of the workspace.
pub open spec fn takes_part(workspace: Workspace) -> bool {
    holds_base_repo(workspace.identity_cwd@) && workspace.id@ != "wM"@
}

/// The names of the base repositories differ.
proof fn lemma_names_differ()
    ensures
        encode_utf8("hanson"@) != encode_utf8("smarkets"@),
        encode_utf8("hanson"@) != encode_utf8("pricing_config"@),
        encode_utf8("smarkets"@) != encode_utf8("pricing_config"@),
{
    reveal_strlit("hanson");
    reveal_strlit("smarkets");
    reveal_strlit("pricing_config");
    is_ascii_chars_encode_utf8("hanson"@);
    is_ascii_chars_encode_utf8("smarkets"@);
    is_ascii_chars_encode_utf8("pricing_config"@);
}

/// A directory is known by each of the three names that it can end in, and by no other.
pub proof fn law_base_repo_name(cwd: PathView)
    ensures
        is_in(cwd, "hanson"@) ==> base_repo_name(cwd) == Some("hanson"@),
        is_in(cwd, "smarkets"@) ==> base_repo_name(cwd) == Some("smarkets"@),
        is_in(cwd, "pricing_config"@) ==> base_repo_name(cwd) == Some("pricing_config"@),
        base_repo_name(cwd) is None <==> !holds_base_repo(cwd),
        base_repo_name(cwd) matches Some(name) ==> is_in(cwd, name),
{
    lemma_names_differ();
}

/// Where the workspaces that take part stand in the list.
pub open spec fn are_places(workspaces: Seq<Workspace>, places: Seq<int>) -> bool {
    &&& forall|a: int, b: int|
        #![trigger places[a], places[b]]
        0 <= a < b < places.len() ==> places[a] < places[b]
    &&& forall|k: int|
        #![trigger places[k]]
        0 <= k < places.len() ==> 0 <= places[k] < workspaces.len() && takes_part(
            workspaces[places[k]],
        )
    &&& forall|j: int|
        #![trigger workspaces[j]]
        0 <= j < workspaces.len() && takes_part(workspaces[j]) ==> places.contains(j)
}

/// The workspaces that take part stand at their places.
proof fn lemma_places(workspaces: Seq<Workspace>) -> (places: Seq<int>)
    ensures
        are_places(workspaces, places),
        places.len() == base_workspaces(workspaces).len(),
        forall|k: int|
            #![trigger places[k]]
            0 <= k < places.len() ==> base_workspaces(workspaces)[k] == workspaces[places[k]],
    decreases workspaces.len(),
{
    reveal(Seq::filter);
    if workspaces.len() == 0 {
        assert(base_workspaces(workspaces) =~= Seq::empty());
        Seq::empty()
    } else {
        let rest = workspaces.drop_last();
        let before = lemma_places(rest);
        let last = workspaces.len() - 1;
        law_base_repo_name(workspaces[last].identity_cwd@);
        assert(takes_part(workspaces[last]) == is_base_workspace(workspaces[last]));
        let places = if takes_part(workspaces[last]) {
            before.push(last)
        } else {
            before
        };
        assert forall|a: int, b: int|
            #![trigger places[a], places[b]]
            0 <= a < b < places.len() implies places[a] < places[b] by {
            if b < before.len() {
                assert(before[a] < before[b]);
            } else {
                assert(before[a] < rest.len());
            }
        }
        assert forall|k: int|
            #![trigger places[k]]
            0 <= k < places.len() implies 0 <= places[k] < workspaces.len() && takes_part(
            workspaces[places[k]],
        ) by {
            if k < before.len() {
                assert(rest[before[k]] == workspaces[before[k]]);
            }
        }
        assert forall|j: int|
            #![trigger workspaces[j]]
            0 <= j < workspaces.len() && takes_part(workspaces[j]) implies places.contains(j) by {
            if j < last {
                assert(rest[j] == workspaces[j]);
                let k = choose|k: int| 0 <= k < before.len() && before[k] == j;
                assert(places[k] == j);
            } else {
                assert(places[before.len() as int] == j);
            }
        }
        assert forall|k: int|
            #![trigger places[k]]
            0 <= k < places.len() implies base_workspaces(workspaces)[k]
            == workspaces[places[k]] by {
            if k < before.len() {
                assert(rest[before[k]] == workspaces[before[k]]);
            }
        }
        places
    }
}

/// The checkout of the branch for the repository at `cwd`: next to the repository, in the directory
/// with the repository's name and `.worktrees`, under the name of the branch. The link to it is in
/// the directory of the branch below `features`, under the repository's name.
pub open spec fn is_checkout(repo: RepoCheckout, cwd: PathView, branch: Seq<char>) -> bool {
    let name = repo.repo_name@;
    &&& name == "hanson"@ || name == "smarkets"@ || name == "pricing_config"@
    &&& is_in(cwd, name)
    &&& repo.repo_root@ == cwd
    &&& parent_of(cwd) matches Some(dir)
    &&& components(dir) == components(cwd).drop_last()
    &&& repo.checkout_path@ == joined(
        joined(dir, encode_utf8(name + ".worktrees"@)),
        encode_utf8(branch),
    )
    &&& repo.checkout_parent is Some <==> components(repo.checkout_path@).len() > 0 && components(
        repo.checkout_path@,
    )[components(repo.checkout_path@).len() - 1] is Named
    &&& repo.checkout_parent matches Some(above) ==> components(above@) == components(
        repo.checkout_path@,
    ).drop_last()
    &&& repo.features_dir@ == joined(joined(dir, encode_utf8("features"@)), encode_utf8(branch))
    &&& repo.link@ == joined(repo.features_dir@, encode_utf8(name))
}

/// Every workspace that takes part has its checkout in the plan, in the order of the workspaces, and
/// no other has one.
pub open spec fn is_complete<R>(plan: BranchOutPlan<R>, workspaces: Seq<Workspace>) -> bool {
    exists|places: Seq<int>|
        {
            &&& #[trigger] are_places(workspaces, places)
            &&& places.len() == plan.repos@.len()
            &&& forall|k: int|
                #![trigger plan.repos@[k]]
                0 <= k < places.len() ==> is_checkout(
                    plan.repos@[k],
                    workspaces[places[k]].identity_cwd@,
                    plan.branch@,
                )
        }
}

/// How a request to create a branch starts. A blank branch, an unknown parent workspace, and a list
/// of workspaces without base repositories are refused, in this order. Any other request goes on with
/// the branch, without the white space around it, from the branch that the parent workspace has, or
/// from `HEAD`, in all base repositories.
pub open spec fn starts_branch<R>(
    app: App,
    id: String,
    params: WorktreeBranchOutParams,
    respond_to: R,
    step: BranchOutStep<R>,
) -> bool {
    let workspaces = app.workspaces@;
    let parent = params.parent_workspace_id@;
    if is_blank(params.branch@) {
        step matches BranchOutStep::Answer(reply) && refuses(
            reply,
            respond_to,
            id,
            "invalid_request"@,
            "branch is required"@,
        )
    } else if none_with_id(workspaces, parent) {
        step matches BranchOutStep::Answer(reply) && refuses(
            reply,
            respond_to,
            id,
            "workspace_not_found"@,
            "parent workspace not found"@,
        )
    } else if forall|j: int|
        0 <= j < workspaces.len() ==> !takes_part(#[trigger] workspaces[j]) {
        step matches BranchOutStep::Answer(reply) && refuses(
            reply,
            respond_to,
            id,
            "invalid_request"@,
            "no base repositories found to branch out"@,
        )
    } else {
        &&& step matches BranchOutStep::Canonicalize(plan)
        &&& plan.id == id
        &&& plan.respond_to == respond_to
        &&& plan.label == params.label
        &&& is_inside(params.branch@, plan.branch@)
        &&& forall|i: int| #[trigger]
            first_with_id(workspaces, parent, i) ==> plan.base@ == (
            match workspaces[i].cached_git_branch {
                Some(own) => own@,
                None => "HEAD"@,
            })
        &&& is_complete(plan, workspaces)
    }
}

/// A request to create a branch starts in this way.
pub proof fn law_branch_out_starts<R>(
    app: App,
    id: String,
    params: WorktreeBranchOutParams,
    respond_to: R,
    res: BranchOutStep<R>,
)
    requires
        call_ensures(App::start_api_worktree_branch_out::<R>, (&app, id, params, respond_to), res),
    ensures
        starts_branch(app, id, params, respond_to, res),
{
    lemma_starts(app, id, params, respond_to, res);
}

/// What the start of a branch comes to.
pub(crate) proof fn lemma_starts<R>(
    app: App,
    id: String,
    params: WorktreeBranchOutParams,
    respond_to: R,
    res: BranchOutStep<R>,
)
    requires
        app.branch_out_started(id, params, respond_to, res),
        res.caller() == (respond_to, id),
    ensures
        starts_branch(app, id, params, respond_to, res),
{
    let workspaces = app.workspaces@;
    law_trimmed_inside(params.branch@);
    law_workspace_index(workspaces, params.parent_workspace_id@);
    let places = lemma_places(workspaces);
    let none = forall|j: int| 0 <= j < workspaces.len() ==> !takes_part(#[trigger] workspaces[j]);
    assert(none <==> places.len() == 0) by {
        if places.len() > 0 {
            assert(takes_part(workspaces[places[0]]));
        } else if !none {
            let j = choose|j: int|
                0 <= j < workspaces.len() && takes_part(#[trigger] workspaces[j]);
            assert(places.contains(j));
        }
    }
    if let BranchOutStep::Canonicalize(plan) = res {
        assert forall|k: int|
            #![trigger plan.repos@[k]]
            0 <= k < places.len() implies is_checkout(
            plan.repos@[k],
            workspaces[places[k]].identity_cwd@,
            plan.branch@,
        ) by {
            let cwd = workspaces[places[k]].identity_cwd@;
            let repo = plan.repos@[k];
            law_base_repo_name(cwd);
            law_parent(cwd);
            law_parent(repo.checkout_path@);
        }
        assert(are_places(workspaces, places));
    }
}

/// All checkouts of the branch are registered, each under the one new number, in place of what was
/// there. Nothing else is registered or changed, and the job is the one of the plan.
pub proof fn law_branch_out_registers<R>(
    app: &mut App,
    plan: BranchOutPlan<R>,
    keys: Vec<WorktreePath>,
    res: BranchOutStep<R>,
)
    requires
        keys@.len() == plan.repos@.len(),
        call_ensures(App::branch_out_keyed::<R>, (app, plan, &keys), res),
    ensures
        ({
            let before = old(app).pending_api_worktree_creates@;
            let after = final(app).pending_api_worktree_creates@;
            let number = old(app).next_api_worktree_operation_id;
            &&& forall|i: int|
                #![trigger keys@[i]]
                0 <= i < keys@.len() ==> after.dom().contains(components(keys@[i]@))
                    && after[components(keys@[i]@)] == number
            &&& forall|place: Seq<Part>|
                (forall|i: int|
                    #![trigger keys@[i]]
                    0 <= i < keys@.len() ==> components(keys@[i]@) != place) ==> {
                    &&& #[trigger] after.dom().contains(place) <==> before.dom().contains(place)
                    &&& after.dom().contains(place) ==> after[place] == before[place]
                }
            &&& final(app).pending_api_worktree_removes@ == old(app).pending_api_worktree_removes@
            &&& final(app).pending_api_worktree_remove_paths@
                == old(app).pending_api_worktree_remove_paths@
            &&& number_taken(*old(app), *final(app))
            &&& same_but_tables(*old(app), *final(app))
        }),
        res matches BranchOutStep::Spawn(job) && {
            &&& job.id == plan.id
            &&& job.operation_id == old(app).next_api_worktree_operation_id
            &&& job.branch == plan.branch
            &&& job.label == plan.label
            &&& job.respond_to == plan.respond_to
            &&& job.base == plan.base
            &&& job.repos == plan.repos
        },
{
    let before = old(app).pending_api_worktree_creates@;
    let after = final(app).pending_api_worktree_creates@;
    let number = old(app).next_api_worktree_operation_id;
    let places = path_keys(keys@);
    assert(final(app).ledger().creates == after);
    law_inserted(before, places, number);
    assert forall|i: int|
        #![trigger keys@[i]]
        0 <= i < keys@.len() implies after.dom().contains(components(keys@[i]@))
        && after[components(keys@[i]@)] == number by {
        assert(places[i] == components(keys@[i]@));
        assert(places.contains(components(keys@[i]@)));
    }
    assert forall|place: Seq<Part>|
        (forall|i: int|
            #![trigger keys@[i]]
            0 <= i < keys@.len() ==> components(keys@[i]@) != place) implies {
        &&& #[trigger] after.dom().contains(place) <==> before.dom().contains(place)
        &&& after.dom().contains(place) ==> after[place] == before[place]
    } by {
        if places.contains(place) {
            let i = choose|i: int| 0 <= i < places.len() && places[i] == place;
            assert(components(keys@[i]@) == place);
        }
    }
}

} // verus!
