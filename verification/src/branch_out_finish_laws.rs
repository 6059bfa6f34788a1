//! What the results of creating a branch come to.

use vstd::prelude::*;
use vstd::utf8::encode_utf8;

use crate::app::App;
use crate::branch_out_finish::{
    created_keys, failures, next_checkout, BranchOutFinish, BranchOutFinishStep, BranchOutTabs,
    NewTab, RepoOutcome,
};
use crate::branch_out_laws::{law_all_failed, law_features_path};
use crate::law_terms::{refuses, same_but_tables};
use crate::laws::law_removed;
use crate::path::{components, joined, Part, PathView};
use crate::protocol::{Effect, Reply, Response};
use crate::text::joined_texts;

verus! {

/// No repository has a checkout.
pub open spec fn all_failed(results: Seq<RepoOutcome>) -> bool {
    forall|i: int| 0 <= i < results.len() ==> (#[trigger] results[i]).outcome is Err
}

/// A checkout that was created is at the place.
pub open spec fn created_at(results: Seq<RepoOutcome>, place: Seq<Part>) -> bool {
    exists|i: int|
        0 <= i < results.len() && (#[trigger] results[i]).outcome is Ok && components(
            results[i].outcome->Ok_0.key@,
        ) == place
}

/// The keys of the checkouts that were created are those of the results with a checkout.
proof fn lemma_created_keys(results: Seq<RepoOutcome>, place: Seq<Part>)
    ensures
        created_keys(results).contains(place) <==> created_at(results, place),
    decreases results.len(),
{
    if results.len() > 0 {
        let rest = results.drop_last();
        let last = results.len() - 1;
        let before = created_keys(rest);
        let all = created_keys(results);
        lemma_created_keys(rest, place);
        if created_at(rest, place) {
            let i = choose|i: int|
                0 <= i < rest.len() && (#[trigger] rest[i]).outcome is Ok && components(
                    rest[i].outcome->Ok_0.key@,
                ) == place;
            assert(results[i] == rest[i]);
            let k = choose|k: int| 0 <= k < before.len() && before[k] == place;
            assert(all[k] == place);
        }
        if created_at(results, place) && !created_at(rest, place) {
            let i = choose|i: int|
                0 <= i < results.len() && (#[trigger] results[i]).outcome is Ok && components(
                    results[i].outcome->Ok_0.key@,
                ) == place;
            if i < last {
                assert(rest[i] == results[i]);
            }
            assert(all[before.len() as int] == place);
        }
        if all.contains(place) {
            let k = choose|k: int| 0 <= k < all.len() && all[k] == place;
            if k < before.len() {
                assert(before[k] == place);
            } else {
                assert(results[last].outcome is Ok);
            }
        }
    }
}

/// Where all repositories failed, there is one text for each.
proof fn lemma_failures(results: Seq<RepoOutcome>)
    requires
        all_failed(results),
    ensures
        failures(results) == Seq::new(
            results.len(),
            |i: int| "["@ + results[i].repo_name@ + "] "@ + results[i].outcome->Err_0@,
        ),
    decreases results.len(),
{
    let expected = Seq::new(
        results.len(),
        |i: int| "["@ + results[i].repo_name@ + "] "@ + results[i].outcome->Err_0@,
    );
    if results.len() > 0 {
        let rest = results.drop_last();
        assert forall|i: int| 0 <= i < rest.len() implies (
        #[trigger] rest[i]).outcome is Err by {
            assert(rest[i] == results[i]);
        }
        lemma_failures(rest);
        assert(results[results.len() - 1].outcome is Err);
    }
    assert(failures(results) =~= expected);
}

/// A checkout that was created is no longer registered. All else that was registered stays.
pub proof fn law_branch_out_ends<R>(
    app: &mut App,
    id: String,
    operation_id: u64,
    branch: String,
    label: Option<String>,
    respond_to: R,
    results: Vec<RepoOutcome>,
    res: BranchOutFinishStep<R>,
    place: Seq<Part>,
)
    requires
        call_ensures(
            App::handle_worktree_branch_out_finished::<R>,
            (app, id, operation_id, branch, label, respond_to, results),
            res,
        ),
    ensures
        ({
            let before = old(app).pending_api_worktree_creates@;
            let after = final(app).pending_api_worktree_creates@;
            &&& created_at(results@, place) ==> !after.dom().contains(place)
            &&& !created_at(results@, place) ==> {
                &&& after.dom().contains(place) <==> before.dom().contains(place)
                &&& after.dom().contains(place) ==> after[place] == before[place]
            }
        }),
        final(app).pending_api_worktree_removes@ == old(app).pending_api_worktree_removes@,
        final(app).pending_api_worktree_remove_paths@
            == old(app).pending_api_worktree_remove_paths@,
        final(app).next_api_worktree_operation_id == old(app).next_api_worktree_operation_id,
        same_but_tables(*old(app), *final(app)),
{
    let before = old(app).pending_api_worktree_creates@;
    assert(final(app).ledger().creates == final(app).pending_api_worktree_creates@);
    law_removed(before, created_keys(results@));
    lemma_created_keys(results@, place);
}

/// The request fails only if all repositories failed, and then the client is told why, for each of
/// them in order. Else the branch is shown in the directory of the features, with all results.
pub proof fn law_branch_out_outcome<R>(
    app: &mut App,
    id: String,
    operation_id: u64,
    branch: String,
    label: Option<String>,
    respond_to: R,
    results: Vec<RepoOutcome>,
    res: BranchOutFinishStep<R>,
)
    requires
        call_ensures(
            App::handle_worktree_branch_out_finished::<R>,
            (app, id, operation_id, branch, label, respond_to, results),
            res,
        ),
    ensures
        if all_failed(results@) {
            &&& res matches BranchOutFinishStep::Answer(reply)
            &&& refuses(
                reply,
                respond_to,
                id,
                "branch_out_failed"@,
                joined_texts(
                    Seq::new(
                        results@.len(),
                        |i: int|
                            "["@ + results@[i].repo_name@ + "] "@ + results@[i].outcome->Err_0@,
                    ),
                    "; "@,
                ),
            )
        } else {
            &&& res matches BranchOutFinishStep::FindWorkspace(finish)
            &&& finish.id == id
            &&& finish.respond_to == respond_to
            &&& finish.branch == branch
            &&& finish.label == label
            &&& finish.results == results
            &&& finish.features_dir@.platform == old(app).platform
            &&& finish.features_dir@.bytes == joined(
                PathView {
                    platform: old(app).platform,
                    bytes: encode_utf8("/home/chefyeum/Documents/features"@),
                },
                encode_utf8(branch@),
            ).bytes
            &&& encode_utf8(finish.features_text@) == finish.features_dir@.bytes
        },
{
    law_all_failed(results@);
    law_features_path(old(app).platform, branch@);
    if all_failed(results@) {
        lemma_failures(results@);
    }
}

/// The workspace of the branch gets the client's label if there is one, is focused, and its first tab
/// is called `Home`, in this order. Nothing else is done before the tabs, which start with the first
/// result.
pub open spec fn shows_branch<R>(
    step: BranchOutFinishStep<R>,
    finish: BranchOutFinish<R>,
    workspace_idx: usize,
) -> bool {
    let named: int = if finish.label is Some {
        1
    } else {
        0
    };
    &&& step matches BranchOutFinishStep::OpenTabs { effects, tabs }
    &&& effects@.len() == named + 2
    &&& finish.label matches Some(name) ==> effects@[0] == (Effect::RenameWorkspace {
        workspace_idx,
        name,
    })
    &&& effects@[named] == (Effect::SwitchWorkspace { workspace_idx })
    &&& effects@[named + 1] matches Effect::RenameTab { workspace_idx: idx, tab_idx, name }
    &&& idx == workspace_idx
    &&& tab_idx == 0
    &&& name@ == "Home"@
    &&& tabs.finish == finish
    &&& tabs.workspace_idx == workspace_idx
    &&& tabs.next == 0
}

/// The branch is shown in the workspace that was found, or in the one that was made. Where none
/// could be made, the client is told why.
pub proof fn law_branch_workspace<R>(
    app: App,
    finish: BranchOutFinish<R>,
    found: Option<usize>,
    after_found: BranchOutFinishStep<R>,
    made: Result<usize, String>,
    after_made: BranchOutFinishStep<R>,
)
    requires
        call_ensures(
            App::branch_out_workspace_found::<R>,
            (&app, finish, found),
            after_found,
        ),
        call_ensures(
            App::branch_out_workspace_created::<R>,
            (&app, finish, made),
            after_made,
        ),
    ensures
        match found {
            Some(workspace_idx) => shows_branch(after_found, finish, workspace_idx),
            None => after_found == BranchOutFinishStep::CreateWorkspace(finish),
        },
        match made {
            Ok(workspace_idx) => shows_branch(after_made, finish, workspace_idx),
            Err(error) => after_made matches BranchOutFinishStep::Answer(reply) && refuses(
                reply,
                finish.respond_to,
                finish.id,
                "workspace_open_failed"@,
                "Failed to create unified workspace: "@ + error@,
            ),
        },
{
}

/// Where the next checkout is.
proof fn lemma_next(results: Seq<RepoOutcome>, from: int)
    requires
        0 <= from,
    ensures
        ({
            let i = next_checkout(results, from);
            &&& from <= results.len() ==> from <= i <= results.len()
            &&& from > results.len() ==> i == results.len()
            &&& i < results.len() ==> results[i].outcome is Ok
            &&& forall|j: int| from <= j < i ==> (#[trigger] results[j]).outcome is Err
        }),
    decreases results.len() - from,
{
    if from < results.len() && !(results[from].outcome is Ok) {
        lemma_next(results, from + 1);
    }
}

/// The next tab is for the first checkout that has none yet, in its directory and with the name of
/// its repository; failed repositories are passed over. The tabs are done only where no checkout is
/// left.
pub proof fn law_branch_next_tab<R>(app: App, tabs: BranchOutTabs<R>, res: BranchOutFinishStep<R>)
    requires
        call_ensures(App::branch_out_next_tab::<R>, (&app, tabs), res),
    ensures
        ({
            let results = tabs.finish.results@;
            ||| {
                &&& res == BranchOutFinishStep::TabsDone(tabs)
                &&& forall|j: int|
                    tabs.next <= j < results.len() ==> (#[trigger] results[j]).outcome is Err
            }
            ||| {
                &&& res matches BranchOutFinishStep::CreateTab { cwd, repo_name, tabs: next }
                &&& next.finish == tabs.finish
                &&& next.workspace_idx == tabs.workspace_idx
                &&& tabs.next < next.next <= results.len()
                &&& results[next.next - 1].outcome is Ok
                &&& cwd@ == results[next.next - 1].outcome->Ok_0.path@
                &&& repo_name == results[next.next - 1].repo_name
                &&& forall|j: int|
                    tabs.next <= j < next.next - 1 ==> (#[trigger] results[j]).outcome is Err
            }
        }),
{
    let results = tabs.finish.results@;
    lemma_next(results, tabs.next as int);
    assert(tabs.finish.results.len() == results.len());
}

/// A tab that was made has its terminal registered, stands in front of any alias, and gets the name of
/// its repository, in this order. A tab that could not be made leaves nothing. The tabs go on in
/// either case.
pub proof fn law_branch_tab<R>(
    app: App,
    tabs: BranchOutTabs<R>,
    repo_name: String,
    made: Result<NewTab, String>,
    res: BranchOutFinishStep<R>,
)
    requires
        call_ensures(App::branch_out_tab_created::<R>, (&app, tabs, repo_name, made), res),
    ensures
        res matches BranchOutFinishStep::OpenTabs { effects, tabs: next } && {
            &&& next == tabs
            &&& made is Err ==> effects@.len() == 0
            &&& made matches Ok(tab) ==> {
                &&& effects@.len() == 4
                &&& effects@[0] == (Effect::RegisterTerminalRuntime {
                    terminal_id: tab.terminal_id,
                })
                &&& effects@[1] == (Effect::RegisterTerminal { terminal_id: tab.terminal_id })
                &&& effects@[2] == (Effect::RemoveShadowedAlias {
                    workspace_idx: tabs.workspace_idx,
                    tab_idx: tab.tab_idx,
                })
                &&& effects@[3] == (Effect::RenameTab {
                    workspace_idx: tabs.workspace_idx,
                    tab_idx: tab.tab_idx,
                    name: repo_name,
                })
            }
        },
{
}

/// The second tab is shown if there is one. Then the session is saved and the screen drawn.
pub proof fn law_branch_tabs_done<R>(
    app: App,
    tabs: BranchOutTabs<R>,
    res: BranchOutFinishStep<R>,
)
    requires
        tabs.workspace_idx < app.workspaces@.len(),
        call_ensures(App::branch_out_tabs_done::<R>, (&app, tabs), res),
    ensures
        res matches BranchOutFinishStep::Show { effects, tabs: next } && {
            let second: int = if app.workspaces@[tabs.workspace_idx as int].tab_count >= 2 {
                1
            } else {
                0
            };
            &&& next == tabs
            &&& effects@.len() == second + 2
            &&& second == 1 ==> effects@[0] == (Effect::SwitchTab {
                workspace_idx: tabs.workspace_idx,
                tab_idx: 1,
            })
            &&& effects@[second] == Effect::MarkSessionDirty
            &&& effects@[second + 1] == Effect::RequestRender
        },
{
}

/// The client is answered with the workspace of the branch, at the tab that is active there, and with
/// the features directory as a linked worktree of the branch, called by the client's label or else
/// by the branch.
pub proof fn law_branch_answered<R>(app: App, tabs: BranchOutTabs<R>, res: Reply<R>)
    requires
        tabs.workspace_idx < app.workspaces@.len(),
        call_ensures(App::branch_out_shown::<R>, (&app, tabs), res),
    ensures
        res.respond_to == tabs.finish.respond_to,
        res.response matches Response::WorktreeCreated { id, workspace_idx, tab_idx, worktree } && {
            let workspace = app.workspaces@[tabs.workspace_idx as int];
            &&& id == tabs.finish.id
            &&& workspace_idx == tabs.workspace_idx
            &&& tab_idx == workspace.active_tab
            &&& worktree.path == tabs.finish.features_text
            &&& worktree.branch == Some(tabs.finish.branch)
            &&& worktree.is_linked_worktree
            &&& !worktree.is_detached
            &&& !worktree.is_bare
            &&& !worktree.is_prunable
            &&& tabs.finish.label matches Some(label) ==> worktree.label == label
            &&& tabs.finish.label is None ==> worktree.label == tabs.finish.branch
            &&& worktree.open_workspace_id == Some(workspace.id)
        },
{
}

} // verus!
