//! Which workspace a new worktree comes from, and why.

use vstd::prelude::*;

use crate::app::App;
use crate::create::ApiWorktreeAddRequest;
use crate::law_terms::{first_with_id, none_with_id, same_place};
use crate::model::{law_workspace_index, GitSpace, Workspace, WorktreeSpaceMembership};
use crate::source::{SourceFacts, SourceLookup};

verus! {

/// The two memberships say the same.
pub open spec fn same_membership(a: WorktreeSpaceMembership, b: WorktreeSpaceMembership) -> bool {
    &&& a.key@ == b.key@
    &&& a.label@ == b.label@
    &&& same_place(a.repo_root@, b.repo_root@)
    &&& same_place(a.checkout_path@, b.checkout_path@)
    &&& a.is_linked_worktree == b.is_linked_worktree
}

/// The membership is that of a workspace that stands for the repository of the request.
pub open spec fn stands_for_repo<R>(
    space: WorktreeSpaceMembership,
    api: ApiWorktreeAddRequest<R>,
) -> bool {
    &&& space.key@ == api.repo_key@
    &&& space.label@ == api.repo_name@
    &&& same_place(space.repo_root@, api.source_repo_root@)
    &&& same_place(space.checkout_path@, api.source_checkout_path@)
    &&& !space.is_linked_worktree
}

/// What git is known to say of a workspace: what the workspace remembers, else what was found out.
pub open spec fn known_git(workspace: Workspace, facts: SourceFacts) -> Option<GitSpace> {
    if workspace.git_space is Some {
        workspace.git_space
    } else if facts.probed is Some {
        facts.probed->0
    } else {
        None
    }
}

/// The workspace is in the main checkout of the request's repository, as far as git says.
pub open spec fn git_may_agree<R>(space: GitSpace, api: ApiWorktreeAddRequest<R>) -> bool {
    !space.is_linked_worktree && space.key@ == api.repo_key@
}

/// A request without a source workspace, or whose workspace is gone, comes from the workspace of
/// its repository, whatever else is known.
pub proof fn law_source_gone<R>(
    app: App,
    api: ApiWorktreeAddRequest<R>,
    facts: SourceFacts,
    res: SourceLookup,
)
    requires
        call_ensures(App::api_create_source_workspace_idx::<R>, (&app, &api, &facts), res),
        api.source_workspace_id is None || none_with_id(
            app.workspaces@,
            api.source_workspace_id->0@,
        ),
    ensures
        facts.parent matches Some(parent) ==> res == SourceLookup::Known(parent),
        facts.parent is None ==> res == (SourceLookup::FindParent { repo_key: api.repo_key }),
{
    if let Some(id) = api.source_workspace_id {
        law_workspace_index(app.workspaces@, id@);
    }
}

/// A request that knew its workspace's membership comes from that workspace if the membership is
/// still the same, and from the workspace of its repository if not.
pub proof fn law_source_with_membership<R>(
    app: App,
    api: ApiWorktreeAddRequest<R>,
    facts: SourceFacts,
    res: SourceLookup,
    i: int,
)
    requires
        call_ensures(App::api_create_source_workspace_idx::<R>, (&app, &api, &facts), res),
        api.source_workspace_id is Some,
        first_with_id(app.workspaces@, api.source_workspace_id->0@, i),
        api.source_existing_membership is Some,
    ensures
        ({
            let now = app.workspaces@[i].worktree_space;
            if now is Some && same_membership(now->0, api.source_existing_membership->0) {
                res matches SourceLookup::Known(Some(idx)) && idx == i
            } else {
                &&& facts.parent matches Some(parent) ==> res == SourceLookup::Known(parent)
                &&& facts.parent is None ==> res == (SourceLookup::FindParent {
                    repo_key: api.repo_key,
                })
            }
        }),
{
    law_workspace_index(app.workspaces@, api.source_workspace_id->0@);
}

/// A request whose workspace had no membership comes from that workspace if it now stands for the
/// repository, and from the workspace of the repository if it now has another membership.
pub proof fn law_source_became_member<R>(
    app: App,
    api: ApiWorktreeAddRequest<R>,
    facts: SourceFacts,
    res: SourceLookup,
    i: int,
)
    requires
        call_ensures(App::api_create_source_workspace_idx::<R>, (&app, &api, &facts), res),
        api.source_workspace_id is Some,
        first_with_id(app.workspaces@, api.source_workspace_id->0@, i),
        api.source_existing_membership is None,
        app.workspaces@[i].worktree_space is Some,
    ensures
        if stands_for_repo(app.workspaces@[i].worktree_space->0, api) {
            res matches SourceLookup::Known(Some(idx)) && idx == i
        } else {
            &&& facts.parent matches Some(parent) ==> res == SourceLookup::Known(parent)
            &&& facts.parent is None ==> res == (SourceLookup::FindParent {
                repo_key: api.repo_key,
            })
        },
{
    law_workspace_index(app.workspaces@, api.source_workspace_id->0@);
}

/// A request whose workspace still has no membership comes from that workspace if git says that it
/// is in the main checkout of the repository: same key, same place of the repository, no linked
/// worktree. Git is asked only where the workspace remembers nothing, and the places only where the
/// rest agrees.
pub proof fn law_source_by_git<R>(
    app: App,
    api: ApiWorktreeAddRequest<R>,
    facts: SourceFacts,
    res: SourceLookup,
    i: int,
)
    requires
        call_ensures(App::api_create_source_workspace_idx::<R>, (&app, &api, &facts), res),
        api.source_workspace_id is Some,
        first_with_id(app.workspaces@, api.source_workspace_id->0@, i),
        api.source_existing_membership is None,
        app.workspaces@[i].worktree_space is None,
    ensures
        ({
            let workspace = app.workspaces@[i];
            let git = known_git(workspace, facts);
            let roots = facts.canonical_roots->0;
            if workspace.git_space is None && facts.probed is None {
                res matches SourceLookup::ProbeGitSpace { workspace_idx } && workspace_idx == i
            } else if git is Some && git_may_agree(git->0, api) && facts.canonical_roots is None {
                res matches SourceLookup::CanonicalRoots { space_root, source_root } && space_root@
                    == git->0.repo_root@ && source_root@ == api.source_repo_root@
            } else if git is Some && git_may_agree(git->0, api) && same_place(
                roots.0@,
                roots.1@,
            ) {
                res matches SourceLookup::Known(Some(idx)) && idx == i
            } else {
                &&& facts.parent matches Some(parent) ==> res == SourceLookup::Known(parent)
                &&& facts.parent is None ==> res == (SourceLookup::FindParent {
                    repo_key: api.repo_key,
                })
            }
        }),
{
    law_workspace_index(app.workspaces@, api.source_workspace_id->0@);
}

} // verus!
