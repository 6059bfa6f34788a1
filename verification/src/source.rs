//! Which workspace a new worktree comes from.

use vstd::prelude::*;

use crate::app::App;
use crate::create::ApiWorktreeAddRequest;
use crate::model::{
    find_workspace, workspace_index, GitSpace, MembershipView, Workspace, WorktreeSpaceMembership,
};
use crate::path::{components, PathView, WorktreePath};

verus! {

/// What the host has found out for a lookup so far.
pub struct SourceFacts {
    /// What git says around the directory of the workspace.
    pub probed: Option<Option<GitSpace>>,
    /// The canonical forms of the two paths of `SourceLookup::CanonicalRoots`.
    pub canonical_roots: Option<(WorktreePath, WorktreePath)>,
    /// The workspace that stands for the repository as a whole.
    pub parent: Option<Option<usize>>,
}

impl SourceFacts {
    /// Nothing found out yet.
    pub fn none() -> (res: SourceFacts)
        ensures
            res.probed is None,
            res.canonical_roots is None,
            res.parent is None,
    {
        SourceFacts { probed: None, canonical_roots: None, parent: None }
    }
}

/// The outcome of a lookup, or the fact that it needs next.
pub enum SourceLookup {
    Known(Option<usize>),
    /// What does git say around the directory of this workspace?
    ProbeGitSpace { workspace_idx: usize },
    /// What are the canonical forms of these paths?
    CanonicalRoots { space_root: WorktreePath, source_root: WorktreePath },
    /// Which workspace stands for the repository with this key?
    FindParent { repo_key: String },
}

/// What the known facts say about the workspace that a request named.
pub enum SourceVerdict {
    /// It is the source.
    Named(int),
    /// It is not, or there is none: the workspace that stands for the repository is.
    Parent,
    /// Git has to be asked about its directory.
    NeedsProbe(int),
    /// The canonical form of this repository root has to be compared.
    NeedsRoots(PathView),
}

/// The membership of a workspace that stands for the repository of a request.
pub open spec fn parent_membership<R>(api: ApiWorktreeAddRequest<R>) -> MembershipView {
    MembershipView {
        key: api.repo_key@,
        label: api.repo_name@,
        repo_root: api.source_repo_root@,
        checkout_path: api.source_checkout_path@,
        is_linked_worktree: false,
    }
}

/// What the known facts say of a workspace, given what git says of its directory.
pub open spec fn git_verdict<R>(
    idx: int,
    space: GitSpace,
    api: ApiWorktreeAddRequest<R>,
    facts: SourceFacts,
) -> SourceVerdict {
    if space.is_linked_worktree || space.key@ != api.repo_key@ {
        SourceVerdict::Parent
    } else {
        match facts.canonical_roots {
            None => SourceVerdict::NeedsRoots(space.repo_root@),
            Some((a, b)) => if components(a@) == components(b@) {
                SourceVerdict::Named(idx)
            } else {
                SourceVerdict::Parent
            },
        }
    }
}

/// What the known facts say of the workspace at `idx`. A membership recorded with the request
/// must still be there. Without one, a membership must be the one that the request's repository
/// gives, and a workspace without membership must be in the request's repository.
pub open spec fn workspace_verdict<R>(
    idx: int,
    workspace: Workspace,
    api: ApiWorktreeAddRequest<R>,
    facts: SourceFacts,
) -> SourceVerdict {
    match (api.source_existing_membership, workspace.worktree_space) {
        (Some(expected), Some(current)) => if current@.same_as(expected@) {
            SourceVerdict::Named(idx)
        } else {
            SourceVerdict::Parent
        },
        (Some(_), None) => SourceVerdict::Parent,
        (None, Some(current)) => if current@.same_as(parent_membership(api)) {
            SourceVerdict::Named(idx)
        } else {
            SourceVerdict::Parent
        },
        (None, None) => match (workspace.git_space, facts.probed) {
            (Some(space), _) => git_verdict(idx, space, api, facts),
            (None, None) => SourceVerdict::NeedsProbe(idx),
            (None, Some(None)) => SourceVerdict::Parent,
            (None, Some(Some(space))) => git_verdict(idx, space, api, facts),
        },
    }
}

/// No fact is asked for twice, so a lookup ends after three questions at most: one about the
/// directory, one about the canonical forms, and one about the workspace of the repository.
pub proof fn law_lookup_ends<R>(app: App, api: ApiWorktreeAddRequest<R>, facts: SourceFacts)
    ensures
        app.source_verdict(api, facts) is NeedsProbe ==> facts.probed is None,
        app.source_verdict(api, facts) is NeedsRoots ==> facts.canonical_roots is None,
        facts.probed is Some && facts.canonical_roots is Some ==> {
            ||| app.source_verdict(api, facts) is Named
            ||| app.source_verdict(api, facts) is Parent
        },
{
}

impl App {
    /// What the known facts say about the workspace that a request named.
    pub open spec fn source_verdict<R>(
        self,
        api: ApiWorktreeAddRequest<R>,
        facts: SourceFacts,
    ) -> SourceVerdict {
        match api.source_workspace_id {
            None => SourceVerdict::Parent,
            Some(id) => match workspace_index(self.workspaces@, id@) {
                None => SourceVerdict::Parent,
                Some(idx) => workspace_verdict(idx, self.workspaces@[idx], api, facts),
            },
        }
    }

    /// The workspace that a new worktree comes from: the one that the request named, if it still
    /// is what it was then, else the one that stands for the repository. While a fact is missing,
    /// that fact is asked for.
    pub fn api_create_source_workspace_idx<R>(
        &self,
        api: &ApiWorktreeAddRequest<R>,
        facts: &SourceFacts,
    ) -> (res: SourceLookup)
        ensures
            match self.source_verdict(*api, *facts) {
                SourceVerdict::Named(idx) => res matches SourceLookup::Known(Some(i)) && i == idx
                    && i < self.workspaces@.len(),
                SourceVerdict::Parent => match facts.parent {
                    Some(parent) => res == SourceLookup::Known(parent),
                    None => res == (SourceLookup::FindParent { repo_key: api.repo_key }),
                },
                SourceVerdict::NeedsProbe(idx) => res matches SourceLookup::ProbeGitSpace {
                    workspace_idx,
                } && workspace_idx == idx && workspace_idx < self.workspaces@.len(),
                SourceVerdict::NeedsRoots(root) => res matches SourceLookup::CanonicalRoots {
                    space_root,
                    source_root,
                } && space_root@ == root && source_root@ == api.source_repo_root@,
            },
    {
        let id: &String = match &api.source_workspace_id {
            Some(id) => id,
            None => return self.source_parent(api, facts),
        };
        let idx: usize = match find_workspace(&self.workspaces, id) {
            Some(idx) => idx,
            None => return self.source_parent(api, facts),
        };
        let workspace = &self.workspaces[idx];
        match &api.source_existing_membership {
            Some(expected) => {
                if let Some(current) = &workspace.worktree_space {
                    if current.same_as(expected) {
                        return SourceLookup::Known(Some(idx));
                    }
                }
                return self.source_parent(api, facts);
            },
            None => {},
        }
        if let Some(current) = &workspace.worktree_space {
            let expected = WorktreeSpaceMembership {
                key: api.repo_key.clone(),
                label: api.repo_name.clone(),
                repo_root: api.source_repo_root.clone(),
                checkout_path: api.source_checkout_path.clone(),
                is_linked_worktree: false,
            };
            assert(expected@ == parent_membership(*api));
            if current.same_as(&expected) {
                return SourceLookup::Known(Some(idx));
            }
            return self.source_parent(api, facts);
        }
        let space: &GitSpace = match &workspace.git_space {
            Some(space) => space,
            None => match &facts.probed {
                None => return SourceLookup::ProbeGitSpace { workspace_idx: idx },
                Some(None) => return self.source_parent(api, facts),
                Some(Some(space)) => space,
            },
        };
        if space.is_linked_worktree || !(space.key == api.repo_key) {
            return self.source_parent(api, facts);
        }
        match &facts.canonical_roots {
            None => SourceLookup::CanonicalRoots {
                space_root: space.repo_root.clone(),
                source_root: api.source_repo_root.clone(),
            },
            Some(roots) => if roots.0.same_path(&roots.1) {
                SourceLookup::Known(Some(idx))
            } else {
                self.source_parent(api, facts)
            },
        }
    }

    /// The workspace that stands for the repository, or the question for it.
    fn source_parent<R>(&self, api: &ApiWorktreeAddRequest<R>, facts: &SourceFacts) -> (res:
        SourceLookup)
        ensures
            res == match facts.parent {
                Some(parent) => SourceLookup::Known(parent),
                None => SourceLookup::FindParent { repo_key: api.repo_key },
            },
    {
        match facts.parent {
            Some(parent) => SourceLookup::Known(parent),
            None => SourceLookup::FindParent { repo_key: api.repo_key.clone() },
        }
    }
}

} // verus!
