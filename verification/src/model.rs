//! What the worktree operations read of the application, and the values they carry.

use vstd::prelude::*;

use crate::path::{components, PathView, WorktreePath};

verus! {

/// A workspace's place in a group of checkouts of one repository.
pub struct WorktreeSpaceMembership {
    pub key: String,
    pub label: String,
    pub repo_root: WorktreePath,
    pub checkout_path: WorktreePath,
    pub is_linked_worktree: bool,
}

/// The contents of a membership.
pub struct MembershipView {
    pub key: Seq<char>,
    pub label: Seq<char>,
    pub repo_root: PathView,
    pub checkout_path: PathView,
    pub is_linked_worktree: bool,
}

impl View for WorktreeSpaceMembership {
    type V = MembershipView;

    open spec fn view(&self) -> MembershipView {
        MembershipView {
            key: self.key@,
            label: self.label@,
            repo_root: self.repo_root@,
            checkout_path: self.checkout_path@,
            is_linked_worktree: self.is_linked_worktree,
        }
    }
}

impl MembershipView {
    /// Whether the two memberships are equal, paths being compared by their components.
    pub open spec fn same_as(self, other: MembershipView) -> bool {
        &&& self.key == other.key
        &&& self.label == other.label
        &&& components(self.repo_root) == components(other.repo_root)
        &&& components(self.checkout_path) == components(other.checkout_path)
        &&& self.is_linked_worktree == other.is_linked_worktree
    }
}

/// The contents of a membership that may be missing.
pub open spec fn membership_view(space: Option<WorktreeSpaceMembership>) -> Option<MembershipView> {
    match space {
        Some(membership) => Some(membership@),
        None => None,
    }
}

impl Clone for WorktreeSpaceMembership {
    fn clone(&self) -> (res: Self)
        ensures
            res@ == self@,
    {
        WorktreeSpaceMembership {
            key: self.key.clone(),
            label: self.label.clone(),
            repo_root: self.repo_root.clone(),
            checkout_path: self.checkout_path.clone(),
            is_linked_worktree: self.is_linked_worktree,
        }
    }
}

impl WorktreeSpaceMembership {
    /// Whether the two memberships are equal, paths being compared by their components.
    pub fn same_as(&self, other: &WorktreeSpaceMembership) -> (res: bool)
        ensures
            res == self@.same_as(other@),
    {
        self.key == other.key && self.label == other.label && self.repo_root.same_path(
            &other.repo_root,
        ) && self.checkout_path.same_path(&other.checkout_path) && self.is_linked_worktree
            == other.is_linked_worktree
    }
}

/// What git says of the repository around a directory.
pub struct GitSpace {
    pub key: String,
    pub repo_root: WorktreePath,
    pub is_linked_worktree: bool,
}

/// What the worktree operations read of a workspace.
pub struct Workspace {
    pub id: String,
    pub identity_cwd: WorktreePath,
    pub cached_git_branch: Option<String>,
    pub worktree_space: Option<WorktreeSpaceMembership>,
    pub git_space: Option<GitSpace>,
    pub tab_count: usize,
    pub active_tab: usize,
}

/// The index of the first workspace with the given id.
pub open spec fn workspace_index(workspaces: Seq<Workspace>, id: Seq<char>) -> Option<int>
    decreases workspaces.len(),
{
    if workspaces.len() == 0 {
        None
    } else if workspaces[0].id@ == id {
        Some(0)
    } else {
        match workspace_index(workspaces.drop_first(), id) {
            Some(i) => Some(i + 1),
            None => None,
        }
    }
}

/// The index of the first workspace with an id is that of a workspace with this id, and no
/// workspace before it has the id. Where there is no index, no workspace has the id.
pub proof fn law_workspace_index(workspaces: Seq<Workspace>, id: Seq<char>)
    ensures
        match workspace_index(workspaces, id) {
            Some(i) => {
                &&& 0 <= i < workspaces.len()
                &&& workspaces[i].id@ == id
                &&& forall|j: int| 0 <= j < i ==> (#[trigger] workspaces[j]).id@ != id
            },
            None => forall|j: int|
                0 <= j < workspaces.len() ==> (#[trigger] workspaces[j]).id@ != id,
        },
    decreases workspaces.len(),
{
    if workspaces.len() > 0 && workspaces[0].id@ != id {
        let rest = workspaces.drop_first();
        law_workspace_index(rest, id);
        let end = match workspace_index(rest, id) {
            Some(i) => i + 1,
            None => workspaces.len() as int,
        };
        assert forall|j: int| 0 <= j < end implies (#[trigger] workspaces[j]).id@ != id by {
            if j > 0 {
                assert(rest[j - 1] == workspaces[j]);
            }
        }
    }
}

/// The first workspace with the given id.
pub fn find_workspace(workspaces: &Vec<Workspace>, id: &String) -> (res: Option<usize>)
    ensures
        res is Some == workspace_index(workspaces@, id@) is Some,
        res matches Some(i) ==> {
            &&& workspace_index(workspaces@, id@) == Some(i as int)
            &&& i < workspaces@.len()
            &&& workspaces@[i as int].id@ == id@
        },
{
    let mut i: usize = 0;
    assert(workspaces@.skip(0) =~= workspaces@);
    while i < workspaces.len()
        invariant
            i <= workspaces@.len(),
            workspace_index(workspaces@, id@) == match workspace_index(
                workspaces@.skip(i as int),
                id@,
            ) {
                Some(k) => Some(k + i),
                None => None,
            },
        decreases workspaces.len() - i,
    {
        assert(workspaces@.skip(i as int).drop_first() =~= workspaces@.skip(i + 1));
        assert(workspaces@.skip(i as int)[0] == workspaces@[i as int]);
        if workspaces[i].id == *id {
            return Some(i);
        }
        i = i + 1;
    }
    None
}

/// Where a new worktree comes from.
pub struct WorktreeSource {
    pub workspace_idx: Option<usize>,
    pub source_checkout_path: WorktreePath,
    pub source_repo_root: WorktreePath,
    pub repo_key: String,
    pub repo_name: String,
}

/// A worktree as clients see it.
pub struct WorktreeInfo {
    pub path: String,
    pub branch: Option<String>,
    pub is_linked_worktree: bool,
    pub is_detached: bool,
    pub is_bare: bool,
    pub is_prunable: bool,
    pub label: String,
    pub open_workspace_id: Option<String>,
}

/// A copy of an optional text.
pub fn copy_text(text: &Option<String>) -> (res: Option<String>)
    ensures
        res == *text,
{
    match text {
        Some(t) => Some(t.clone()),
        None => None,
    }
}

impl Clone for WorktreeInfo {
    fn clone(&self) -> (res: Self)
        ensures
            res == *self,
    {
        WorktreeInfo {
            path: self.path.clone(),
            branch: copy_text(&self.branch),
            is_linked_worktree: self.is_linked_worktree,
            is_detached: self.is_detached,
            is_bare: self.is_bare,
            is_prunable: self.is_prunable,
            label: self.label.clone(),
            open_workspace_id: copy_text(&self.open_workspace_id),
        }
    }
}

/// A workspace as clients see it: its public id, and all else as the host wrote it down.
pub struct WorkspaceInfo {
    pub workspace_id: String,
    pub details: String,
}

impl Clone for WorkspaceInfo {
    fn clone(&self) -> (res: Self)
        ensures
            res == *self,
    {
        WorkspaceInfo { workspace_id: self.workspace_id.clone(), details: self.details.clone() }
    }
}

/// The dialog that creates a worktree.
pub struct WorktreeCreateDialog {
    pub checkout_path: WorktreePath,
    pub creating: bool,
    pub error: Option<String>,
}

/// The dialog that removes a worktree.
pub struct WorktreeRemoveDialog {
    pub workspace_id: String,
    pub path: WorktreePath,
    pub removing: bool,
    pub force_confirmation: bool,
    pub error: Option<String>,
}

/// What the keyboard acts on. Modes that the worktree operations never set have a number of the
/// host's choosing.
#[derive(Clone, Copy, Debug, PartialEq, Eq, Structural)]
pub enum Mode {
    Terminal,
    Navigate,
    Other(u32),
}

} // verus!
