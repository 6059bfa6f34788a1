//! Answering a request once its branch was created.
//!
//! All checkouts of the branch are shown in one workspace, each in a tab of its own.

use vstd::prelude::*;
use vstd::utf8::encode_utf8;

use crate::app::App;
use crate::ledger::all_removed;
use crate::model::{copy_text, WorktreeInfo};
use crate::path::{components, Part, PathView, WorktreePath};
use crate::prefix::Platform;
use crate::protocol::{refuse_with, Effect, Reply, Response};
use crate::text::{join_texts, joined_texts, texts};

verus! {

/// A checkout of the branch, with the path that its creation may be registered under.
pub struct BranchedCheckout {
    pub path: WorktreePath,
    pub key: WorktreePath,
}

/// The checkout of one repository, or why there is none.
pub struct RepoOutcome {
    pub repo_name: String,
    pub outcome: Result<BranchedCheckout, String>,
}

/// A branch whose workspace has to be found or made.
pub struct BranchOutFinish<R> {
    pub id: String,
    pub respond_to: R,
    pub branch: String,
    pub label: Option<String>,
    pub results: Vec<RepoOutcome>,
    /// The directory of the workspace, as text and as a path.
    pub features_text: String,
    pub features_dir: WorktreePath,
}

/// A branch whose workspace gets its tabs. The results before `next` have been seen to.
pub struct BranchOutTabs<R> {
    pub finish: BranchOutFinish<R>,
    pub workspace_idx: usize,
    pub next: usize,
}

/// A tab that was made, with a terminal that is not registered yet.
pub struct NewTab {
    pub tab_idx: usize,
    pub terminal_id: String,
}

/// What happens next to a branch that was created.
pub enum BranchOutFinishStep<R> {
    Answer(Reply<R>),
    /// Find the workspace that shows `features_dir`, then `branch_out_workspace_found`.
    FindWorkspace(BranchOutFinish<R>),
    /// Make a focused workspace at `features_dir`, then `branch_out_workspace_created`.
    CreateWorkspace(BranchOutFinish<R>),
    /// Do the effects, then `branch_out_next_tab`.
    OpenTabs { effects: Vec<Effect>, tabs: BranchOutTabs<R> },
    /// Make a tab at `cwd` in the workspace, then `branch_out_tab_created`.
    CreateTab { cwd: WorktreePath, repo_name: String, tabs: BranchOutTabs<R> },
    /// Go on with `branch_out_tabs_done`.
    TabsDone(BranchOutTabs<R>),
    /// Do the effects, then `branch_out_shown`.
    Show { effects: Vec<Effect>, tabs: BranchOutTabs<R> },
}

impl<R> BranchOutFinish<R> {
    /// Who waits for the answer.
    pub open spec fn caller(self) -> (R, String) {
        (self.respond_to, self.id)
    }
}

impl<R> BranchOutTabs<R> {
    /// How many results have not been seen to.
    pub open spec fn unseen(self) -> nat {
        if self.next < self.finish.results@.len() {
            (self.finish.results@.len() - self.next) as nat
        } else {
            0
        }
    }
}

impl<R> BranchOutFinishStep<R> {
    /// Who is answered, or waits for the answer.
    pub open spec fn caller(self) -> (R, String) {
        match self {
            BranchOutFinishStep::Answer(reply) => reply.caller(),
            BranchOutFinishStep::FindWorkspace(finish) => finish.caller(),
            BranchOutFinishStep::CreateWorkspace(finish) => finish.caller(),
            BranchOutFinishStep::OpenTabs { tabs, .. } => tabs.finish.caller(),
            BranchOutFinishStep::CreateTab { tabs, .. } => tabs.finish.caller(),
            BranchOutFinishStep::TabsDone(tabs) => tabs.finish.caller(),
            BranchOutFinishStep::Show { tabs, .. } => tabs.finish.caller(),
        }
    }

    /// How many steps are left at most. Each tab takes two.
    pub open spec fn left(self) -> nat {
        match self {
            BranchOutFinishStep::FindWorkspace(finish) => 2 * finish.results@.len() + 5,
            BranchOutFinishStep::CreateWorkspace(finish) => 2 * finish.results@.len() + 4,
            BranchOutFinishStep::OpenTabs { tabs, .. } => 2 * tabs.unseen() + 3,
            BranchOutFinishStep::CreateTab { tabs, .. } => 2 * tabs.unseen() + 4,
            BranchOutFinishStep::TabsDone(_) => 2,
            BranchOutFinishStep::Show { .. } => 1,
            BranchOutFinishStep::Answer(_) => 0,
        }
    }

    /// Whether the step `next` brings the request nearer to its end, for the same caller.
    pub open spec fn followed_by(self, next: BranchOutFinishStep<R>) -> bool {
        next.caller() == self.caller() && next.left() < self.left()
    }
}

/// The keys of the checkouts that were created, in order.
pub open spec fn created_keys(results: Seq<RepoOutcome>) -> Seq<Seq<Part>>
    decreases results.len(),
{
    if results.len() == 0 {
        Seq::empty()
    } else {
        let before = created_keys(results.drop_last());
        match results.last().outcome {
            Ok(checkout) => before.push(components(checkout.key@)),
            Err(_) => before,
        }
    }
}

/// Why checkouts were not created, in order, each with the name of its repository.
pub open spec fn failures(results: Seq<RepoOutcome>) -> Seq<Seq<char>>
    decreases results.len(),
{
    if results.len() == 0 {
        Seq::empty()
    } else {
        let before = failures(results.drop_last());
        match results.last().outcome {
            Ok(_) => before,
            Err(error) => before.push("["@ + results.last().repo_name@ + "] "@ + error@),
        }
    }
}

/// The directory that collects the checkouts of a branch. A branch that reads as a path with a
/// root or a prefix is that directory itself.
pub open spec fn features_path(platform: Platform, branch: Seq<char>) -> Seq<char> {
    if (PathView { platform, bytes: encode_utf8(branch) }).is_relative() {
        "/home/chefyeum/Documents/features"@ + separator_text(platform) + branch
    } else {
        branch
    }
}

/// The separator that is put between two components.
pub open spec fn separator_text(platform: Platform) -> Seq<char> {
    match platform {
        Platform::Unix => "/"@,
        Platform::Windows => "\\"@,
    }
}

/// The first result at or after `from` that is a checkout, or the number of results.
pub open spec fn next_checkout(results: Seq<RepoOutcome>, from: int) -> int
    decreases results.len() - from,
{
    if from >= results.len() {
        results.len() as int
    } else if results[from].outcome is Ok {
        from
    } else {
        next_checkout(results, from + 1)
    }
}

/// Whether `effects` prepare the workspace of a branch: it gets the client's label and is
/// focused, and its first tab is named `Home`.
pub open spec fn prepares_workspace(
    label: Option<String>,
    workspace_idx: usize,
    effects: Seq<Effect>,
) -> bool {
    let named: int = if label is Some {
        1
    } else {
        0
    };
    &&& effects.len() == named + 2
    &&& label matches Some(name) ==> effects[0] == (Effect::RenameWorkspace { workspace_idx, name })
    &&& effects[named] == (Effect::SwitchWorkspace { workspace_idx })
    &&& effects[named + 1] matches Effect::RenameTab { workspace_idx: idx, tab_idx, name }
    &&& idx == workspace_idx
    &&& tab_idx == 0
    &&& name@ == "Home"@
}

/// Whether `step` starts on the tabs of the workspace of a branch.
pub open spec fn opened<R>(
    finish: BranchOutFinish<R>,
    workspace_idx: usize,
    step: BranchOutFinishStep<R>,
) -> bool {
    &&& step matches BranchOutFinishStep::OpenTabs { effects, tabs }
    &&& prepares_workspace(finish.label, workspace_idx, effects@)
    &&& tabs == BranchOutTabs { finish, workspace_idx, next: 0 }
}

/// Starts on the tabs of the workspace of a branch.
fn open_workspace<R>(finish: BranchOutFinish<R>, workspace_idx: usize) -> (res: BranchOutFinishStep<
    R,
>)
    ensures
        opened(finish, workspace_idx, res),
        BranchOutFinishStep::CreateWorkspace(finish).followed_by(res),
{
    let mut effects: Vec<Effect> = Vec::new();
    if let Some(name) = copy_text(&finish.label) {
        effects.push(Effect::RenameWorkspace { workspace_idx, name });
    }
    effects.push(Effect::SwitchWorkspace { workspace_idx });
    effects.push(Effect::RenameTab { workspace_idx, tab_idx: 0, name: "Home".to_string() });
    BranchOutFinishStep::OpenTabs {
        effects,
        tabs: BranchOutTabs { finish, workspace_idx, next: 0 },
    }
}

/// Why checkouts were not created.
fn failure_texts(results: &Vec<RepoOutcome>) -> (res: Vec<String>)
    ensures
        texts(res@) == failures(results@),
{
    let mut res: Vec<String> = Vec::new();
    let mut i: usize = 0;
    assert(results@.take(0) =~= Seq::empty());
    assert(texts(res@) =~= Seq::empty());
    while i < results.len()
        invariant
            i <= results@.len(),
            texts(res@) == failures(results@.take(i as int)),
        decreases results.len() - i,
    {
        assert(results@.take(i + 1).drop_last() =~= results@.take(i as int));
        assert(results@.take(i + 1).last() == results@[i as int]);
        if let Err(error) = &results[i].outcome {
            let ghost before = res@;
            let text = "[".to_string().concat(results[i].repo_name.as_str()).concat("] ").concat(
                error.as_str(),
            );
            res.push(text);
            assert(texts(res@) =~= texts(before).push(text@));
        }
        i = i + 1;
    }
    assert(results@.take(results@.len() as int) =~= results@);
    res
}

impl App {
    /// Takes in that the branch was created. The checkouts are no longer registered, whatever
    /// operation they were registered for. Where no repository has one, the request fails.
    pub fn handle_worktree_branch_out_finished<R>(
        &mut self,
        id: String,
        _operation_id: u64,
        branch: String,
        label: Option<String>,
        respond_to: R,
        results: Vec<RepoOutcome>,
    ) -> (res: BranchOutFinishStep<R>)
        ensures
            final(self).same_but_ledger(*old(self)),
            final(self).ledger() == old(self).ledger().without_creates(created_keys(results@)),
            old(self).ledger().moves_apart(final(self).ledger()),
            res.caller() == (respond_to, id),
            if failures(results@).len() == results@.len() {
                res matches BranchOutFinishStep::Answer(reply) && reply.is_error(
                    "branch_out_failed"@,
                    joined_texts(failures(results@), "; "@),
                )
            } else {
                &&& res matches BranchOutFinishStep::FindWorkspace(finish)
                &&& finish.branch == branch
                &&& finish.label == label
                &&& finish.results == results
                &&& finish.features_text@ == features_path(old(self).platform, branch@)
                &&& finish.features_dir@ == PathView {
                    platform: old(self).platform,
                    bytes: encode_utf8(features_path(old(self).platform, branch@)),
                }
            },
    {
        let ghost table = self.pending_api_worktree_creates@;
        let mut i: usize = 0;
        assert(results@.take(0) =~= Seq::empty());
        while i < results.len()
            invariant
                i <= results@.len(),
                self.same_but_ledger(*old(self)),
                self.pending_api_worktree_creates@ == all_removed(
                    table,
                    created_keys(results@.take(i as int)),
                ),
                self.pending_api_worktree_removes == old(self).pending_api_worktree_removes,
                self.pending_api_worktree_remove_paths
                    == old(self).pending_api_worktree_remove_paths,
                self.next_api_worktree_operation_id == old(self).next_api_worktree_operation_id,
            decreases results.len() - i,
        {
            let ghost done = created_keys(results@.take(i as int));
            assert(results@.take(i + 1).drop_last() =~= results@.take(i as int));
            assert(results@.take(i + 1).last() == results@[i as int]);
            if let Ok(checkout) = &results[i].outcome {
                self.pending_api_worktree_creates.remove(&checkout.key);
                assert(done.push(components(checkout.key@)).drop_last() =~= done);
            }
            i = i + 1;
        }
        assert(results@.take(results@.len() as int) =~= results@);
        assert(self.ledger() =~= old(self).ledger().without_creates(created_keys(results@)));
        let errors = failure_texts(&results);
        assert(failures(results@).len() == errors@.len());
        if errors.len() == results.len() {
            let message = join_texts(&errors, "; ");
            return BranchOutFinishStep::Answer(
                refuse_with(respond_to, id, "branch_out_failed", message),
            );
        }
        let platform = self.platform;
        let features_text = if WorktreePath::from_text(platform, branch.as_str()).relative() {
            let separator = match platform {
                Platform::Unix => "/",
                Platform::Windows => "\\",
            };
            "/home/chefyeum/Documents/features".to_string().concat(separator).concat(
                branch.as_str(),
            )
        } else {
            branch.clone()
        };
        let features_dir = WorktreePath::from_text(platform, features_text.as_str());
        BranchOutFinishStep::FindWorkspace(
            BranchOutFinish { id, respond_to, branch, label, results, features_text, features_dir },
        )
    }

    /// Goes on once a workspace for the branch was looked for.
    pub fn branch_out_workspace_found<R>(&self, finish: BranchOutFinish<R>, found: Option<usize>)
        -> (res: BranchOutFinishStep<R>)
        ensures
            match found {
                Some(workspace_idx) => opened(finish, workspace_idx, res),
                None => res == BranchOutFinishStep::CreateWorkspace(finish),
            },
            BranchOutFinishStep::FindWorkspace(finish).followed_by(res),
    {
        match found {
            Some(workspace_idx) => open_workspace(finish, workspace_idx),
            None => BranchOutFinishStep::CreateWorkspace(finish),
        }
    }

    /// Goes on once a workspace was made for the branch, or was not.
    pub fn branch_out_workspace_created<R>(
        &self,
        finish: BranchOutFinish<R>,
        made: Result<usize, String>,
    ) -> (res: BranchOutFinishStep<R>)
        ensures
            match made {
                Ok(workspace_idx) => opened(finish, workspace_idx, res),
                Err(error) => res matches BranchOutFinishStep::Answer(reply) && reply.is_error(
                    "workspace_open_failed"@,
                    "Failed to create unified workspace: "@ + error@,
                ),
            },
            BranchOutFinishStep::CreateWorkspace(finish).followed_by(res),
    {
        match made {
            Ok(workspace_idx) => open_workspace(finish, workspace_idx),
            Err(error) => {
                let message = "Failed to create unified workspace: ".to_string().concat(
                    error.as_str(),
                );
                BranchOutFinishStep::Answer(
                    refuse_with(finish.respond_to, finish.id, "workspace_open_failed", message),
                )
            },
        }
    }

    /// Goes on to the next checkout that needs a tab.
    pub fn branch_out_next_tab<R>(&self, tabs: BranchOutTabs<R>) -> (res: BranchOutFinishStep<R>)
        ensures
            ({
                let results = tabs.finish.results@;
                let i = next_checkout(results, tabs.next as int);
                if i < results.len() {
                    &&& res matches BranchOutFinishStep::CreateTab { cwd, repo_name, tabs: t }
                    &&& cwd@ == results[i].outcome->Ok_0.path@
                    &&& repo_name == results[i].repo_name
                    &&& t == BranchOutTabs { next: (i + 1) as usize, ..tabs }
                } else {
                    res == BranchOutFinishStep::TabsDone(tabs)
                }
            }),
            forall|effects: Vec<Effect>|
                #![trigger (BranchOutFinishStep::OpenTabs { effects, tabs }).followed_by(res)]
                (BranchOutFinishStep::OpenTabs { effects, tabs }).followed_by(res),
    {
        let mut i: usize = tabs.next;
        while i < tabs.finish.results.len()
            invariant
                tabs.next <= i,
                next_checkout(tabs.finish.results@, tabs.next as int) == next_checkout(
                    tabs.finish.results@,
                    i as int,
                ),
            decreases tabs.finish.results.len() - i,
        {
            if let Ok(checkout) = &tabs.finish.results[i].outcome {
                let cwd = checkout.path.clone();
                let repo_name = tabs.finish.results[i].repo_name.clone();
                return BranchOutFinishStep::CreateTab {
                    cwd,
                    repo_name,
                    tabs: BranchOutTabs {
                        finish: tabs.finish,
                        workspace_idx: tabs.workspace_idx,
                        next: i + 1,
                    },
                };
            }
            i = i + 1;
        }
        BranchOutFinishStep::TabsDone(tabs)
    }

    /// Goes on once a tab was made, or was not. The terminal of a tab is registered and the tab gets
    /// the name of its repository. A tab that could not be made is left out.
    pub fn branch_out_tab_created<R>(
        &self,
        tabs: BranchOutTabs<R>,
        repo_name: String,
        made: Result<NewTab, String>,
    ) -> (res: BranchOutFinishStep<R>)
        ensures
            res matches BranchOutFinishStep::OpenTabs { effects, tabs: t } && t == tabs && effects@
                == match made {
                Ok(tab) => seq![
                    Effect::RegisterTerminalRuntime { terminal_id: tab.terminal_id },
                    Effect::RegisterTerminal { terminal_id: tab.terminal_id },
                    Effect::RemoveShadowedAlias {
                        workspace_idx: tabs.workspace_idx,
                        tab_idx: tab.tab_idx,
                    },
                    Effect::RenameTab {
                        workspace_idx: tabs.workspace_idx,
                        tab_idx: tab.tab_idx,
                        name: repo_name,
                    },
                ],
                Err(_) => Seq::empty(),
            },
            forall|cwd: WorktreePath|
                #![trigger (BranchOutFinishStep::CreateTab { cwd, repo_name, tabs }).followed_by(res)]
                (BranchOutFinishStep::CreateTab { cwd, repo_name, tabs }).followed_by(res),
    {
        let mut effects: Vec<Effect> = Vec::new();
        if let Ok(tab) = made {
            let workspace_idx: usize = tabs.workspace_idx;
            let tab_idx: usize = tab.tab_idx;
            effects.push(
                Effect::RegisterTerminalRuntime { terminal_id: tab.terminal_id.clone() },
            );
            effects.push(Effect::RegisterTerminal { terminal_id: tab.terminal_id });
            effects.push(Effect::RemoveShadowedAlias { workspace_idx, tab_idx });
            effects.push(Effect::RenameTab { workspace_idx, tab_idx, name: repo_name });
        }
        BranchOutFinishStep::OpenTabs { effects, tabs }
    }

    /// Shows the workspace, on the first tab of a checkout if there is one.
    pub fn branch_out_tabs_done<R>(&self, tabs: BranchOutTabs<R>) -> (res: BranchOutFinishStep<R>)
        requires
            tabs.workspace_idx < self.workspaces@.len(),
        ensures
            res matches BranchOutFinishStep::Show { effects, tabs: t } && t == tabs && effects@
                == if self.workspaces@[tabs.workspace_idx as int].tab_count > 1 {
                seq![
                    Effect::SwitchTab { workspace_idx: tabs.workspace_idx, tab_idx: 1 },
                    Effect::MarkSessionDirty,
                    Effect::RequestRender,
                ]
            } else {
                seq![Effect::MarkSessionDirty, Effect::RequestRender]
            },
            BranchOutFinishStep::TabsDone(tabs).followed_by(res),
    {
        let mut effects: Vec<Effect> = Vec::new();
        if self.workspaces[tabs.workspace_idx].tab_count > 1 {
            effects.push(Effect::SwitchTab { workspace_idx: tabs.workspace_idx, tab_idx: 1 });
        }
        effects.push(Effect::MarkSessionDirty);
        effects.push(Effect::RequestRender);
        BranchOutFinishStep::Show { effects, tabs }
    }

    /// Answers that the branch was created.
    pub fn branch_out_shown<R>(&self, tabs: BranchOutTabs<R>) -> (res: Reply<R>)
        requires
            tabs.workspace_idx < self.workspaces@.len(),
        ensures
            ({
                let workspace = self.workspaces@[tabs.workspace_idx as int];
                res == Reply {
                    respond_to: tabs.finish.respond_to,
                    response: Response::WorktreeCreated {
                        id: tabs.finish.id,
                        workspace_idx: tabs.workspace_idx,
                        tab_idx: workspace.active_tab,
                        worktree: WorktreeInfo {
                            path: tabs.finish.features_text,
                            branch: Some(tabs.finish.branch),
                            is_linked_worktree: true,
                            is_detached: false,
                            is_bare: false,
                            is_prunable: false,
                            label: match tabs.finish.label {
                                Some(label) => label,
                                None => tabs.finish.branch,
                            },
                            open_workspace_id: Some(workspace.id),
                        },
                    },
                }
            }),
            forall|effects: Vec<Effect>|
                #![trigger (BranchOutFinishStep::Show { effects, tabs }).followed_by(BranchOutFinishStep::Answer(res))]
                (BranchOutFinishStep::Show { effects, tabs }).followed_by(
                    BranchOutFinishStep::Answer(res),
                ),
    {
        let finish = tabs.finish;
        let worktree = WorktreeInfo {
            path: finish.features_text,
            branch: Some(finish.branch.clone()),
            is_linked_worktree: true,
            is_detached: false,
            is_bare: false,
            is_prunable: false,
            label: match finish.label {
                Some(label) => label,
                None => finish.branch,
            },
            open_workspace_id: Some(self.workspaces[tabs.workspace_idx].id.clone()),
        };
        self.created_reply(finish.respond_to, finish.id, tabs.workspace_idx, worktree)
    }
}

} // verus!
