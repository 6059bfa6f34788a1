use herdr_worktrees::app::{App, DeferredStep};
use herdr_worktrees::branch_out::{BranchOutJob, BranchOutPlan, BranchOutStep};
use herdr_worktrees::branch_out_job::{BranchOutJobStep, BranchOutRun};
use herdr_worktrees::branch_out_finish::{
    BranchOutFinishStep, BranchOutTabs, BranchedCheckout, NewTab, RepoOutcome,
};
use herdr_worktrees::create_finish::AddStep;
use herdr_worktrees::create::{
    ApiWorktreeAddRequest, CreateLocated, CreatePlan, CreateStep, WorktreeAddResult,
};
use herdr_worktrees::model::{Mode, Workspace, WorktreeSource};
use herdr_worktrees::path::WorktreePath;
use herdr_worktrees::pending::PendingTable;
use herdr_worktrees::prefix::Platform;
use herdr_worktrees::protocol::{
    Effect, Method, Reply, Request, Response, WorktreeBranchOutParams,
};

type Channel = u32;

fn path(text: &str) -> WorktreePath {
    WorktreePath::from_text(Platform::Unix, text)
}

fn text(path: &WorktreePath) -> String {
    String::from_utf8(path.bytes.clone()).unwrap()
}

fn workspace(id: &str, cwd: &str) -> Workspace {
    Workspace {
        id: id.to_string(),
        identity_cwd: path(cwd),
        cached_git_branch: None,
        worktree_space: None,
        git_space: None,
        tab_count: 1,
        active_tab: 2,
    }
}

fn app() -> App {
    let mut parent = workspace("w1", "/home/me/hanson/");
    parent.cached_git_branch = Some("develop".to_string());
    App {
        workspaces: vec![
            parent,
            workspace("w2", "/home/me/notes"),
            workspace("wM", "/home/me/smarkets"),
            workspace("w3", "/work/pricing_config"),
            workspace("w4", "/work/my_hanson"),
        ],
        active: Some(0),
        mode: Mode::Other(7),
        name_input: String::new(),
        name_input_replace_on_type: false,
        worktree_create: None,
        worktree_remove: None,
        platform: Platform::Unix,
        pending_api_worktree_creates: PendingTable::new(),
        pending_api_worktree_removes: PendingTable::new(),
        pending_api_worktree_remove_paths: PendingTable::new(),
        next_api_worktree_operation_id: 10,
    }
}

fn params(parent: &str, branch: &str) -> WorktreeBranchOutParams {
    WorktreeBranchOutParams {
        parent_workspace_id: parent.to_string(),
        branch: branch.to_string(),
        label: Some("Feature".to_string()),
    }
}

fn error(reply: Reply<Channel>) -> (Channel, String, String, String) {
    match reply.response {
        Response::Error { id, code, message } => (reply.respond_to, id, code, message),
        _ => panic!("not an error"),
    }
}

fn expect(code: &str, message: &str) -> (Channel, String, String, String) {
    (5, "r1".to_string(), code.to_string(), message.to_string())
}

fn refused(app: &App, parent: &str, branch: &str) -> (Channel, String, String, String) {
    match app.start_api_worktree_branch_out("r1".to_string(), params(parent, branch), 5) {
        BranchOutStep::Answer(reply) => error(reply),
        _ => panic!("not refused"),
    }
}

fn plan(app: &App, branch: &str) -> BranchOutPlan<Channel> {
    match app.start_api_worktree_branch_out("r1".to_string(), params("w1", branch), 5) {
        BranchOutStep::Canonicalize(plan) => plan,
        _ => panic!("canonical paths are not asked for"),
    }
}

fn spawned(app: &mut App, branch: &str) -> BranchOutJob<Channel> {
    let plan = plan(app, branch);
    let keys: Vec<WorktreePath> = plan.repos.iter().map(|repo| repo.checkout_path.clone()).collect();
    match app.branch_out_keyed(plan, &keys) {
        BranchOutStep::Spawn(job) => job,
        _ => panic!("no job"),
    }
}

fn ok(name: &str, at: &str) -> RepoOutcome {
    RepoOutcome {
        repo_name: name.to_string(),
        outcome: Ok(BranchedCheckout { path: path(at), key: path(at) }),
    }
}

fn failed(name: &str, why: &str) -> RepoOutcome {
    RepoOutcome { repo_name: name.to_string(), outcome: Err(why.to_string()) }
}

fn finished(
    app: &mut App,
    branch: &str,
    label: Option<&str>,
    results: Vec<RepoOutcome>,
) -> BranchOutFinishStep<Channel> {
    app.handle_worktree_branch_out_finished(
        "r1".to_string(),
        10,
        branch.to_string(),
        label.map(|l| l.to_string()),
        5,
        results,
    )
}

#[test]
fn branches_are_taken() {
    let app = app();
    let request =
        Request { id: "r1".to_string(), method: Method::WorktreeBranchOut(params("w1", "x")) };
    assert!(matches!(
        app.handle_deferred_worktree_api_request(request, 5),
        Some(DeferredStep::BranchOut(BranchOutStep::Canonicalize(plan))) if plan.respond_to == 5
    ));
}

#[test]
fn bad_requests_are_refused() {
    let mut app = app();
    assert_eq!(refused(&app, "w1", " \n"), expect("invalid_request", "branch is required"));
    assert_eq!(
        refused(&app, "w9", "x"),
        expect("workspace_not_found", "parent workspace not found")
    );
    app.workspaces.truncate(3);
    app.workspaces.remove(0);
    assert_eq!(
        refused(&app, "w2", "x"),
        expect("invalid_request", "no base repositories found to branch out")
    );
}

#[test]
fn every_base_repository_gets_a_checkout() {
    let app = app();
    let plan = plan(&app, " feature/x ");
    assert_eq!(plan.branch, "feature/x");
    assert_eq!(plan.base, "develop");
    assert_eq!(plan.label, Some("Feature".to_string()));
    assert_eq!(plan.repos.len(), 2);
    let hanson = &plan.repos[0];
    assert_eq!(hanson.repo_name, "hanson");
    assert_eq!(text(&hanson.repo_root), "/home/me/hanson/");
    assert_eq!(text(&hanson.checkout_path), "/home/me/hanson.worktrees/feature/x");
    assert_eq!(
        text(hanson.checkout_parent.as_ref().unwrap()),
        "/home/me/hanson.worktrees/feature"
    );
    assert_eq!(text(&hanson.features_dir), "/home/me/features/feature/x");
    assert_eq!(text(&hanson.link), "/home/me/features/feature/x/hanson");
    assert_eq!(plan.repos[1].repo_name, "pricing_config");
    assert_eq!(text(&plan.repos[1].checkout_path), "/work/pricing_config.worktrees/feature/x");
}

#[test]
fn an_absolute_branch_is_its_own_checkout() {
    let app = app();
    let plan = plan(&app, "/x");
    assert_eq!(text(&plan.repos[0].checkout_path), "/x");
    assert_eq!(text(&plan.repos[1].checkout_path), "/x");
}

#[test]
fn a_branch_without_cached_parent_starts_at_head() {
    let mut app = app();
    app.workspaces[0].cached_git_branch = None;
    assert_eq!(plan(&app, "x").base, "HEAD");
}

#[test]
fn checkouts_are_registered_with_one_number() {
    let mut app = app();
    let job = spawned(&mut app, "x");
    assert_eq!(job.operation_id, 10);
    assert_eq!(app.next_api_worktree_operation_id, 11);
    for repo in &job.repos {
        assert_eq!(app.pending_api_worktree_creates.get(&repo.checkout_path), Some(10));
    }
}

fn at_git(step: BranchOutJobStep<Channel>) -> BranchOutRun<Channel> {
    match step {
        BranchOutJobStep::RunGit(run) => run,
        _ => panic!("git is not run"),
    }
}

fn at_parent(step: BranchOutJobStep<Channel>) -> BranchOutRun<Channel> {
    match step {
        BranchOutJobStep::MakeParent(run) => run,
        _ => panic!("parent is not made"),
    }
}

fn at_features(step: BranchOutJobStep<Channel>) -> BranchOutRun<Channel> {
    match step {
        BranchOutJobStep::MakeFeatures(run) => run,
        _ => panic!("features directory is not made"),
    }
}

#[test]
fn a_failed_repository_does_not_stop_the_next() {
    let mut app = app();
    let run = at_parent(spawned(&mut app, "x").begin());
    assert_eq!(run.repo.repo_name, "hanson");
    assert_eq!(run.base, "develop");
    let run = at_parent(at_git(run.parent_made(false)).git_ran(Err("no".to_string())));
    assert_eq!(run.repo.repo_name, "pricing_config");
    let run = at_features(at_git(run.parent_made(true)).git_ran(Ok(())));
    let run = match run.features_made(true) {
        BranchOutJobStep::RemoveOldLink(run) => run,
        _ => panic!("old link is not removed"),
    };
    let run = match run.old_link_removed(false) {
        BranchOutJobStep::PutLink(run) => run,
        _ => panic!("no link"),
    };
    match run.link_put(false) {
        BranchOutJobStep::Done(result) => {
            assert_eq!((result.id.as_str(), result.operation_id), ("r1", 10));
            assert_eq!((result.branch.as_str(), result.respond_to), ("x", 5));
            assert_eq!(result.label, Some("Feature".to_string()));
            assert_eq!(result.results.len(), 2);
            assert_eq!(result.results[0].0, "hanson");
            assert!(matches!(&result.results[0].1, Err(why) if why == "no"));
            assert_eq!(result.results[1].0, "pricing_config");
            assert_eq!(
                text(result.results[1].1.as_ref().unwrap()),
                "/work/pricing_config.worktrees/x"
            );
        }
        _ => panic!("not done"),
    }
}

#[test]
fn without_features_directory_there_is_no_link() {
    let mut app = app();
    let run = at_parent(spawned(&mut app, "x").begin());
    let run = at_features(at_git(run.parent_made(true)).git_ran(Ok(())));
    let run = at_parent(run.features_made(false));
    assert_eq!(run.results.len(), 1);
    assert!(run.results[0].1.is_ok());
}

#[test]
fn links_are_for_unix() {
    let mut app = app();
    let mut job = spawned(&mut app, "x");
    for repo in job.repos.iter_mut() {
        repo.checkout_path.platform = Platform::Windows;
    }
    let run = at_parent(job.begin());
    let run = at_parent(at_git(run.parent_made(true)).git_ran(Ok(())));
    assert!(run.results[0].1.is_ok());
}

#[test]
fn a_job_makes_no_parent_where_there_is_none() {
    let mut app = app();
    let mut job = spawned(&mut app, "x");
    job.repos[0].checkout_parent = None;
    assert_eq!(at_git(job.begin()).repo.repo_name, "hanson");
    let mut empty = spawned(&mut app, "y");
    empty.repos.clear();
    match empty.begin() {
        BranchOutJobStep::Done(result) => assert!(result.results.is_empty()),
        _ => panic!("not done"),
    }
}

#[test]
fn a_branch_takes_the_place_of_a_creation() {
    let mut app = app();
    let checkout = "/home/me/hanson.worktrees/x";
    app.pending_api_worktree_creates.insert(path(checkout), 7);
    spawned(&mut app, "x");
    let api = ApiWorktreeAddRequest {
        id: "r0".to_string(),
        operation_id: 7,
        checkout_key: path(checkout),
        source_workspace_id: None,
        source_existing_membership: None,
        source_checkout_path: path("/home/me/hanson"),
        source_repo_root: path("/home/me/hanson"),
        repo_key: "key".to_string(),
        repo_name: "hanson".to_string(),
        label: None,
        focus: false,
        respond_to: 6,
    };
    let result = WorktreeAddResult { path: path(checkout), api_request: Some(api), result: Ok(()) };
    match app.handle_api_worktree_add_finished(result) {
        AddStep::Answer(reply) => assert_eq!(
            error(reply),
            (
                6,
                "r0".to_string(),
                "stale_worktree_operation".to_string(),
                "worktree create completed after the operation was superseded".to_string()
            )
        ),
        _ => panic!("not stale"),
    }
}

#[test]
fn a_branch_leaves_removals_alone() {
    let mut app = app();
    let checkout = path("/home/me/hanson.worktrees/x");
    app.pending_api_worktree_removes.insert("w7".to_string(), 3);
    app.pending_api_worktree_remove_paths.insert(checkout.clone(), 3);
    spawned(&mut app, "x");
    assert_eq!(app.pending_api_worktree_removes.get(&"w7".to_string()), Some(3));
    assert_eq!(app.pending_api_worktree_remove_paths.get(&checkout), Some(3));
    assert_eq!(app.pending_api_worktree_creates.get(&checkout), Some(10));
}

#[test]
fn checkouts_of_a_branch_are_busy() {
    let mut app = app();
    spawned(&mut app, "x");
    let again = CreateLocated {
        plan: CreatePlan {
            id: "r2".to_string(),
            respond_to: 6,
            branch: "x".to_string(),
            base: "HEAD".to_string(),
            workspace_id: None,
            cwd: None,
            path: None,
            label: None,
            focus: false,
        },
        source: WorktreeSource {
            workspace_idx: None,
            source_checkout_path: path("/home/me/hanson"),
            source_repo_root: path("/home/me/hanson"),
            repo_key: "key".to_string(),
            repo_name: "hanson".to_string(),
        },
        checkout_path: path("/home/me/hanson.worktrees/x"),
    };
    match app.create_checkout_keyed(again, path("/home/me/hanson.worktrees/x")) {
        CreateStep::Answer(reply) => assert_eq!(error(reply).2, "worktree_operation_in_progress"),
        _ => panic!("not busy"),
    }
}

#[test]
fn a_branch_that_failed_everywhere_is_an_error() {
    let mut app = app();
    match finished(&mut app, "x", None, vec![failed("hanson", "a"), failed("smarkets", "b")]) {
        BranchOutFinishStep::Answer(reply) => {
            assert_eq!(error(reply), expect("branch_out_failed", "[hanson] a; [smarkets] b"));
        }
        _ => panic!("no error"),
    }
    match finished(&mut app, "x", None, Vec::new()) {
        BranchOutFinishStep::Answer(reply) => {
            assert_eq!(error(reply), expect("branch_out_failed", ""));
        }
        _ => panic!("no error"),
    }
}

#[test]
fn only_created_checkouts_are_no_longer_registered() {
    let mut app = app();
    let job = spawned(&mut app, "x");
    let first = text(&job.repos[0].checkout_path);
    finished(&mut app, "x", None, vec![ok("hanson", &first), failed("pricing_config", "b")]);
    assert!(!app.pending_api_worktree_creates.contains_key(&job.repos[0].checkout_path));
    assert_eq!(app.pending_api_worktree_creates.get(&job.repos[1].checkout_path), Some(10));
}

#[test]
fn the_features_directory_follows_the_branch() {
    let mut app = app();
    match finished(&mut app, "feature/x", None, vec![ok("hanson", "/h")]) {
        BranchOutFinishStep::FindWorkspace(finish) => {
            assert_eq!(finish.features_text, "/home/chefyeum/Documents/features/feature/x");
            assert_eq!(text(&finish.features_dir), finish.features_text);
        }
        _ => panic!("workspace is not asked for"),
    }
    match finished(&mut app, "/x", None, vec![ok("hanson", "/h")]) {
        BranchOutFinishStep::FindWorkspace(finish) => assert_eq!(finish.features_text, "/x"),
        _ => panic!("workspace is not asked for"),
    }
}

#[test]
fn a_branch_out_on_windows() {
    let mut app = app();
    app.platform = Platform::Windows;
    for workspace in app.workspaces.iter_mut() {
        workspace.identity_cwd =
            WorktreePath::from_text(Platform::Windows, "C:\\work\\pricing_config");
    }
    let plan = plan(&app, "feature/x");
    assert_eq!(plan.repos.len(), 4);
    let repo = &plan.repos[0];
    assert_eq!(text(&repo.checkout_path), "C:\\work\\pricing_config.worktrees\\feature/x");
    assert_eq!(
        text(repo.checkout_parent.as_ref().unwrap()),
        "C:\\work\\pricing_config.worktrees\\feature"
    );
    match finished(&mut app, "feature/x", None, vec![ok("hanson", "/h")]) {
        BranchOutFinishStep::FindWorkspace(finish) => {
            assert_eq!(finish.features_text, "/home/chefyeum/Documents/features\\feature/x");
            assert_eq!(text(&finish.features_dir), finish.features_text);
        }
        _ => panic!("workspace is not asked for"),
    }
    match finished(&mut app, "D:x", None, vec![ok("hanson", "/h")]) {
        BranchOutFinishStep::FindWorkspace(finish) => assert_eq!(finish.features_text, "D:x"),
        _ => panic!("workspace is not asked for"),
    }
}

fn opened(step: BranchOutFinishStep<Channel>) -> (Vec<Effect>, BranchOutTabs<Channel>) {
    match step {
        BranchOutFinishStep::OpenTabs { effects, tabs } => (effects, tabs),
        _ => panic!("not opened"),
    }
}

#[test]
fn a_branch_is_shown_in_one_workspace() {
    let mut app = app();
    let results = vec![ok("hanson", "/h"), failed("smarkets", "no"), ok("pricing_config", "/p")];
    let finish = match finished(&mut app, "x", Some("Feature"), results) {
        BranchOutFinishStep::FindWorkspace(finish) => finish,
        _ => panic!("workspace is not asked for"),
    };
    let finish = match app.branch_out_workspace_found(finish, None) {
        BranchOutFinishStep::CreateWorkspace(finish) => finish,
        _ => panic!("workspace is not made"),
    };
    let (effects, tabs) = opened(app.branch_out_workspace_created(finish, Ok(1)));
    assert_eq!(effects.len(), 3);
    assert!(matches!(&effects[0], Effect::RenameWorkspace { workspace_idx: 1, name } if name == "Feature"));
    assert!(matches!(effects[1], Effect::SwitchWorkspace { workspace_idx: 1 }));
    assert!(matches!(&effects[2], Effect::RenameTab { workspace_idx: 1, tab_idx: 0, name } if name == "Home"));
    let (cwd, name, tabs) = match app.branch_out_next_tab(tabs) {
        BranchOutFinishStep::CreateTab { cwd, repo_name, tabs } => (cwd, repo_name, tabs),
        _ => panic!("no tab"),
    };
    assert_eq!((text(&cwd).as_str(), name.as_str()), ("/h", "hanson"));
    let made = NewTab { tab_idx: 1, terminal_id: "t7".to_string() };
    let (effects, tabs) = opened(app.branch_out_tab_created(tabs, name, Ok(made)));
    assert_eq!(effects.len(), 4);
    assert!(matches!(&effects[0], Effect::RegisterTerminalRuntime { terminal_id } if terminal_id == "t7"));
    assert!(matches!(&effects[1], Effect::RegisterTerminal { terminal_id } if terminal_id == "t7"));
    assert!(matches!(effects[2], Effect::RemoveShadowedAlias { workspace_idx: 1, tab_idx: 1 }));
    assert!(matches!(&effects[3], Effect::RenameTab { workspace_idx: 1, tab_idx: 1, name } if name == "hanson"));
    let (cwd, name, tabs) = match app.branch_out_next_tab(tabs) {
        BranchOutFinishStep::CreateTab { cwd, repo_name, tabs } => (cwd, repo_name, tabs),
        _ => panic!("no tab"),
    };
    assert_eq!((text(&cwd).as_str(), name.as_str()), ("/p", "pricing_config"));
    let (effects, tabs) = opened(app.branch_out_tab_created(tabs, name, Err("no pty".to_string())));
    assert!(effects.is_empty());
    let tabs = match app.branch_out_next_tab(tabs) {
        BranchOutFinishStep::TabsDone(tabs) => tabs,
        _ => panic!("another tab"),
    };
    app.workspaces[1].tab_count = 2;
    let tabs = match app.branch_out_tabs_done(tabs) {
        BranchOutFinishStep::Show { effects, tabs } => {
            assert_eq!(effects.len(), 3);
            assert!(matches!(effects[0], Effect::SwitchTab { workspace_idx: 1, tab_idx: 1 }));
            assert!(matches!(effects[1], Effect::MarkSessionDirty));
            assert!(matches!(effects[2], Effect::RequestRender));
            tabs
        }
        _ => panic!("not shown"),
    };
    let reply = app.branch_out_shown(tabs);
    assert_eq!(reply.respond_to, 5);
    match reply.response {
        Response::WorktreeCreated { id, workspace_idx, tab_idx, worktree } => {
            assert_eq!((id.as_str(), workspace_idx, tab_idx), ("r1", 1, 2));
            assert_eq!(worktree.path, "/home/chefyeum/Documents/features/x");
            assert_eq!(worktree.branch, Some("x".to_string()));
            assert_eq!(worktree.label, "Feature");
            assert_eq!(worktree.open_workspace_id, Some("w2".to_string()));
            assert!(worktree.is_linked_worktree);
            assert!(!worktree.is_detached && !worktree.is_bare && !worktree.is_prunable);
        }
        _ => panic!("not created"),
    }
}

#[test]
fn an_open_workspace_is_used_again() {
    let mut app = app();
    let finish = match finished(&mut app, "x", None, vec![ok("hanson", "/h")]) {
        BranchOutFinishStep::FindWorkspace(finish) => finish,
        _ => panic!("workspace is not asked for"),
    };
    let (effects, tabs) = opened(app.branch_out_workspace_found(finish, Some(3)));
    assert_eq!(effects.len(), 2);
    match app.branch_out_tabs_done(tabs) {
        BranchOutFinishStep::Show { effects, tabs } => {
            assert_eq!(effects.len(), 2);
            match app.branch_out_shown(tabs).response {
                Response::WorktreeCreated { worktree, .. } => assert_eq!(worktree.label, "x"),
                _ => panic!("not created"),
            }
        }
        _ => panic!("not shown"),
    }
}

#[test]
fn a_workspace_that_cannot_be_made_is_an_error() {
    let mut app = app();
    let finish = match finished(&mut app, "x", None, vec![ok("hanson", "/h")]) {
        BranchOutFinishStep::FindWorkspace(finish) => finish,
        _ => panic!("workspace is not asked for"),
    };
    match app.branch_out_workspace_created(finish, Err("no pty".to_string())) {
        BranchOutFinishStep::Answer(reply) => assert_eq!(
            error(reply),
            expect("workspace_open_failed", "Failed to create unified workspace: no pty")
        ),
        _ => panic!("no error"),
    }
}
