use herdr_worktrees::app::{App, DeferredStep};
use herdr_worktrees::model::{
    Mode, Workspace, WorkspaceInfo, WorktreeInfo, WorktreeRemoveDialog, WorktreeSpaceMembership,
};
use herdr_worktrees::path::WorktreePath;
use herdr_worktrees::pending::PendingTable;
use herdr_worktrees::prefix::Platform;
use herdr_worktrees::protocol::{Effect, Method, Reply, Request, Response, WorktreeRemoveParams};
use herdr_worktrees::remove::{
    RemoveFailure, RemoveJob, RemovePlan, RemoveRequest, RemoveStep, WorktreeRemoveResult,
};
use herdr_worktrees::remove_finish::{ClosingFacts, RemoveAnnounced, RemoveFinishStep};

type Channel = u32;

fn path(text: &str) -> WorktreePath {
    WorktreePath::from_text(Platform::Unix, text)
}

fn workspace(id: &str, linked: Option<bool>) -> Workspace {
    Workspace {
        id: id.to_string(),
        identity_cwd: path("/t/a"),
        cached_git_branch: None,
        worktree_space: linked.map(|is_linked_worktree| WorktreeSpaceMembership {
            key: "key".to_string(),
            label: "repo".to_string(),
            repo_root: path("/src/repo"),
            checkout_path: path("/t/a"),
            is_linked_worktree,
        }),
        git_space: None,
        tab_count: 1,
        active_tab: 0,
    }
}

fn app() -> App {
    App {
        workspaces: vec![workspace("w0", None), workspace("w1", Some(false)), workspace("w2", Some(true))],
        active: Some(0),
        mode: Mode::Other(7),
        name_input: String::new(),
        name_input_replace_on_type: false,
        worktree_create: None,
        worktree_remove: None,
        platform: Platform::Unix,
        pending_api_worktree_creates: PendingTable::new(),
        pending_api_worktree_removes: PendingTable::new(),
        pending_api_worktree_remove_paths: PendingTable::new(),
        next_api_worktree_operation_id: 10,
    }
}

fn error(reply: Reply<Channel>) -> (Channel, String, String, String) {
    match reply.response {
        Response::Error { id, code, message } => (reply.respond_to, id, code, message),
        _ => panic!("not an error"),
    }
}

fn step_error(step: RemoveStep<Channel>) -> (Channel, String, String, String) {
    match step {
        RemoveStep::Answer(reply) => error(reply),
        _ => panic!("not an answer"),
    }
}

fn finish_error(step: RemoveFinishStep<Channel>) -> (Channel, String, String, String) {
    match step {
        RemoveFinishStep::Answer(reply) => error(reply),
        _ => panic!("not an answer"),
    }
}

fn expect(code: &str, message: &str) -> (Channel, String, String, String) {
    (5, "r1".to_string(), code.to_string(), message.to_string())
}

fn request(app: &App, force: bool) -> RemoveRequest<Channel> {
    let params = WorktreeRemoveParams { workspace_id: "9".to_string(), force };
    match app.start_api_worktree_remove("r1".to_string(), params, 5) {
        RemoveStep::ParseWorkspaceId(request) => request,
        _ => panic!("workspace is not asked for"),
    }
}

fn plan(app: &App, force: bool) -> RemovePlan<Channel> {
    match app.remove_workspace_parsed(request(app, force), Some(2)) {
        RemoveStep::Canonicalize(plan) => plan,
        _ => panic!("canonical path is not asked for"),
    }
}

fn spawned(app: &mut App, force: bool) -> RemoveJob<Channel> {
    let plan = plan(app, force);
    match app.remove_checkout_keyed(plan, path("/t/a"), false) {
        RemoveStep::Spawn { effects, job } => {
            assert!(effects.is_empty());
            job
        }
        _ => panic!("no job"),
    }
}

fn workspace_info(id: &str) -> WorkspaceInfo {
    WorkspaceInfo { workspace_id: id.to_string(), details: "{}".to_string() }
}

fn worktree_info(label: &str) -> WorktreeInfo {
    WorktreeInfo {
        path: "/t/a".to_string(),
        branch: None,
        is_linked_worktree: true,
        is_detached: false,
        is_bare: false,
        is_prunable: false,
        label: label.to_string(),
        open_workspace_id: None,
    }
}

fn dialog() -> WorktreeRemoveDialog {
    WorktreeRemoveDialog {
        workspace_id: "w2".to_string(),
        path: path("/t/a/"),
        removing: true,
        force_confirmation: false,
        error: None,
    }
}

fn removed(job: RemoveJob<Channel>) -> WorktreeRemoveResult<Channel> {
    job.removed(workspace_info("3"), worktree_info("then"), Ok(()))
}

#[test]
fn removals_are_taken() {
    let app = app();
    let params = WorktreeRemoveParams { workspace_id: "9".to_string(), force: true };
    let request = Request { id: "r1".to_string(), method: Method::WorktreeRemove(params) };
    assert!(matches!(
        app.handle_deferred_worktree_api_request(request, 5),
        Some(DeferredStep::Remove(RemoveStep::ParseWorkspaceId(r))) if r.params.force && r.respond_to == 5
    ));
}

#[test]
fn only_linked_worktrees_are_removed() {
    let app = app();
    assert_eq!(
        step_error(app.remove_workspace_parsed(request(&app, false), None)),
        expect("workspace_not_found", "workspace 9 not found")
    );
    let unmanaged =
        expect("not_linked_worktree", "workspace is not a Herdr-managed worktree checkout");
    assert_eq!(step_error(app.remove_workspace_parsed(request(&app, false), Some(0))), unmanaged);
    assert_eq!(step_error(app.remove_workspace_parsed(request(&app, false), Some(3))), unmanaged);
    assert_eq!(
        step_error(app.remove_workspace_parsed(request(&app, false), Some(1))),
        expect("not_linked_worktree", "workspace is not a linked worktree checkout")
    );
    assert_eq!(plan(&app, true).workspace_internal_id, "w2");
}

#[test]
fn changes_are_looked_for_on_windows() {
    let mut app = app();
    app.platform = Platform::Windows;
    assert!(matches!(
        app.remove_workspace_parsed(request(&app, true), Some(2)),
        RemoveStep::Canonicalize(_)
    ));
    let look = |app: &App| match app.remove_workspace_parsed(request(app, false), Some(2)) {
        RemoveStep::LookForChanges(plan) => plan,
        _ => panic!("changes are not looked for"),
    };
    assert!(matches!(
        app.remove_changes_looked_for(look(&app), None),
        RemoveStep::Canonicalize(_)
    ));
    assert!(matches!(
        app.remove_changes_looked_for(look(&app), Some(false)),
        RemoveStep::Canonicalize(_)
    ));
    match app.remove_changes_looked_for(look(&app), Some(true)) {
        RemoveStep::DescribeChanges(plan) => assert_eq!(
            step_error(app.remove_changes_described(plan, "has changes".to_string())),
            expect("dirty_worktree_requires_force", "has changes")
        ),
        _ => panic!("not refused"),
    }
}

#[test]
fn a_removal_is_registered_twice() {
    let mut app = app();
    let job = spawned(&mut app, true);
    assert_eq!(job.workspace_idx, 2);
    assert!(job.force);
    assert_eq!(job.api_request.operation_id, 10);
    assert_eq!(app.pending_api_worktree_removes.get(&"w2".to_string()), Some(10));
    assert_eq!(app.pending_api_worktree_remove_paths.get(&path("/t/a")), Some(10));
    assert_eq!(app.next_api_worktree_operation_id, 11);
}

#[test]
fn terminals_end_before_a_removal_where_that_is_said() {
    let mut app = app();
    let plan = plan(&app, true);
    match app.remove_checkout_keyed(plan, path("/t/a"), true) {
        RemoveStep::Spawn { effects, .. } => {
            assert_eq!(effects.len(), 1);
            assert!(matches!(effects[0], Effect::ShutdownWorkspaceRuntimes { workspace_idx: 2 }));
        }
        _ => panic!("no job"),
    }
}

#[test]
fn busy_checkouts_and_workspaces_are_refused() {
    let busy = expect(
        "worktree_operation_in_progress",
        "worktree operation is already in progress for this checkout",
    );
    let mut by_workspace = app();
    by_workspace.pending_api_worktree_removes.insert("w2".to_string(), 1);
    let p = plan(&by_workspace, false);
    assert_eq!(step_error(by_workspace.remove_checkout_keyed(p, path("/t/a"), true)), busy);
    let mut by_path = app();
    by_path.pending_api_worktree_remove_paths.insert(path("/t/a"), 1);
    let p = plan(&by_path, false);
    assert_eq!(step_error(by_path.remove_checkout_keyed(p, path("/t/./a"), true)), busy);
    let mut by_create = app();
    by_create.pending_api_worktree_creates.insert(path("/t/a"), 1);
    let p = plan(&by_create, false);
    assert_eq!(step_error(by_create.remove_checkout_keyed(p, path("/t/a"), true)), busy);
    assert_eq!(by_create.next_api_worktree_operation_id, 10);
}

#[test]
fn a_removal_stays_while_others_come_and_go() {
    let mut app = app();
    let job = spawned(&mut app, false);
    app.pending_api_worktree_creates.insert(path("/t/b"), 30);
    app.pending_api_worktree_creates.remove(&path("/t/b"));
    app.pending_api_worktree_removes.insert("w9".to_string(), 31);
    app.pending_api_worktree_remove_paths.insert(path("/t/c"), 31);
    assert!(matches!(
        app.handle_api_worktree_remove_finished(removed(job)),
        RemoveFinishStep::DescribeClosing { workspace_idx: 2, .. }
    ));
    assert_eq!(app.pending_api_worktree_removes.get(&"w9".to_string()), Some(31));
}

#[test]
fn stale_or_unasked_removals_change_nothing() {
    let mut app = app();
    let mut result = removed(spawned(&mut app, false));
    app.pending_api_worktree_remove_paths.insert(path("/t/a"), 50);
    let stale = expect(
        "stale_worktree_operation",
        "worktree remove completed after the operation was superseded",
    );
    let api = result.api_request.take();
    assert!(matches!(app.handle_api_worktree_remove_finished(result), RemoveFinishStep::Ignored));
    let late = WorktreeRemoveResult {
        workspace_id: "w2".to_string(),
        path: path("/t/a"),
        workspace: None,
        worktree: None,
        forced: false,
        api_request: api,
        result: Ok(()),
    };
    assert_eq!(finish_error(app.handle_api_worktree_remove_finished(late)), stale);
    assert_eq!(app.pending_api_worktree_removes.get(&"w2".to_string()), Some(10));
    assert_eq!(app.pending_api_worktree_remove_paths.get(&path("/t/a")), Some(50));
}

#[test]
fn changes_are_asked_about_once_and_then_shown() {
    let mut app = app();
    app.worktree_remove = Some(dialog());
    let fail = |job: RemoveJob<Channel>, dirty: bool| {
        let failure = RemoveFailure { message: "is dirty".to_string(), dirty_worktree: dirty };
        job.removed(workspace_info("3"), worktree_info("then"), Err(failure))
    };
    let job = spawned(&mut app, false);
    assert_eq!(
        finish_error(app.handle_api_worktree_remove_finished(fail(job, true))),
        expect("dirty_worktree_requires_force", "is dirty")
    );
    let shown = app.worktree_remove.as_ref().unwrap();
    assert!(shown.force_confirmation);
    assert!(!shown.removing);
    assert_eq!(shown.error, None);
    let job = spawned(&mut app, false);
    app.handle_api_worktree_remove_finished(fail(job, true));
    assert_eq!(app.worktree_remove.as_ref().unwrap().error, Some("is dirty".to_string()));
    let job = spawned(&mut app, true);
    assert_eq!(
        finish_error(app.handle_api_worktree_remove_finished(fail(job, true))),
        expect("worktree_remove_failed", "is dirty")
    );
    let job = spawned(&mut app, false);
    assert_eq!(
        finish_error(app.handle_api_worktree_remove_finished(fail(job, false))),
        expect("worktree_remove_failed", "is dirty")
    );
}

#[test]
fn a_removed_worktree_is_closed_announced_and_answered() {
    let mut app = app();
    app.worktree_remove = Some(dialog());
    let job = spawned(&mut app, true);
    let (idx, finish) = match app.handle_api_worktree_remove_finished(removed(job)) {
        RemoveFinishStep::DescribeClosing { workspace_idx, finish } => (workspace_idx, finish),
        _ => panic!("not closed"),
    };
    assert_eq!(idx, 2);
    assert!(!app.pending_api_worktree_removes.contains_key(&"w2".to_string()));
    assert!(!app.pending_api_worktree_remove_paths.contains_key(&path("/t/a")));
    let facts = ClosingFacts {
        public_id: "4".to_string(),
        workspace: workspace_info("now"),
        worktree: worktree_info("now"),
    };
    let closed = match app.remove_closing_described(idx, finish, facts) {
        RemoveFinishStep::Close { effects, closed } => {
            assert_eq!(effects.len(), 3);
            assert!(matches!(effects[0], Effect::CloseWorkspace { workspace_idx: 2 }));
            assert!(matches!(effects[1], Effect::ShutdownDetachedRuntimes));
            assert!(matches!(
                &effects[2],
                Effect::EmitWorkspaceClosed { workspace_id, workspace: Some(info) }
                    if workspace_id == "4" && info.workspace_id == "3"
            ));
            closed
        }
        _ => panic!("not closed"),
    };
    let announced = match app.remove_closed(closed) {
        RemoveFinishStep::Announce { effects, announced } => {
            assert!(matches!(
                &effects[0],
                Effect::EmitWorktreeRemoved { workspace_id, worktree, forced: true, .. }
                    if workspace_id == "4" && worktree.label == "then"
            ));
            announced
        }
        _ => panic!("not announced"),
    };
    app.active = None;
    let reply = app.remove_announced(announced, "lossy".to_string());
    assert!(app.worktree_remove.is_none());
    assert_eq!(app.mode, Mode::Navigate);
    assert_eq!(reply.respond_to, 5);
    match reply.response {
        Response::WorktreeRemoved { id, workspace_id, path, forced } => {
            assert_eq!((id.as_str(), workspace_id.as_str(), forced), ("r1", "4", true));
            assert_eq!(path, "/t/a");
        }
        _ => panic!("not removed"),
    }
}

#[test]
fn a_path_that_is_no_text_is_shown_by_the_host() {
    let mut app = app();
    let announced = RemoveAnnounced {
        id: "r1".to_string(),
        respond_to: 5,
        workspace_id: "w2".to_string(),
        path: WorktreePath { platform: Platform::Unix, bytes: vec![0x2f, 0xff] },
        forced: false,
        public_id: "4".to_string(),
    };
    match app.remove_announced(announced, "/\u{fffd}".to_string()).response {
        Response::WorktreeRemoved { path, .. } => assert_eq!(path, "/\u{fffd}"),
        _ => panic!("not removed"),
    }
}

#[test]
fn a_workspace_that_moved_on_stays_open() {
    let mut app = app();
    let job = spawned(&mut app, false);
    app.workspaces[2].worktree_space = None;
    match app.handle_api_worktree_remove_finished(removed(job)) {
        RemoveFinishStep::Announce { announced, .. } => {
            assert_eq!(announced.public_id, "3");
            app.worktree_remove = Some(dialog());
            app.remove_announced(announced, String::new());
            assert_eq!(app.mode, Mode::Terminal);
        }
        _ => panic!("not announced"),
    }
    app.workspaces[2] = workspace("w2", Some(true));
    let job = spawned(&mut app, false);
    app.workspaces.pop();
    let mut result = removed(job);
    result.workspace = None;
    match app.handle_api_worktree_remove_finished(result) {
        RemoveFinishStep::Announce { announced, .. } => assert_eq!(announced.public_id, "w2"),
        _ => panic!("not announced"),
    }
}

#[test]
fn a_lost_snapshot_fails() {
    let mut app = app();
    let job = spawned(&mut app, false);
    app.workspaces.pop();
    let mut result = removed(job);
    result.worktree = None;
    assert_eq!(
        finish_error(app.handle_api_worktree_remove_finished(result)),
        expect("worktree_remove_failed", "removed worktree but lost worktree snapshot")
    );
}
