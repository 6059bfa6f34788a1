use herdr_worktrees::app::{App, DeferredStep};
use herdr_worktrees::create::{AddJob, AddJobStep, ApiWorktreeAddRequest, CreateStep, WorktreeAddResult};
use herdr_worktrees::create_finish::AddStep;
use herdr_worktrees::model::{
    GitSpace, Mode, Workspace, WorktreeCreateDialog, WorktreeInfo, WorktreeSource,
    WorktreeSpaceMembership,
};
use herdr_worktrees::path::WorktreePath;
use herdr_worktrees::pending::PendingTable;
use herdr_worktrees::prefix::Platform;
use herdr_worktrees::protocol::{
    ApiError, Effect, Method, Reply, Request, Response, WorktreeCreateParams,
};
use herdr_worktrees::source::{SourceFacts, SourceLookup};

type Channel = u32;

fn path(text: &str) -> WorktreePath {
    WorktreePath::from_text(Platform::Unix, text)
}

fn text(path: &WorktreePath) -> String {
    String::from_utf8(path.bytes.clone()).unwrap()
}

fn membership(key: &str, checkout: &str, linked: bool) -> WorktreeSpaceMembership {
    WorktreeSpaceMembership {
        key: key.to_string(),
        label: "repo".to_string(),
        repo_root: path("/src/repo"),
        checkout_path: path(checkout),
        is_linked_worktree: linked,
    }
}

fn workspace(id: &str) -> Workspace {
    Workspace {
        id: id.to_string(),
        identity_cwd: path("/src/repo"),
        cached_git_branch: None,
        worktree_space: None,
        git_space: None,
        tab_count: 1,
        active_tab: 3,
    }
}

fn app() -> App {
    App {
        workspaces: vec![workspace("w1"), workspace("w2")],
        active: Some(0),
        mode: Mode::Other(7),
        name_input: "typed".to_string(),
        name_input_replace_on_type: true,
        worktree_create: None,
        worktree_remove: None,
        platform: Platform::Unix,
        pending_api_worktree_creates: PendingTable::new(),
        pending_api_worktree_removes: PendingTable::new(),
        pending_api_worktree_remove_paths: PendingTable::new(),
        next_api_worktree_operation_id: 10,
    }
}

fn params(branch: Option<&str>) -> WorktreeCreateParams {
    WorktreeCreateParams {
        workspace_id: Some("1".to_string()),
        cwd: None,
        branch: branch.map(|b| b.to_string()),
        base: None,
        path: None,
        label: Some("shown".to_string()),
        focus: true,
    }
}

fn source(idx: Option<usize>) -> WorktreeSource {
    WorktreeSource {
        workspace_idx: idx,
        source_checkout_path: path("/src/repo"),
        source_repo_root: path("/src/repo"),
        repo_key: "key".to_string(),
        repo_name: "repo".to_string(),
    }
}

fn error(reply: Reply<Channel>) -> (Channel, String, String, String) {
    match reply.response {
        Response::Error { id, code, message } => (reply.respond_to, id, code, message),
        _ => panic!("not an error"),
    }
}

fn create_error(step: CreateStep<Channel>) -> (Channel, String, String, String) {
    match step {
        CreateStep::Answer(reply) => error(reply),
        _ => panic!("not an answer"),
    }
}

fn add_error(step: AddStep<Channel>) -> (Channel, String, String, String) {
    match step {
        AddStep::Answer(reply) => error(reply),
        _ => panic!("not an answer"),
    }
}

fn expect(code: &str, message: &str) -> (Channel, String, String, String) {
    (5, "r1".to_string(), code.to_string(), message.to_string())
}

/// Takes a request up to the point where the canonical path is known.
fn keyed(app: &mut App, branch: &str, checkout: &str) -> CreateStep<Channel> {
    let plan = match app.start_api_worktree_create("r1".to_string(), params(Some(branch)), 5) {
        CreateStep::ResolveSource(plan) => plan,
        _ => panic!("source is not asked for"),
    };
    let sourced = match app.create_source_resolved(plan, Ok(source(Some(1)))) {
        CreateStep::DefaultPath(sourced) => sourced,
        _ => panic!("default path is not asked for"),
    };
    let located = match app.create_checkout_located(sourced, Ok(path(checkout))) {
        CreateStep::Canonicalize(located) => located,
        _ => panic!("canonical path is not asked for"),
    };
    app.create_checkout_keyed(located, path(checkout))
}

fn spawned(app: &mut App, checkout: &str) -> AddJob<Channel> {
    match keyed(app, "topic", checkout) {
        CreateStep::Spawn(job) => job,
        _ => panic!("no job"),
    }
}

#[test]
fn deferred_requests_are_taken() {
    let app = app();
    let other = Request { id: "r1".to_string(), method: Method::Other };
    assert!(app.handle_deferred_worktree_api_request(other, 5).is_none());
    let create = Request {
        id: "r1".to_string(),
        method: Method::WorktreeCreate(params(Some("topic"))),
    };
    match app.handle_deferred_worktree_api_request(create, 5) {
        Some(DeferredStep::Create(CreateStep::ResolveSource(plan))) => {
            assert_eq!(plan.branch, "topic");
            assert_eq!(plan.respond_to, 5);
        }
        _ => panic!("not taken"),
    }
}

#[test]
fn a_branch_is_trimmed_and_needed() {
    let app = app();
    match app.start_api_worktree_create("r1".to_string(), params(Some("\u{3000} a b\t\n")), 5) {
        CreateStep::ResolveSource(plan) => {
            assert_eq!(plan.branch, "a b");
            assert_eq!(plan.base, "HEAD");
            assert_eq!(plan.workspace_id, Some("1".to_string()));
            assert_eq!(plan.label, Some("shown".to_string()));
            assert!(plan.focus);
        }
        _ => panic!("refused"),
    }
    assert_eq!(
        create_error(app.start_api_worktree_create("r1".to_string(), params(Some(" \u{a0}\t")), 5)),
        expect("invalid_request", "branch is required")
    );
}

#[test]
fn a_missing_branch_is_generated() {
    let app = app();
    let request = match app.start_api_worktree_create("r1".to_string(), params(None), 5) {
        CreateStep::GenerateBranch(request) => request,
        _ => panic!("branch is not asked for"),
    };
    match app.create_branch_generated(request, "calm-otter ".to_string()) {
        CreateStep::ResolveSource(plan) => assert_eq!(plan.branch, "calm-otter"),
        _ => panic!("refused"),
    }
}

#[test]
fn host_errors_are_passed_on() {
    let app = app();
    let bad = || ApiError { code: "c".to_string(), message: "m".to_string() };
    let mut with_path = params(Some("topic"));
    with_path.path = Some("~/x".to_string());
    let plan = match app.start_api_worktree_create("r1".to_string(), with_path, 5) {
        CreateStep::ResolveSource(plan) => plan,
        _ => panic!("refused"),
    };
    let sourced = match app.create_source_resolved(plan, Ok(source(None))) {
        CreateStep::AbsolutePath(sourced) => sourced,
        _ => panic!("absolute path is not asked for"),
    };
    assert_eq!(sourced.plan.path, Some("~/x".to_string()));
    assert_eq!(create_error(app.create_checkout_located(sourced, Err(bad()))), expect("c", "m"));
    let plan = match app.start_api_worktree_create("r1".to_string(), params(Some("topic")), 5) {
        CreateStep::ResolveSource(plan) => plan,
        _ => panic!("refused"),
    };
    assert_eq!(create_error(app.create_source_resolved(plan, Err(bad()))), expect("c", "m"));
}

#[test]
fn a_job_has_what_it_needs() {
    let mut app = app();
    app.workspaces[1].worktree_space = Some(membership("key", "/src/repo", false));
    let job = spawned(&mut app, "/trees/repo/topic");
    assert_eq!(text(&job.path), "/trees/repo/topic");
    assert_eq!(text(job.parent_dir.as_ref().unwrap()), "/trees/repo");
    assert_eq!((job.branch.as_str(), job.base.as_str()), ("topic", "HEAD"));
    assert_eq!(job.api_request.operation_id, 10);
    assert_eq!(job.api_request.source_workspace_id, Some("w2".to_string()));
    assert_eq!(job.api_request.source_existing_membership.as_ref().unwrap().key, "key");
    assert_eq!(app.next_api_worktree_operation_id, 11);
    assert_eq!(app.pending_api_worktree_creates.get(&path("/trees/repo/topic")), Some(10));
}

#[test]
fn a_busy_checkout_is_refused() {
    let busy = expect(
        "worktree_operation_in_progress",
        "worktree operation is already in progress for this checkout",
    );
    let mut app = app();
    spawned(&mut app, "/t/a");
    assert_eq!(create_error(keyed(&mut app, "b", "/t//a/")), busy);
    app.pending_api_worktree_remove_paths.insert(path("/t/b"), 3);
    assert_eq!(create_error(keyed(&mut app, "b", "/t/b")), busy);
    assert_eq!(app.next_api_worktree_operation_id, 11);
}

#[test]
fn a_job_stops_where_its_directory_cannot_be_made() {
    let mut app = app();
    let job = spawned(&mut app, "/t/a");
    match job.parent_made(Err("denied".to_string())) {
        AddJobStep::Done(result) => {
            assert_eq!(result.result, Err("denied".to_string()));
            assert_eq!(result.api_request.unwrap().operation_id, 10);
        }
        AddJobStep::RunGit(_) => panic!("went on"),
    }
    let job = spawned(&mut app, "/t/b");
    match job.parent_made(Ok(())) {
        AddJobStep::RunGit(job) => assert_eq!(job.added(Ok(())).result, Ok(())),
        AddJobStep::Done(_) => panic!("stopped"),
    }
}

#[test]
fn results_nobody_asked_for_are_ignored() {
    let mut app = app();
    let result: WorktreeAddResult<Channel> =
        WorktreeAddResult { path: path("/t/a"), api_request: None, result: Ok(()) };
    assert!(matches!(app.handle_api_worktree_add_finished(result), AddStep::Ignored));
}

#[test]
fn stale_results_change_nothing() {
    let mut app = app();
    let job = spawned(&mut app, "/t/a");
    app.pending_api_worktree_creates.insert(path("/t/a"), 99);
    assert_eq!(
        add_error(app.handle_api_worktree_add_finished(job.added(Ok(())))),
        expect(
            "stale_worktree_operation",
            "worktree create completed after the operation was superseded"
        )
    );
    assert_eq!(app.pending_api_worktree_creates.get(&path("/t/a")), Some(99));
}

#[test]
fn a_failed_creation_is_shown_in_its_dialog() {
    let mut app = app();
    app.worktree_create =
        Some(WorktreeCreateDialog { checkout_path: path("/t/a/"), creating: true, error: None });
    let job = spawned(&mut app, "/t/a");
    let result = job.added(Err("no such branch".to_string()));
    assert_eq!(
        add_error(app.handle_api_worktree_add_finished(result)),
        expect("worktree_create_failed", "no such branch")
    );
    let dialog = app.worktree_create.as_ref().unwrap();
    assert!(!dialog.creating);
    assert_eq!(dialog.error, Some("no such branch".to_string()));
    assert!(!app.pending_api_worktree_creates.contains_key(&path("/t/a")));

    let job = spawned(&mut app, "/t/other");
    app.worktree_create.as_mut().unwrap().creating = true;
    app.handle_api_worktree_add_finished(job.added(Err("x".to_string())));
    assert!(app.worktree_create.as_ref().unwrap().creating);
}

fn api(app: &mut App) -> ApiWorktreeAddRequest<Channel> {
    spawned(app, "/t/source").api_request
}

fn known(lookup: SourceLookup) -> Option<usize> {
    match lookup {
        SourceLookup::Known(idx) => idx,
        _ => panic!("not known"),
    }
}

#[test]
fn the_source_is_the_named_workspace_with_its_membership() {
    let mut app = app();
    app.workspaces[1].worktree_space = Some(membership("key", "/src/repo", false));
    let api = api(&mut app);
    let mut facts = SourceFacts::none();
    assert_eq!(known(app.api_create_source_workspace_idx(&api, &facts)), Some(1));
    app.workspaces[1].worktree_space = Some(membership("other", "/src/repo", false));
    match app.api_create_source_workspace_idx(&api, &facts) {
        SourceLookup::FindParent { repo_key } => assert_eq!(repo_key, "key"),
        _ => panic!("parent is not asked for"),
    }
    facts.parent = Some(Some(0));
    assert_eq!(known(app.api_create_source_workspace_idx(&api, &facts)), Some(0));
    app.workspaces.pop();
    facts.parent = Some(None);
    assert_eq!(known(app.api_create_source_workspace_idx(&api, &facts)), None);
}

#[test]
fn the_source_may_have_become_a_parent() {
    let mut app = app();
    let api = api(&mut app);
    assert!(api.source_existing_membership.is_none());
    app.workspaces[1].worktree_space = Some(membership("key", "/src//repo", false));
    let facts = SourceFacts::none();
    assert_eq!(known(app.api_create_source_workspace_idx(&api, &facts)), Some(1));
    app.workspaces[1].worktree_space = Some(membership("key", "/src/repo", true));
    assert!(matches!(
        app.api_create_source_workspace_idx(&api, &facts),
        SourceLookup::FindParent { .. }
    ));
}

#[test]
fn the_source_may_be_known_to_git_only() {
    let mut app = app();
    let api = api(&mut app);
    let mut facts = SourceFacts::none();
    assert!(matches!(
        app.api_create_source_workspace_idx(&api, &facts),
        SourceLookup::ProbeGitSpace { workspace_idx: 1 }
    ));
    facts.probed = Some(Some(GitSpace {
        key: "key".to_string(),
        repo_root: path("/link/repo"),
        is_linked_worktree: false,
    }));
    match app.api_create_source_workspace_idx(&api, &facts) {
        SourceLookup::CanonicalRoots { space_root, source_root } => {
            assert_eq!(text(&space_root), "/link/repo");
            assert_eq!(text(&source_root), "/src/repo");
        }
        _ => panic!("roots are not asked for"),
    }
    facts.canonical_roots = Some((path("/real/repo"), path("/real/repo")));
    assert_eq!(known(app.api_create_source_workspace_idx(&api, &facts)), Some(1));
    facts.canonical_roots = Some((path("/real/repo"), path("/real/other")));
    facts.parent = Some(None);
    assert_eq!(known(app.api_create_source_workspace_idx(&api, &facts)), None);
    facts.probed = Some(None);
    assert_eq!(known(app.api_create_source_workspace_idx(&api, &facts)), None);
    app.workspaces[1].git_space = Some(GitSpace {
        key: "key".to_string(),
        repo_root: path("/src/repo"),
        is_linked_worktree: true,
    });
    facts.canonical_roots = Some((path("/r"), path("/r")));
    assert_eq!(known(app.api_create_source_workspace_idx(&api, &facts)), None);
}

fn info() -> WorktreeInfo {
    WorktreeInfo {
        path: "/t/a".to_string(),
        branch: Some("topic".to_string()),
        is_linked_worktree: true,
        is_detached: false,
        is_bare: false,
        is_prunable: false,
        label: "topic".to_string(),
        open_workspace_id: None,
    }
}

#[test]
fn a_new_worktree_is_opened_recorded_and_answered() {
    let mut app = app();
    app.worktree_create =
        Some(WorktreeCreateDialog { checkout_path: path("/t/a"), creating: true, error: None });
    let job = spawned(&mut app, "/t/a");
    let finish = match app.handle_api_worktree_add_finished(job.added(Ok(()))) {
        AddStep::FindSource(finish) => finish,
        _ => panic!("source is not asked for"),
    };
    let sourced = match app.add_source_found(finish, Some(1)) {
        AddStep::EnsureParent(sourced) => sourced,
        _ => panic!("parent is not asked for"),
    };
    assert_eq!(sourced.source.workspace_idx, Some(1));
    let sourced = match app.add_parent_ensured(sourced, Ok(source(Some(0)))) {
        AddStep::FindOpenWorkspace(sourced) => sourced,
        _ => panic!("workspace is not asked for"),
    };
    let sourced = match app.add_open_workspace_found(sourced, None) {
        AddStep::CreateWorkspace(sourced) => sourced,
        _ => panic!("workspace is not asked for"),
    };
    let opened = match app.add_workspace_created(sourced, Ok(1)) {
        AddStep::Record { effects, opened } => {
            assert_eq!(effects.len(), 2);
            match &effects[0] {
                Effect::MarkMembership { source, workspace_idx, is_linked_worktree, already_open, .. } => {
                    assert_eq!(source.workspace_idx, Some(0));
                    assert_eq!(*workspace_idx, 1);
                    assert!(*is_linked_worktree);
                    assert!(!*already_open);
                }
                _ => panic!("membership is not noted"),
            }
            assert!(matches!(&effects[1], Effect::RenameWorkspace { workspace_idx: 1, name } if name == "shown"));
            opened
        }
        _ => panic!("not recorded"),
    };
    let opened = match app.add_membership_recorded(opened) {
        AddStep::Describe { effects, opened } => {
            assert_eq!(effects.len(), 2);
            assert!(matches!(effects[0], Effect::MarkSessionDirty));
            assert!(matches!(effects[1], Effect::EmitWorkspaceOpened { workspace_idx: 1 }));
            opened
        }
        _ => panic!("not described"),
    };
    assert!(app.worktree_create.is_none());
    assert_eq!(app.name_input, "");
    assert!(!app.name_input_replace_on_type);
    assert_eq!(app.mode, Mode::Terminal);
    let announced = match app.add_described(opened, Some(info())) {
        AddStep::Announce { effects, announced } => {
            assert!(matches!(&effects[0], Effect::EmitWorktreeCreated { workspace_idx: 1, worktree } if worktree.path == "/t/a"));
            announced
        }
        _ => panic!("not announced"),
    };
    let reply = app.add_announced(announced);
    assert_eq!(reply.respond_to, 5);
    match reply.response {
        Response::WorktreeCreated { id, workspace_idx, tab_idx, worktree } => {
            assert_eq!((id.as_str(), workspace_idx, tab_idx), ("r1", 1, 3));
            assert_eq!(worktree.path, "/t/a");
        }
        _ => panic!("not created"),
    }
}

#[test]
fn an_open_worktree_is_focused() {
    let mut app = app();
    let job = spawned(&mut app, "/t/a");
    let finish = match app.handle_api_worktree_add_finished(job.added(Ok(()))) {
        AddStep::FindSource(finish) => finish,
        _ => panic!("source is not asked for"),
    };
    let sourced = match app.add_source_found(finish, None) {
        AddStep::EnsureParent(sourced) => sourced,
        _ => panic!("parent is not asked for"),
    };
    match app.add_open_workspace_found(sourced, Some(0)) {
        AddStep::Record { effects, opened } => {
            assert_eq!(effects.len(), 3);
            assert!(matches!(effects[0], Effect::SwitchWorkspace { workspace_idx: 0 }));
            assert!(matches!(effects[1], Effect::MarkMembership { already_open: true, .. }));
            assert!(!opened.created);
            match app.add_membership_recorded(opened) {
                AddStep::Describe { effects, opened } => {
                    assert_eq!(effects.len(), 1);
                    assert_eq!(app.mode, Mode::Other(7));
                    assert_eq!(app.name_input, "typed");
                    assert_eq!(
                        add_error(app.add_described(opened, None)),
                        expect(
                            "worktree_open_failed",
                            "created worktree but failed to record workspace membership"
                        )
                    );
                }
                _ => panic!("not described"),
            }
        }
        _ => panic!("not recorded"),
    }
}

#[test]
fn a_worktree_that_cannot_be_opened_fails() {
    let mut app = app();
    let job = spawned(&mut app, "/t/a");
    let finish = match app.handle_api_worktree_add_finished(job.added(Ok(()))) {
        AddStep::FindSource(finish) => finish,
        _ => panic!("source is not asked for"),
    };
    let sourced = match app.add_source_found(finish, None) {
        AddStep::EnsureParent(sourced) => sourced,
        _ => panic!("parent is not asked for"),
    };
    assert_eq!(
        add_error(app.add_workspace_created(sourced, Err("no pty".to_string()))),
        expect(
            "worktree_open_failed",
            "created worktree but failed to open workspace: no pty"
        )
    );
    let job = spawned(&mut app, "/t/b");
    let finish = match app.handle_api_worktree_add_finished(job.added(Ok(()))) {
        AddStep::FindSource(finish) => finish,
        _ => panic!("source is not asked for"),
    };
    let sourced = match app.add_source_found(finish, None) {
        AddStep::EnsureParent(sourced) => sourced,
        _ => panic!("parent is not asked for"),
    };
    let bad = ApiError { code: "c".to_string(), message: "m".to_string() };
    assert_eq!(add_error(app.add_parent_ensured(sourced, Err(bad))), expect("c", "m"));
}

#[test]
fn the_end_of_a_creation_undoes_its_start() {
    let mut app = app();
    let first = spawned(&mut app, "/t/a");
    let second = spawned(&mut app, "/t/b");
    assert_eq!((first.api_request.operation_id, second.api_request.operation_id), (10, 11));
    app.handle_api_worktree_add_finished(second.added(Ok(())));
    assert_eq!(app.pending_api_worktree_creates.get(&path("/t/a")), Some(10));
    app.handle_api_worktree_add_finished(first.added(Ok(())));
    assert!(!app.pending_api_worktree_creates.contains_key(&path("/t/a")));
    assert_eq!(spawned(&mut app, "/t/a").api_request.operation_id, 12);
}
