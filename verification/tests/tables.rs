use herdr_worktrees::app::App;
use herdr_worktrees::create::branch_seed;
use herdr_worktrees::model::Mode;
use herdr_worktrees::path::WorktreePath;
use herdr_worktrees::pending::PendingTable;
use herdr_worktrees::prefix::Platform;
use herdr_worktrees::protocol::Response;
use herdr_worktrees::text::{join_texts, revision_or_head};

fn app() -> App {
    App {
        workspaces: Vec::new(),
        active: None,
        mode: Mode::Other(7),
        name_input: String::new(),
        name_input_replace_on_type: false,
        worktree_create: None,
        worktree_remove: None,
        platform: Platform::Unix,
        pending_api_worktree_creates: PendingTable::new(),
        pending_api_worktree_removes: PendingTable::new(),
        pending_api_worktree_remove_paths: PendingTable::new(),
        next_api_worktree_operation_id: 1,
    }
}

#[test]
fn a_table_goes_by_components() {
    let mut table: PendingTable<WorktreePath> = PendingTable::new();
    table.insert(WorktreePath::from_text(Platform::Unix, "/a//b"), 1);
    assert_eq!(table.get(&WorktreePath::from_text(Platform::Unix, "/a/b/")), Some(1));
    table.insert(WorktreePath::from_text(Platform::Unix, "/a/b"), 2);
    table.insert(WorktreePath::from_text(Platform::Unix, "/c"), 3);
    assert_eq!(table.get(&WorktreePath::from_text(Platform::Unix, "/a/./b")), Some(2));
    table.remove(&WorktreePath::from_text(Platform::Unix, "/a/b"));
    assert!(!table.contains_key(&WorktreePath::from_text(Platform::Unix, "/a/b")));
    assert_eq!(table.get(&WorktreePath::from_text(Platform::Unix, "/c")), Some(3));
}

#[test]
fn a_table_goes_by_text() {
    let mut table: PendingTable<String> = PendingTable::new();
    table.insert("w1".to_string(), 4);
    assert_eq!(table.get(&"w1".to_string()), Some(4));
    assert_eq!(table.get(&"W1".to_string()), None);
    table.remove(&"w2".to_string());
    assert!(table.contains_key(&"w1".to_string()));
}

#[test]
fn numbers_go_up_and_stop() {
    let mut app = app();
    assert_eq!(app.next_api_worktree_operation_id(), 1);
    assert_eq!(app.next_api_worktree_operation_id(), 2);
    app.next_api_worktree_operation_id = u64::MAX;
    assert_eq!(app.next_api_worktree_operation_id(), u64::MAX);
    assert_eq!(app.next_api_worktree_operation_id(), u64::MAX);
}

#[test]
fn an_answer_goes_where_it_belongs() {
    let response = Response::Error {
        id: "1".to_string(),
        code: "c".to_string(),
        message: "m".to_string(),
    };
    let reply = App::send_api_response("channel", response);
    assert_eq!(reply.respond_to, "channel");
    match reply.response {
        Response::Error { id, code, message } => {
            assert_eq!((id.as_str(), code.as_str(), message.as_str()), ("1", "c", "m"));
        }
        _ => panic!("not an error"),
    }
}

#[test]
fn seeds_fit() {
    assert_eq!(branch_seed(None), 0);
    assert_eq!(branch_seed(Some(1_700_000_000_000_000)), 1_700_000_000_000_000);
    assert_eq!(branch_seed(Some(u64::MAX as u128)), u64::MAX);
    assert_eq!(branch_seed(Some(u64::MAX as u128 + 1)), u64::MAX);
}

#[test]
fn texts() {
    let list = vec!["a".to_string(), "b".to_string(), "".to_string()];
    assert_eq!(join_texts(&list, "; "), "a; b; ");
    assert_eq!(join_texts(&Vec::new(), "; "), "");
    assert_eq!(revision_or_head(None), "HEAD");
    assert_eq!(revision_or_head(Some("main".to_string())), "main");
}
