//! The words that the laws about requests are put in.

use vstd::prelude::*;

use crate::app::App;
use crate::model::Workspace;
use crate::path::{components, PathView};
use crate::protocol::{Reply, Response};
use crate::text::white_space;

verus! {

/// The request with the given id is answered with the error of the given code and message.
pub open spec fn refuses<R>(
    reply: Reply<R>,
    respond_to: R,
    id: String,
    code: Seq<char>,
    message: Seq<char>,
) -> bool {
    &&& reply.respond_to == respond_to
    &&& reply.response matches Response::Error { id: i, code: c, message: m }
    &&& i == id
    &&& c@ == code
    &&& m@ == message
}

/// The workspace at `i` is the first with the given id.
pub open spec fn first_with_id(workspaces: Seq<Workspace>, id: Seq<char>, i: int) -> bool {
    &&& 0 <= i < workspaces.len()
    &&& workspaces[i].id@ == id
    &&& forall|j: int| 0 <= j < i ==> (#[trigger] workspaces[j]).id@ != id
}

/// No workspace has the given id.
pub open spec fn none_with_id(workspaces: Seq<Workspace>, id: Seq<char>) -> bool {
    forall|j: int| 0 <= j < workspaces.len() ==> (#[trigger] workspaces[j]).id@ != id
}

/// The two paths are equal.
pub open spec fn same_place(a: PathView, b: PathView) -> bool {
    components(a) == components(b)
}

/// There is nothing but white space in the text.
pub open spec fn is_blank(text: Seq<char>) -> bool {
    forall|i: int| 0 <= i < text.len() ==> white_space(#[trigger] text[i])
}

/// `inner` is `text` without the white space around it.
pub open spec fn is_inside(text: Seq<char>, inner: Seq<char>) -> bool {
    &&& inner.len() > 0
    &&& !white_space(inner[0])
    &&& !white_space(inner[inner.len() - 1])
    &&& exists|before: Seq<char>, after: Seq<char>|
        is_blank(before) && is_blank(after) && text == #[trigger] (before + inner + after)
}

/// The two states have the same operations under way.
pub open spec fn same_tables(a: App, b: App) -> bool {
    &&& a.pending_api_worktree_creates@ == b.pending_api_worktree_creates@
    &&& a.pending_api_worktree_removes@ == b.pending_api_worktree_removes@
    &&& a.pending_api_worktree_remove_paths@ == b.pending_api_worktree_remove_paths@
    &&& a.next_api_worktree_operation_id == b.next_api_worktree_operation_id
}

/// The two states have the same workspaces.
pub open spec fn same_workspaces(a: App, b: App) -> bool {
    &&& a.workspaces == b.workspaces
    &&& a.active == b.active
    &&& a.platform == b.platform
}

/// The two states have the same keyboard input.
pub open spec fn same_keyboard(a: App, b: App) -> bool {
    &&& a.mode == b.mode
    &&& a.name_input == b.name_input
    &&& a.name_input_replace_on_type == b.name_input_replace_on_type
}

/// The two states differ in the operations under way at most.
pub open spec fn same_but_tables(a: App, b: App) -> bool {
    &&& same_workspaces(a, b)
    &&& same_keyboard(a, b)
    &&& a.worktree_create == b.worktree_create
    &&& a.worktree_remove == b.worktree_remove
}

/// One number was given out. The largest one can be given out again.
pub open spec fn number_taken(before: App, after: App) -> bool {
    let old_id = before.next_api_worktree_operation_id;
    let new_id = after.next_api_worktree_operation_id;
    (old_id < u64::MAX && new_id == old_id + 1) || (old_id == u64::MAX && new_id == old_id)
}

} // verus!
