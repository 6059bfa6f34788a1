# herdr_worktrees

The worktree operations of the Herdr terminal multiplexer, verified with Verus: creating a git
worktree, removing one, and creating one branch in every base repository at once. A client's
request starts an operation, git runs in the background, and the request is answered once git is
done.

`src/` is the verified library. It decides and keeps the books; it neither reads files nor runs
commands. Each function returns a step, which says what the caller has to find out or do and which
function to call then.

- `app`, `ledger`: the state, and the operations under way
- `create`, `source`, `create_finish`: creating a worktree
- `remove`, `remove_finish`: removing a worktree
- `branch_out`, `branch_out_job`, `branch_out_finish`: creating a branch in every base repository
- `protocol`, `model`, `pending`, `path`, `prefix`, `text`: what these are made of
- `laws`, `branch_out_laws`, `path_laws`: what holds across the operations

Paths are byte strings with the rules of the platform they are for, Unix or Windows. On Windows the
bytes are those of the path's encoded text, drive letters and the other prefixes are told apart, and
both `/` and `\` separate components.

`app/` runs the steps: it asks the application around it, spawns the git jobs and sends the
answers. `tests/` runs the library on concrete values.
