//! Where the checkouts of a branch are, and when a branch fails.

use vstd::prelude::*;
use vstd::utf8::{
    encode_utf8, encode_utf8_decode_utf8, is_ascii_chars, is_ascii_chars_encode_utf8,
};

use crate::branch_out::{base_repo_name, repo_checkout_for, RepoCheckout};
use crate::branch_out_finish::{
    created_keys, failures, features_path, separator_text, RepoOutcome,
};
use crate::path::{body, components, ends_with_name, is_named, joined, parent_of, Part, PathView};
use crate::path_laws::{
    joins_plainly, law_join, law_named_child, law_unix_joins_plainly, lemma_one_piece,
};
use crate::prefix::{windows_prefix, Platform, Separators, COLON, DOT};

verus! {

/// The encoding of two texts in a row.
proof fn lemma_encode_concat(a: Seq<char>, b: Seq<char>)
    ensures
        encode_utf8(a + b) == encode_utf8(a) + encode_utf8(b),
    decreases a.len(),
{
    if a.len() == 0 {
        assert(a + b =~= b);
        assert(encode_utf8(a + b) =~= encode_utf8(a) + encode_utf8(b));
    } else {
        lemma_encode_concat(a.drop_first(), b);
        assert((a + b).drop_first() =~= a.drop_first() + b);
        assert((a + b)[0] == a[0]);
        assert(encode_utf8(a + b) =~= encode_utf8(a) + encode_utf8(b));
    }
}

/// The directory of a branch's workspace is the path of the branch below the features directory.
pub proof fn law_features_path(platform: Platform, branch: Seq<char>)
    ensures
        encode_utf8(features_path(platform, branch)) == joined(
            PathView { platform, bytes: encode_utf8("/home/chefyeum/Documents/features"@) },
            encode_utf8(branch),
        ).bytes,
{
    let dir = "/home/chefyeum/Documents/features"@;
    let separator = separator_text(platform);
    let base = PathView { platform, bytes: encode_utf8(dir) };
    let child = PathView { platform, bytes: encode_utf8(branch) };
    reveal(windows_prefix);
    reveal_strlit("/home/chefyeum/Documents/features");
    reveal_strlit("/");
    reveal_strlit("\\");
    is_ascii_chars_encode_utf8(dir);
    is_ascii_chars_encode_utf8(separator);
    assert(base.bytes.len() > 2);
    assert(base.bytes[0] == dir[0] as u8);
    assert(base.bytes[1] == dir[1] as u8);
    assert(base.bytes.last() == dir.last() as u8);
    assert(base.prefix() is None);
    assert(base.needs_separator());
    assert(encode_utf8(separator) =~= seq![platform.main_separator()]);
    lemma_encode_concat(dir, separator);
    lemma_encode_concat(dir + separator, branch);
    assert(encode_utf8(dir + separator) =~= base.bytes.push(platform.main_separator()));
    assert(base.bytes.take(0) + child.bytes =~= child.bytes);
}

/// What the name of a base repository and of its checkouts' directory look like.
proof fn lemma_base_names(cwd: PathView, name: Seq<char>)
    requires
        base_repo_name(cwd) == Some(name),
    ensures
        ends_with_name(cwd, encode_utf8(name)),
        ({
            let folder = encode_utf8(name + ".worktrees"@);
            &&& folder.len() > 2
            &&& folder[0] != DOT
            &&& folder[1] != COLON
            &&& forall|i: int|
                0 <= i < folder.len() ==> !Separators::Both.has(#[trigger] folder[i])
        }),
{
    reveal_strlit("hanson");
    reveal_strlit("smarkets");
    reveal_strlit("pricing_config");
    reveal_strlit(".worktrees");
    let dir = name + ".worktrees"@;
    assert(is_ascii_chars(dir));
    is_ascii_chars_encode_utf8(dir);
    assert(dir[0] == name[0] && dir[1] == name[1]);
    assert(encode_utf8(dir)[0] == dir[0] as u8);
    assert(encode_utf8(dir)[1] == dir[1] as u8);
    assert forall|i: int| 0 <= i < dir.len() implies !Separators::Both.has(
        #[trigger] encode_utf8(dir)[i],
    ) by {
        if i >= name.len() {
            assert(dir[i] == ".worktrees"@[i - name.len()]);
        } else {
            assert(dir[i] == name[i]);
        }
        assert(encode_utf8(dir)[i] == dir[i] as u8);
    }
}

/// Whether the directory of the checkouts and the branch are put behind the repository's parent
/// as they are.
pub open spec fn placed_plainly(cwd: PathView, name: Seq<char>, branch: Seq<char>) -> bool {
    let dir = parent_of(cwd)->0;
    let folder = encode_utf8(name + ".worktrees"@);
    &&& dir.bytes.len() > 0 ==> joins_plainly(dir, folder)
    &&& joins_plainly(joined(dir, folder), encode_utf8(branch))
}

/// On Unix that holds of every relative branch.
pub proof fn law_unix_placed_plainly(cwd: PathView, name: Seq<char>, branch: Seq<char>)
    requires
        cwd.platform == Platform::Unix,
        base_repo_name(cwd) == Some(name),
        (PathView { bytes: encode_utf8(branch), ..cwd }).is_relative(),
    ensures
        placed_plainly(cwd, name, branch),
{
    let dir = parent_of(cwd)->0;
    let folder = encode_utf8(name + ".worktrees"@);
    lemma_base_names(cwd, name);
    law_named_child(cwd, encode_utf8(name));
    assert(!Separators::Both.has(folder[0]));
    if dir.bytes.len() > 0 {
        law_unix_joins_plainly(dir, folder);
    }
    law_unix_joins_plainly(joined(dir, folder), encode_utf8(branch));
}

/// The directory of the checkouts is next to the repository.
proof fn lemma_folder(cwd: PathView, name: Seq<char>, branch: Seq<char>)
    requires
        base_repo_name(cwd) == Some(name),
        placed_plainly(cwd, name, branch),
    ensures
        ({
            let dir = parent_of(cwd)->0;
            let folder = encode_utf8(name + ".worktrees"@);
            components(joined(dir, folder)) == components(dir).push(Part::Named(folder))
        }),
{
    let dir = parent_of(cwd)->0;
    let folder = encode_utf8(name + ".worktrees"@);
    let below = PathView { bytes: folder, ..dir };
    lemma_base_names(cwd, name);
    let seps = below.platform.separators();
    assert forall|i: int| 0 <= i < folder.len() implies !seps.has(#[trigger] folder[i]) by {
        assert(!Separators::Both.has(folder[i]));
    }
    lemma_one_piece(seps, folder);
    assert(is_named(seps, folder));
    if dir.bytes.len() > 0 {
        law_join(dir, folder);
        assert(dir.separators() == seps);
    } else {
        reveal(windows_prefix);
        assert(!Separators::Both.has(folder[0]));
        assert(below.prefix() is None);
        assert(dir.prefix() is None);
        assert(dir.bytes =~= Seq::empty());
        assert(joined(dir, folder).bytes =~= folder);
        assert(below.bytes.skip(0) =~= folder);
        lemma_one_piece(seps, Seq::empty());
        assert(dir.bytes.skip(0) =~= Seq::empty());
        assert(components(dir) =~= Seq::empty());
    }
    assert(components(joined(dir, folder)) =~= components(dir).push(Part::Named(folder)));
}

/// The checkout of a branch is below `<name>.worktrees`, next to its repository, where these are
/// put behind the repository's parent as they are.
pub proof fn law_checkout_place(cwd: PathView, branch: Seq<char>, repo: RepoCheckout)
    requires
        repo_checkout_for(cwd, branch, repo),
        placed_plainly(cwd, repo.repo_name@, branch),
    ensures
        components(cwd) == components(parent_of(cwd)->0).push(
            Part::Named(encode_utf8(repo.repo_name@)),
        ),
        components(repo.checkout_path@) == components(parent_of(cwd)->0).push(
            Part::Named(encode_utf8(repo.repo_name@ + ".worktrees"@)),
        ) + body(cwd.platform.separators(), encode_utf8(branch)),
{
    let name = repo.repo_name@;
    let dir = parent_of(cwd)->0;
    let folder = encode_utf8(name + ".worktrees"@);
    lemma_base_names(cwd, name);
    law_named_child(cwd, encode_utf8(name));
    lemma_folder(cwd, name, branch);
    law_join(joined(dir, folder), encode_utf8(branch));
}

/// Different repositories have different checkouts of a branch, where these are put behind the
/// repositories' parents as they are.
pub proof fn law_checkouts_differ(
    cwd_a: PathView,
    cwd_b: PathView,
    branch: Seq<char>,
    a: RepoCheckout,
    b: RepoCheckout,
)
    requires
        cwd_a.platform == cwd_b.platform,
        repo_checkout_for(cwd_a, branch, a),
        repo_checkout_for(cwd_b, branch, b),
        placed_plainly(cwd_a, a.repo_name@, branch),
        placed_plainly(cwd_b, b.repo_name@, branch),
        components(cwd_a) != components(cwd_b),
    ensures
        components(a.checkout_path@) != components(b.checkout_path@),
{
    law_checkout_place(cwd_a, branch, a);
    law_checkout_place(cwd_b, branch, b);
    if components(a.checkout_path@) == components(b.checkout_path@) {
        let tail = body(cwd_a.platform.separators(), encode_utf8(branch));
        let dir_a = components(parent_of(cwd_a)->0);
        let dir_b = components(parent_of(cwd_b)->0);
        let folder_a = a.repo_name@ + ".worktrees"@;
        let folder_b = b.repo_name@ + ".worktrees"@;
        let all_a = dir_a.push(Part::Named(encode_utf8(folder_a))) + tail;
        let all_b = dir_b.push(Part::Named(encode_utf8(folder_b))) + tail;
        assert(all_a == all_b);
        assert(all_a.len() == dir_a.len() + 1 + tail.len());
        assert(all_b.len() == dir_b.len() + 1 + tail.len());
        assert(dir_a.len() == dir_b.len());
        assert forall|i: int| 0 <= i < dir_a.len() implies dir_a[i] == dir_b[i] by {
            assert(all_a[i] == all_b[i]);
        }
        assert(dir_a =~= dir_b);
        assert(all_a[dir_a.len() as int] == all_b[dir_a.len() as int]);
        assert(encode_utf8(folder_a) == encode_utf8(folder_b));
        encode_utf8_decode_utf8(folder_a);
        encode_utf8_decode_utf8(folder_b);
        assert(folder_a == folder_b);
        assert(a.repo_name@ =~= folder_a.take(folder_a.len() - ".worktrees"@.len()));
        assert(b.repo_name@ =~= folder_b.take(folder_b.len() - ".worktrees"@.len()));
    }
}

/// Every repository has a checkout or a failure, and a branch fails only where no repository has
/// a checkout.
pub proof fn law_all_failed(results: Seq<RepoOutcome>)
    ensures
        failures(results).len() + created_keys(results).len() == results.len(),
        failures(results).len() == results.len() <==> forall|i: int|
            0 <= i < results.len() ==> (#[trigger] results[i]).outcome is Err,
    decreases results.len(),
{
    if results.len() > 0 {
        let rest = results.drop_last();
        law_all_failed(rest);
        assert(results[results.len() - 1] == results.last());
        if forall|i: int| 0 <= i < rest.len() ==> (#[trigger] rest[i]).outcome is Err {
            assert forall|i: int| 0 <= i < results.len() - 1 implies (
            #[trigger] results[i]).outcome is Err by {
                assert(rest[i] == results[i]);
            }
        } else {
            let i = choose|i: int|
                0 <= i < rest.len() && !((#[trigger] rest[i]).outcome is Err);
            assert(results[i] == rest[i]);
        }
    }
}

} // verus!
