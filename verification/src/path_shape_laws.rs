//! What the components of a path are, byte by byte.
//!
//! Every path is its prefix, or its prefix with a first part or a root and a part behind it, or a
//! shorter path with a separator and a part behind it. There is a law for each of these.

use vstd::prelude::*;
use vstd::utf8::{decode_utf8, encode_utf8, valid_utf8};

use crate::path::{
    absorbed, components, joined, parent_of, parts, Part, PathPart, PathView, WorktreePath,
};
use crate::path_laws::{
    joins_plainly, law_join, law_parent, lemma_body_empty, lemma_body_split,
    lemma_one_piece, lemma_parent_bytes,
};
use crate::prefix::{
    lemma_prefix_len, prefix_of, Platform, PrefixKind, BACKSLASH, DOT, SLASH,
};

verus! {

/// The bytes that separate the components of the path: `/` on Unix, both on Windows, and only `\`
/// behind a verbatim prefix.
pub open spec fn separates(path: PathView, b: u8) -> bool {
    match path.platform {
        Platform::Unix => b == SLASH,
        Platform::Windows => b == BACKSLASH || (b == SLASH && !has_verbatim_prefix(path)),
    }
}

/// The path starts with `\\?\`, in one of its forms.
pub open spec fn has_verbatim_prefix(path: PathView) -> bool {
    prefix_of(path.platform, path.bytes) matches Some(prefix) && (prefix.kind
        == PrefixKind::Verbatim || prefix.kind == PrefixKind::VerbatimUnc || prefix.kind
        == PrefixKind::VerbatimDisk)
}

/// The bytes are one part of the path.
pub open spec fn is_part(path: PathView, name: Seq<u8>) -> bool {
    forall|i: int| 0 <= i < name.len() ==> !separates(path, #[trigger] name[i])
}

/// What a part adds to the components: itself, unless it is empty, or is `.` and the prefix is not
/// verbatim.
pub open spec fn adds(path: PathView, name: Seq<u8>) -> Seq<Part> {
    if name.len() == 0 || (name.len() == 1 && name[0] == DOT && !has_verbatim_prefix(path)) {
        Seq::empty()
    } else {
        seq![Part::Named(name)]
    }
}

/// The path is no more than its prefix.
pub open spec fn is_prefix(path: PathView) -> bool {
    match prefix_of(path.platform, path.bytes) {
        Some(prefix) => path.bytes.len() == prefix.len(),
        None => path.bytes.len() == 0,
    }
}

/// The components that a prefix has on its own. A root is a part of those that name a place in the
/// network or a device.
pub open spec fn prefix_parts(path: PathView) -> Seq<Part> {
    match prefix_of(path.platform, path.bytes) {
        None => Seq::empty(),
        Some(prefix) => if prefix.kind == PrefixKind::Unc || prefix.kind == PrefixKind::DeviceNs {
            seq![Part::Prefix(prefix), Part::Root]
        } else {
            seq![Part::Prefix(prefix)]
        },
    }
}

/// The two ways to say what separates agree.
proof fn lemma_separates(path: PathView)
    ensures
        forall|b: u8| #[trigger] separates(path, b) == path.separators().has(b),
        has_verbatim_prefix(path) == path.is_verbatim(),
        path.platform == Platform::Unix ==> path.prefix() is None,
{
}

/// What a part adds is its body.
proof fn lemma_adds(path: PathView, name: Seq<u8>)
    requires
        is_part(path, name),
    ensures
        crate::path::body(path.separators(), name) == adds(path, name),
{
    lemma_separates(path);
    assert forall|i: int| 0 <= i < name.len() implies !path.separators().has(
        #[trigger] name[i],
    ) by {
        assert(!separates(path, name[i]));
    }
    lemma_one_piece(path.separators(), name);
    assert(name.len() == 1 && name[0] == DOT <==> name =~= seq![DOT]);
}

/// A path that is no more than its prefix has the components of the prefix. The empty path has none.
pub proof fn law_prefix_alone(path: PathView)
    requires
        is_prefix(path),
    ensures
        components(path) == prefix_parts(path),
{
    lemma_separates(path);
    lemma_body_empty(path.separators());
    assert(path.bytes.skip(path.anchor_len()) =~= Seq::empty());
    assert(components(path) =~= prefix_parts(path));
}

/// A part right behind the prefix, or all of a path without prefix, is a component of its own. A `.`
/// there counts where there is no prefix.
pub proof fn law_first_part(path: PathView, name: Seq<u8>)
    requires
        name.len() > 0,
        is_part(path, name),
        !separates(path, name[0]),
        match prefix_of(path.platform, path.bytes) {
            None => path.bytes == name,
            Some(prefix) => prefix.kind == PrefixKind::Disk && path.bytes == path.bytes.take(2)
                + name,
        },
    ensures
        components(path) == match prefix_of(path.platform, path.bytes) {
            None => seq![Part::Named(name)],
            Some(prefix) => seq![Part::Prefix(prefix)] + adds(path, name),
        },
{
    lemma_separates(path);
    lemma_prefix_len(path.platform, path.bytes);
    lemma_adds(path, name);
    let start = path.prefix_len();
    assert(path.bytes[start] == name[0]);
    assert(path.bytes.skip(start) =~= name);
    if name.len() > 1 {
        assert(path.bytes[start + 1] == name[1]);
        assert(!separates(path, name[1]));
    } else {
        assert(name =~= seq![name[0]]);
    }
    assert(components(path) =~= path.head_parts() + adds(path, name));
    if path.prefix() is None {
        assert(components(path) =~= seq![Part::Named(name)]);
    }
}

/// A separator right behind the prefix, or at the start of a path without prefix, is the root, and the
/// part behind it comes after it.
pub proof fn law_rooted(path: PathView, separator: u8, name: Seq<u8>)
    requires
        separator == SLASH || (path.platform == Platform::Windows && separator == BACKSLASH),
        is_part(path, name),
        match prefix_of(path.platform, path.bytes) {
            None => path.bytes == seq![separator] + name,
            Some(prefix) => path.bytes == path.bytes.take(prefix.len() as int) + seq![separator]
                + name,
        },
    ensures
        components(path) == match prefix_of(path.platform, path.bytes) {
            None => seq![Part::Root] + adds(path, name),
            Some(prefix) => seq![Part::Prefix(prefix), Part::Root] + adds(path, name),
        },
{
    lemma_separates(path);
    lemma_prefix_len(path.platform, path.bytes);
    lemma_adds(path, name);
    let start = path.prefix_len();
    assert(path.bytes[start] == separator);
    assert(path.bytes.skip(start + 1) =~= name);
    assert(components(path) =~= path.head_parts() + adds(path, name));
}

/// A separator and a part behind a path add the part to its components, as long as the prefix stays
/// what it was. So trailing and repeated separators add nothing, and neither does `.`.
pub proof fn law_appended(path: PathView, separator: u8, name: Seq<u8>)
    requires
        separates(path, separator),
        is_part(path, name),
        !is_prefix(path),
        prefix_of(path.platform, path.bytes.push(separator) + name) == prefix_of(
            path.platform,
            path.bytes,
        ),
    ensures
        components(PathView { bytes: path.bytes.push(separator) + name, ..path }) == components(path)
            + adds(path, name),
{
    let whole = PathView { bytes: path.bytes.push(separator) + name, ..path };
    let seps = path.separators();
    let start = path.prefix_len();
    lemma_separates(path);
    lemma_prefix_len(path.platform, path.bytes);
    lemma_adds(path, name);
    assert(path.bytes.len() > start);
    assert(whole.bytes[start] == path.bytes[start]);
    if path.bytes.len() > start + 1 {
        assert(whole.bytes[start + 1] == path.bytes[start + 1]);
    } else {
        assert(whole.bytes[start + 1] == separator);
    }
    assert(whole.starts_with_dot() == path.starts_with_dot());
    assert(whole.head_parts() == path.head_parts());
    let anchor = path.anchor_len();
    assert(whole.bytes.skip(anchor) =~= path.bytes.skip(anchor).push(separator) + name);
    lemma_body_split(seps, path.bytes.skip(anchor), separator, name);
    assert(components(whole) =~= components(path) + adds(path, name));
}

/// On Unix, a proper name below a path that is not empty is one more component, and the parent of what
/// comes out has the components of the path.
pub proof fn law_unix_child(path: PathView, name: Seq<u8>)
    requires
        path.platform == Platform::Unix,
        path.bytes.len() > 0,
        is_part(path, name),
        name.len() > 0,
        name != seq![DOT],
    ensures
        components(joined(path, name)) == components(path).push(Part::Named(name)),
        parent_of(joined(path, name)) matches Some(above) && components(above) == components(path),
{
    let whole = joined(path, name);
    lemma_separates(path);
    assert(!separates(path, name[0]));
    assert((PathView { bytes: name, ..path }).is_relative());
    assert(joins_plainly(path, name));
    law_join(path, name);
    lemma_adds(path, name);
    assert(!(name.len() == 1 && name[0] == DOT)) by {
        if name.len() == 1 && name[0] == DOT {
            assert(name =~= seq![DOT]);
        }
    }
    assert(components(whole) =~= components(path).push(Part::Named(name)));
    law_parent(whole);
    assert(components(whole).drop_last() =~= components(path));
}

/// What a join is made of. A child with a prefix, and on Unix one with a root, comes out as it is. A
/// child that starts at a root, on Windows, is put behind the prefix. Any other is put behind the
/// path, with one separator between the two unless the path is empty, ends in a separator, or is a
/// lone drive. Behind a verbatim prefix only the prefix stays as it is.
pub proof fn law_join_bytes(path: PathView, child: Seq<u8>)
    ensures
        ({
            let own = prefix_of(path.platform, path.bytes);
            let start: int = match own {
                Some(prefix) => prefix.len() as int,
                None => 0,
            };
            let rooted = child.len() > 0 && (child[0] == SLASH || (path.platform
                == Platform::Windows && child[0] == BACKSLASH));
            let ends = path.bytes.len() > 0 && (path.bytes[path.bytes.len() - 1] == SLASH || (
            path.platform == Platform::Windows && path.bytes[path.bytes.len() - 1] == BACKSLASH));
            let lone_drive = own matches Some(prefix) && prefix.kind == PrefixKind::Disk
                && path.bytes.len() == 2;
            let res = joined(path, child).bytes;
            if prefix_of(path.platform, child) is Some || (path.platform == Platform::Unix
                && rooted) {
                res == child
            } else if has_verbatim_prefix(path) && child.len() > 0 {
                res.len() >= start && res.take(start) == path.bytes.take(start)
            } else if rooted {
                res == path.bytes.take(start) + child
            } else if path.bytes.len() == 0 || ends || lone_drive {
                res == path.bytes + child
            } else {
                res == path.bytes + seq![
                    if path.platform == Platform::Unix {
                        SLASH
                    } else {
                        BACKSLASH
                    },
                ] + child
            }
        }),
        joined(path, child).platform == path.platform,
{
    let below = PathView { bytes: child, ..path };
    lemma_separates(path);
    lemma_separates(below);
    lemma_prefix_len(path.platform, path.bytes);
    let all = absorbed(components(path), components(below)).skip(1);
    lemma_rendered_starts(path.bytes.take(path.prefix_len()), all);
    assert(path.bytes.push(path.platform.main_separator()) =~= path.bytes + seq![
        path.platform.main_separator(),
    ]);
}

/// What is put together behind a prefix starts with the prefix.
proof fn lemma_rendered_starts(prefix: Seq<u8>, behind: Seq<Part>)
    ensures
        crate::path::rendered(prefix, behind).len() >= prefix.len(),
        crate::path::rendered(prefix, behind).take(prefix.len() as int) == prefix,
    decreases behind.len(),
{
    if behind.len() > 0 {
        lemma_rendered_starts(prefix, behind.drop_last());
    }
    assert(crate::path::rendered(prefix, behind).take(prefix.len() as int) =~= prefix);
}

/// Where components are put together anew, proper names come one after the other, `.` leaves nothing,
/// `..` takes the proper name before it away, and a root takes all away but the prefix.
pub proof fn law_absorbed(own: Seq<Part>, child: Seq<Part>, name: Seq<u8>)
    requires
        own.len() > 0,
        name != seq![DOT],
        name != seq![DOT, DOT],
    ensures
        absorbed(own, Seq::empty()) == own,
        absorbed(own, child.push(Part::Named(name))) == absorbed(own, child).push(
            Part::Named(name),
        ),
        absorbed(own, child.push(Part::Named(seq![DOT]))) == absorbed(own, child),
        absorbed(own, child.push(Part::Named(name)).push(Part::Named(seq![DOT, DOT]))) == absorbed(
            own,
            child,
        ),
        absorbed(own, child.push(Part::Root)) == absorbed(own, child).take(1).push(Part::Root),
{
    let dot = child.push(Part::Named(seq![DOT]));
    let root = child.push(Part::Root);
    let named = child.push(Part::Named(name));
    let dots = named.push(Part::Named(seq![DOT, DOT]));
    assert(dot.drop_last() =~= child);
    assert(root.drop_last() =~= child);
    assert(named.drop_last() =~= child);
    assert(dots.drop_last() =~= named);
    assert(seq![DOT, DOT] != seq![DOT]) by {
        assert(seq![DOT, DOT].len() != seq![DOT].len());
    }
    let before = absorbed(own, child);
    assert(absorbed(own, named) == before.push(Part::Named(name)));
    assert(before.push(Part::Named(name)).drop_last() =~= before);
}

/// The parent is what its path starts with.
pub proof fn law_parent_bytes(path: PathView)
    ensures
        parent_of(path) matches Some(above) ==> {
            &&& above.platform == path.platform
            &&& above.bytes.len() < path.bytes.len()
            &&& above.bytes == path.bytes.take(above.bytes.len() as int)
        },
{
    lemma_parent_bytes(path);
}

/// Paths are compared, split and shown by their components and their text.
pub proof fn law_path_functions(
    a: WorktreePath,
    b: WorktreePath,
    name: &str,
    list: Vec<PathPart>,
    same: bool,
    ends: bool,
    copy: WorktreePath,
    made: WorktreePath,
    platform: Platform,
)
    requires
        call_ensures(WorktreePath::components, (&a,), list),
        call_ensures(WorktreePath::same_path, (&a, &b), same),
        call_ensures(WorktreePath::ends_with, (&a, name), ends),
        call_ensures(WorktreePath::clone, (&a,), copy),
        call_ensures(WorktreePath::from_text, (platform, name), made),
    ensures
        list@.len() == components(a@).len(),
        forall|i: int|
            #![trigger list@[i]]
            0 <= i < list@.len() ==> list@[i]@ == components(a@)[i],
        same <==> components(a@) == components(b@),
        ends <==> components(a@).len() > 0 && components(a@)[components(a@).len() - 1]
            == Part::Named(encode_utf8(name@)),
        copy.platform == a.platform,
        copy.bytes@ == a.bytes@,
        made.platform == platform,
        made.bytes@ == encode_utf8(name@),
{
    assert(parts(list@).len() == list@.len());
    assert forall|i: int|
        #![trigger list@[i]]
        0 <= i < list@.len() implies list@[i]@ == components(a@)[i] by {
        assert(parts(list@)[i] == list@[i]@);
    }
}

/// A path below another ends with its name, and its parent is the other path again.
pub proof fn law_path_child(
    path: WorktreePath,
    name: &str,
    child: WorktreePath,
    above: Option<WorktreePath>,
    ends: bool,
    same: bool,
)
    requires
        path.platform == Platform::Unix,
        path.bytes@.len() > 0,
        encode_utf8(name@).len() > 0,
        encode_utf8(name@) != seq![DOT],
        is_part(path@, encode_utf8(name@)),
        call_ensures(WorktreePath::join, (&path, name), child),
        call_ensures(WorktreePath::parent, (&child,), above),
        call_ensures(WorktreePath::ends_with, (&child, name), ends),
        above is Some ==> call_ensures(WorktreePath::same_path, (&above->0, &path), same),
    ensures
        above is Some,
        ends,
        same,
{
    law_unix_child(path@, encode_utf8(name@));
}

/// The parent of a path has all its components but the last, which is a name.
pub proof fn law_path_parent(path: WorktreePath, above: Option<WorktreePath>)
    requires
        call_ensures(WorktreePath::parent, (&path,), above),
    ensures
        ({
            let own = components(path@);
            &&& above is Some <==> own.len() > 0 && own[own.len() - 1] is Named
            &&& above matches Some(p) ==> components(p@) == own.drop_last()
        }),
{
    law_parent(path@);
}

/// A path that is text is shown as that text, and any other as the host shows it.
pub proof fn law_path_shown(path: WorktreePath, otherwise: String, res: String)
    requires
        call_ensures(WorktreePath::show, (&path, otherwise), res),
    ensures
        valid_utf8(path.bytes@) ==> res@ == decode_utf8(path.bytes@) && encode_utf8(res@)
            == path.bytes@,
        !valid_utf8(path.bytes@) ==> res@ == otherwise@,
{
}

/// A path is relative where it has neither prefix nor a separator at its start.
pub proof fn law_path_relative(path: WorktreePath, relative: bool, alone: bool)
    requires
        call_ensures(WorktreePath::relative, (&path,), relative),
        call_ensures(WorktreePath::alone, (&path,), alone),
    ensures
        ({
            let own = prefix_of(path.platform, path.bytes@);
            let rooted = path.bytes@.len() > 0 && (path.bytes@[0] == SLASH || (path.platform
                == Platform::Windows && path.bytes@[0] == BACKSLASH));
            &&& relative <==> own is None && !rooted
            &&& alone <==> own is Some || (path.platform == Platform::Unix && rooted)
        }),
{
    lemma_separates(path@);
}

} // verus!
