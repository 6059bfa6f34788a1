//! How the operations on paths act on their components.

use vstd::prelude::*;

use crate::path::{
    body, components, drop_piece, ends_with_name, is_named, joined, lemma_piece_start,
    lemma_pieces_nonempty, named_parts, parent_of, piece_start, pieces, trim_end, Part, PathView,
};
use crate::prefix::{lemma_prefix_cut, lemma_prefix_len, Platform, Separators, DOT};

verus! {

/// Parts on both sides of a separator.
proof fn lemma_pieces_split(seps: Separators, a: Seq<u8>, separator: u8, b: Seq<u8>)
    requires
        seps.has(separator),
    ensures
        pieces(seps, a.push(separator) + b) == pieces(seps, a) + pieces(seps, b),
    decreases b.len(),
{
    let whole = a.push(separator) + b;
    lemma_pieces_nonempty(seps, b);
    if b.len() == 0 {
        assert(whole.drop_last() =~= a);
        assert(pieces(seps, whole) =~= pieces(seps, a) + pieces(seps, b));
    } else {
        lemma_pieces_split(seps, a, separator, b.drop_last());
        lemma_pieces_nonempty(seps, b.drop_last());
        assert(whole.drop_last() =~= a.push(separator) + b.drop_last());
        assert(pieces(seps, whole) =~= pieces(seps, a) + pieces(seps, b));
    }
}

/// The named ones of two lists of parts in a row.
proof fn lemma_named_parts_add(seps: Separators, a: Seq<Seq<u8>>, b: Seq<Seq<u8>>)
    ensures
        named_parts(seps, a + b) == named_parts(seps, a) + named_parts(seps, b),
    decreases b.len(),
{
    if b.len() == 0 {
        assert(a + b =~= a);
    } else {
        lemma_named_parts_add(seps, a, b.drop_last());
        assert((a + b).drop_last() =~= a + b.drop_last());
        assert((a + b).last() == b.last());
    }
    assert(named_parts(seps, a + b) =~= named_parts(seps, a) + named_parts(seps, b));
}

/// Named parts on both sides of a separator.
pub(crate) proof fn lemma_body_split(seps: Separators, a: Seq<u8>, separator: u8, b: Seq<u8>)
    requires
        seps.has(separator),
    ensures
        body(seps, a.push(separator) + b) == body(seps, a) + body(seps, b),
{
    lemma_pieces_split(seps, a, separator, b);
    lemma_named_parts_add(seps, pieces(seps, a), pieces(seps, b));
}

/// Bytes without separators are one part.
pub(crate) proof fn lemma_one_piece(seps: Separators, name: Seq<u8>)
    requires
        forall|i: int| 0 <= i < name.len() ==> !seps.has(#[trigger] name[i]),
    ensures
        pieces(seps, name) == seq![name],
        body(seps, name) == if is_named(seps, name) {
            seq![Part::Named(name)]
        } else {
            Seq::empty()
        },
    decreases name.len(),
{
    if name.len() == 0 {
        assert(name =~= Seq::empty());
    } else {
        let cut = name.drop_last();
        assert forall|i: int| 0 <= i < cut.len() implies !seps.has(#[trigger] cut[i]) by {
            assert(cut[i] == name[i]);
        }
        lemma_one_piece(seps, cut);
        assert(!seps.has(name[name.len() - 1]));
        assert(cut.push(name.last()) =~= name);
    }
    assert(pieces(seps, name) =~= seq![name]);
    assert(seq![name].drop_last() =~= Seq::<Seq<u8>>::empty());
    assert(named_parts(seps, seq![name].drop_last()) =~= Seq::empty());
    assert(seq![name].last() == name);
    assert(body(seps, name) =~= if is_named(seps, name) {
        seq![Part::Named(name)]
    } else {
        Seq::empty()
    });
}

/// The empty string has no named parts.
pub(crate) proof fn lemma_body_empty(seps: Separators)
    ensures
        body(seps, Seq::empty()) == Seq::<Part>::empty(),
{
    lemma_one_piece(seps, Seq::empty());
}

/// The last part and what stands before it.
proof fn lemma_drop_piece(seps: Separators, s: Seq<u8>)
    ensures
        ({
            let start = piece_start(seps, s);
            let piece = s.skip(start);
            &&& body(seps, s) == body(seps, drop_piece(seps, s)) + if is_named(seps, piece) {
                seq![Part::Named(piece)]
            } else {
                Seq::empty()
            }
            &&& drop_piece(seps, s) == s.take(drop_piece(seps, s).len() as int)
            &&& s.len() > 0 ==> drop_piece(seps, s).len() < s.len()
            &&& drop_piece(seps, s).len() == 0 || seps.has(s[drop_piece(seps, s).len() as int])
        }),
{
    let start = piece_start(seps, s);
    let piece = s.skip(start);
    lemma_piece_start(seps, s);
    assert forall|i: int| 0 <= i < piece.len() implies !seps.has(#[trigger] piece[i]) by {
        assert(piece[i] == s[start + i]);
    }
    lemma_one_piece(seps, piece);
    lemma_body_empty(seps);
    if start > 0 {
        assert(s =~= s.take(start - 1).push(s[start - 1]) + piece);
        lemma_body_split(seps, s.take(start - 1), s[start - 1], piece);
    } else {
        assert(piece =~= s);
        assert(body(seps, s) =~= body(seps, Seq::empty()) + body(seps, piece));
        assert(s.take(0) =~= Seq::empty());
    }
}

/// What `trim_end` takes away held no component, and a separator stood before it.
proof fn lemma_trim_end(seps: Separators, s: Seq<u8>)
    ensures
        ({
            let t = trim_end(seps, s);
            &&& body(seps, t) == body(seps, s)
            &&& t.len() <= s.len()
            &&& t == s.take(t.len() as int)
            &&& t.len() == 0 || t.len() == s.len() || seps.has(s[t.len() as int])
            &&& t.len() > 0 ==> is_named(seps, t.skip(piece_start(seps, t)))
        }),
    decreases s.len(),
{
    let t = trim_end(seps, s);
    if s.len() == 0 || is_named(seps, s.skip(piece_start(seps, s))) {
        assert(s.take(s.len() as int) =~= s);
    } else {
        let less = drop_piece(seps, s);
        lemma_drop_piece(seps, s);
        lemma_trim_end(seps, less);
        assert(body(seps, s) =~= body(seps, less));
        assert(t =~= s.take(t.len() as int));
    }
}

/// The path of a head, a dot and what follows has the components of the head and of what follows.
proof fn lemma_behind_dot(path: PathView)
    requires
        path.starts_with_dot(),
    ensures
        body(path.separators(), path.bytes.skip(path.anchor_len())) == body(
            path.separators(),
            path.bytes.skip(path.anchor_len() + 1),
        ),
{
    let seps = path.separators();
    let all = path.bytes.skip(path.anchor_len());
    let tail = path.bytes.skip(path.anchor_len() + 1);
    let dot = seq![DOT];
    lemma_prefix_len(path.platform, path.bytes);
    lemma_one_piece(seps, dot);
    lemma_body_empty(seps);
    assert(all[0] == DOT);
    if tail.len() == 0 {
        assert(all =~= dot);
        assert(tail =~= Seq::empty());
    } else {
        let rest = tail.skip(1);
        assert(seps.has(tail[0]));
        assert(all =~= dot.push(tail[0]) + rest);
        assert(tail =~= Seq::<u8>::empty().push(tail[0]) + rest);
        lemma_body_split(seps, dot, tail[0], rest);
        lemma_body_split(seps, Seq::empty(), tail[0], rest);
    }
}

/// How many bytes stand before the named parts and a leading dot.
spec fn kept(path: PathView) -> int {
    if path.starts_with_dot() {
        path.anchor_len() + 1
    } else {
        path.anchor_len()
    }
}

/// The components of a path by what stands behind its head and a leading dot.
proof fn lemma_behind_head(path: PathView)
    ensures
        components(path) == path.head_parts() + body(
            path.separators(),
            path.bytes.skip(kept(path)),
        ),
        0 <= path.prefix_len() <= path.anchor_len() <= kept(path) <= path.bytes.len(),
{
    lemma_prefix_len(path.platform, path.bytes);
    if path.starts_with_dot() {
        lemma_behind_dot(path);
    }
}

/// A path that is cut off before a separator behind its head, or right behind its head, keeps its
/// head.
proof fn lemma_cut(path: PathView, end: int)
    requires
        kept(path) <= end < path.bytes.len(),
        end == kept(path) || path.separators().has(path.bytes[end]),
    ensures
        ({
            let cut = PathView { bytes: path.bytes.take(end), ..path };
            &&& cut.separators() == path.separators()
            &&& cut.head_parts() == path.head_parts()
            &&& kept(cut) == kept(path)
        }),
{
    let cut = PathView { bytes: path.bytes.take(end), ..path };
    let start = path.prefix_len();
    lemma_behind_head(path);
    lemma_prefix_cut(path.platform, path.bytes, end);
    assert(cut.prefix() == path.prefix());
    if end > start {
        assert(cut.bytes[start] == path.bytes[start]);
    }
    assert(cut.has_root_byte() == path.has_root_byte());
    if end > start + 1 {
        assert(cut.bytes[start + 1] == path.bytes[start + 1]);
    }
    assert(cut.starts_with_dot() == path.starts_with_dot());
}

/// The parent of a path has all its components but the last. The empty path, and a path that is
/// no more than a prefix or a root, have no parent.
pub proof fn law_parent(path: PathView)
    ensures
        parent_of(path) is None <==> components(path).len() == 0 || !(components(
            path,
        ).last() is Named),
        parent_of(path) matches Some(p) ==> components(p) == components(path).drop_last(),
{
    let seps = path.separators();
    let keep = kept(path);
    let rest = path.bytes.skip(keep);
    let own = trim_end(seps, rest);
    lemma_behind_head(path);
    lemma_body_empty(seps);
    lemma_trim_end(seps, rest);
    if own.len() > 0 {
        lemma_parent_of_named(path);
    } else {
        assert(own =~= Seq::empty());
        assert(components(path) =~= path.head_parts());
        if path.starts_with_dot() && path.prefix() is None {
            let p = PathView { bytes: Seq::empty(), ..path };
            lemma_prefix_len(path.platform, p.bytes);
            assert(p.bytes.skip(0) =~= Seq::empty());
            lemma_body_empty(p.separators());
            assert(components(p) =~= Seq::empty());
            assert(components(path).drop_last() =~= Seq::empty());
        }
    }
}

/// The parent of a path with a named part behind its head.
proof fn lemma_parent_of_named(path: PathView)
    requires
        trim_end(path.separators(), path.bytes.skip(kept(path))).len() > 0,
    ensures
        components(path).len() > 0,
        components(path).last() is Named,
        parent_of(path) matches Some(p) && components(p) == components(path).drop_last(),
{
    let seps = path.separators();
    let keep = kept(path);
    let rest = path.bytes.skip(keep);
    let own = trim_end(seps, rest);
    let less = drop_piece(seps, own);
    let above = trim_end(seps, less);
    let end = keep + above.len();
    lemma_behind_head(path);
    lemma_trim_end(seps, rest);
    lemma_drop_piece(seps, own);
    lemma_trim_end(seps, less);
    let p = PathView { bytes: path.bytes.take(keep) + above, ..path };
    assert(above =~= rest.take(above.len() as int));
    assert(p.bytes =~= path.bytes.take(end));
    assert(above.len() == 0 || seps.has(path.bytes[end])) by {
        if above.len() > 0 {
            if above.len() < less.len() {
                assert(less[above.len() as int] == rest[above.len() as int]);
            } else {
                assert(own[above.len() as int] == rest[above.len() as int]);
            }
        }
    }
    lemma_cut(path, end);
    lemma_behind_head(p);
    assert(p.bytes.skip(keep) =~= above);
    let last = own.skip(piece_start(seps, own));
    assert(body(seps, rest) =~= body(seps, above).push(Part::Named(last)));
    assert(components(path) =~= components(p).push(Part::Named(last)));
    assert(components(path).drop_last() =~= components(p));
}

/// The parent is what its path starts with.
pub(crate) proof fn lemma_parent_bytes(path: PathView)
    ensures
        parent_of(path) matches Some(above) ==> {
            &&& above.platform == path.platform
            &&& above.bytes.len() < path.bytes.len()
            &&& above.bytes == path.bytes.take(above.bytes.len() as int)
        },
{
    let seps = path.separators();
    let keep = kept(path);
    let rest = path.bytes.skip(keep);
    let own = trim_end(seps, rest);
    lemma_behind_head(path);
    lemma_trim_end(seps, rest);
    if own.len() > 0 {
        let less = drop_piece(seps, own);
        let above = trim_end(seps, less);
        lemma_drop_piece(seps, own);
        lemma_trim_end(seps, less);
        assert(above =~= rest.take(above.len() as int));
        assert(path.bytes.take(keep) + above =~= path.bytes.take(keep + above.len()));
    } else {
        assert(path.bytes.take(0) =~= Seq::empty());
    }
}

/// Whether `child` is put behind `base` as it is, so that the prefix stays what it was. On Unix
/// that holds of every relative child. On Windows the child of `\\a` can become a part of its
/// prefix, and behind a verbatim prefix the components are put together anew.
pub open spec fn joins_plainly(base: PathView, child: Seq<u8>) -> bool {
    &&& base.bytes.len() > 0
    &&& (PathView { bytes: child, ..base }).is_relative()
    &&& !base.is_verbatim()
    &&& joined(base, child).prefix() == base.prefix()
}

/// The head of a path stays when a child is put behind it as it is.
proof fn lemma_joined_head(base: PathView, child: Seq<u8>)
    requires
        joins_plainly(base, child),
    ensures
        ({
            let whole = joined(base, child);
            let above = if base.needs_separator() {
                base.bytes.push(base.platform.main_separator())
            } else {
                base.bytes
            };
            &&& whole.bytes == above + child
            &&& whole.separators() == base.separators()
            &&& base.separators() == base.platform.separators()
            &&& whole.prefix_len() == base.prefix_len() <= base.bytes.len()
            &&& whole.head_parts() == base.head_parts()
            &&& base.bytes.len() > base.prefix_len() ==> whole.anchor_len() == base.anchor_len()
            &&& base.anchor_len() <= base.bytes.len()
        }),
{
    let whole = joined(base, child);
    let start = base.prefix_len();
    let separator = base.platform.main_separator();
    lemma_prefix_len(base.platform, base.bytes);
    assert((PathView { bytes: child, ..base }).prefix_len() == 0);
    if base.bytes.len() > start {
        assert(whole.bytes[start] == base.bytes[start]);
        if base.bytes.len() > start + 1 {
            assert(whole.bytes[start + 1] == base.bytes[start + 1]);
        } else if base.bytes[start] == DOT {
            assert(base.bytes.last() == DOT);
            assert(base.needs_separator());
            assert(whole.bytes[start + 1] == separator);
        }
        assert(whole.starts_with_dot() == base.starts_with_dot());
    } else if base.needs_separator() {
        assert(whole.bytes[start] == separator);
    } else if child.len() > 0 {
        assert(whole.bytes[start] == child[0]);
    }
}

/// A relative path that is put behind a path as it is adds its named parts to the components.
pub proof fn law_join(base: PathView, child: Seq<u8>)
    requires
        joins_plainly(base, child),
    ensures
        components(joined(base, child)) == components(base) + body(base.separators(), child),
{
    let whole = joined(base, child);
    let seps = base.separators();
    let start = base.prefix_len();
    let separator = base.platform.main_separator();
    lemma_joined_head(base, child);
    lemma_body_empty(seps);
    if base.bytes.len() > start {
        let anchor = base.anchor_len();
        let own = base.bytes.skip(anchor);
        if base.needs_separator() {
            assert(whole.bytes.skip(anchor) =~= own.push(separator) + child);
            lemma_body_split(seps, own, separator, child);
        } else if own.len() == 0 {
            assert(own =~= Seq::empty());
            assert(whole.bytes.skip(anchor) =~= child);
        } else {
            assert(seps.has(base.bytes.last()));
            let cut = own.drop_last();
            assert(own.last() == base.bytes.last());
            assert(own =~= cut.push(own.last()) + Seq::<u8>::empty());
            assert(whole.bytes.skip(anchor) =~= cut.push(own.last()) + child);
            lemma_body_split(seps, cut, own.last(), child);
            lemma_body_split(seps, cut, own.last(), Seq::empty());
        }
        assert(body(seps, whole.bytes.skip(anchor)) =~= body(seps, own) + body(seps, child));
    } else {
        assert(base.bytes.skip(start) =~= Seq::empty());
        assert((PathView { bytes: child, ..base }).prefix_len() == 0);
        if base.needs_separator() {
            assert(whole.bytes[start] == separator);
            assert(whole.bytes.skip(start + 1) =~= child);
        } else {
            assert(whole.bytes.skip(start) =~= child);
            if child.len() > 0 {
                assert(whole.bytes[start] == child[0]);
            }
        }
    }
    assert(components(whole) =~= components(base) + body(seps, child));
}

/// On Unix every relative child is put behind a path as it is.
pub proof fn law_unix_joins_plainly(base: PathView, child: Seq<u8>)
    requires
        base.platform == Platform::Unix,
        base.bytes.len() > 0,
    ensures
        joins_plainly(base, child) <==> (PathView { bytes: child, ..base }).is_relative(),
{
}

/// A path whose last component is a name has a parent, and the path has the components of its
/// parent and then that name.
pub proof fn law_named_child(path: PathView, name: Seq<u8>)
    requires
        ends_with_name(path, name),
    ensures
        parent_of(path) is Some,
        components(path) == components(parent_of(path)->0).push(Part::Named(name)),
{
    law_parent(path);
    assert(components(path) =~= components(path).drop_last().push(Part::Named(name)));
}

} // verus!
