//! Which prefixes paths have, by their first bytes, and what joining does behind a verbatim one.

use vstd::prelude::*;

use crate::path::{
    absorbed, body, components, is_normal, joined, lemma_pieces_nonempty, named_parts, pieces,
    rendered, Part, PathView,
};
use crate::path_laws::{lemma_body_empty, lemma_body_split, lemma_one_piece};
use crate::prefix::{
    lemma_prefix_len, name_end, prefix_of, windows_prefix, Platform, PrefixKind, Separators,
    BACKSLASH, COLON, DOT, QUESTION, SLASH,
};

verus! {

/// The byte separates components of Windows paths.
pub open spec fn is_slash(b: u8) -> bool {
    b == SLASH || b == BACKSLASH
}

/// No byte of the name separates components of Windows paths.
pub open spec fn is_plain(name: Seq<u8>) -> bool {
    forall|i: int| 0 <= i < name.len() ==> !is_slash(#[trigger] name[i])
}

/// The byte is an ASCII letter.
pub open spec fn is_drive_letter(b: u8) -> bool {
    (0x41 <= b && b <= 0x5a) || (0x61 <= b && b <= 0x7a)
}

/// The first four bytes of a verbatim prefix.
pub open spec fn verbatim_start() -> Seq<u8> {
    seq![BACKSLASH, BACKSLASH, QUESTION, BACKSLASH]
}

/// A name ends before the first separator.
proof fn lemma_name_ends_at(seps: Separators, s: Seq<u8>, from: int, end: int)
    requires
        0 <= from <= end <= s.len(),
        forall|i: int| from <= i < end ==> !seps.has(#[trigger] s[i]),
        end == s.len() || seps.has(s[end]),
    ensures
        name_end(seps, s, from) == end,
    decreases end - from,
{
    if from < end {
        assert(!seps.has(s[from]));
        lemma_name_ends_at(seps, s, from + 1, end);
    }
}

/// Unix paths have no prefix.
pub proof fn law_unix_has_no_prefix(s: Seq<u8>)
    ensures
        prefix_of(Platform::Unix, s) is None,
{
}

/// A path starts with a drive exactly where it starts with a letter and a colon. The case of the
/// letter does not matter.
pub proof fn law_drive(s: Seq<u8>)
    ensures
        (prefix_of(Platform::Windows, s) matches Some(prefix) && prefix.kind == PrefixKind::Disk)
            <==> s.len() >= 2 && is_drive_letter(s[0]) && s[1] == COLON,
        prefix_of(Platform::Windows, s) matches Some(prefix) ==> prefix.kind == PrefixKind::Disk
            ==> {
            &&& prefix.len() == 2
            &&& prefix.share.len() == 0
            &&& prefix.name.len() == 1
            &&& 0x41 <= prefix.name[0] <= 0x5a
            &&& s[0] == prefix.name[0] || s[0] == prefix.name[0] + 0x20
        },
{
    reveal(windows_prefix);
}

/// A server and a share behind two separators are a prefix of their own.
pub proof fn law_unc(a: u8, b: u8, server: Seq<u8>, c: u8, share: Seq<u8>, tail: Seq<u8>)
    requires
        is_slash(a),
        is_slash(b),
        is_slash(c),
        is_plain(server),
        is_plain(share),
        server.len() > 0,
        share.len() > 0,
        server != seq![DOT],
        server != seq![QUESTION],
        tail.len() == 0 || is_slash(tail[0]),
    ensures
        prefix_of(
            Platform::Windows,
            seq![a, b] + server + seq![c] + share + tail,
        ) matches Some(prefix) && {
            &&& prefix.kind == PrefixKind::Unc
            &&& prefix.name == server
            &&& prefix.share == share
            &&& prefix.len() == 3 + server.len() + share.len()
        },
{
    reveal(windows_prefix);
    let s = seq![a, b] + server + seq![c] + share + tail;
    let both = Separators::Both;
    let end = 2 + server.len() as int;
    let last = end + 1 + share.len();
    assert(s[0] == a && s[1] == b && s[end] == c);
    assert forall|i: int| 2 <= i < end implies !both.has(#[trigger] s[i]) by {
        assert(s[i] == server[i - 2]);
    }
    assert forall|i: int| end + 1 <= i < last implies !both.has(#[trigger] s[i]) by {
        assert(s[i] == share[i - end - 1]);
    }
    if tail.len() > 0 {
        assert(s[last] == tail[0]);
    }
    lemma_name_ends_at(both, s, 2, end);
    lemma_name_ends_at(both, s, end + 1, last);
    assert(s[2] == server[0]);
    if server.len() == 1 {
        assert(server =~= seq![server[0]]);
    } else {
        assert(s[3] == server[1]);
        assert(!is_slash(server[1]));
    }
    assert(s.subrange(2, end) =~= server);
    assert(s.subrange(end + 1, last) =~= share);
}

/// A name behind two separators, a dot and a separator is the prefix of a device.
pub proof fn law_device(a: u8, b: u8, c: u8, name: Seq<u8>, tail: Seq<u8>)
    requires
        is_slash(a),
        is_slash(b),
        is_slash(c),
        is_plain(name),
        tail.len() == 0 || is_slash(tail[0]),
    ensures
        prefix_of(
            Platform::Windows,
            seq![a, b, DOT, c] + name + tail,
        ) matches Some(prefix) && {
            &&& prefix.kind == PrefixKind::DeviceNs
            &&& prefix.name == name
            &&& prefix.share.len() == 0
            &&& prefix.len() == 4 + name.len()
        },
{
    reveal(windows_prefix);
    let s = seq![a, b, DOT, c] + name + tail;
    let both = Separators::Both;
    let end = 4 + name.len() as int;
    assert(s[0] == a && s[1] == b && s[2] == DOT && s[3] == c);
    assert forall|i: int| 4 <= i < end implies !both.has(#[trigger] s[i]) by {
        assert(s[i] == name[i - 4]);
    }
    if tail.len() > 0 {
        assert(s[end] == tail[0]);
    }
    lemma_name_ends_at(both, s, 4, end);
    assert(s.subrange(4, end) =~= name);
}

/// A drive behind the start of a verbatim prefix is a part of it.
pub proof fn law_verbatim_drive(letter: u8, tail: Seq<u8>)
    requires
        is_drive_letter(letter),
        tail.len() == 0 || is_slash(tail[0]),
    ensures
        prefix_of(
            Platform::Windows,
            verbatim_start() + seq![letter, COLON] + tail,
        ) matches Some(prefix) && {
            &&& prefix.kind == PrefixKind::VerbatimDisk
            &&& prefix.len() == 6
            &&& prefix.share.len() == 0
            &&& prefix.name.len() == 1
            &&& 0x41 <= prefix.name[0] <= 0x5a
            &&& letter == prefix.name[0] || letter == prefix.name[0] + 0x20
        },
{
    reveal(windows_prefix);
    let s = verbatim_start() + seq![letter, COLON] + tail;
    assert(s[0] == BACKSLASH && s[1] == BACKSLASH && s[2] == QUESTION && s[3] == BACKSLASH);
    assert(s[4] == letter && s[5] == COLON);
    if tail.len() > 0 {
        assert(s[6] == tail[0]);
    }
}

/// A server and a share behind the start of a verbatim prefix and `UNC\` are a part of it.
pub proof fn law_verbatim_unc(server: Seq<u8>, share: Seq<u8>, tail: Seq<u8>)
    requires
        is_plain(server),
        is_plain(share),
        tail.len() == 0 || tail[0] == BACKSLASH,
    ensures
        prefix_of(
            Platform::Windows,
            verbatim_start() + seq![0x55u8, 0x4e, 0x43, BACKSLASH] + server + seq![BACKSLASH]
                + share + tail,
        ) matches Some(prefix) && {
            &&& prefix.kind == PrefixKind::VerbatimUnc
            &&& prefix.name == server
            &&& prefix.share == share
            &&& share.len() > 0 ==> prefix.len() == 9 + server.len() + share.len()
            &&& share.len() == 0 ==> prefix.len() == 8 + server.len()
        },
{
    reveal(windows_prefix);
    let s = verbatim_start() + seq![0x55u8, 0x4e, 0x43, BACKSLASH] + server + seq![BACKSLASH]
        + share + tail;
    let seps = Separators::Backslash;
    let end = 8 + server.len() as int;
    let last = end + 1 + share.len();
    assert(s[0] == BACKSLASH && s[1] == BACKSLASH && s[2] == QUESTION && s[3] == BACKSLASH);
    assert(s[4] == 0x55 && s[5] == 0x4e && s[6] == 0x43 && s[7] == BACKSLASH);
    assert(s[end] == BACKSLASH);
    assert forall|i: int| 8 <= i < end implies !seps.has(#[trigger] s[i]) by {
        assert(s[i] == server[i - 8]);
        assert(!is_slash(server[i - 8]));
    }
    assert forall|i: int| end + 1 <= i < last implies !seps.has(#[trigger] s[i]) by {
        assert(s[i] == share[i - end - 1]);
        assert(!is_slash(share[i - end - 1]));
    }
    if tail.len() > 0 {
        assert(s[last] == tail[0]);
    }
    lemma_name_ends_at(seps, s, 8, end);
    lemma_name_ends_at(seps, s, end + 1, last);
    assert(s.subrange(8, end) =~= server);
    assert(s.subrange(end + 1, last) =~= share);
}

/// Any other name behind the start of a verbatim prefix is a part of it.
pub proof fn law_verbatim(name: Seq<u8>, tail: Seq<u8>)
    requires
        is_plain(name),
        name != seq![0x55u8, 0x4e, 0x43],
        !(name.len() == 2 && is_drive_letter(name[0]) && name[1] == COLON),
        tail.len() == 0 || tail[0] == BACKSLASH,
    ensures
        prefix_of(
            Platform::Windows,
            verbatim_start() + name + tail,
        ) matches Some(prefix) && {
            &&& prefix.kind == PrefixKind::Verbatim
            &&& prefix.name == name
            &&& prefix.share.len() == 0
            &&& prefix.len() == 4 + name.len()
        },
{
    reveal(windows_prefix);
    let s = verbatim_start() + name + tail;
    let seps = Separators::Backslash;
    let end = 4 + name.len() as int;
    assert(s[0] == BACKSLASH && s[1] == BACKSLASH && s[2] == QUESTION && s[3] == BACKSLASH);
    assert forall|i: int| 4 <= i < end implies !is_slash(#[trigger] s[i]) by {
        assert(s[i] == name[i - 4]);
    }
    if tail.len() > 0 {
        assert(s[end] == tail[0]);
    }
    lemma_name_ends_at(seps, s, 4, end);
    assert(s.subrange(4, end) =~= name);
    if s.len() >= 8 && s[4] == 0x55 && s[5] == 0x4e && s[6] == 0x43 && is_slash(s[7]) {
        assert(end > 6) by {
            if end <= 6 {
                assert(s[end] == BACKSLASH);
            }
        }
        assert(end <= 7);
        assert(name[0] == s[4] && name[1] == s[5] && name[2] == s[6]);
        assert(name =~= seq![0x55u8, 0x4e, 0x43]);
    }
    if s.len() >= 6 && is_drive_letter(s[4]) && s[5] == COLON {
        assert(end > 5) by {
            if end <= 5 {
                assert(s[end] == BACKSLASH);
            }
        }
        assert(name[0] == s[4] && name[1] == s[5]);
        if s.len() == 6 || is_slash(s[6]) {
            assert(name.len() == 2);
        }
    }
}

/// A Windows path has no prefix where it starts neither with a drive nor with two separators, nor
/// where a third separator follows, nor where nothing but one name does.
pub proof fn law_no_prefix(s: Seq<u8>)
    requires
        !(s.len() >= 2 && is_drive_letter(s[0]) && s[1] == COLON),
        ({
            ||| s.len() < 2 || !is_slash(s[0]) || !is_slash(s[1])
            ||| s.len() >= 3 && is_slash(s[2])
            ||| is_plain(s.skip(2))
        }),
    ensures
        prefix_of(Platform::Windows, s) is None,
{
    reveal(windows_prefix);
    let both = Separators::Both;
    if s.len() >= 2 && is_slash(s[0]) && is_slash(s[1]) {
        if s.len() >= 3 && is_slash(s[2]) {
            lemma_name_ends_at(both, s, 2, 2);
        } else {
            assert forall|i: int| 2 <= i < s.len() implies !both.has(#[trigger] s[i]) by {
                assert(s[i] == s.skip(2)[i - 2]);
                assert(!is_slash(s.skip(2)[i - 2]));
            }
            lemma_name_ends_at(both, s, 2, s.len() as int);
        }
    }
}

/// The component is a name, not empty, and without `\`.
pub open spec fn is_clean(part: Part) -> bool {
    &&& part matches Part::Named(name)
    &&& name.len() > 0
    &&& forall|i: int| 0 <= i < name.len() ==> #[trigger] name[i] != BACKSLASH
}

/// No part has a separator in it.
proof fn lemma_pieces_clean(seps: Separators, s: Seq<u8>)
    ensures
        forall|k: int, i: int|
            0 <= k < pieces(seps, s).len() && 0 <= i < pieces(seps, s)[k].len() ==> !seps.has(
                #[trigger] pieces(seps, s)[k][i],
            ),
    decreases s.len(),
{
    if s.len() > 0 {
        lemma_pieces_clean(seps, s.drop_last());
        lemma_pieces_nonempty(seps, s.drop_last());
    }
}

/// The named ones of parts without `\` are clean.
proof fn lemma_named_clean(seps: Separators, list: Seq<Seq<u8>>)
    requires
        seps.has(BACKSLASH),
        forall|k: int, i: int|
            0 <= k < list.len() && 0 <= i < list[k].len() ==> !seps.has(#[trigger] list[k][i]),
    ensures
        forall|k: int| 0 <= k < named_parts(seps, list).len() ==> is_clean(
            #[trigger] named_parts(seps, list)[k],
        ),
    decreases list.len(),
{
    if list.len() > 0 {
        let rest = list.drop_last();
        assert forall|k: int, i: int|
            0 <= k < rest.len() && 0 <= i < rest[k].len() implies !seps.has(
            #[trigger] rest[k][i],
        ) by {
            assert(list[k][i] == rest[k][i]);
        }
        lemma_named_clean(seps, rest);
        let name = list.last();
        assert forall|i: int| 0 <= i < name.len() implies #[trigger] name[i] != BACKSLASH by {
            assert(!seps.has(list[list.len() - 1][i]));
        }
        let before = named_parts(seps, rest);
        let all = named_parts(seps, list);
        assert forall|k: int| 0 <= k < all.len() implies is_clean(#[trigger] all[k]) by {
            if k < before.len() {
                assert(all[k] == before[k]);
            } else {
                assert(all[k] == Part::Named(name));
            }
        }
    }
}

/// All parts of a body are clean.
proof fn lemma_body_clean(seps: Separators, s: Seq<u8>)
    requires
        seps.has(BACKSLASH),
    ensures
        forall|k: int| 0 <= k < body(seps, s).len() ==> is_clean(#[trigger] body(seps, s)[k]),
{
    lemma_pieces_clean(seps, s);
    lemma_named_clean(seps, pieces(seps, s));
}

/// The components are a prefix, a root, and clean names.
spec fn is_rooted(list: Seq<Part>) -> bool {
    &&& list.len() >= 2
    &&& list[0] is Prefix
    &&& list[1] is Root
    &&& forall|k: int| 2 <= k < list.len() ==> is_clean(#[trigger] list[k])
}

/// Components that are put together stay a prefix, a root, and clean names.
proof fn lemma_absorbed_rooted(own: Seq<Part>, child: Seq<Part>)
    requires
        is_rooted(own),
        forall|k: int| 0 <= k < child.len() ==> child[k] is Root || is_clean(#[trigger] child[k]),
    ensures
        is_rooted(absorbed(own, child)),
        absorbed(own, child)[0] == own[0],
    decreases child.len(),
{
    if child.len() > 0 {
        let rest = child.drop_last();
        assert forall|k: int| 0 <= k < rest.len() implies rest[k] is Root || is_clean(
            #[trigger] rest[k],
        ) by {
            assert(rest[k] == child[k]);
        }
        lemma_absorbed_rooted(own, rest);
        let before = absorbed(own, rest);
        let last = child[child.len() - 1];
        assert(last is Root || is_clean(last));
        let after = absorbed(own, child);
        if last is Root {
            assert(after =~= before.take(1).push(Part::Root));
        }
        assert forall|k: int| 2 <= k < after.len() implies is_clean(#[trigger] after[k]) by {
            if k < before.len() {
                assert(is_clean(before[k]));
            }
        }
        if is_normal(before.last()) {
            assert(before.len() > 2);
        }
    }
}

/// What stands behind the prefix and the root of a path that was put together.
proof fn lemma_rendered(prefix: Seq<u8>, behind: Seq<Part>)
    requires
        behind.len() > 0,
        behind[0] is Root,
        forall|k: int| 1 <= k < behind.len() ==> is_clean(#[trigger] behind[k]),
    ensures
        ({
            let all = rendered(prefix, behind);
            &&& all.len() >= prefix.len() + 1
            &&& all.take(prefix.len() as int) == prefix
            &&& all[prefix.len() as int] == BACKSLASH
            &&& body(Separators::Backslash, all.skip(prefix.len() as int + 1)) == behind.skip(1)
        }),
    decreases behind.len(),
{
    let seps = Separators::Backslash;
    let start = prefix.len() as int;
    let all = rendered(prefix, behind);
    let rest = behind.drop_last();
    let before = rendered(prefix, rest);
    lemma_body_empty(seps);
    if behind.len() == 1 {
        assert(rest =~= Seq::empty());
        assert(all =~= prefix.push(BACKSLASH));
        assert(all.take(start) =~= prefix);
        assert(all.skip(start + 1) =~= Seq::empty());
        assert(behind.skip(1) =~= Seq::empty());
    } else {
        assert forall|k: int| 1 <= k < rest.len() implies is_clean(#[trigger] rest[k]) by {
            assert(rest[k] == behind[k]);
        }
        lemma_rendered(prefix, rest);
        assert(is_clean(behind[behind.len() - 1]));
        let name = behind.last()->Named_0;
        assert forall|i: int| 0 <= i < name.len() implies !seps.has(#[trigger] name[i]) by {}
        lemma_one_piece(seps, name);
        let t = before.skip(start + 1);
        if behind.len() == 2 {
            assert(behind[0] is Root);
            assert(rest =~= seq![behind[0]]);
            assert(rest.drop_last() =~= Seq::empty());
            assert(rendered(prefix, rest.drop_last()) == prefix);
            assert(before =~= prefix.push(BACKSLASH));
            assert(all =~= before + name);
            assert(all.skip(start + 1) =~= name);
            assert(behind.skip(1) =~= seq![behind[1]]);
        } else {
            assert(is_clean(behind[behind.len() - 2]));
            assert(all =~= before.push(BACKSLASH) + name);
            assert(all.skip(start + 1) =~= t.push(BACKSLASH) + name);
            lemma_body_split(seps, t, BACKSLASH, name);
            assert(behind.skip(1) =~= rest.skip(1).push(behind.last()));
        }
        assert(all.take(start) =~= before.take(start));
        assert(all[start] == before[start]);
        assert(body(seps, all.skip(start + 1)) =~= behind.skip(1));
    }
}

/// A child behind a verbatim prefix and its root: the components of both are put together, as long as
/// the prefix stays what it was.
pub proof fn law_join_verbatim(base: PathView, child: Seq<u8>)
    requires
        base.is_verbatim(),
        base.has_root_byte(),
        child.len() > 0,
        (PathView { bytes: child, ..base }).prefix() is None,
        joined(base, child).prefix() == base.prefix(),
    ensures
        components(joined(base, child)) == absorbed(
            components(base),
            components(PathView { bytes: child, ..base }),
        ),
{
    let below = PathView { bytes: child, ..base };
    let whole = joined(base, child);
    let start = base.prefix_len();
    let seps = Separators::Backslash;
    lemma_prefix_len(base.platform, base.bytes);
    assert(base.platform == Platform::Windows);
    lemma_body_clean(base.separators(), base.bytes.skip(base.anchor_len()));
    lemma_body_clean(below.separators(), below.bytes.skip(below.anchor_len()));
    let own = components(base);
    let more = components(below);
    assert forall|k: int| 2 <= k < own.len() implies is_clean(#[trigger] own[k]) by {
        assert(own[k] == body(base.separators(), base.bytes.skip(base.anchor_len()))[k - 2]);
    }
    assert(is_rooted(own));
    assert forall|k: int| 0 <= k < more.len() implies more[k] is Root || is_clean(
        #[trigger] more[k],
    ) by {
        let head = below.head_parts().len();
        if k >= head {
            assert(more[k] == body(
                below.separators(),
                below.bytes.skip(below.anchor_len()),
            )[k - head]);
        }
    }
    lemma_absorbed_rooted(own, more);
    let all = absorbed(own, more);
    let behind = all.skip(1);
    assert forall|k: int| 1 <= k < behind.len() implies is_clean(#[trigger] behind[k]) by {
        assert(behind[k] == all[k + 1]);
    }
    lemma_rendered(base.bytes.take(start), behind);
    assert(whole.bytes[start] == BACKSLASH);
    assert(whole.anchor_len() == start + 1);
    assert(components(whole) =~= seq![all[0], Part::Root] + behind.skip(1));
    assert(components(whole) =~= all);
}

} // verus!
