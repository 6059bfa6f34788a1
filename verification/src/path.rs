//! Paths as byte strings.
//!
//! Two paths are the same when their components are the same, so `a//b`, `a/./b` and `a/b/`
//! name one path. The bytes themselves are kept: a path is shown and handed out as it was given.
//! The bytes of a Windows path are those of its text, where that is Unicode text.

use vstd::prelude::*;
use vstd::utf8::{decode_utf8, decode_utf8_encode_utf8, encode_utf8, valid_utf8};

use crate::prefix::{
    copy_bytes, lemma_prefix_len, parse_prefix, prefix_of, same_bytes, PathPrefix, Platform,
    PrefixKind, PrefixView, Separators, BACKSLASH, DOT,
};

verus! {

/// The contents of a path.
pub struct PathView {
    pub platform: Platform,
    pub bytes: Seq<u8>,
}

/// A component of a path.
pub enum Part {
    Prefix(PrefixView),
    Root,
    /// A name, or one of `.` and `..`.
    Named(Seq<u8>),
}

/// The parts of `s` between separators. There is always at least one, and parts may be empty.
pub open spec fn pieces(seps: Separators, s: Seq<u8>) -> Seq<Seq<u8>>
    decreases s.len(),
{
    if s.len() == 0 {
        seq![Seq::empty()]
    } else {
        let before = pieces(seps, s.drop_last());
        if seps.has(s.last()) {
            before.push(Seq::empty())
        } else {
            before.drop_last().push(before.last().push(s.last()))
        }
    }
}

/// A part that counts as a component wherever it stands: neither empty nor `.`. Where only `\`
/// separates, `.` counts too.
pub open spec fn is_named(seps: Separators, piece: Seq<u8>) -> bool {
    piece.len() > 0 && (piece != seq![DOT] || seps == Separators::Backslash)
}

/// The named ones of a list of parts, in order.
pub open spec fn named_parts(seps: Separators, list: Seq<Seq<u8>>) -> Seq<Part>
    decreases list.len(),
{
    if list.len() == 0 {
        Seq::empty()
    } else {
        let before = named_parts(seps, list.drop_last());
        if is_named(seps, list.last()) {
            before.push(Part::Named(list.last()))
        } else {
            before
        }
    }
}

/// The named parts of `s`, in order.
pub open spec fn body(seps: Separators, s: Seq<u8>) -> Seq<Part> {
    named_parts(seps, pieces(seps, s))
}

impl PathView {
    /// The prefix of the path.
    pub open spec fn prefix(self) -> Option<PrefixView> {
        prefix_of(self.platform, self.bytes)
    }

    /// How many bytes the prefix takes.
    pub open spec fn prefix_len(self) -> int {
        match self.prefix() {
            Some(prefix) => prefix.len() as int,
            None => 0,
        }
    }

    /// Whether the path has a prefix after which nothing has a special meaning.
    pub open spec fn is_verbatim(self) -> bool {
        self.prefix() matches Some(prefix) && prefix.is_verbatim()
    }

    /// The separators between the components.
    pub open spec fn separators(self) -> Separators {
        if self.is_verbatim() {
            Separators::Backslash
        } else {
            self.platform.separators()
        }
    }

    /// Whether a separator stands first, or right behind the prefix.
    pub open spec fn has_root_byte(self) -> bool {
        self.bytes.len() > self.prefix_len() && self.platform.separators().has(
            self.bytes[self.prefix_len()],
        )
    }

    /// Whether the path starts at a root.
    pub open spec fn has_root(self) -> bool {
        self.has_root_byte() || (self.prefix() matches Some(prefix) && prefix.has_implicit_root())
    }

    /// How many bytes stand before the named parts.
    pub open spec fn anchor_len(self) -> int {
        if self.has_root_byte() {
            self.prefix_len() + 1
        } else {
            self.prefix_len()
        }
    }

    /// Whether the path is relative and its first part is `.`.
    pub open spec fn starts_with_dot(self) -> bool {
        let start = self.prefix_len();
        &&& !self.has_root()
        &&& self.bytes.len() > start
        &&& self.bytes[start] == DOT
        &&& self.bytes.len() == start + 1 || self.separators().has(self.bytes[start + 1])
    }

    /// The components that only the start of a path can have: the prefix, the root, or one `.`.
    pub open spec fn head_parts(self) -> Seq<Part> {
        match self.prefix() {
            Some(prefix) => if self.has_root_byte() || (prefix.has_implicit_root()
                && !prefix.is_verbatim()) {
                seq![Part::Prefix(prefix), Part::Root]
            } else {
                seq![Part::Prefix(prefix)]
            },
            None => if self.has_root_byte() {
                seq![Part::Root]
            } else if self.starts_with_dot() {
                seq![Part::Named(seq![DOT])]
            } else {
                Seq::empty()
            },
        }
    }

    /// Whether the path means the same wherever it is joined to.
    pub open spec fn stands_alone(self) -> bool {
        self.prefix() is Some || (self.platform == Platform::Unix && self.has_root())
    }

    /// Whether the path has neither prefix nor root.
    pub open spec fn is_relative(self) -> bool {
        self.prefix() is None && !self.has_root()
    }

    /// Whether a separator has to be put behind the path before a name. Behind a lone `C:` there
    /// is none.
    pub open spec fn needs_separator(self) -> bool {
        &&& self.bytes.len() > 0
        &&& !self.platform.separators().has(self.bytes.last())
        &&& !(self.prefix() matches Some(prefix) && prefix.kind == PrefixKind::Disk
            && self.bytes.len() == 2)
    }
}

/// The components of a path. Repeated separators, trailing separators and every `.` but a leading
/// one leave no component.
pub open spec fn components(path: PathView) -> Seq<Part> {
    path.head_parts() + body(path.separators(), path.bytes.skip(path.anchor_len()))
}

/// Where the last part of `s` starts.
pub open spec fn piece_start(seps: Separators, s: Seq<u8>) -> int
    decreases s.len(),
{
    if s.len() == 0 || seps.has(s.last()) {
        s.len() as int
    } else {
        piece_start(seps, s.drop_last())
    }
}

/// `s` without its last part and the separator before it.
pub open spec fn drop_piece(seps: Separators, s: Seq<u8>) -> Seq<u8> {
    let start = piece_start(seps, s);
    if start > 0 {
        s.take(start - 1)
    } else {
        Seq::empty()
    }
}

/// `s` without the parts at its end that are not named.
pub open spec fn trim_end(seps: Separators, s: Seq<u8>) -> Seq<u8>
    decreases s.len(),
    via trim_end_ends
{
    if s.len() == 0 || is_named(seps, s.skip(piece_start(seps, s))) {
        s
    } else {
        trim_end(seps, drop_piece(seps, s))
    }
}

#[via_fn]
proof fn trim_end_ends(seps: Separators, s: Seq<u8>) {
    lemma_piece_start(seps, s);
}

/// The last part of `s` has no separator in it, and one before it unless it is all of `s`.
pub(crate) proof fn lemma_piece_start(seps: Separators, s: Seq<u8>)
    ensures
        0 <= piece_start(seps, s) <= s.len(),
        piece_start(seps, s) > 0 ==> seps.has(s[piece_start(seps, s) - 1]),
        forall|i: int| piece_start(seps, s) <= i < s.len() ==> !seps.has(#[trigger] s[i]),
    decreases s.len(),
{
    if s.len() > 0 && !seps.has(s.last()) {
        let cut = s.drop_last();
        lemma_piece_start(seps, cut);
        assert forall|i: int| piece_start(seps, s) <= i < s.len() implies !seps.has(
            #[trigger] s[i],
        ) by {
            if i < cut.len() {
                assert(cut[i] == s[i]);
            }
        }
    }
}

/// The path without its last component, if that is a name, `.` or `..`.
pub open spec fn parent_of(path: PathView) -> Option<PathView> {
    let seps = path.separators();
    let keep = if path.starts_with_dot() {
        path.anchor_len() + 1
    } else {
        path.anchor_len()
    };
    let own = trim_end(seps, path.bytes.skip(keep));
    if own.len() > 0 {
        Some(
            PathView {
                bytes: path.bytes.take(keep) + trim_end(seps, drop_piece(seps, own)),
                ..path
            },
        )
    } else if path.starts_with_dot() && path.prefix() is None {
        Some(PathView { bytes: Seq::empty(), ..path })
    } else {
        None
    }
}

/// Whether a component is a proper name.
pub open spec fn is_normal(part: Part) -> bool {
    part matches Part::Named(name) && name != seq![DOT] && name != seq![DOT, DOT]
}

/// The components `own`, followed by those of a path without prefix. A root takes the place of all
/// but the prefix, `.` leaves nothing, and `..` takes a proper name away.
pub open spec fn absorbed(own: Seq<Part>, child: Seq<Part>) -> Seq<Part>
    decreases child.len(),
{
    if child.len() == 0 {
        own
    } else {
        let before = absorbed(own, child.drop_last());
        match child.last() {
            Part::Root => before.take(1).push(Part::Root),
            Part::Named(name) => if name == seq![DOT] {
                before
            } else if name == seq![DOT, DOT] {
                if before.len() > 0 && is_normal(before.last()) {
                    before.drop_last()
                } else {
                    before
                }
            } else {
                before.push(child.last())
            },
            Part::Prefix(_) => before.push(child.last()),
        }
    }
}

/// The path with the given prefix and the components behind it.
pub open spec fn rendered(prefix: Seq<u8>, behind: Seq<Part>) -> Seq<u8>
    decreases behind.len(),
{
    if behind.len() == 0 {
        prefix
    } else {
        let before = rendered(prefix, behind.drop_last());
        match behind.last() {
            Part::Named(name) => if behind.len() > 1 && behind[behind.len() - 2] is Root {
                before + name
            } else {
                before.push(BACKSLASH) + name
            },
            _ => before.push(BACKSLASH),
        }
    }
}

/// `child` below `base`. A child that stands alone takes the place of `base`, and a child that
/// starts at a root takes the place of all but the prefix. Behind a verbatim prefix, the components
/// of both are put together anew.
pub open spec fn joined(base: PathView, child: Seq<u8>) -> PathView {
    let below = PathView { bytes: child, ..base };
    let bytes = if below.stands_alone() {
        child
    } else if base.is_verbatim() && child.len() > 0 {
        rendered(
            base.bytes.take(base.prefix_len()),
            absorbed(components(base), components(below)).skip(1),
        )
    } else if below.has_root() {
        base.bytes.take(base.prefix_len()) + child
    } else if base.needs_separator() {
        base.bytes.push(base.platform.main_separator()) + child
    } else {
        base.bytes + child
    };
    PathView { bytes, ..base }
}

/// The text that a path is shown as: its own, where it is text, else what the host makes of it.
pub open spec fn shown(path: PathView, otherwise: Seq<char>) -> Seq<char> {
    if valid_utf8(path.bytes) {
        decode_utf8(path.bytes)
    } else {
        otherwise
    }
}

/// `std::str::from_utf8`: the text with the given bytes, where they are valid UTF-8.
#[verifier::external_body]
fn text_from(bytes: &[u8]) -> (res: Option<&str>)
    ensures
        res is Some <==> valid_utf8(bytes@),
        res matches Some(text) ==> text@ == decode_utf8(bytes@),
{
    std::str::from_utf8(bytes).ok()
}

/// Whether the last component of a path is the name `name`.
pub open spec fn ends_with_name(path: PathView, name: Seq<u8>) -> bool {
    components(path).len() > 0 && components(path).last() == Part::Named(name)
}

/// A path.
pub struct WorktreePath {
    pub platform: Platform,
    pub bytes: Vec<u8>,
}

/// A component of a path.
pub enum PathPart {
    Prefix(PathPrefix),
    Root,
    /// A name, or one of `.` and `..`.
    Named(Vec<u8>),
}

impl View for WorktreePath {
    type V = PathView;

    open spec fn view(&self) -> PathView {
        PathView { platform: self.platform, bytes: self.bytes@ }
    }
}

impl View for PathPart {
    type V = Part;

    open spec fn view(&self) -> Part {
        match self {
            PathPart::Prefix(prefix) => Part::Prefix(prefix@),
            PathPart::Root => Part::Root,
            PathPart::Named(name) => Part::Named(name@),
        }
    }
}

impl Clone for WorktreePath {
    fn clone(&self) -> (res: Self)
        ensures
            res@ == self@,
    {
        let bytes = copy_bytes(&self.bytes, 0, self.bytes.len());
        assert(bytes@ =~= self.bytes@);
        WorktreePath { platform: self.platform, bytes }
    }
}

/// The contents of a list of components.
pub open spec fn parts(list: Seq<PathPart>) -> Seq<Part> {
    Seq::new(list.len(), |i: int| list[i]@)
}

impl PathPart {
    /// Whether the two components are equal.
    pub fn same_part(&self, other: &PathPart) -> (res: bool)
        ensures
            res == (self@ == other@),
    {
        match (self, other) {
            (PathPart::Prefix(a), PathPart::Prefix(b)) => a.same_prefix(b),
            (PathPart::Root, PathPart::Root) => true,
            (PathPart::Named(a), PathPart::Named(b)) => same_bytes(a.as_slice(), b.as_slice()),
            _ => false,
        }
    }

    /// Whether the component is a proper name.
    fn normal(&self) -> (res: bool)
        ensures
            res == is_normal(self@),
    {
        match self {
            PathPart::Named(name) => !lone_dot(name) && !two_dots(name),
            _ => false,
        }
    }
}

/// Whether the name is `.`.
fn lone_dot(name: &Vec<u8>) -> (res: bool)
    ensures
        res == (name@ == seq![DOT]),
{
    let res = name.len() == 1 && name[0] == DOT;
    assert(res == (name@ =~= seq![DOT]));
    res
}

/// Whether the name is `..`.
fn two_dots(name: &Vec<u8>) -> (res: bool)
    ensures
        res == (name@ == seq![DOT, DOT]),
{
    let res = name.len() == 2 && name[0] == DOT && name[1] == DOT;
    assert(res == (name@ =~= seq![DOT, DOT]));
    res
}

/// Appends `piece` to `list` where it is named.
fn keep_named(list: &mut Vec<PathPart>, seps: Separators, piece: Vec<u8>)
    ensures
        parts(final(list)@) == if is_named(seps, piece@) {
            parts(old(list)@).push(Part::Named(piece@))
        } else {
            parts(old(list)@)
        },
{
    if piece.len() > 0 && (!lone_dot(&piece) || seps == Separators::Backslash) {
        list.push(PathPart::Named(piece));
        assert(parts(list@) =~= parts(old(list)@).push(Part::Named(piece@)));
    }
}

/// Appends `more` to `out`.
fn append_bytes(out: &mut Vec<u8>, more: &Vec<u8>)
    ensures
        final(out)@ == old(out)@ + more@,
{
    let mut i: usize = 0;
    assert(out@ =~= old(out)@ + more@.take(0));
    while i < more.len()
        invariant
            i <= more@.len(),
            out@ == old(out)@ + more@.take(i as int),
        decreases more.len() - i,
    {
        out.push(more[i]);
        assert(more@.take(i + 1) =~= more@.take(i as int).push(more@[i as int]));
        assert(out@ =~= old(out)@ + more@.take(i + 1));
        i = i + 1;
    }
    assert(more@.take(more@.len() as int) =~= more@);
}

/// There is at least one part.
pub(crate) proof fn lemma_pieces_nonempty(seps: Separators, s: Seq<u8>)
    ensures
        pieces(seps, s).len() > 0,
    decreases s.len(),
{
    if s.len() > 0 {
        lemma_pieces_nonempty(seps, s.drop_last());
    }
}

/// What stands before the named parts of a path.
struct Head {
    prefix: Option<PathPrefix>,
    prefix_len: usize,
    verbatim: bool,
    root_byte: bool,
    dot: bool,
    seps: Separators,
}

impl Head {
    /// Whether this is the head of `path`.
    spec fn is_of(self, path: PathView) -> bool {
        &&& self.prefix is Some == path.prefix() is Some
        &&& self.prefix matches Some(prefix) ==> path.prefix() == Some(prefix@)
        &&& self.prefix_len == path.prefix_len()
        &&& self.verbatim == path.is_verbatim()
        &&& self.root_byte == path.has_root_byte()
        &&& self.dot == path.starts_with_dot()
        &&& self.seps == path.separators()
        &&& path.anchor_len() <= path.bytes.len()
        &&& path.starts_with_dot() ==> path.anchor_len() < path.bytes.len()
    }
}

impl WorktreePath {
    /// The path with the given text.
    pub fn from_text(platform: Platform, text: &str) -> (res: WorktreePath)
        ensures
            res@ == (PathView { platform, bytes: encode_utf8(text@) }),
    {
        let bytes = text.as_bytes();
        let mut out: Vec<u8> = Vec::new();
        let mut i: usize = 0;
        while i < bytes.len()
            invariant
                i <= bytes@.len(),
                out@ == bytes@.take(i as int),
            decreases bytes.len() - i,
        {
            out.push(bytes[i]);
            assert(bytes@.take(i + 1) =~= bytes@.take(i as int).push(bytes@[i as int]));
            i = i + 1;
        }
        assert(bytes@ =~= bytes@.take(bytes@.len() as int));
        WorktreePath { platform, bytes: out }
    }

    /// The text that the path is shown as. `otherwise` is for a path that is no text.
    pub fn show(&self, otherwise: String) -> (res: String)
        ensures
            res@ == shown(self@, otherwise@),
            valid_utf8(self@.bytes) ==> encode_utf8(res@) == self@.bytes,
    {
        match text_from(self.bytes.as_slice()) {
            Some(text) => {
                proof {
                    decode_utf8_encode_utf8(self.bytes@);
                }
                text.to_string()
            },
            None => otherwise,
        }
    }

    /// What stands before the named parts.
    fn head(&self) -> (res: Head)
        ensures
            res.is_of(self@),
    {
        proof {
            lemma_prefix_len(self.platform, self.bytes@);
        }
        let all = self.platform.all_separators();
        let n: usize = self.bytes.len();
        let parsed = parse_prefix(self.platform, &self.bytes);
        let (prefix, prefix_len): (Option<PathPrefix>, usize) = match parsed {
            Some((prefix, len)) => (Some(prefix), len),
            None => (None, 0),
        };
        let verbatim = match &prefix {
            Some(p) => p.verbatim(),
            None => false,
        };
        let implicit_root = match &prefix {
            Some(p) => p.kind != PrefixKind::Disk,
            None => false,
        };
        let seps = if verbatim {
            Separators::Backslash
        } else {
            all
        };
        let root_byte = n > prefix_len && all.contains(self.bytes[prefix_len]);
        let dot = !root_byte && !implicit_root && n > prefix_len && self.bytes[prefix_len] == DOT
            && (n == prefix_len + 1 || seps.contains(self.bytes[prefix_len + 1]));
        Head { prefix, prefix_len, verbatim, root_byte, dot, seps }
    }

    /// Whether the path means the same wherever it is joined to.
    pub fn alone(&self) -> (res: bool)
        ensures
            res == self@.stands_alone(),
    {
        let head = self.head();
        head.prefix.is_some() || (self.platform == Platform::Unix && head.root_byte)
    }

    /// Whether the path has neither prefix nor root.
    pub fn relative(&self) -> (res: bool)
        ensures
            res == self@.is_relative(),
    {
        let head = self.head();
        head.prefix.is_none() && !head.root_byte
    }

    /// The components of the path.
    pub fn components(&self) -> (res: Vec<PathPart>)
        ensures
            parts(res@) == components(self@),
    {
        let head = self.head();
        let n: usize = self.bytes.len();
        let seps = head.seps;
        let start: usize = if head.root_byte {
            head.prefix_len + 1
        } else {
            head.prefix_len
        };
        let mut res: Vec<PathPart> = Vec::new();
        match head.prefix {
            Some(prefix) => {
                let root = head.root_byte || (prefix.kind != PrefixKind::Disk && !head.verbatim);
                res.push(PathPart::Prefix(prefix));
                if root {
                    res.push(PathPart::Root);
                }
            },
            None => {
                if head.root_byte {
                    res.push(PathPart::Root);
                } else if head.dot {
                    let mut dot: Vec<u8> = Vec::new();
                    dot.push(DOT);
                    assert(dot@ =~= seq![DOT]);
                    res.push(PathPart::Named(dot));
                }
            },
        }
        assert(parts(res@) =~= self@.head_parts());
        let ghost rest = self.bytes@.skip(start as int);
        let mut current: Vec<u8> = Vec::new();
        let mut i: usize = start;
        proof {
            assert(rest.take(0) =~= Seq::empty());
            assert(current@ =~= Seq::empty());
            assert(pieces(seps, rest.take(0)).drop_last() =~= Seq::empty());
        }
        while i < n
            invariant
                start <= i <= n,
                n == self.bytes@.len(),
                rest == self.bytes@.skip(start as int),
                pieces(seps, rest.take(i - start)).len() > 0,
                current@ == pieces(seps, rest.take(i - start)).last(),
                parts(res@) == self@.head_parts() + named_parts(
                    seps,
                    pieces(seps, rest.take(i - start)).drop_last(),
                ),
            decreases n - i,
        {
            let b: u8 = self.bytes[i];
            let ghost before = rest.take(i - start);
            let ghost after = rest.take(i + 1 - start);
            proof {
                assert(after.drop_last() =~= before);
                assert(after.last() == b);
                lemma_pieces_nonempty(seps, after);
            }
            if seps.contains(b) {
                keep_named(&mut res, seps, current);
                current = Vec::new();
                proof {
                    assert(pieces(seps, after).drop_last() =~= pieces(seps, before));
                    assert(current@ =~= Seq::empty());
                    assert(parts(res@) =~= self@.head_parts() + named_parts(
                        seps,
                        pieces(seps, before),
                    ));
                }
            } else {
                current.push(b);
                proof {
                    assert(pieces(seps, after).drop_last() =~= pieces(seps, before).drop_last());
                }
            }
            i = i + 1;
        }
        keep_named(&mut res, seps, current);
        proof {
            assert(rest.take(n - start) =~= rest);
            assert(parts(res@) =~= components(self@));
        }
        res
    }

    /// Whether the two paths have the same components.
    pub fn same_path(&self, other: &WorktreePath) -> (res: bool)
        ensures
            res == (components(self@) == components(other@)),
    {
        let a = self.components();
        let b = other.components();
        if a.len() != b.len() {
            assert(components(self@).len() != components(other@).len());
            return false;
        }
        let mut i: usize = 0;
        while i < a.len()
            invariant
                i <= a@.len(),
                a@.len() == b@.len(),
                parts(a@) == components(self@),
                parts(b@) == components(other@),
                forall|j: int| 0 <= j < i ==> parts(a@)[j] == parts(b@)[j],
            decreases a.len() - i,
        {
            if !a[i].same_part(&b[i]) {
                assert(parts(a@)[i as int] != parts(b@)[i as int]);
                return false;
            }
            i = i + 1;
        }
        assert(parts(a@) =~= parts(b@));
        true
    }

    /// Whether the last component of the path is `name`.
    pub fn ends_with(&self, name: &str) -> (res: bool)
        ensures
            res == ends_with_name(self@, encode_utf8(name@)),
    {
        let list = self.components();
        let n: usize = list.len();
        assert(parts(list@).len() == n);
        if n == 0 {
            return false;
        }
        assert(components(self@).last() == list@[n - 1]@);
        match &list[n - 1] {
            PathPart::Named(last) => same_bytes(last.as_slice(), name.as_bytes()),
            _ => false,
        }
    }

    /// Where the last part between `from` and `end` starts.
    fn find_piece_start(&self, seps: Separators, from: usize, end: usize) -> (res: usize)
        requires
            from <= end <= self.bytes@.len(),
        ensures
            from <= res <= end,
            res - from == piece_start(seps, self.bytes@.subrange(from as int, end as int)),
    {
        let mut i: usize = end;
        while i > from && !seps.contains(self.bytes[i - 1])
            invariant
                from <= i <= end <= self.bytes@.len(),
                piece_start(seps, self.bytes@.subrange(from as int, i as int)) == piece_start(
                    seps,
                    self.bytes@.subrange(from as int, end as int),
                ),
            decreases i,
        {
            assert(self.bytes@.subrange(from as int, i as int).drop_last()
                =~= self.bytes@.subrange(from as int, i - 1));
            i = i - 1;
        }
        i
    }

    /// Where the bytes between `from` and `end` end without their last part.
    fn without_piece(&self, seps: Separators, from: usize, end: usize) -> (res: usize)
        requires
            from <= end <= self.bytes@.len(),
        ensures
            from <= res <= end,
            res < end || end == from,
            self.bytes@.subrange(from as int, res as int) == drop_piece(
                seps,
                self.bytes@.subrange(from as int, end as int),
            ),
    {
        let start: usize = self.find_piece_start(seps, from, end);
        let ghost own = self.bytes@.subrange(from as int, end as int);
        if start > from {
            assert(self.bytes@.subrange(from as int, start - 1) =~= own.take(start - 1 - from));
            start - 1
        } else {
            assert(self.bytes@.subrange(from as int, from as int) =~= Seq::empty());
            from
        }
    }

    /// Where the bytes between `from` and `end` end without the parts that are not named.
    fn trimmed_end(&self, seps: Separators, from: usize, end: usize) -> (res: usize)
        requires
            from <= end <= self.bytes@.len(),
        ensures
            from <= res <= end,
            self.bytes@.subrange(from as int, res as int) == trim_end(
                seps,
                self.bytes@.subrange(from as int, end as int),
            ),
    {
        let mut i: usize = end;
        while i > from
            invariant
                from <= i <= end <= self.bytes@.len(),
                trim_end(seps, self.bytes@.subrange(from as int, i as int)) == trim_end(
                    seps,
                    self.bytes@.subrange(from as int, end as int),
                ),
            decreases i,
        {
            let ghost own = self.bytes@.subrange(from as int, i as int);
            let start: usize = self.find_piece_start(seps, from, i);
            let piece = copy_bytes(&self.bytes, start, i);
            assert(piece@ =~= own.skip(start - from));
            if piece.len() > 0 && (!lone_dot(&piece) || seps == Separators::Backslash) {
                assert(trim_end(seps, own) == own);
                return i;
            }
            i = self.without_piece(seps, from, i);
        }
        assert(self.bytes@.subrange(from as int, from as int) =~= Seq::empty());
        i
    }

    /// The path without its last component.
    pub fn parent(&self) -> (res: Option<WorktreePath>)
        ensures
            res is Some == parent_of(self@) is Some,
            res matches Some(path) ==> Some(path@) == parent_of(self@),
    {
        let head = self.head();
        let n: usize = self.bytes.len();
        let seps = head.seps;
        let anchor: usize = if head.root_byte {
            head.prefix_len + 1
        } else {
            head.prefix_len
        };
        let keep: usize = if head.dot {
            anchor + 1
        } else {
            anchor
        };
        assert(self.bytes@.subrange(keep as int, n as int) =~= self.bytes@.skip(keep as int));
        let own: usize = self.trimmed_end(seps, keep, n);
        if own > keep {
            let above: usize = self.without_piece(seps, keep, own);
            let end: usize = self.trimmed_end(seps, keep, above);
            let bytes = copy_bytes(&self.bytes, 0, end);
            assert(bytes@ =~= self.bytes@.take(keep as int) + self.bytes@.subrange(
                keep as int,
                end as int,
            ));
            Some(WorktreePath { platform: self.platform, bytes })
        } else if head.dot && head.prefix.is_none() {
            let bytes: Vec<u8> = Vec::new();
            assert(bytes@ =~= Seq::empty());
            Some(WorktreePath { platform: self.platform, bytes })
        } else {
            None
        }
    }

    /// The path of `child` below this one.
    pub fn join(&self, child: &str) -> (res: WorktreePath)
        ensures
            res@ == joined(self@, encode_utf8(child@)),
    {
        let below = WorktreePath::from_text(self.platform, child);
        if below.alone() {
            return below;
        }
        let head = self.head();
        let n: usize = self.bytes.len();
        if head.verbatim && below.bytes.len() > 0 {
            return self.join_verbatim(head.prefix_len, &below);
        }
        if !below.relative() {
            let mut out = copy_bytes(&self.bytes, 0, head.prefix_len);
            assert(out@ =~= self.bytes@.take(self@.prefix_len()));
            append_bytes(&mut out, &below.bytes);
            return WorktreePath { platform: self.platform, bytes: out };
        }
        let disk = match &head.prefix {
            Some(prefix) => prefix.kind == PrefixKind::Disk,
            None => false,
        };
        let mut out = copy_bytes(&self.bytes, 0, n);
        assert(out@ =~= self.bytes@);
        if n > 0 && !self.platform.all_separators().contains(self.bytes[n - 1]) && !(disk && n
            == 2) {
            out.push(self.platform.separator());
        }
        append_bytes(&mut out, &below.bytes);
        WorktreePath { platform: self.platform, bytes: out }
    }

    /// The path of `below` below this one, which has a verbatim prefix.
    fn join_verbatim(&self, prefix_len: usize, below: &WorktreePath) -> (res: WorktreePath)
        requires
            prefix_len == self@.prefix_len(),
            prefix_len <= self.bytes@.len(),
            self@.is_verbatim(),
        ensures
            res.platform == self.platform,
            res.bytes@ == rendered(
                self.bytes@.take(self@.prefix_len()),
                absorbed(components(self@), components(below@)).skip(1),
            ),
    {
        let mut own = self.components();
        let mut more = below.components();
        let ghost first = parts(own@);
        let ghost all = parts(more@);
        let ghost mut done: int = 0;
        assert(all.take(0) =~= Seq::empty());
        assert(all.skip(0) =~= all);
        assert(first.len() == own@.len());
        assert(first[0] == self@.head_parts()[0]);
        assert(first[0] == own@[0]@);
        while more.len() > 0
            invariant
                0 <= done <= all.len(),
                parts(more@) == all.skip(done),
                parts(own@) == absorbed(first, all.take(done)),
                own@.len() > 0,
                own@[0]@ is Prefix,
            decreases more.len(),
        {
            let ghost before = own@;
            assert(parts(more@).len() == more@.len());
            assert(all.skip(done).len() == all.len() - done);
            let ghost next = all.take(done + 1);
            assert(parts(more@)[0] == more@[0]@);
            assert(all[done] == more@[0]@);
            assert(next.drop_last() =~= all.take(done));
            assert(next.last() == all[done]);
            let ghost queue = more@;
            let part = more.remove(0);
            assert forall|j: int| 0 <= j < more@.len() implies #[trigger] parts(more@)[j]
                == all.skip(done + 1)[j] by {
                assert(more@[j] == queue[j + 1]);
                assert(parts(queue)[j + 1] == all.skip(done)[j + 1]);
            }
            assert(parts(more@) =~= all.skip(done + 1));
            assert(parts(own@).last() == own@.last()@);
            let n: usize = own.len();
            match &part {
                PathPart::Root => {
                    own.truncate(1);
                    own.push(part);
                    assert(parts(own@) =~= parts(before).take(1).push(Part::Root));
                },
                PathPart::Named(name) => {
                    if lone_dot(name) {
                    } else if two_dots(name) {
                        if own[n - 1].normal() {
                            own.pop();
                            assert(parts(own@) =~= parts(before).drop_last());
                        }
                    } else {
                        own.push(part);
                        assert(parts(own@) =~= parts(before).push(part@));
                    }
                },
                PathPart::Prefix(_) => {
                    own.push(part);
                    assert(parts(own@) =~= parts(before).push(part@));
                },
            }
            proof {
                done = done + 1;
            }
        }
        assert(all.take(all.len() as int) =~= all);
        let ghost behind = parts(own@).skip(1);
        let mut out = copy_bytes(&self.bytes, 0, prefix_len);
        assert(out@ =~= self.bytes@.take(prefix_len as int));
        let mut i: usize = 1;
        assert(behind.take(0) =~= Seq::empty());
        while i < own.len()
            invariant
                1 <= i <= own@.len(),
                behind == parts(own@).skip(1),
                out@ == rendered(self.bytes@.take(prefix_len as int), behind.take(i - 1)),
            decreases own.len() - i,
        {
            let ghost next = behind.take(i as int);
            assert(next.drop_last() =~= behind.take(i - 1));
            assert(next.last() == own@[i as int]@);
            if i > 1 {
                assert(next[next.len() - 2] == own@[i - 1]@);
            }
            match &own[i] {
                PathPart::Named(name) => {
                    let after_root = i > 1 && matches!(own[i - 1], PathPart::Root);
                    if !after_root {
                        out.push(BACKSLASH);
                    }
                    append_bytes(&mut out, name);
                },
                _ => {
                    out.push(BACKSLASH);
                },
            }
            i = i + 1;
        }
        assert(behind.take(behind.len() as int) =~= behind);
        WorktreePath { platform: self.platform, bytes: out }
    }
}

} // verus!
