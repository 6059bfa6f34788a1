//! The platforms, the bytes that separate the components of their paths, and the prefixes that
//! Windows paths can start with.

use vstd::prelude::*;

verus! {

/// The byte `/`.
pub const SLASH: u8 = 0x2f;

/// The byte `\`.
pub const BACKSLASH: u8 = 0x5c;

/// The byte `.`.
pub const DOT: u8 = 0x2e;

/// The byte `:`.
pub const COLON: u8 = 0x3a;

/// The byte `?`.
pub const QUESTION: u8 = 0x3f;

/// Whose paths they are.
#[derive(Clone, Copy, Debug, PartialEq, Eq, Structural)]
pub enum Platform {
    Unix,
    Windows,
}

/// The bytes that separate two components.
#[derive(Clone, Copy, Debug, PartialEq, Eq, Structural)]
pub enum Separators {
    Slash,
    Backslash,
    Both,
}

impl Separators {
    /// Whether `b` separates two components.
    pub open spec fn has(self, b: u8) -> bool {
        match self {
            Separators::Slash => b == SLASH,
            Separators::Backslash => b == BACKSLASH,
            Separators::Both => b == SLASH || b == BACKSLASH,
        }
    }

    /// Whether `b` separates two components.
    pub fn contains(self, b: u8) -> (res: bool)
        ensures
            res == self.has(b),
    {
        match self {
            Separators::Slash => b == SLASH,
            Separators::Backslash => b == BACKSLASH,
            Separators::Both => b == SLASH || b == BACKSLASH,
        }
    }
}

impl Platform {
    /// The separators of ordinary paths.
    pub open spec fn separators(self) -> Separators {
        match self {
            Platform::Unix => Separators::Slash,
            Platform::Windows => Separators::Both,
        }
    }

    /// The separator that is put between two components.
    pub open spec fn main_separator(self) -> u8 {
        match self {
            Platform::Unix => SLASH,
            Platform::Windows => BACKSLASH,
        }
    }

    /// The separators of ordinary paths.
    pub fn all_separators(self) -> (res: Separators)
        ensures
            res == self.separators(),
    {
        match self {
            Platform::Unix => Separators::Slash,
            Platform::Windows => Separators::Both,
        }
    }

    /// The separator that is put between two components.
    pub fn separator(self) -> (res: u8)
        ensures
            res == self.main_separator(),
    {
        match self {
            Platform::Unix => SLASH,
            Platform::Windows => BACKSLASH,
        }
    }
}

/// The kinds of prefixes.
#[derive(Clone, Copy, Debug, PartialEq, Eq, Structural)]
pub enum PrefixKind {
    /// `\\?\name`
    Verbatim,
    /// `\\?\UNC\name\share`
    VerbatimUnc,
    /// `\\?\C:`
    VerbatimDisk,
    /// `\\.\name`
    DeviceNs,
    /// `\\name\share`
    Unc,
    /// `C:`
    Disk,
}

/// A prefix. The name of a disk is its letter in upper case.
pub struct PrefixView {
    pub kind: PrefixKind,
    pub name: Seq<u8>,
    pub share: Seq<u8>,
}

impl PrefixView {
    /// Whether nothing after the prefix has a special meaning.
    pub open spec fn is_verbatim(self) -> bool {
        ||| self.kind == PrefixKind::Verbatim
        ||| self.kind == PrefixKind::VerbatimUnc
        ||| self.kind == PrefixKind::VerbatimDisk
    }

    /// Whether a path with the prefix starts at a root, even if it does not say so. A path on a
    /// disk can be relative.
    pub open spec fn has_implicit_root(self) -> bool {
        self.kind != PrefixKind::Disk
    }

    /// How many bytes the share takes, with the separator before it.
    pub open spec fn share_len(self) -> nat {
        if self.share.len() > 0 {
            1 + self.share.len()
        } else {
            0
        }
    }

    /// How many bytes of a path the prefix takes.
    pub open spec fn len(self) -> nat {
        match self.kind {
            PrefixKind::Verbatim => 4 + self.name.len(),
            PrefixKind::VerbatimUnc => 8 + self.name.len() + self.share_len(),
            PrefixKind::VerbatimDisk => 6,
            PrefixKind::DeviceNs => 4 + self.name.len(),
            PrefixKind::Unc => 2 + self.name.len() + self.share_len(),
            PrefixKind::Disk => 2,
        }
    }
}

/// The first separator at or after `from`, or the end.
pub open spec fn name_end(seps: Separators, s: Seq<u8>, from: int) -> int
    decreases s.len() - from,
{
    if from >= s.len() {
        s.len() as int
    } else if seps.has(s[from]) {
        from
    } else {
        name_end(seps, s, from + 1)
    }
}

/// The prefix with the name that starts at `from`.
pub open spec fn named_prefix(
    kind: PrefixKind,
    seps: Separators,
    s: Seq<u8>,
    from: int,
) -> PrefixView {
    PrefixView { kind, name: s.subrange(from, name_end(seps, s, from)), share: Seq::empty() }
}

/// The prefix with the name that starts at `from` and the share after it.
pub open spec fn shared_prefix(
    kind: PrefixKind,
    seps: Separators,
    s: Seq<u8>,
    from: int,
) -> PrefixView {
    let end = name_end(seps, s, from);
    PrefixView {
        kind,
        name: s.subrange(from, end),
        share: if end < s.len() {
            s.subrange(end + 1, name_end(seps, s, end + 1))
        } else {
            Seq::empty()
        },
    }
}

/// Whether `b` is an ASCII letter.
pub open spec fn is_letter(b: u8) -> bool {
    0x41 <= b <= 0x5a || 0x61 <= b <= 0x7a
}

/// The letter in upper case.
pub open spec fn upper(b: u8) -> u8 {
    if 0x61 <= b <= 0x7a {
        (b - 0x20) as u8
    } else {
        b
    }
}

/// Whether a letter and a colon stand at `i`.
pub open spec fn disk_at(s: Seq<u8>, i: int) -> bool {
    i + 1 < s.len() && is_letter(s[i]) && s[i + 1] == COLON
}

/// The prefix of the disk with the letter at `i`.
pub open spec fn disk_prefix(kind: PrefixKind, s: Seq<u8>, i: int) -> PrefixView {
    PrefixView { kind, name: seq![upper(s[i])], share: Seq::empty() }
}

/// Whether `s` starts with `\\?\`, written in just this way.
pub open spec fn starts_verbatim(s: Seq<u8>) -> bool {
    &&& s.len() >= 4
    &&& s[0] == BACKSLASH
    &&& s[1] == BACKSLASH
    &&& s[2] == QUESTION
    &&& s[3] == BACKSLASH
}

/// Whether `UNC` and a separator stand behind the first four bytes.
pub open spec fn goes_on_with_unc(s: Seq<u8>) -> bool {
    &&& s.len() >= 8
    &&& s[4] == 0x55
    &&& s[5] == 0x4e
    &&& s[6] == 0x43
    &&& Separators::Both.has(s[7])
}

/// The prefix of a path that starts with `\\?\`. Behind that only `\` separates.
pub open spec fn verbatim_prefix(s: Seq<u8>) -> PrefixView {
    if goes_on_with_unc(s) {
        shared_prefix(PrefixKind::VerbatimUnc, Separators::Backslash, s, 8)
    } else if disk_at(s, 4) && (s.len() == 6 || Separators::Both.has(s[6])) {
        disk_prefix(PrefixKind::VerbatimDisk, s, 4)
    } else {
        named_prefix(PrefixKind::Verbatim, Separators::Backslash, s, 4)
    }
}

/// The prefix of the Windows path `s`.
#[verifier::opaque]
pub open spec fn windows_prefix(s: Seq<u8>) -> Option<PrefixView> {
    let both = Separators::Both;
    if s.len() < 2 || !both.has(s[0]) || !both.has(s[1]) {
        if disk_at(s, 0) {
            Some(disk_prefix(PrefixKind::Disk, s, 0))
        } else {
            None
        }
    } else if starts_verbatim(s) {
        Some(verbatim_prefix(s))
    } else if s.len() >= 4 && s[2] == DOT && both.has(s[3]) {
        Some(named_prefix(PrefixKind::DeviceNs, both, s, 4))
    } else {
        let unc = shared_prefix(PrefixKind::Unc, both, s, 2);
        if unc.name.len() > 0 && unc.share.len() > 0 {
            Some(unc)
        } else {
            None
        }
    }
}

/// The prefix of the path `s`. Unix paths have none.
pub open spec fn prefix_of(platform: Platform, s: Seq<u8>) -> Option<PrefixView> {
    match platform {
        Platform::Unix => None,
        Platform::Windows => windows_prefix(s),
    }
}

/// The end of a name is in the path, and no separator stands before it.
pub(crate) proof fn lemma_name_end(seps: Separators, s: Seq<u8>, from: int)
    requires
        0 <= from <= s.len(),
    ensures
        from <= name_end(seps, s, from) <= s.len(),
        name_end(seps, s, from) < s.len() ==> seps.has(s[name_end(seps, s, from)]),
    decreases s.len() - from,
{
    if from < s.len() && !seps.has(s[from]) {
        lemma_name_end(seps, s, from + 1);
    }
}

/// A prefix is no longer than its path.
pub(crate) proof fn lemma_prefix_len(platform: Platform, s: Seq<u8>)
    ensures
        prefix_of(platform, s) matches Some(prefix) ==> 2 <= prefix.len() <= s.len(),
{
    reveal(windows_prefix);
    if platform == Platform::Windows && s.len() >= 2 {
        lemma_name_end(Separators::Both, s, 2);
        let end = name_end(Separators::Both, s, 2);
        if end < s.len() {
            lemma_name_end(Separators::Both, s, end + 1);
        }
        if s.len() >= 4 {
            lemma_name_end(Separators::Both, s, 4);
            lemma_name_end(Separators::Backslash, s, 4);
        }
        if s.len() >= 8 {
            lemma_name_end(Separators::Backslash, s, 8);
            let unc_end = name_end(Separators::Backslash, s, 8);
            if unc_end < s.len() {
                lemma_name_end(Separators::Backslash, s, unc_end + 1);
            }
        }
    }
}

/// In a path that is cut off, a name ends where it ended before, or at the cut.
proof fn lemma_name_end_cut(seps: Separators, s: Seq<u8>, from: int, k: int)
    requires
        0 <= from <= k <= s.len(),
    ensures
        name_end(seps, s.take(k), from) == if name_end(seps, s, from) < k {
            name_end(seps, s, from)
        } else {
            k
        },
    decreases k - from,
{
    lemma_name_end(seps, s, from);
    if from < k && !seps.has(s[from]) {
        lemma_name_end_cut(seps, s, from + 1, k);
    }
}

/// A prefix with a name stays when the path is cut off behind it.
proof fn lemma_named_prefix_cut(kind: PrefixKind, seps: Separators, s: Seq<u8>, from: int, k: int)
    requires
        0 <= from <= s.len(),
        name_end(seps, s, from) <= k <= s.len(),
    ensures
        named_prefix(kind, seps, s.take(k), from) == named_prefix(kind, seps, s, from),
{
    lemma_name_end(seps, s, from);
    lemma_name_end_cut(seps, s, from, k);
    let end = name_end(seps, s, from);
    assert(s.take(k).subrange(from, end) =~= s.subrange(from, end));
}

/// What stays of a prefix with a share when the path is cut off behind its name.
proof fn lemma_shared_prefix_cut(kind: PrefixKind, seps: Separators, s: Seq<u8>, from: int, k: int)
    requires
        0 <= from <= s.len(),
        name_end(seps, s, from) <= k <= s.len(),
    ensures
        ({
            let whole = shared_prefix(kind, seps, s, from);
            let cut = shared_prefix(kind, seps, s.take(k), from);
            &&& cut.name == whole.name
            &&& cut.share.len() <= whole.share.len()
            &&& name_end(seps, s, from) + whole.share_len() <= k ==> cut.share == whole.share
        }),
{
    let end = name_end(seps, s, from);
    lemma_name_end(seps, s, from);
    lemma_name_end_cut(seps, s, from, k);
    assert(s.take(k).subrange(from, end) =~= s.subrange(from, end));
    if end < s.len() {
        let share_end = name_end(seps, s, end + 1);
        lemma_name_end(seps, s, end + 1);
        if end < k {
            lemma_name_end_cut(seps, s, end + 1, k);
            if share_end <= k {
                assert(s.take(k).subrange(end + 1, share_end) =~= s.subrange(end + 1, share_end));
            }
        } else {
            assert(s.subrange(end + 1, share_end).len() == 0 ==> s.subrange(end + 1, share_end)
                =~= Seq::empty());
        }
    }
}

/// The prefix stays when the path is cut off behind it, and none comes up.
pub(crate) proof fn lemma_prefix_cut(platform: Platform, s: Seq<u8>, k: int)
    requires
        0 <= k <= s.len(),
        prefix_of(platform, s) matches Some(prefix) ==> prefix.len() <= k,
    ensures
        prefix_of(platform, s.take(k)) == prefix_of(platform, s),
{
    reveal(windows_prefix);
    let cut = s.take(k);
    let both = Separators::Both;
    lemma_prefix_len(platform, s);
    if platform == Platform::Windows && s.len() >= 2 && both.has(s[0]) && both.has(s[1]) {
        if starts_verbatim(s) {
            if goes_on_with_unc(s) {
                lemma_name_end(Separators::Backslash, s, 8);
                lemma_shared_prefix_cut(
                    PrefixKind::VerbatimUnc,
                    Separators::Backslash,
                    s,
                    8,
                    k,
                );
            } else if disk_at(s, 4) && (s.len() == 6 || both.has(s[6])) {
            } else {
                lemma_name_end(Separators::Backslash, s, 4);
                lemma_named_prefix_cut(PrefixKind::Verbatim, Separators::Backslash, s, 4, k);
                if disk_at(cut, 4) && cut.len() == 6 {
                    assert(name_end(Separators::Backslash, s, 4) <= 6);
                    lemma_name_end(Separators::Backslash, s, 4);
                    reveal_with_fuel(name_end, 4);
                }
            }
        } else if s.len() >= 4 && s[2] == DOT && both.has(s[3]) {
            lemma_name_end(both, s, 4);
            lemma_named_prefix_cut(PrefixKind::DeviceNs, both, s, 4, k);
        } else {
            let end = name_end(both, s, 2);
            lemma_name_end(both, s, 2);
            if end <= k {
                lemma_shared_prefix_cut(PrefixKind::Unc, both, s, 2, k);
            } else if k >= 2 {
                lemma_name_end_cut(both, s, 2, k);
            }
        }
    }
}

/// A prefix of a path.
pub struct PathPrefix {
    pub kind: PrefixKind,
    pub name: Vec<u8>,
    pub share: Vec<u8>,
}

impl View for PathPrefix {
    type V = PrefixView;

    open spec fn view(&self) -> PrefixView {
        PrefixView { kind: self.kind, name: self.name@, share: self.share@ }
    }
}

impl PathPrefix {
    /// Whether the two prefixes are equal.
    pub fn same_prefix(&self, other: &PathPrefix) -> (res: bool)
        ensures
            res == (self@ == other@),
    {
        self.kind == other.kind && same_bytes(self.name.as_slice(), other.name.as_slice())
            && same_bytes(self.share.as_slice(), other.share.as_slice())
    }

    /// Whether nothing after the prefix has a special meaning.
    pub fn verbatim(&self) -> (res: bool)
        ensures
            res == self@.is_verbatim(),
    {
        self.kind == PrefixKind::Verbatim || self.kind == PrefixKind::VerbatimUnc || self.kind
            == PrefixKind::VerbatimDisk
    }
}

/// The bytes from `from` up to `to`.
pub(crate) fn copy_bytes(bytes: &Vec<u8>, from: usize, to: usize) -> (res: Vec<u8>)
    requires
        from <= to <= bytes@.len(),
    ensures
        res@ == bytes@.subrange(from as int, to as int),
{
    let mut res: Vec<u8> = Vec::new();
    let mut i: usize = from;
    while i < to
        invariant
            from <= i <= to <= bytes@.len(),
            res@ == bytes@.subrange(from as int, i as int),
        decreases to - i,
    {
        res.push(bytes[i]);
        assert(bytes@.subrange(from as int, i + 1) =~= bytes@.subrange(from as int, i as int).push(
            bytes@[i as int],
        ));
        i = i + 1;
    }
    res
}

/// Whether the two byte strings are equal.
pub(crate) fn same_bytes(a: &[u8], b: &[u8]) -> (res: bool)
    ensures
        res == (a@ == b@),
{
    if a.len() != b.len() {
        return false;
    }
    let mut i: usize = 0;
    while i < a.len()
        invariant
            i <= a@.len(),
            a@.len() == b@.len(),
            a@.take(i as int) == b@.take(i as int),
        decreases a.len() - i,
    {
        if a[i] != b[i] {
            return false;
        }
        assert(a@.take(i + 1) =~= a@.take(i as int).push(a@[i as int]));
        assert(b@.take(i + 1) =~= b@.take(i as int).push(b@[i as int]));
        i = i + 1;
    }
    assert(a@ =~= a@.take(a@.len() as int));
    assert(b@ =~= b@.take(b@.len() as int));
    true
}

/// The first separator at or after `from`, or the end.
fn find_name_end(seps: Separators, bytes: &Vec<u8>, from: usize) -> (res: usize)
    requires
        from <= bytes@.len(),
    ensures
        res == name_end(seps, bytes@, from as int),
        from <= res <= bytes@.len(),
{
    let mut i: usize = from;
    while i < bytes.len() && !seps.contains(bytes[i])
        invariant
            from <= i <= bytes@.len(),
            name_end(seps, bytes@, i as int) == name_end(seps, bytes@, from as int),
        decreases bytes.len() - i,
    {
        i = i + 1;
    }
    i
}

/// The prefix with the name that starts at `from`, and where it ends.
fn parse_named(kind: PrefixKind, seps: Separators, bytes: &Vec<u8>, from: usize) -> (res: (
    PathPrefix,
    usize,
))
    requires
        from <= bytes@.len(),
    ensures
        res.0@ == named_prefix(kind, seps, bytes@, from as int),
        res.1 == from + res.0@.name.len(),
{
    let end: usize = find_name_end(seps, bytes, from);
    let prefix = PathPrefix { kind, name: copy_bytes(bytes, from, end), share: Vec::new() };
    assert(prefix@.share =~= Seq::empty());
    (prefix, end)
}

/// The prefix with the name that starts at `from` and the share after it, and where it ends.
fn parse_shared(kind: PrefixKind, seps: Separators, bytes: &Vec<u8>, from: usize) -> (res: (
    PathPrefix,
    usize,
))
    requires
        from <= bytes@.len(),
    ensures
        res.0@ == shared_prefix(kind, seps, bytes@, from as int),
        res.1 == from + res.0@.name.len() + res.0@.share_len(),
{
    let end: usize = find_name_end(seps, bytes, from);
    let name = copy_bytes(bytes, from, end);
    if end == bytes.len() {
        let prefix = PathPrefix { kind, name, share: Vec::new() };
        assert(prefix@.share =~= Seq::empty());
        return (prefix, end);
    }
    let share_end: usize = find_name_end(seps, bytes, end + 1);
    let share = copy_bytes(bytes, end + 1, share_end);
    let last: usize = if share.len() > 0 {
        share_end
    } else {
        end
    };
    (PathPrefix { kind, name, share }, last)
}

/// Whether `b` is an ASCII letter.
fn letter(b: u8) -> (res: bool)
    ensures
        res == is_letter(b),
{
    (0x41 <= b && b <= 0x5a) || (0x61 <= b && b <= 0x7a)
}

/// The prefix of the disk with the letter at `i`.
fn parse_disk(kind: PrefixKind, bytes: &Vec<u8>, i: usize) -> (res: PathPrefix)
    requires
        i < bytes@.len(),
    ensures
        res@ == disk_prefix(kind, bytes@, i as int),
{
    let b: u8 = bytes[i];
    let mut name: Vec<u8> = Vec::new();
    name.push(
        if 0x61 <= b && b <= 0x7a {
            b - 0x20
        } else {
            b
        },
    );
    let prefix = PathPrefix { kind, name, share: Vec::new() };
    assert(prefix@.name =~= seq![upper(b)]);
    assert(prefix@.share =~= Seq::empty());
    prefix
}

/// The prefix of a path, and how many bytes it takes.
pub(crate) fn parse_prefix(platform: Platform, bytes: &Vec<u8>) -> (res: Option<(PathPrefix, usize)>)
    ensures
        res is Some == prefix_of(platform, bytes@) is Some,
        res matches Some(parsed) ==> {
            &&& Some(parsed.0@) == prefix_of(platform, bytes@)
            &&& parsed.1 == parsed.0@.len()
            &&& parsed.1 <= bytes@.len()
        },
{
    proof {
        reveal(windows_prefix);
        lemma_prefix_len(platform, bytes@);
    }
    if platform == Platform::Unix {
        return None;
    }
    let both = Separators::Both;
    let n: usize = bytes.len();
    if n < 2 || !both.contains(bytes[0]) || !both.contains(bytes[1]) {
        if n >= 2 && letter(bytes[0]) && bytes[1] == COLON {
            return Some((parse_disk(PrefixKind::Disk, bytes, 0), 2));
        }
        return None;
    }
    if n >= 4 && bytes[0] == BACKSLASH && bytes[1] == BACKSLASH && bytes[2] == QUESTION && bytes[3]
        == BACKSLASH {
        if n >= 8 && bytes[4] == 0x55 && bytes[5] == 0x4e && bytes[6] == 0x43 && both.contains(
            bytes[7],
        ) {
            return Some(parse_shared(PrefixKind::VerbatimUnc, Separators::Backslash, bytes, 8));
        }
        if n >= 6 && letter(bytes[4]) && bytes[5] == COLON && (n == 6 || both.contains(bytes[6])) {
            return Some((parse_disk(PrefixKind::VerbatimDisk, bytes, 4), 6));
        }
        return Some(parse_named(PrefixKind::Verbatim, Separators::Backslash, bytes, 4));
    }
    if n >= 4 && bytes[2] == DOT && both.contains(bytes[3]) {
        return Some(parse_named(PrefixKind::DeviceNs, both, bytes, 4));
    }
    let unc = parse_shared(PrefixKind::Unc, both, bytes, 2);
    if unc.0.name.len() > 0 && unc.0.share.len() > 0 {
        Some(unc)
    } else {
        None
    }
}

} // verus!
