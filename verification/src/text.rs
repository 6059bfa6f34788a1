//! Text that requests and answers are made of.

use vstd::prelude::*;

use crate::law_terms::{is_blank, is_inside};

verus! {

/// The characters with the Unicode property `White_Space`.
pub open spec fn white_space(c: char) -> bool {
    let code = c as int;
    ||| 0x9 <= code <= 0xd
    ||| code == 0x20
    ||| code == 0x85
    ||| code == 0xa0
    ||| code == 0x1680
    ||| 0x2000 <= code <= 0x200a
    ||| code == 0x2028
    ||| code == 0x2029
    ||| code == 0x202f
    ||| code == 0x205f
    ||| code == 0x3000
}

/// `s` without leading white space.
pub open spec fn trimmed_start(s: Seq<char>) -> Seq<char>
    decreases s.len(),
{
    if s.len() > 0 && white_space(s[0]) {
        trimmed_start(s.drop_first())
    } else {
        s
    }
}

/// `s` without trailing white space.
pub open spec fn trimmed_end(s: Seq<char>) -> Seq<char>
    decreases s.len(),
{
    if s.len() > 0 && white_space(s.last()) {
        trimmed_end(s.drop_last())
    } else {
        s
    }
}

/// `s` without white space at either end.
pub open spec fn trimmed(s: Seq<char>) -> Seq<char> {
    trimmed_end(trimmed_start(s))
}

/// `str::trim`: the text without white space at either end, where white space is what the
/// Unicode property `White_Space` names.
pub assume_specification[ str::trim ](s: &str) -> (res: &str)
    ensures
        res@ == trimmed(s@),
;

/// What is before the text without leading white space is white space.
proof fn lemma_trimmed_start(s: Seq<char>) -> (k: int)
    ensures
        0 <= k <= s.len(),
        trimmed_start(s) == s.skip(k),
        forall|i: int| 0 <= i < k ==> white_space(#[trigger] s[i]),
        k < s.len() ==> !white_space(s[k]),
    decreases s.len(),
{
    if s.len() > 0 && white_space(s[0]) {
        let rest = s.drop_first();
        let k = lemma_trimmed_start(rest);
        assert(rest.skip(k) =~= s.skip(k + 1));
        assert forall|i: int| 0 <= i < k + 1 implies white_space(#[trigger] s[i]) by {
            if i > 0 {
                assert(rest[i - 1] == s[i]);
            }
        }
        if k + 1 < s.len() {
            assert(rest[k] == s[k + 1]);
        }
        k + 1
    } else {
        assert(s.skip(0) =~= s);
        0
    }
}

/// What is after the text without trailing white space is white space.
proof fn lemma_trimmed_end(s: Seq<char>) -> (k: int)
    ensures
        0 <= k <= s.len(),
        trimmed_end(s) == s.take(k),
        forall|i: int| k <= i < s.len() ==> white_space(#[trigger] s[i]),
        k > 0 ==> !white_space(s[k - 1]),
    decreases s.len(),
{
    if s.len() > 0 && white_space(s.last()) {
        let rest = s.drop_last();
        let k = lemma_trimmed_end(rest);
        assert(rest.take(k) =~= s.take(k));
        assert forall|i: int| k <= i < s.len() implies white_space(#[trigger] s[i]) by {
            if i < rest.len() {
                assert(rest[i] == s[i]);
            }
        }
        if k > 0 {
            assert(rest[k - 1] == s[k - 1]);
        }
        k
    } else {
        assert(s.take(s.len() as int) =~= s);
        s.len() as int
    }
}

/// A trimmed text neither starts nor ends with white space, is trimmed already, and is empty
/// only where there was nothing but white space.
pub proof fn law_trimmed(s: Seq<char>)
    ensures
        trimmed(s).len() > 0 ==> !white_space(trimmed(s)[0]) && !white_space(trimmed(s).last()),
        trimmed(trimmed(s)) == trimmed(s),
        trimmed(s).len() == 0 <==> forall|i: int| 0 <= i < s.len() ==> white_space(#[trigger] s[i]),
{
    let t = trimmed_start(s);
    let a = lemma_trimmed_start(s);
    let b = lemma_trimmed_end(t);
    if a < s.len() {
        assert(t[0] == s[a]);
        assert(b > 0) by {
            if b == 0 {
                assert(white_space(t[0]));
            }
        }
        assert(trimmed(s)[0] == s[a]);
        assert(trimmed(s).last() == t[b - 1]);
    }
}

/// A text is blank where nothing is left of it. Else what is left stands between white space.
pub proof fn law_trimmed_inside(s: Seq<char>)
    ensures
        is_blank(s) <==> trimmed(s).len() == 0,
        !is_blank(s) ==> is_inside(s, trimmed(s)),
{
    law_trimmed(s);
    if !is_blank(s) {
        let t = trimmed_start(s);
        let a = lemma_trimmed_start(s);
        let b = lemma_trimmed_end(t);
        let before = s.take(a);
        let after = t.skip(b);
        assert(s =~= before + trimmed(s) + after);
        assert(is_blank(before)) by {
            assert forall|i: int| 0 <= i < before.len() implies white_space(
                #[trigger] before[i],
            ) by {
                assert(before[i] == s[i]);
            }
        }
        assert(is_blank(after)) by {
            assert forall|i: int| 0 <= i < after.len() implies white_space(#[trigger] after[i]) by {
                assert(after[i] == t[b + i]);
            }
        }
    }
}

/// The text `HEAD`, or the given one.
pub open spec fn or_head(base: Option<String>) -> Seq<char> {
    match base {
        Some(text) => text@,
        None => "HEAD"@,
    }
}

/// The given revision, or `HEAD`.
pub fn revision_or_head(base: Option<String>) -> (res: String)
    ensures
        res@ == or_head(base),
{
    match base {
        Some(text) => text,
        None => "HEAD".to_string(),
    }
}

/// The texts of `list` with `separator` between them.
pub open spec fn joined_texts(list: Seq<Seq<char>>, separator: Seq<char>) -> Seq<char>
    decreases list.len(),
{
    if list.len() == 0 {
        Seq::empty()
    } else if list.len() == 1 {
        list[0]
    } else {
        joined_texts(list.drop_last(), separator) + separator + list.last()
    }
}

/// A single text stays as it is. Two lists that are not empty come out one after the other, with the
/// separator between them. Nothing comes out of an empty list.
pub proof fn law_joined_texts(
    text: Seq<char>,
    a: Seq<Seq<char>>,
    b: Seq<Seq<char>>,
    separator: Seq<char>,
)
    ensures
        joined_texts(Seq::empty(), separator).len() == 0,
        joined_texts(seq![text], separator) == text,
        a.len() > 0 && b.len() > 0 ==> joined_texts(a + b, separator) == joined_texts(a, separator)
            + separator + joined_texts(b, separator),
    decreases b.len(),
{
    if a.len() > 0 && b.len() > 0 {
        let less = b.drop_last();
        assert((a + b).drop_last() =~= a + less);
        assert((a + b).last() == b.last());
        if b.len() == 1 {
            assert(a + less =~= a);
        } else {
            law_joined_texts(text, a, less, separator);
        }
        assert(joined_texts(a + b, separator) =~= joined_texts(a, separator) + separator
            + joined_texts(b, separator));
    }
}

/// The contents of a list of texts.
pub open spec fn texts(list: Seq<String>) -> Seq<Seq<char>> {
    Seq::new(list.len(), |i: int| list[i]@)
}

/// The texts of `list` with `separator` between them.
pub fn join_texts(list: &Vec<String>, separator: &str) -> (res: String)
    ensures
        res@ == joined_texts(texts(list@), separator@),
{
    let mut res = String::new();
    let mut i: usize = 0;
    let ghost all = texts(list@);
    assert(all.take(0) =~= Seq::empty());
    while i < list.len()
        invariant
            i <= list@.len(),
            all == texts(list@),
            res@ == joined_texts(all.take(i as int), separator@),
        decreases list.len() - i,
    {
        let ghost next = all.take(i + 1);
        assert(next.drop_last() =~= all.take(i as int));
        assert(next.last() == list@[i as int]@);
        if i > 0 {
            res.append(separator);
        } else {
            assert(all.take(0) =~= Seq::empty());
        }
        res.append(list[i].as_str());
        assert(res@ =~= joined_texts(next, separator@));
        i = i + 1;
    }
    assert(all.take(list@.len() as int) =~= all);
    res
}

} // verus!
