//! Slugs: the lowercase `[a-z0-9_]` identifiers derived from display names.
use vstd::prelude::*;
use crate::text::{char_vec, owned, push_char};

verus! {

/// The text `str::to_lowercase` gives for `s`. Fixed by `s`.
pub uninterp spec fn lowercase_text(s: Seq<char>) -> Seq<char>;

/// Whether every character of `s` is ASCII.
pub open spec fn all_ascii(s: Seq<char>) -> bool {
    forall|i: int| 0 <= i < s.len() ==> (#[trigger] s[i] as u32) < 128
}

/// ASCII lowercasing of one character.
pub open spec fn ascii_lower_char(c: char) -> char {
    if 'A' <= c && c <= 'Z' {
        ((c as u32) + 32) as char
    } else {
        c
    }
}

/// `str::to_lowercase`. Claimed: the text named by `lowercase_text`; for ASCII text it is
/// the ASCII lowercasing, character by character (Unicode lowercase mapping agrees with
/// ASCII on ASCII characters).
#[verifier::external_body]
pub(crate) fn to_lowercase(s: &str) -> (r: String)
    ensures
        r@ == lowercase_text(s@),
        all_ascii(s@) ==> r@.len() == s@.len() && forall|i: int|
            0 <= i < s@.len() ==> #[trigger] r@[i] == ascii_lower_char(s@[i]),
{
    s.to_lowercase()
}

/// The characters a slug keeps as they are: `a`..=`z` and `0`..=`9`.
pub open spec fn is_slug_alnum(c: char) -> bool {
    ('a' <= c && c <= 'z') || ('0' <= c && c <= '9')
}

/// Replaces each run of characters other than `a-z` and `0-9` (underscores included)
/// with a single `_`.
pub open spec fn collapse_separators(s: Seq<char>) -> Seq<char>
    decreases s.len(),
{
    if s.len() == 0 {
        Seq::empty()
    } else {
        let prev = collapse_separators(s.drop_last());
        if is_slug_alnum(s.last()) {
            prev.push(s.last())
        } else if prev.len() > 0 && prev.last() == '_' {
            prev
        } else {
            prev.push('_')
        }
    }
}

/// Drops one leading and one trailing `_`.
pub open spec fn trim_underscores(s: Seq<char>) -> Seq<char> {
    let a = if s.len() > 0 && s[0] == '_' {
        s.drop_first()
    } else {
        s
    };
    if a.len() > 0 && a.last() == '_' {
        a.drop_last()
    } else {
        a
    }
}

/// The slug of a name: its lowercase form with every run of characters other than
/// `a-z` and `0-9` turned into one `_`, without a leading or trailing `_`, cut to 64
/// characters; `invalid_slug` when nothing is left.
pub open spec fn slug_of(name: Seq<char>) -> Seq<char> {
    let t = trim_underscores(collapse_separators(lowercase_text(name)));
    if t.len() == 0 {
        "invalid_slug"@
    } else if t.len() > 64 {
        t.take(64)
    } else {
        t
    }
}

/// The characters a slug is made of.
pub open spec fn is_slug_char(c: char) -> bool {
    is_slug_alnum(c) || c == '_'
}

/// A well-formed slug: 1 to 64 slug characters, not starting with `_`, with no `__`.
pub open spec fn is_slug(s: Seq<char>) -> bool {
    &&& 0 < s.len() <= 64
    &&& forall|i: int| 0 <= i < s.len() ==> is_slug_char(#[trigger] s[i])
    &&& s[0] != '_'
    &&& forall|i: int| 0 <= i < s.len() - 1 ==> !(#[trigger] s[i] == '_' && s[i + 1] == '_')
}

proof fn lemma_fallback_is_slug()
    ensures
        is_slug("invalid_slug"@),
{
    reveal_strlit("invalid_slug");
    let s = "invalid_slug"@;
    assert forall|i: int| 0 <= i < s.len() implies is_slug_char(#[trigger] s[i]) by {}
    assert forall|i: int| 0 <= i < s.len() - 1 implies !(#[trigger] s[i] == '_' && s[i + 1] == '_') by {}
}

proof fn lemma_collapse_shape(s: Seq<char>)
    ensures
        forall|i: int|
            0 <= i < collapse_separators(s).len() ==> is_slug_char(
                #[trigger] collapse_separators(s)[i],
            ),
        forall|i: int|
            0 <= i < collapse_separators(s).len() - 1 ==> !(#[trigger] collapse_separators(s)[i]
                == '_' && collapse_separators(s)[i + 1] == '_'),
        collapse_separators(s).len() <= s.len(),
    decreases s.len(),
{
    if s.len() > 0 {
        lemma_collapse_shape(s.drop_last());
    }
}

proof fn lemma_collapse_without_alnum(s: Seq<char>)
    requires
        forall|i: int| 0 <= i < s.len() ==> !is_slug_alnum(#[trigger] s[i]),
    ensures
        collapse_separators(s) == Seq::<char>::empty() || collapse_separators(s) == seq!['_'],
        s.len() > 0 ==> collapse_separators(s) == seq!['_'],
    decreases s.len(),
{
    if s.len() > 0 {
        let p = s.drop_last();
        assert forall|i: int| 0 <= i < p.len() implies !is_slug_alnum(#[trigger] p[i]) by {
            assert(p[i] == s[i]);
        }
        lemma_collapse_without_alnum(p);
        assert(!is_slug_alnum(s[s.len() - 1]));
        if collapse_separators(p).len() == 0 {
            assert(collapse_separators(s) =~= seq!['_']);
        }
    }
}

/// A name whose lowercase form holds no letter `a`..=`z` and no digit gets the invalid slug.
pub proof fn lemma_no_alnum_gives_invalid_slug(name: Seq<char>)
    requires
        forall|i: int|
            0 <= i < lowercase_text(name).len() ==> !is_slug_alnum(#[trigger] lowercase_text(name)[i]),
    ensures
        slug_of(name) == "invalid_slug"@,
{
    lemma_collapse_without_alnum(lowercase_text(name));
    let c = collapse_separators(lowercase_text(name));
    if c.len() == 1 {
        assert(c[0] == '_');
        assert(trim_underscores(c).len() == 0);
    }
}

/// A slug shorter than 64 characters never ends in `_`: only the cut at 64 characters can
/// leave one at the end.
pub proof fn lemma_short_slug_ends_without_underscore(name: Seq<char>)
    ensures
        slug_of(name).len() < 64 ==> slug_of(name).last() != '_',
{
    let c = collapse_separators(lowercase_text(name));
    lemma_collapse_shape(lowercase_text(name));
    let a = if c.len() > 0 && c[0] == '_' {
        c.drop_first()
    } else {
        c
    };
    let t = trim_underscores(c);
    if t.len() == 0 {
        reveal_strlit("invalid_slug");
    } else if t.len() <= 64 {
        if a.len() > 0 && a.last() == '_' {
            let k = c.len() - 1;
            assert(c[k] == '_');
            assert(t.last() == c[k - 1]);
            assert(!(c[k - 1] == '_' && c[k] == '_'));
        } else {
            assert(t == a);
        }
    }
}

/// Builds the slug of `name` (see `slug_of`).
pub fn generate_slug(name: &str) -> (r: String)
    ensures
        r@ == slug_of(name@),
        is_slug(r@),
{
    let lowered = to_lowercase(name);
    let cs = char_vec(lowered.as_str());
    let n = cs.len();
    let mut collapsed: Vec<char> = Vec::new();
    for i in 0..n
        invariant
            n == cs@.len(),
            cs@ == lowercase_text(name@),
            collapsed@ == collapse_separators(cs@.take(i as int)),
    {
        assert(cs@.take(i + 1).drop_last() == cs@.take(i as int));
        let c = cs[i];
        if ('a' <= c && c <= 'z') || ('0' <= c && c <= '9') {
            collapsed.push(c);
        } else {
            let m = collapsed.len();
            if !(m > 0 && collapsed[m - 1] == '_') {
                collapsed.push('_');
            }
        }
    }
    assert(cs@.take(n as int) == cs@);
    let ghost c_all = collapsed@;
    proof {
        lemma_collapse_shape(cs@);
    }
    let m = collapsed.len();
    let start: usize = if m > 0 && collapsed[0] == '_' {
        1
    } else {
        0
    };
    let end: usize = if m > start && collapsed[m - 1] == '_' {
        m - 1
    } else {
        m
    };
    let ghost a = if m > 0 && c_all[0] == '_' {
        c_all.drop_first()
    } else {
        c_all
    };
    let ghost t = trim_underscores(c_all);
    assert(a == c_all.subrange(start as int, m as int));
    assert(t == c_all.subrange(start as int, end as int));
    if end == start {
        proof {
            lemma_fallback_is_slug();
        }
        return owned("invalid_slug");
    }
    let stop: usize = if end - start > 64 {
        start + 64
    } else {
        end
    };
    let mut out = String::new();
    for j in start..stop
        invariant
            start <= stop <= end <= m,
            m == collapsed@.len(),
            c_all == collapsed@,
            out@ == c_all.subrange(start as int, j as int),
    {
        push_char(&mut out, collapsed[j]);
        assert(c_all.subrange(start as int, j + 1) == c_all.subrange(start as int, j as int).push(
            c_all[j as int],
        ));
    }
    assert(out@ == t.take((stop - start) as int));
    assert(t.len() > 64 ==> t.take(64) == out@);
    assert(t.len() <= 64 ==> t.take(t.len() as int) == t);
    assert(t[0] != '_') by {
        assert(t[0] == c_all[start as int]);
        if start == 0 {
            assert(!(m > 0 && c_all[0] == '_'));
        } else {
            assert(c_all[0] == '_');
            assert(!(c_all[0] == '_' && c_all[1] == '_'));
        }
    }
    out
}

/// A slug is its own slug unless it was cut short right after a `_`: slugging is
/// idempotent on slugs that do not end in `_`.
pub proof fn lemma_slug_idempotent(s: Seq<char>)
    requires
        is_slug(s),
        s.last() != '_',
        lowercase_text(s) == s,
    ensures
        slug_of(s) == s,
{
    lemma_collapse_of_slug(s);
    assert(trim_underscores(s) == s);
}

proof fn lemma_collapse_of_slug(s: Seq<char>)
    requires
        forall|i: int| 0 <= i < s.len() ==> is_slug_char(#[trigger] s[i]),
        forall|i: int| 0 <= i < s.len() - 1 ==> !(#[trigger] s[i] == '_' && s[i + 1] == '_'),
    ensures
        collapse_separators(s) == s,
    decreases s.len(),
{
    if s.len() > 0 {
        let p = s.drop_last();
        assert forall|i: int| 0 <= i < p.len() - 1 implies !(#[trigger] p[i] == '_' && p[i + 1] == '_') by {
            assert(p[i] == s[i] && p[i + 1] == s[i + 1]);
        }
        lemma_collapse_of_slug(p);
        if s.len() >= 2 {
            assert(!(s[s.len() - 2] == '_' && s[s.len() - 1] == '_'));
        }
        assert(s == p.push(s.last()));
    }
}

} // verus!
