//! Installation-path normalization.
//!
//! The installation root must end in the canonical product folder. The
//! normalizer appends that folder unless the final path segment already
//! equals it, compared ASCII-case-insensitively. Both `/` and `\` count as
//! segment separators, and trailing separators do not start a new segment.

use vstd::prelude::*;
use vstd::string::*;

verus! {

/// Separator characters recognized inside paths.
pub open spec fn is_sep(c: char) -> bool {
    c == '/' || c == '\\'
}

/// The canonical leaf folder name of an installation root.
pub open spec fn canonical_folder() -> Seq<char> {
    "portablesource"@
}

/// Whether any character of `s` is a path separator.
pub open spec fn has_sep(s: Seq<char>) -> bool
    decreases s.len(),
{
    if s.len() == 0 {
        false
    } else {
        is_sep(s.last()) || has_sep(s.drop_last())
    }
}

/// `s` with all trailing separators removed.
pub open spec fn strip_trailing_seps(s: Seq<char>) -> Seq<char>
    decreases s.len(),
{
    if s.len() > 0 && is_sep(s.last()) {
        strip_trailing_seps(s.drop_last())
    } else {
        s
    }
}

/// The suffix of `s` after its last separator (all of `s` if none occurs).
pub open spec fn after_last_sep(s: Seq<char>) -> Seq<char>
    decreases s.len(),
{
    if s.len() == 0 {
        s
    } else if is_sep(s.last()) {
        Seq::<char>::empty()
    } else {
        after_last_sep(s.drop_last()).push(s.last())
    }
}

/// The final path segment of `s`: what follows the last separator once
/// trailing separators are ignored.
pub open spec fn leaf_of(s: Seq<char>) -> Seq<char> {
    after_last_sep(strip_trailing_seps(s))
}

/// ASCII lowercasing of a single character; other characters are unchanged.
pub open spec fn lower_char(c: char) -> char {
    if 65 <= c as u32 && c as u32 <= 90 {
        ((c as u32) + 32) as char
    } else {
        c
    }
}

/// Character-wise ASCII-case-insensitive equality.
pub open spec fn eq_ignore_ascii_case(a: Seq<char>, b: Seq<char>) -> bool {
    a.len() == b.len() && (forall|i: int|
        0 <= i < a.len() ==> lower_char(a[i]) == lower_char(b[i]))
}

/// A path already ends in the canonical folder.
pub open spec fn is_normalized(s: Seq<char>) -> bool {
    eq_ignore_ascii_case(leaf_of(s), canonical_folder())
}

/// Joining a relative child under a base path, inserting `/` only when the
/// base is non-empty and does not already end in a separator.
pub open spec fn path_join(base: Seq<char>, child: Seq<char>) -> Seq<char> {
    if base.len() == 0 {
        child
    } else if is_sep(base.last()) {
        base + child
    } else {
        base + seq!['/'] + child
    }
}

/// The normalized form of an installation path.
pub open spec fn normalize_spec(s: Seq<char>) -> Seq<char> {
    if is_normalized(s) {
        s
    } else {
        path_join(s, canonical_folder())
    }
}

/// Stripping trailing separators is the same as cutting at the first
/// position from which only separators follow.
proof fn lemma_strip_is_take(s: Seq<char>, end: int)
    requires
        0 <= end <= s.len(),
        forall|i: int| end <= i < s.len() ==> is_sep(s[i]),
        end > 0 ==> !is_sep(s[end - 1]),
    ensures
        strip_trailing_seps(s) == s.take(end),
    decreases s.len(),
{
    if s.len() == end {
        assert(s.take(end) =~= s);
    } else {
        assert(is_sep(s.last()));
        lemma_strip_is_take(s.drop_last(), end);
        assert(s.drop_last().take(end) =~= s.take(end));
    }
}

/// The suffix after the last separator of a prefix `s.take(end)` is the
/// segment `[start, end)` when no separator occurs inside it and `start`
/// sits right after a separator (or at the front).
proof fn lemma_after_last_sep_is_segment(s: Seq<char>, start: int, end: int)
    requires
        0 <= start <= end <= s.len(),
        forall|i: int| start <= i < end ==> !is_sep(s[i]),
        start > 0 ==> is_sep(s[start - 1]),
    ensures
        after_last_sep(s.take(end)) == s.subrange(start, end),
    decreases end - start,
{
    let t = s.take(end);
    if end == start {
        if start == 0 {
            assert(after_last_sep(t) =~= s.subrange(0, 0));
        } else {
            assert(t.last() == s[start - 1]);
            assert(after_last_sep(t) =~= s.subrange(start, start));
        }
    } else {
        assert(t.last() == s[end - 1]);
        assert(!is_sep(t.last()));
        assert(t.drop_last() =~= s.take(end - 1));
        lemma_after_last_sep_is_segment(s, start, end - 1);
        assert(after_last_sep(t) =~= s.subrange(start, end));
    }
}

/// A separator-free sequence is its own final segment.
proof fn lemma_after_last_sep_no_sep(t: Seq<char>)
    requires
        !has_sep(t),
    ensures
        after_last_sep(t) == t,
    decreases t.len(),
{
    if t.len() > 0 {
        lemma_after_last_sep_no_sep(t.drop_last());
        assert(after_last_sep(t) =~= t);
    }
}

/// Appending a separator-free suffix behind a separator makes that suffix
/// the final segment.
proof fn lemma_after_last_sep_concat(s: Seq<char>, t: Seq<char>)
    requires
        s.len() > 0,
        is_sep(s.last()),
        !has_sep(t),
    ensures
        after_last_sep(s + t) == t,
    decreases t.len(),
{
    if t.len() == 0 {
        assert(s + t =~= s);
    } else {
        let u = s + t;
        assert(u.last() == t.last());
        assert(u.drop_last() =~= s + t.drop_last());
        lemma_after_last_sep_concat(s, t.drop_last());
        assert(after_last_sep(u) =~= t);
    }
}

/// The canonical folder name: fourteen characters, none a separator.
proof fn lemma_canonical_facts()
    ensures
        canonical_folder().len() == 14,
        !has_sep(canonical_folder()),
        !is_sep(canonical_folder().last()),
{
    reveal_strlit("portablesource");
    let c = canonical_folder();
    assert(!has_sep(c)) by {
        reveal_with_fuel(has_sep, 16);
        assert(c.drop_last() =~= c.take(13));
        assert(c.take(13).drop_last() =~= c.take(12));
        assert(c.take(12).drop_last() =~= c.take(11));
        assert(c.take(11).drop_last() =~= c.take(10));
        assert(c.take(10).drop_last() =~= c.take(9));
        assert(c.take(9).drop_last() =~= c.take(8));
        assert(c.take(8).drop_last() =~= c.take(7));
        assert(c.take(7).drop_last() =~= c.take(6));
        assert(c.take(6).drop_last() =~= c.take(5));
        assert(c.take(5).drop_last() =~= c.take(4));
        assert(c.take(4).drop_last() =~= c.take(3));
        assert(c.take(3).drop_last() =~= c.take(2));
        assert(c.take(2).drop_last() =~= c.take(1));
        assert(c.take(1).drop_last() =~= c.take(0));
    }
}

/// Normalizing leaves an already-normalized path unchanged.
pub proof fn lemma_normalize_preserves_normalized(s: Seq<char>)
    requires
        is_normalized(s),
    ensures
        normalize_spec(s) == s,
{
}

/// Normalizing a path without the canonical leaf appends that folder
/// under the path.
pub proof fn lemma_normalize_appends(s: Seq<char>)
    requires
        !is_normalized(s),
    ensures
        normalize_spec(s) == path_join(s, canonical_folder()),
{
}

/// The result of normalization always carries the canonical leaf.
pub proof fn lemma_normalize_result_normalized(s: Seq<char>)
    ensures
        is_normalized(normalize_spec(s)),
{
    if !is_normalized(s) {
        lemma_canonical_facts();
        let c = canonical_folder();
        let r = path_join(s, c);
        if s.len() == 0 {
            assert(r == c);
            lemma_after_last_sep_no_sep(c);
            assert(strip_trailing_seps(r) == r);
        } else if is_sep(s.last()) {
            assert(r == s + c);
            assert(r.last() == c.last());
            assert(strip_trailing_seps(r) == r);
            lemma_after_last_sep_concat(s, c);
        } else {
            let s2 = s + seq!['/'];
            assert(r =~= s2 + c);
            assert(r.last() == c.last());
            assert(strip_trailing_seps(r) == r);
            assert(is_sep(s2.last()));
            lemma_after_last_sep_concat(s2, c);
        }
        assert(leaf_of(r) == c);
        assert(is_normalized(r));
    }
}

/// Normalization is idempotent: a second pass changes nothing.
pub proof fn lemma_normalize_idempotent(s: Seq<char>)
    ensures
        normalize_spec(normalize_spec(s)) == normalize_spec(s),
{
    lemma_normalize_result_normalized(s);
}

/// Recognizes the separator characters.
pub fn is_sep_char(c: char) -> (b: bool)
    ensures
        b == is_sep(c),
{
    c == '/' || c == '\\'
}

/// Compares two characters ASCII-case-insensitively.
pub fn chars_eq_ignore_case(a: char, b: char) -> (r: bool)
    ensures
        r == (lower_char(a) == lower_char(b)),
{
    let x = a as u32;
    let y = b as u32;
    let lx = if 65 <= x && x <= 90 {
        x + 32
    } else {
        x
    };
    let ly = if 65 <= y && y <= 90 {
        y + 32
    } else {
        y
    };
    lx == ly
}

/// Decides whether the final path segment already equals the canonical
/// folder name, ASCII-case-insensitively.
pub fn has_canonical_leaf(path: &str) -> (b: bool)
    ensures
        b == is_normalized(path@),
{
    let ghost s = path@;
    let n = path.unicode_len();
    let mut end = n;
    while end > 0 && is_sep_char(path.get_char(end - 1))
        invariant
            end <= n,
            n == s.len(),
            s == path@,
            forall|i: int| end <= i < n ==> is_sep(s[i]),
        decreases end,
    {
        end = end - 1;
    }
    proof {
        lemma_strip_is_take(s, end as int);
    }
    let mut start = end;
    while start > 0 && !is_sep_char(path.get_char(start - 1))
        invariant
            start <= end <= n,
            n == s.len(),
            s == path@,
            forall|i: int| start <= i < end ==> !is_sep(s[i]),
        decreases start,
    {
        start = start - 1;
    }
    proof {
        lemma_after_last_sep_is_segment(s, start as int, end as int);
        lemma_canonical_facts();
    }
    assert(leaf_of(s) == s.subrange(start as int, end as int));
    if end - start != 14 {
        return false;
    }
    let lit = "portablesource";
    proof {
        reveal_strlit("portablesource");
    }
    let mut i: usize = 0;
    while i < 14
        invariant
            i <= 14,
            start + 14 == end <= n,
            n == s.len(),
            s == path@,
            lit@ == canonical_folder(),
            lit@.len() == 14,
            leaf_of(s) == s.subrange(start as int, end as int),
            forall|j: int|
                0 <= j < i ==> lower_char(s[start + j]) == lower_char(canonical_folder()[j]),
        decreases 14 - i,
    {
        let a = path.get_char(start + i);
        let b = lit.get_char(i);
        if !chars_eq_ignore_case(a, b) {
            assert(leaf_of(s)[i as int] == s[start + i]);
            assert(!is_normalized(s));
            return false;
        }
        i = i + 1;
    }
    assert(eq_ignore_ascii_case(leaf_of(s), canonical_folder())) by {
        assert(forall|j: int|
            0 <= j < 14 ==> leaf_of(s)[j] == s[start + j]);
    }
    true
}

/// Joins a relative child under a base path, inserting `/` only where the
/// base does not already end in a separator.
pub fn join_under(base: &str, child: &str) -> (r: String)
    ensures
        r@ == path_join(base@, child@),
{
    let n = base.unicode_len();
    if n == 0 {
        return child.to_owned();
    }
    let mut r = base.to_owned();
    if !is_sep_char(base.get_char(n - 1)) {
        r.append("/");
        proof {
            reveal_strlit("/");
            assert(r@ =~= base@ + seq!['/']);
        }
        r.append(child);
        assert(r@ =~= base@ + seq!['/'] + child@);
    } else {
        r.append(child);
    }
    r
}

/// Normalizes an installation path: appends the canonical folder unless
/// the final segment already equals it, case-insensitively.
pub fn normalize_install_path(path: &str) -> (r: String)
    ensures
        r@ == normalize_spec(path@),
{
    if has_canonical_leaf(path) {
        path.to_owned()
    } else {
        join_under(path, "portablesource")
    }
}

} // verus!
