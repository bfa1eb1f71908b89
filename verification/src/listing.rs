//! Folder listings: hidden entries dropped, the rest sorted.
//!
//! The caller reads a directory and hands over the folder names it
//! found; this module keeps every name not starting with a dot and
//! returns them sorted lexicographically by character code, the order
//! strings compare in.

use vstd::prelude::*;
use vstd::string::*;
use vstd::seq_lib::group_to_multiset_ensures;

verus! {

/// A folder name the listing hides: it starts with a dot.
pub open spec fn is_hidden(name: Seq<char>) -> bool {
    name.len() > 0 && name[0] == '.'
}

/// The visible names of a listing, in their original order.
pub open spec fn visible_of(names: Seq<Seq<char>>) -> Seq<Seq<char>>
    decreases names.len(),
{
    if names.len() == 0 {
        Seq::<Seq<char>>::empty()
    } else {
        let rest = visible_of(names.drop_last());
        if is_hidden(names.last()) {
            rest
        } else {
            rest.push(names.last())
        }
    }
}

/// Lexicographic order on character sequences, by code point.
pub open spec fn lex_le(a: Seq<char>, b: Seq<char>) -> bool
    decreases a.len(),
{
    if a.len() == 0 {
        true
    } else if b.len() == 0 {
        false
    } else if (a[0] as u32) < (b[0] as u32) {
        true
    } else if (a[0] as u32) > (b[0] as u32) {
        false
    } else {
        lex_le(a.skip(1), b.skip(1))
    }
}

/// The listing is sorted by [`lex_le`].
pub open spec fn sorted_lex(s: Seq<Seq<char>>) -> bool {
    forall|p: int, q: int| 0 <= p < q < s.len() ==> lex_le(s[p], s[q])
}

/// The order is total: of any two sequences one comes first.
pub proof fn lemma_lex_le_total(a: Seq<char>, b: Seq<char>)
    ensures
        lex_le(a, b) || lex_le(b, a),
    decreases a.len(),
{
    if a.len() > 0 && b.len() > 0 && a[0] as u32 == b[0] as u32 {
        lemma_lex_le_total(a.skip(1), b.skip(1));
    }
}

/// The order is transitive.
pub proof fn lemma_lex_le_trans(a: Seq<char>, b: Seq<char>, c: Seq<char>)
    requires
        lex_le(a, b),
        lex_le(b, c),
    ensures
        lex_le(a, c),
    decreases a.len(),
{
    if a.len() > 0 && b.len() > 0 && c.len() > 0 && a[0] as u32 == b[0] as u32 && b[0] as u32
        == c[0] as u32 {
        lemma_lex_le_trans(a.skip(1), b.skip(1), c.skip(1));
    }
}

/// How one more name changes the visible listing.
proof fn lemma_visible_push(names: Seq<Seq<char>>, x: Seq<char>)
    ensures
        visible_of(names.push(x)) == (if is_hidden(x) {
            visible_of(names)
        } else {
            visible_of(names).push(x)
        }),
{
    assert(names.push(x).drop_last() =~= names);
    assert(names.push(x).last() == x);
}

/// Compares two strings in lexicographic order.
pub fn str_lex_le(a: &str, b: &str) -> (r: bool)
    ensures
        r == lex_le(a@, b@),
{
    let na = a.unicode_len();
    let nb = b.unicode_len();
    let mut i: usize = 0;
    assert(a@.skip(0) =~= a@);
    assert(b@.skip(0) =~= b@);
    while i < na && i < nb
        invariant
            i <= na,
            i <= nb,
            na == a@.len(),
            nb == b@.len(),
            lex_le(a@, b@) == lex_le(a@.skip(i as int), b@.skip(i as int)),
        decreases na - i,
    {
        let ca = a.get_char(i);
        let cb = b.get_char(i);
        let xa = ca as u32;
        let xb = cb as u32;
        assert(a@.skip(i as int)[0] == a@[i as int]);
        assert(b@.skip(i as int)[0] == b@[i as int]);
        if xa < xb {
            return true;
        }
        if xa > xb {
            return false;
        }
        proof {
            assert(a@.skip(i as int).skip(1) =~= a@.skip(i + 1));
            assert(b@.skip(i as int).skip(1) =~= b@.skip(i + 1));
        }
        i = i + 1;
    }
    if na <= nb {
        assert(a@.skip(i as int).len() == 0);
        true
    } else {
        assert(b@.skip(i as int).len() == 0);
        assert(a@.skip(i as int).len() > 0);
        false
    }
}

/// Whether the listing hides this name.
fn name_is_hidden(name: &str) -> (b: bool)
    ensures
        b == is_hidden(name@),
{
    name.unicode_len() > 0 && name.get_char(0) == '.'
}

/// The visible folders of a directory listing, sorted.
///
/// Keeps every name not starting with a dot and returns them in
/// lexicographic order: the result is sorted and holds exactly the
/// visible names, multiplicities included.
pub fn visible_folders(names: &Vec<String>) -> (r: Vec<String>)
    ensures
        sorted_lex(r.deep_view()),
        r.deep_view().to_multiset() == visible_of(names.deep_view()).to_multiset(),
{
    broadcast use group_to_multiset_ensures;

    let ghost dv = names.deep_view();
    let n = names.len();
    let mut r: Vec<String> = Vec::new();
    let mut i: usize = 0;
    assert(r.deep_view() =~= visible_of(dv.take(0)));
    while i < n
        invariant
            i <= n == names.len(),
            dv == names.deep_view(),
            sorted_lex(r.deep_view()),
            r.deep_view().to_multiset() == visible_of(dv.take(i as int)).to_multiset(),
        decreases n - i,
    {
        broadcast use group_to_multiset_ensures;

        let name = names[i].clone();
        assert(name@ == dv[i as int]);
        let ghost pre = r.deep_view();
        if !name_is_hidden(name.as_str()) {
            let mut j: usize = 0;
            while j < r.len() && str_lex_le(r[j].as_str(), name.as_str())
                invariant
                    j <= r.len(),
                    pre == r.deep_view(),
                    forall|m: int| 0 <= m < j ==> lex_le(pre[m], name@),
                decreases r.len() - j,
            {
                assert(r.deep_view()[j as int] == r@[j as int]@);
                j = j + 1;
            }
            let ghost x = name@;
            proof {
                if j < r.len() {
                    assert(pre[j as int] == r@[j as int]@);
                    lemma_lex_le_total(pre[j as int], x);
                }
            }
            let ghost prevec = r@;
            r.insert(j, name);
            proof {
                prevec.insert_ensures(j as int, name);
                pre.insert_ensures(j as int, x);
                let d2 = pre.insert(j as int, x);
                assert(r.deep_view() =~= d2) by {
                    assert(forall|m: int|
                        0 <= m < r@.len() ==> #[trigger] r.deep_view()[m] == r@[m]@);
                };
                assert forall|p: int, q: int| 0 <= p < q < d2.len() implies lex_le(
                    d2[p],
                    d2[q],
                ) by {
                    if q < j {
                        assert(lex_le(pre[p], pre[q]));
                    } else if q == j {
                        assert(lex_le(pre[p], x));
                    } else if p < j {
                        assert(p < q - 1);
                        assert(lex_le(pre[p], pre[q - 1]));
                    } else if p == j {
                        assert(lex_le(x, pre[j as int]));
                        if q - 1 > j {
                            lemma_lex_le_trans(x, pre[j as int], pre[q - 1]);
                        }
                    } else {
                        assert(lex_le(pre[p - 1], pre[q - 1]));
                    }
                };
                assert(d2.to_multiset() == pre.to_multiset().insert(x));
                assert(visible_of(dv.take(i as int)).push(x).to_multiset() == visible_of(
                    dv.take(i as int),
                ).to_multiset().insert(x));
            }
        }
        proof {
            assert(dv.take(i + 1) =~= dv.take(i as int).push(dv[i as int]));
            lemma_visible_push(dv.take(i as int), dv[i as int]);
        }
        i = i + 1;
    }
    proof {
        assert(dv.take(n as int) =~= dv);
    }
    r
}

} // verus!
