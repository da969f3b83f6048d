//! Ascending lexical order of object-literal field names, and the stable
//! ordering of an object's name/value pairs by that order. The builder emits
//! the fields of an object literal sorted by name, whatever their source
//! order.

use vstd::prelude::*;
use crate::grammar::SourceValue;

verus! {

/// Lexicographic order on character sequences by code point: `a` comes
/// before `b`, or equals it.
pub open spec fn lex_le(a: Seq<char>, b: Seq<char>) -> bool
    decreases a.len(),
{
    if a.len() == 0 {
        true
    } else if b.len() == 0 {
        false
    } else if a[0] != b[0] {
        (a[0] as int) < (b[0] as int)
    } else {
        lex_le(a.drop_first(), b.drop_first())
    }
}

/// Any two names are ordered one way or the other.
pub proof fn lemma_lex_le_total(a: Seq<char>, b: Seq<char>)
    ensures
        lex_le(a, b) || lex_le(b, a),
    decreases a.len(),
{
    if a.len() != 0 && b.len() != 0 && a[0] == b[0] {
        lemma_lex_le_total(a.drop_first(), b.drop_first());
    }
}

/// The order is transitive.
pub proof fn lemma_lex_le_trans(a: Seq<char>, b: Seq<char>, c: Seq<char>)
    requires
        lex_le(a, b),
        lex_le(b, c),
    ensures
        lex_le(a, c),
    decreases a.len(),
{
    if a.len() != 0 && b.len() != 0 && c.len() != 0 && a[0] == b[0] && b[0] == c[0] {
        lemma_lex_le_trans(a.drop_first(), b.drop_first(), c.drop_first());
    }
}

/// Relies on `str`'s comparison operators: `<=` orders strings
/// lexicographically by byte, which for UTF-8 text is code-point order.
#[verifier::external_body]
pub fn str_le(a: &str, b: &str) -> (r: bool)
    ensures
        r == lex_le(a@, b@),
{
    a <= b
}

/// The names of an object literal's pairs, in source order.
pub open spec fn obj_names(pairs: Seq<(String, SourceValue)>) -> Seq<Seq<char>> {
    Seq::new(pairs.len(), |i: int| pairs[i].0@)
}

/// `pv` lists source positions below `upto`, each at most once, in ascending
/// lexical order of their names, positions of equal name in source order.
pub open spec fn ordered_prefix(pv: Seq<int>, names: Seq<Seq<char>>, upto: int) -> bool {
    &&& pv.len() == upto
    &&& forall|k: int| 0 <= k < pv.len() ==> 0 <= #[trigger] pv[k] < upto
    &&& forall|k1: int, k2: int|
        0 <= k1 < k2 < pv.len() ==> #[trigger] pv[k1] != #[trigger] pv[k2]
    &&& forall|k1: int, k2: int|
        0 <= k1 < k2 < pv.len() ==> lex_le(names[#[trigger] pv[k1]], names[#[trigger] pv[k2]])
    &&& forall|k1: int, k2: int|
        0 <= k1 < k2 < pv.len() && names[#[trigger] pv[k1]] == names[#[trigger] pv[k2]]
            ==> pv[k1] < pv[k2]
}

/// `perm` lists every position of `names` exactly once, so that the names
/// come out in ascending lexical order, entries of equal name keeping their
/// source order.
pub open spec fn stable_sorted_perm(perm: Seq<int>, names: Seq<Seq<char>>) -> bool {
    ordered_prefix(perm, names, names.len() as int)
}

/// The positions of `perm`, as mathematical integers.
pub open spec fn perm_view(perm: Seq<usize>) -> Seq<int> {
    Seq::new(perm.len(), |k: int| perm[k] as int)
}

/// The order in which an object literal's pairs are emitted: a stable
/// ascending sort of their positions by field name.
pub fn sorted_field_order(pairs: &Vec<(String, SourceValue)>) -> (perm: Vec<usize>)
    ensures
        stable_sorted_perm(perm_view(perm@), obj_names(pairs@)),
{
    let ghost names = obj_names(pairs@);
    let mut perm: Vec<usize> = Vec::new();
    let mut idx: usize = 0;
    while idx < pairs.len()
        invariant
            idx <= pairs.len(),
            names == obj_names(pairs@),
            names.len() == pairs@.len(),
            perm@.len() == idx,
            forall|k: int| 0 <= k < perm@.len() ==> #[trigger] perm@[k] < idx,
            ordered_prefix(perm_view(perm@), names, idx as int),
        decreases pairs.len() - idx,
    {
        let ghost pv = perm_view(perm@);
        let mut j: usize = 0;
        while j < perm.len() && str_le(pairs[perm[j]].0.as_str(), pairs[idx].0.as_str())
            invariant
                idx < pairs.len(),
                names == obj_names(pairs@),
                names.len() == pairs@.len(),
                pv == perm_view(perm@),
                ordered_prefix(pv, names, idx as int),
                perm@.len() == idx,
                forall|k: int| 0 <= k < perm@.len() ==> #[trigger] perm@[k] < idx,
                j <= perm.len(),
                forall|k: int| 0 <= k < j ==> lex_le(names[#[trigger] pv[k]], names[idx as int]),
            decreases perm.len() - j,
        {
            j = j + 1;
        }
        let ghost stop = j as int;
        perm.insert(j, idx);
        proof {
            let pv2 = perm_view(perm@);
            assert(pv2 =~= pv.insert(stop, idx as int));
            // the scan stopped either at the end or at the first name above the new one
            assert(stop < pv.len() ==> !lex_le(names[pv[stop]], names[idx as int]));
            assert forall|k1: int, k2: int| 0 <= k1 < k2 < pv2.len() implies lex_le(
                names[pv2[k1]],
                names[pv2[k2]],
            ) by {
                if k1 == stop {
                    lemma_lex_le_total(names[pv[stop]], names[idx as int]);
                    if k2 > stop + 1 {
                        lemma_lex_le_trans(names[idx as int], names[pv[stop]], names[pv2[k2]]);
                    }
                }
            }
            assert forall|k1: int, k2: int|
                0 <= k1 < k2 < pv2.len() && names[pv2[k1]] == names[pv2[k2]] implies pv2[k1]
                < pv2[k2] by {
                if k1 == stop {
                    lemma_lex_le_total(names[pv[stop]], names[idx as int]);
                }
            }
            assert(ordered_prefix(pv2, names, idx + 1));
        }
        idx = idx + 1;
    }
    perm
}

} // verus!
