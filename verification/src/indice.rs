//! Secondary indices: the positions of an owner's records in an append-only
//! sequence.
//!
//! The ledger keeps, for each party, the positions of its records in the
//! primary sequence. What such an index must hold is [`posiciones`]; the lemmas
//! below say that every position resolves, that none occurs twice, that they
//! stand oldest first, and that resolving them gives the owner's records.

use vstd::prelude::*;

verus! {

/// The positions in `s` of the records that satisfy `pred`, in ascending order.
pub open spec fn posiciones<T>(s: Seq<T>, pred: spec_fn(T) -> bool) -> Seq<u32>
    decreases s.len(),
{
    if s.len() == 0 {
        Seq::<u32>::empty()
    } else {
        let antes = posiciones(s.drop_last(), pred);
        if pred(s.last()) {
            antes.push((s.len() - 1) as u32)
        } else {
            antes
        }
    }
}

/// Every position of the index is in range, refers to a record of the owner,
/// and is smaller than the positions that follow it.
pub proof fn lemma_posiciones_resuelven<T>(s: Seq<T>, pred: spec_fn(T) -> bool)
    requires
        s.len() <= u32::MAX,
    ensures
        posiciones(s, pred).len() <= s.len(),
        forall|j: int|
            0 <= j < posiciones(s, pred).len() ==> {
                &&& (#[trigger] posiciones(s, pred)[j]) < s.len()
                &&& pred(s[posiciones(s, pred)[j] as int])
            },
        forall|j: int, k: int|
            0 <= j < k < posiciones(s, pred).len() ==> posiciones(s, pred)[j] < posiciones(
                s,
                pred,
            )[k],
    decreases s.len(),
{
    if s.len() > 0 {
        lemma_posiciones_resuelven(s.drop_last(), pred);
    }
}

/// The index misses nothing: the position of every record of the owner is in it.
pub proof fn lemma_posiciones_completas<T>(s: Seq<T>, pred: spec_fn(T) -> bool, i: int)
    requires
        s.len() <= u32::MAX,
        0 <= i < s.len(),
        pred(s[i]),
    ensures
        posiciones(s, pred).contains(i as u32),
    decreases s.len(),
{
    let antes = posiciones(s.drop_last(), pred);
    if i == s.len() - 1 {
        assert(posiciones(s, pred)[antes.len() as int] == i as u32);
    } else {
        lemma_posiciones_completas(s.drop_last(), pred, i);
        let j = choose|j: int| 0 <= j < antes.len() && antes[j] == i as u32;
        assert(posiciones(s, pred)[j] == i as u32);
    }
}

/// Resolving the index, position by position, gives the owner's records in the
/// order of the primary sequence.
pub proof fn lemma_posiciones_filtran<T>(s: Seq<T>, pred: spec_fn(T) -> bool)
    requires
        s.len() <= u32::MAX,
    ensures
        s.filter(pred).len() == posiciones(s, pred).len(),
        forall|j: int|
            0 <= j < posiciones(s, pred).len() ==> #[trigger] s.filter(pred)[j] == s[posiciones(
                s,
                pred,
            )[j] as int],
    decreases s.len(),
{
    reveal(Seq::filter);
    lemma_posiciones_resuelven(s, pred);
    if s.len() > 0 {
        let resto = s.drop_last();
        lemma_posiciones_filtran(resto, pred);
        lemma_posiciones_resuelven(resto, pred);
        assert forall|j: int| 0 <= j < posiciones(s, pred).len() implies #[trigger] s.filter(
            pred,
        )[j] == s[posiciones(s, pred)[j] as int] by {
            if j < posiciones(resto, pred).len() {
                assert(s.filter(pred)[j] == resto.filter(pred)[j]);
                let i = posiciones(resto, pred)[j] as int;
                assert(resto[i] == s[i]);
            }
        }
    }
}

/// An appended record adds its position to its owner's index and to no other.
pub proof fn lemma_posiciones_push<T>(s: Seq<T>, pred: spec_fn(T) -> bool, x: T)
    ensures
        posiciones(s.push(x), pred) == if pred(x) {
            posiciones(s, pred).push(s.len() as u32)
        } else {
            posiciones(s, pred)
        },
{
    assert(s.push(x).drop_last() =~= s);
}

/// The index depends only on who owns each record: two sequences of one length
/// whose records have the same owners, position by position, have the same index.
pub proof fn lemma_posiciones_iguales<T>(a: Seq<T>, b: Seq<T>, pred: spec_fn(T) -> bool)
    requires
        a.len() == b.len(),
        forall|i: int| 0 <= i < a.len() ==> pred(#[trigger] a[i]) == pred(b[i]),
    ensures
        posiciones(a, pred) == posiciones(b, pred),
    decreases a.len(),
{
    if a.len() > 0 {
        lemma_posiciones_iguales(a.drop_last(), b.drop_last(), pred);
    }
}

/// A party that owns no record has an empty index.
pub proof fn lemma_posiciones_vacias<T>(s: Seq<T>, pred: spec_fn(T) -> bool)
    requires
        forall|i: int| 0 <= i < s.len() ==> !pred(#[trigger] s[i]),
    ensures
        posiciones(s, pred) == Seq::<u32>::empty(),
    decreases s.len(),
{
    if s.len() > 0 {
        lemma_posiciones_vacias(s.drop_last(), pred);
    }
}

/// An appended record extends its owner's selection by itself and leaves the
/// selection of every other party as it was.
pub proof fn lemma_filter_push<T>(s: Seq<T>, pred: spec_fn(T) -> bool, x: T)
    ensures
        s.push(x).filter(pred) == if pred(x) {
            s.filter(pred).push(x)
        } else {
            s.filter(pred)
        },
{
    reveal(Seq::filter);
    assert(s.push(x).drop_last() =~= s);
}

} // verus!
