//! The commitment verifier: Merkle inclusion proofs against a trusted root.
//!
//! A proof is an ordered list of 32-byte sibling digests. Verification
//! folds the leaf through the list: at each step the running digest and
//! the next sibling are concatenated with the canonically smaller one
//! first and the pair is hashed. The proof is accepted exactly when the
//! final digest equals the root. The verifier never raises an error; a
//! `false` answer means authorization denied.

use vstd::prelude::*;

use crate::hash::canonical_le;
use crate::hash::digest_eq;
use crate::hash::digest_le;
use crate::hash::lemma_canonical_le_antisymmetric;
use crate::hash::lemma_canonical_le_total;
use crate::hash::lemma_xor_fold_pair;
use crate::hash::simple_hash;
use crate::hash::xor_fold;

verus! {

/// One combining step: hash the pair with the canonically smaller digest
/// first.
pub open spec fn combine_spec(a: Seq<u8>, b: Seq<u8>) -> Seq<u8> {
    if canonical_le(a, b) {
        xor_fold(a + b)
    } else {
        xor_fold(b + a)
    }
}

/// The digest reached by folding `leaf` through `siblings` in list order.
pub open spec fn fold_siblings(leaf: Seq<u8>, siblings: Seq<Seq<u8>>) -> Seq<u8>
    decreases siblings.len(),
{
    if siblings.len() == 0 {
        leaf
    } else {
        fold_siblings(combine_spec(leaf, siblings[0]), siblings.drop_first())
    }
}

/// The verifier's whole contract: the fold of `leaf` through `siblings`
/// reproduces `root`.
pub open spec fn proof_accepted(siblings: Seq<Seq<u8>>, root: Seq<u8>, leaf: Seq<u8>) -> bool {
    fold_siblings(leaf, siblings) == root
}

/// The byte sequences behind a list of digests.
pub open spec fn digests_view(ds: Seq<[u8; 32]>) -> Seq<Seq<u8>> {
    ds.map_values(|d: [u8; 32]| d@)
}

/// A combining step is side-blind: the pair hashes the same whichever of
/// the two digests the caller holds as the running value and whichever as
/// the sibling, because the canonical order is applied internally.
pub proof fn lemma_combine_side_blind(a: Seq<u8>, b: Seq<u8>)
    requires
        a.len() == 32,
        b.len() == 32,
    ensures
        combine_spec(a, b) == combine_spec(b, a),
{
    lemma_canonical_le_total(a, b);
    if canonical_le(a, b) && canonical_le(b, a) {
        lemma_canonical_le_antisymmetric(a, b);
        assert(a + b =~= b + a);
    }
}

/// A combining step, in closed form: with the running-XOR fold as the
/// digest primitive, hashing the canonical 64-byte concatenation is
/// exactly the byte-wise XOR of the two digests, whichever order they
/// were concatenated in.
pub proof fn lemma_combine_bytewise_xor(a: Seq<u8>, b: Seq<u8>)
    requires
        a.len() == 32,
        b.len() == 32,
    ensures
        combine_spec(a, b) =~= Seq::new(32, |i: int| a[i] ^ b[i]),
{
    if canonical_le(a, b) {
        lemma_xor_fold_pair(a + b);
        assert forall|i: int| 0 <= i < 32 implies combine_spec(a, b)[i] == a[i] ^ b[i] by {
            assert((a + b)[i] == a[i]);
            assert((a + b)[i + 32] == b[i]);
        }
    } else {
        lemma_xor_fold_pair(b + a);
        assert forall|i: int| 0 <= i < 32 implies combine_spec(a, b)[i] == a[i] ^ b[i] by {
            assert((b + a)[i] == b[i]);
            assert((b + a)[i + 32] == a[i]);
            let x = a[i];
            let y = b[i];
            assert(y ^ x == x ^ y) by (bit_vector);
        }
    }
}

/// A consequence of the byte-wise-XOR closed form: a two-sibling proof
/// folds to the same digest in either list order. The XOR primitive
/// makes the verifier blind to the order of equal-width siblings, not
/// only to the side each one sits on; a substituted collision-resistant
/// hash would not share this property.
pub proof fn lemma_two_siblings_fold_alike(leaf: Seq<u8>, s1: Seq<u8>, s2: Seq<u8>)
    requires
        leaf.len() == 32,
        s1.len() == 32,
        s2.len() == 32,
    ensures
        fold_siblings(leaf, seq![s1, s2]) =~= fold_siblings(leaf, seq![s2, s1]),
{
    lemma_combine_bytewise_xor(leaf, s1);
    lemma_combine_bytewise_xor(leaf, s2);
    let c1 = combine_spec(leaf, s1);
    let c2 = combine_spec(leaf, s2);
    lemma_combine_bytewise_xor(c1, s2);
    lemma_combine_bytewise_xor(c2, s1);
    assert forall|i: int| 0 <= i < 32 implies combine_spec(c1, s2)[i] == combine_spec(c2, s1)[i] by {
        let l = leaf[i];
        let x = s1[i];
        let y = s2[i];
        assert((l ^ x) ^ y == (l ^ y) ^ x) by (bit_vector);
    }
    assert(combine_spec(c1, s2) =~= combine_spec(c2, s1));
    assert(seq![s1, s2].drop_first() =~= seq![s2]);
    assert(seq![s2, s1].drop_first() =~= seq![s1]);
    assert(seq![s2].drop_first() =~= Seq::<Seq<u8>>::empty());
    assert(seq![s1].drop_first() =~= Seq::<Seq<u8>>::empty());
    assert(fold_siblings(leaf, seq![s1, s2]) == fold_siblings(c1, seq![s2]));
    assert(fold_siblings(c1, seq![s2]) == fold_siblings(
        combine_spec(c1, s2),
        Seq::<Seq<u8>>::empty(),
    ));
    assert(fold_siblings(leaf, seq![s2, s1]) == fold_siblings(c2, seq![s1]));
    assert(fold_siblings(c2, seq![s1]) == fold_siblings(
        combine_spec(c2, s1),
        Seq::<Seq<u8>>::empty(),
    ));
}

/// One combining step, executably: concatenate in canonical order, then
/// hash.
pub fn combine_digests(a: &[u8; 32], b: &[u8; 32]) -> (r: [u8; 32])
    ensures
        r@ == combine_spec(a@, b@),
{
    let a_first = digest_le(a, b);
    let (first, second): (&[u8; 32], &[u8; 32]) = if a_first { (a, b) } else { (b, a) };
    let mut data: Vec<u8> = Vec::new();
    let mut i: usize = 0;
    while i < 32
        invariant
            i <= 32,
            data@ =~= first@.take(i as int),
        decreases 32 - i,
    {
        data.push(first[i]);
        proof {
            assert(first@.take(i as int + 1) =~= first@.take(i as int).push(first@[i as int]));
        }
        i = i + 1;
    }
    proof {
        assert(first@.take(32) =~= first@);
    }
    let mut j: usize = 0;
    while j < 32
        invariant
            j <= 32,
            data@ =~= first@ + second@.take(j as int),
        decreases 32 - j,
    {
        data.push(second[j]);
        proof {
            assert(first@ + second@.take(j as int + 1) =~= (first@ + second@.take(
                j as int,
            )).push(second@[j as int]));
        }
        j = j + 1;
    }
    proof {
        assert(second@.take(32) =~= second@);
        assert(data@ =~= first@ + second@);
    }
    simple_hash(&data)
}

/// Checks a Merkle inclusion proof: folds `leaf_hash` through
/// `merkle_proof` in list order, combining canonically at each step, and
/// accepts exactly when the result is `root`.
pub fn verify_merkle_proof(merkle_proof: &Vec<[u8; 32]>, root: [u8; 32], leaf_hash: [u8; 32]) -> (r:
    bool)
    ensures
        r == proof_accepted(digests_view(merkle_proof@), root@, leaf_hash@),
{
    let ghost siblings = digests_view(merkle_proof@);
    let mut computed: [u8; 32] = leaf_hash;
    proof {
        assert(siblings.skip(0) =~= siblings);
    }
    let mut i: usize = 0;
    while i < merkle_proof.len()
        invariant
            i <= merkle_proof@.len(),
            siblings == digests_view(merkle_proof@),
            fold_siblings(leaf_hash@, siblings) == fold_siblings(computed@, siblings.skip(i as int)),
        decreases merkle_proof@.len() - i,
    {
        let sibling = merkle_proof[i];
        let next = combine_digests(&computed, &sibling);
        proof {
            let rest = siblings.skip(i as int);
            assert(rest[0] == merkle_proof@[i as int]@);
            assert(rest.drop_first() =~= siblings.skip(i as int + 1));
            assert(fold_siblings(computed@, rest) == fold_siblings(
                combine_spec(computed@, rest[0]),
                rest.drop_first(),
            ));
            assert(rest[0] == sibling@);
        }
        computed = next;
        i = i + 1;
    }
    proof {
        assert(siblings.skip(siblings.len() as int) =~= Seq::<Seq<u8>>::empty());
    }
    digest_eq(&computed, &root)
}

} // verus!
