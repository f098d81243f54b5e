//! The 32-byte digest primitive and its canonical byte-wise order.
//!
//! The digest is a running XOR fold: byte `i` of the input is XOR-ed into
//! position `i mod 32` of a zeroed 32-byte state. It is deliberately not
//! collision resistant; deployments that move real value must substitute a
//! cryptographic hash behind the same fixed-width, deterministic
//! interface.

use vstd::prelude::*;

verus! {

broadcast use vstd::array::group_array_axioms;

/// The all-zero 32-byte digest, the initial fold state.
pub open spec fn zero_digest() -> Seq<u8> {
    Seq::new(32, |i: int| 0u8)
}

/// The fold state after the first `n` bytes of `data` have been absorbed.
pub open spec fn xor_fold_prefix(data: Seq<u8>, n: int) -> Seq<u8>
    decreases n,
{
    if n <= 0 {
        zero_digest()
    } else {
        let prev = xor_fold_prefix(data, n - 1);
        prev.update((n - 1) % 32, prev[(n - 1) % 32] ^ data[n - 1])
    }
}

/// The digest of `data`: every byte absorbed, in order.
pub open spec fn xor_fold(data: Seq<u8>) -> Seq<u8> {
    xor_fold_prefix(data, data.len() as int)
}

/// Canonical digest order, decided at byte offset `i` and later:
/// lexicographic, first differing byte wins, equal digests compare as
/// less-or-equal.
pub open spec fn lex_le_from(a: Seq<u8>, b: Seq<u8>, i: int) -> bool
    decreases 32 - i,
{
    if i >= 32 {
        true
    } else if a[i] < b[i] {
        true
    } else if b[i] < a[i] {
        false
    } else {
        lex_le_from(a, b, i + 1)
    }
}

/// `a` comes no later than `b` in the canonical digest order.
pub open spec fn canonical_le(a: Seq<u8>, b: Seq<u8>) -> bool {
    lex_le_from(a, b, 0)
}

/// The canonical order is total: two digests always compare one way or
/// the other.
pub proof fn lemma_canonical_le_total(a: Seq<u8>, b: Seq<u8>)
    ensures
        canonical_le(a, b) || canonical_le(b, a),
{
    lemma_lex_le_total(a, b, 0);
}

proof fn lemma_lex_le_total(a: Seq<u8>, b: Seq<u8>, i: int)
    requires
        0 <= i <= 32,
    ensures
        lex_le_from(a, b, i) || lex_le_from(b, a, i),
    decreases 32 - i,
{
    if i < 32 && a[i] == b[i] {
        lemma_lex_le_total(a, b, i + 1);
    }
}

/// The canonical order is antisymmetric on full-width digests: if each
/// comes no later than the other, they are byte-for-byte equal.
pub proof fn lemma_canonical_le_antisymmetric(a: Seq<u8>, b: Seq<u8>)
    requires
        a.len() == 32,
        b.len() == 32,
        canonical_le(a, b),
        canonical_le(b, a),
    ensures
        a =~= b,
{
    lemma_lex_le_antisymmetric(a, b, 0);
}

proof fn lemma_lex_le_antisymmetric(a: Seq<u8>, b: Seq<u8>, i: int)
    requires
        a.len() == 32,
        b.len() == 32,
        0 <= i <= 32,
        lex_le_from(a, b, i),
        lex_le_from(b, a, i),
        forall|j: int| 0 <= j < i ==> a[j] == b[j],
    ensures
        a =~= b,
    decreases 32 - i,
{
    if i < 32 {
        assert(a[i] == b[i]);
        lemma_lex_le_antisymmetric(a, b, i + 1);
    }
}

/// The byte a fold position holds after `n` of 64 input bytes: zero
/// before byte `i` arrives, the first-half byte alone next, both halves
/// XOR-ed together once byte `i + 32` has landed on the same position.
spec fn pair_state(data: Seq<u8>, n: int, i: int) -> u8 {
    if n >= i + 33 {
        data[i] ^ data[i + 32]
    } else if n >= i + 1 {
        data[i]
    } else {
        0u8
    }
}

proof fn lemma_prefix_len(data: Seq<u8>, n: int)
    requires
        n >= 0,
    ensures
        xor_fold_prefix(data, n).len() == 32,
    decreases n,
{
    if n > 0 {
        lemma_prefix_len(data, n - 1);
    }
}

proof fn lemma_pair_fold_state(data: Seq<u8>, n: int)
    requires
        data.len() == 64,
        0 <= n <= 64,
    ensures
        xor_fold_prefix(data, n).len() == 32,
        forall|i: int| 0 <= i < 32 ==> xor_fold_prefix(data, n)[i] == pair_state(data, n, i),
    decreases n,
{
    lemma_prefix_len(data, n);
    if n > 0 {
        lemma_pair_fold_state(data, n - 1);
        let prev = xor_fold_prefix(data, n - 1);
        let pos = (n - 1) % 32;
        if n <= 32 {
            assert(pos == n - 1);
        } else {
            assert(pos == n - 33);
        }
        assert(xor_fold_prefix(data, n) == prev.update(pos, prev[pos] ^ data[n - 1]));
        assert forall|i: int| 0 <= i < 32 implies xor_fold_prefix(data, n)[i] == pair_state(
            data,
            n,
            i,
        ) by {
            assert(prev[i] == pair_state(data, n - 1, i));
            if i == pos {
                assert(xor_fold_prefix(data, n)[i] == prev[pos] ^ data[n - 1]);
                if n <= 32 {
                    let x = data[n - 1];
                    assert(prev[i] == 0u8);
                    assert(0u8 ^ x == x) by (bit_vector);
                } else {
                    assert(prev[i] == data[i]);
                }
            } else {
                assert(xor_fold_prefix(data, n)[i] == prev[i]);
            }
        }
    }
}

/// On a 64-byte input the fold collapses to a byte-wise XOR of the two
/// halves: position `i` of the digest absorbs exactly bytes `i` and
/// `i + 32`.
pub proof fn lemma_xor_fold_pair(data: Seq<u8>)
    requires
        data.len() == 64,
    ensures
        xor_fold(data) =~= Seq::new(32, |i: int| data[i] ^ data[i + 32]),
{
    lemma_pair_fold_state(data, 64);
    assert forall|i: int| 0 <= i < 32 implies xor_fold(data)[i] == data[i] ^ data[i + 32] by {
        assert(xor_fold(data)[i] == pair_state(data, 64, i));
    }
}

/// Absorbs `data` into a zeroed 32-byte state, one byte at a time.
pub fn simple_hash(data: &Vec<u8>) -> (r: [u8; 32])
    ensures
        r@ == xor_fold(data@),
{
    let mut h: [u8; 32] = [0u8; 32];
    proof {
        assert(h@ =~= zero_digest());
    }
    let mut i: usize = 0;
    while i < data.len()
        invariant
            i <= data@.len(),
            h@ == xor_fold_prefix(data@, i as int),
        decreases data@.len() - i,
    {
        let slot = i % 32;
        h[slot] = h[slot] ^ data[i];
        proof {
            assert(slot as int == (i as int) % 32);
        }
        i = i + 1;
    }
    h
}

/// Compares two digests in the canonical order.
pub fn digest_le(a: &[u8; 32], b: &[u8; 32]) -> (r: bool)
    ensures
        r == canonical_le(a@, b@),
{
    let mut i: usize = 0;
    while i < 32
        invariant
            i <= 32,
            canonical_le(a@, b@) == lex_le_from(a@, b@, i as int),
        decreases 32 - i,
    {
        if a[i] < b[i] {
            return true;
        }
        if b[i] < a[i] {
            return false;
        }
        i = i + 1;
    }
    true
}

/// Byte-for-byte digest equality.
pub fn digest_eq(a: &[u8; 32], b: &[u8; 32]) -> (r: bool)
    ensures
        r == (a@ == b@),
{
    let mut i: usize = 0;
    while i < 32
        invariant
            i <= 32,
            forall|j: int| 0 <= j < i ==> a@[j] == b@[j],
        decreases 32 - i,
    {
        if a[i] != b[i] {
            assert(a@ != b@);
            return false;
        }
        i = i + 1;
    }
    assert(a@ =~= b@);
    true
}

} // verus!
