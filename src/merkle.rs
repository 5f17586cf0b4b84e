//! Leaf hashing and sorted-pair Merkle proof verification.
use anchor_lang::solana_program::keccak;
use crate::state::Pubkey;
use vstd::bytes::{
    lemma_auto_spec_u64_to_from_le_bytes, spec_u64_from_le_bytes, spec_u64_to_le_bytes,
    u64_to_le_bytes,
};
use vstd::prelude::*;

verus! {

/// The Keccak-256 digest of a byte string.
pub uninterp spec fn keccak_of(data: Seq<u8>) -> Seq<u8>;

/// Relies on anchor_lang::solana_program::keccak::hashv: it feeds each part to
/// one Keccak-256 hasher in order, so with a single part the result is the
/// 32-byte digest of that part alone.
#[verifier::external_body]
fn keccak256(data: &[u8]) -> (r: [u8; 32])
    ensures
        r@ == keccak_of(data@),
{
    keccak::hashv(&[data]).0
}

/// Lexicographic order on byte strings of equal length: `a` sorts no later than `b`.
pub open spec fn lex_le(a: Seq<u8>, b: Seq<u8>) -> bool {
    a == b || exists|k: int|
        #![trigger a[k], b[k]]
        0 <= k < a.len() && k < b.len() && a[k] < b[k] && forall|j: int|
            0 <= j < k ==> a[j] == b[j]
}

/// The parent of two nodes in a sorted Merkle tree: the smaller digest is hashed first.
pub open spec fn node_of(a: Seq<u8>, b: Seq<u8>) -> Seq<u8> {
    if lex_le(a, b) {
        keccak_of(a + b)
    } else {
        keccak_of(b + a)
    }
}

/// The digest reached by folding the proof, left to right, into the leaf.
pub open spec fn fold_proof(leaf: Seq<u8>, proof: Seq<[u8; 32]>) -> Seq<u8>
    decreases proof.len(),
{
    if proof.len() == 0 {
        leaf
    } else {
        node_of(fold_proof(leaf, proof.drop_last()), proof.last()@)
    }
}

/// The bytes hashed into a leaf: wallet, then epoch and the two amounts as
/// little-endian 64-bit integers.
pub open spec fn leaf_preimage(wallet: Seq<u8>, epoch_id: u64, amount_sol: u64, amount_token: u64) -> Seq<u8> {
    wallet + spec_u64_to_le_bytes(epoch_id) + spec_u64_to_le_bytes(amount_sol)
        + spec_u64_to_le_bytes(amount_token)
}

/// The leaf digest that commits to a wallet's entitlement for an epoch.
pub open spec fn leaf_of(wallet: Seq<u8>, epoch_id: u64, amount_sol: u64, amount_token: u64) -> Seq<u8> {
    keccak_of(leaf_preimage(wallet, epoch_id, amount_sol, amount_token))
}

/// A leaf commits to every field of a claim: two claims whose leaf preimages
/// are equal name the same wallet, epoch and amounts. So a claim with any
/// field changed hashes different bytes than the claim the tree was built on.
pub proof fn lemma_leaf_preimage_injective(
    w1: Seq<u8>,
    e1: u64,
    a1: u64,
    b1: u64,
    w2: Seq<u8>,
    e2: u64,
    a2: u64,
    b2: u64,
)
    requires
        w1.len() == 32,
        w2.len() == 32,
        leaf_preimage(w1, e1, a1, b1) == leaf_preimage(w2, e2, a2, b2),
    ensures
        w1 == w2,
        e1 == e2,
        a1 == a2,
        b1 == b2,
{
    lemma_auto_spec_u64_to_from_le_bytes();
    let p1 = leaf_preimage(w1, e1, a1, b1);
    let p2 = leaf_preimage(w2, e2, a2, b2);
    assert(w1 =~= p1.subrange(0, 32));
    assert(w2 =~= p2.subrange(0, 32));
    assert(spec_u64_to_le_bytes(e1) =~= p1.subrange(32, 40));
    assert(spec_u64_to_le_bytes(e2) =~= p2.subrange(32, 40));
    assert(spec_u64_to_le_bytes(a1) =~= p1.subrange(40, 48));
    assert(spec_u64_to_le_bytes(a2) =~= p2.subrange(40, 48));
    assert(spec_u64_to_le_bytes(b1) =~= p1.subrange(48, 56));
    assert(spec_u64_to_le_bytes(b2) =~= p2.subrange(48, 56));
    assert(spec_u64_from_le_bytes(spec_u64_to_le_bytes(e1)) == e1);
    assert(spec_u64_from_le_bytes(spec_u64_to_le_bytes(e2)) == e2);
    assert(spec_u64_from_le_bytes(spec_u64_to_le_bytes(a1)) == a1);
    assert(spec_u64_from_le_bytes(spec_u64_to_le_bytes(a2)) == a2);
    assert(spec_u64_from_le_bytes(spec_u64_to_le_bytes(b1)) == b1);
    assert(spec_u64_from_le_bytes(spec_u64_to_le_bytes(b2)) == b2);
}

/// Whether two digests hold the same bytes.
pub fn digest_eq(a: &[u8; 32], b: &[u8; 32]) -> (r: bool)
    ensures
        r == (a@ == b@),
{
    let mut i: usize = 0;
    while i < 32
        invariant
            0 <= i <= 32,
            forall|j: int| 0 <= j < i ==> a@[j] == b@[j],
        decreases 32 - i,
    {
        if a[i] != b[i] {
            assert(a@[i as int] != b@[i as int]);
            return false;
        }
        i += 1;
    }
    assert(a@ =~= b@);
    true
}

/// Whether `a` sorts no later than `b`, byte by byte.
pub fn digest_le(a: &[u8; 32], b: &[u8; 32]) -> (r: bool)
    ensures
        r == lex_le(a@, b@),
{
    let mut i: usize = 0;
    while i < 32
        invariant
            0 <= i <= 32,
            forall|j: int| 0 <= j < i ==> a@[j] == b@[j],
        decreases 32 - i,
    {
        if a[i] != b[i] {
            let ghost k = i as int;
            if a[i] < b[i] {
                assert(a@[k] < b@[k]);
                return true;
            } else {
                assert(a@ != b@) by {
                    assert(a@[k] != b@[k]);
                }
                assert forall|m: int|
                    0 <= m < a@.len() && m < b@.len() && a@[m] < b@[m] implies !(forall|j: int|
                        0 <= j < m ==> a@[j] == b@[j]) by {
                    if m < k {
                    } else {
                        assert(0 <= k < m);
                    }
                }
                return false;
            }
        }
        i += 1;
    }
    assert(a@ =~= b@);
    true
}

fn append_bytes(buf: &mut Vec<u8>, src: &[u8])
    ensures
        final(buf)@ == old(buf)@ + src@,
{
    let mut i: usize = 0;
    while i < src.len()
        invariant
            0 <= i <= src@.len(),
            buf@ == old(buf)@ + src@.subrange(0, i as int),
        decreases src@.len() - i,
    {
        buf.push(src[i]);
        i += 1;
        assert(src@.subrange(0, i as int) =~= src@.subrange(0, i - 1) + seq![src@[i - 1]]);
    }
    assert(src@.subrange(0, src@.len() as int) =~= src@);
}

/// The parent node of two digests in a sorted Merkle tree.
pub fn hash_pair(a: &[u8; 32], b: &[u8; 32]) -> (r: [u8; 32])
    ensures
        r@ == node_of(a@, b@),
{
    let mut buf: Vec<u8> = Vec::new();
    if digest_le(a, b) {
        append_bytes(&mut buf, a);
        append_bytes(&mut buf, b);
        keccak256(buf.as_slice())
    } else {
        append_bytes(&mut buf, b);
        append_bytes(&mut buf, a);
        keccak256(buf.as_slice())
    }
}

/// Verify a Merkle proof for a leaf: fold the siblings into the leaf with
/// sorted-pair hashing and compare the result with the root.
pub fn verify_proof(proof: &[[u8; 32]], root: [u8; 32], leaf: [u8; 32]) -> (r: bool)
    ensures
        r == (fold_proof(leaf@, proof@) == root@),
{
    let mut computed_hash = leaf;
    let mut i: usize = 0;
    while i < proof.len()
        invariant
            0 <= i <= proof@.len(),
            computed_hash@ == fold_proof(leaf@, proof@.subrange(0, i as int)),
        decreases proof@.len() - i,
    {
        let ghost before = proof@.subrange(0, i as int);
        computed_hash = hash_pair(&computed_hash, &proof[i]);
        i += 1;
        proof {
            let now = proof@.subrange(0, i as int);
            assert(now.drop_last() =~= before);
        }
    }
    assert(proof@.subrange(0, proof@.len() as int) =~= proof@);
    digest_eq(&computed_hash, &root)
}

/// Compute the leaf digest for a claim of a wallet in an epoch.
pub fn compute_leaf(wallet: &Pubkey, epoch_id: u64, amount_sol: u64, amount_token: u64) -> (r: [u8; 32])
    ensures
        r@ == leaf_of(wallet@, epoch_id, amount_sol, amount_token),
{
    let mut buf: Vec<u8> = Vec::new();
    append_bytes(&mut buf, &wallet.bytes);
    let e = u64_to_le_bytes(epoch_id);
    append_bytes(&mut buf, e.as_slice());
    let s = u64_to_le_bytes(amount_sol);
    append_bytes(&mut buf, s.as_slice());
    let t = u64_to_le_bytes(amount_token);
    append_bytes(&mut buf, t.as_slice());
    keccak256(buf.as_slice())
}

} // verus!
