//! Commitment verification: a submission reveals a score and a salt, and the
//! pair must hash to the commitment that was published before the score was
//! revealed. The digest itself comes from SHA-256; everything around it —
//! input framing, length handling, the timing-balanced comparison — is
//! verified here.

use vstd::prelude::*;
use sha2::Digest;

verus! {

/// Required length of a salt.
pub const SALT_LEN: usize = 32;

/// The SHA-256 digest of a byte sequence. Its value is fixed by the hash
/// function alone, not restated here; the trusted wrapper below ties it to
/// the executable digest.
pub uninterp spec fn sha256_of(data: Seq<u8>) -> Seq<u8>;

/// Relies on sha2's SHA-256 (`sha2::Sha256::digest`): the digest is a
/// function of the input bytes alone and is 32 bytes long.
#[verifier::external_body]
fn sha256(data: &Vec<u8>) -> (r: Vec<u8>)
    ensures
        r@ == sha256_of(data@),
        r@.len() == 32,
{
    sha2::Sha256::digest(data.as_slice()).to_vec()
}

/// The four bytes of `x`, most significant first.
pub open spec fn u32_be_bytes(x: u32) -> Seq<u8> {
    seq![(x >> 24) as u8, (x >> 16) as u8, (x >> 8) as u8, x as u8]
}

/// What gets hashed for a commitment: the score's bytes, then the salt.
pub open spec fn commitment_input(score: u32, salt: Seq<u8>) -> Seq<u8> {
    u32_be_bytes(score) + salt
}

/// When a revealed (score, salt) pair matches a published hash: the salt has
/// the required length and the hash is exactly the digest of score-then-salt.
pub open spec fn commitment_matches(score: u32, salt: Seq<u8>, public_hash: Seq<u8>) -> bool {
    salt.len() == SALT_LEN && public_hash == sha256_of(commitment_input(score, salt))
}

fn u32_to_be_bytes(x: u32) -> (r: Vec<u8>)
    ensures
        r@ == u32_be_bytes(x),
{
    let mut r: Vec<u8> = Vec::new();
    r.push((x >> 24) as u8);
    r.push(#[verifier::truncate] ((x >> 16) as u8));
    r.push(#[verifier::truncate] ((x >> 8) as u8));
    r.push(#[verifier::truncate] (x as u8));
    proof {
        assert(r@ =~= u32_be_bytes(x));
    }
    r
}

/// The commitment digest for a revealed (score, salt) pair.
pub fn commitment_hash(score: u32, salt: &Vec<u8>) -> (r: Vec<u8>)
    ensures
        r@ == sha256_of(commitment_input(score, salt@)),
        r@.len() == 32,
{
    let mut data = u32_to_be_bytes(score);
    let mut i: usize = 0;
    while i < salt.len()
        invariant
            i <= salt@.len(),
            data@ == u32_be_bytes(score) + salt@.take(i as int),
        decreases salt@.len() - i,
    {
        proof {
            assert(salt@.take(i as int).push(salt@[i as int]) =~= salt@.take(i + 1));
        }
        data.push(salt[i]);
        i += 1;
    }
    proof {
        assert(salt@.take(salt@.len() as int) =~= salt@);
        assert(data@ =~= commitment_input(score, salt@));
    }
    sha256(&data)
}

/// Compare two byte strings of equal length by accumulating their
/// differences, so that the work done does not depend on where the first
/// mismatch lies.
fn bytes_equal_balanced(a: &Vec<u8>, b: &Vec<u8>) -> (r: bool)
    requires
        a@.len() == b@.len(),
    ensures
        r == (a@ == b@),
{
    let mut acc: u8 = 0;
    let mut i: usize = 0;
    while i < a.len()
        invariant
            i <= a@.len(),
            a@.len() == b@.len(),
            (acc == 0) <==> (forall|k: int| 0 <= k < i ==> a@[k] == b@[k]),
        decreases a@.len() - i,
    {
        let x = a[i];
        let y = b[i];
        let d = x ^ y;
        proof {
            assert((x ^ y) == 0 <==> x == y) by (bit_vector);
            assert({
                let n = acc | d;
                n == 0 <==> (acc == 0 && d == 0)
            }) by (bit_vector);
        }
        acc = acc | d;
        i += 1;
    }
    if acc == 0 {
        proof {
            assert(a@ =~= b@);
        }
        true
    } else {
        proof {
            if a@ == b@ {
                assert(forall|k: int| 0 <= k < a@.len() ==> a@[k] == b@[k]);
            }
        }
        false
    }
}

/// Check a revealed (score, salt) pair against a published commitment.
/// Fail-closed: a salt of the wrong length, a hash of the wrong length, or
/// any mismatching byte yields `false`; only the exact digest is accepted.
pub fn verify_commitment(score: u32, salt: &Vec<u8>, public_hash: &Vec<u8>) -> (r: bool)
    ensures
        r == commitment_matches(score, salt@, public_hash@),
{
    if salt.len() != SALT_LEN {
        return false;
    }
    let digest = commitment_hash(score, salt);
    if public_hash.len() != digest.len() {
        // The digest has 32 bytes, so a hash of another length differs.
        return false;
    }
    bytes_equal_balanced(public_hash, &digest)
}

/// Completeness: the digest of the revealed pair itself always matches.
pub proof fn lemma_commitment_complete(score: u32, salt: Seq<u8>)
    requires
        salt.len() == SALT_LEN,
    ensures
        commitment_matches(score, salt, sha256_of(commitment_input(score, salt))),
{
}

/// Soundness: any candidate other than the digest of the revealed pair is
/// rejected.
pub proof fn lemma_commitment_sound(score: u32, salt: Seq<u8>, candidate: Seq<u8>)
    requires
        candidate != sha256_of(commitment_input(score, salt)),
    ensures
        !commitment_matches(score, salt, candidate),
{
}

/// A hash that differs from the true digest in a single byte — a bit flip,
/// in particular — is rejected.
pub proof fn lemma_commitment_rejects_flip(score: u32, salt: Seq<u8>, flipped: Seq<u8>, k: int)
    requires
        flipped.len() == sha256_of(commitment_input(score, salt)).len(),
        0 <= k < flipped.len(),
        flipped[k] != sha256_of(commitment_input(score, salt))[k],
    ensures
        !commitment_matches(score, salt, flipped),
{
    assert(flipped != sha256_of(commitment_input(score, salt)));
}

} // verus!
