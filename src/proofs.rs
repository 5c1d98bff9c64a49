//! Commitments, range proofs and stealth addresses of private requests.
//!
//! These are placeholder checks, not sound proof verification: they bind the
//! proof bytes to the request's values through a hash and apply a simple test
//! to the digest, so that a real range-proof or ownership-proof system can
//! take their place without changing the lifecycle.
//!
//! Each check hashes its inputs and then decides on the digest. The decision
//! on a digest stands in a function of its own, so that it can be checked on
//! any digest.

use vstd::prelude::*;
use vstd::bytes::{spec_u64_to_le_bytes, u64_to_le_bytes};
use crate::address::{Address, append_bytes, same_address};
use crate::digest::{hkdf_sha256, hkdf_sha256_of, sha256, sha256_of, sha3_256, sha3_256_of};
use crate::private::ZkPaymentRequestError;

verus! {

/// Shortest range proof accepted.
pub const MIN_RANGE_PROOF_LEN: usize = 64;
/// Longest range proof that a request can store.
pub const MAX_RANGE_PROOF_LEN: usize = 512;
/// Shortest payment proof accepted.
pub const MIN_PAYMENT_PROOF_LEN: usize = 64;
/// Shortest ownership proof accepted.
pub const MIN_OWNERSHIP_PROOF_LEN: usize = 32;
/// Longest ownership proof that a request can store.
pub const MAX_OWNERSHIP_PROOF_LEN: usize = 256;
/// A range-proof digest must have more non-zero bytes than this.
pub const RANGE_DIGEST_MIN_NONZERO: usize = 16;
/// An ownership digest must have more non-zero bytes than this.
pub const OWNERSHIP_DIGEST_MIN_NONZERO: usize = 20;

/// The number of non-zero bytes in `s`.
pub open spec fn nonzero_count(s: Seq<u8>) -> nat
    decreases s.len(),
{
    if s.len() == 0 {
        0
    } else {
        nonzero_count(s.drop_last()) + if s.last() != 0 { 1nat } else { 0nat }
    }
}

/// The HKDF context of stealth addresses, `"stealth-address"`.
pub open spec fn stealth_info() -> Seq<u8> {
    seq![115u8, 116u8, 101u8, 97u8, 108u8, 116u8, 104u8, 45u8, 97u8, 100u8, 100u8, 114u8, 101u8, 115u8, 115u8]
}

/// The suffix of payment-proof digests, `"bulletproof_payment"`.
pub open spec fn payment_suffix() -> Seq<u8> {
    seq![98u8, 117u8, 108u8, 108u8, 101u8, 116u8, 112u8, 114u8, 111u8, 111u8, 102u8, 95u8, 112u8, 97u8, 121u8, 109u8, 101u8, 110u8, 116u8]
}

/// The key material of a stealth address: owner, little-endian request id,
/// ephemeral key.
pub open spec fn stealth_ikm(owner: Seq<u8>, request_id: u64, ephemeral: Seq<u8>) -> Seq<u8> {
    owner + spec_u64_to_le_bytes(request_id) + ephemeral
}

/// The stealth address of `(owner, request_id)` under an ephemeral key.
pub open spec fn stealth_address_of(owner: Seq<u8>, request_id: u64, ephemeral: Seq<u8>) -> Seq<u8> {
    hkdf_sha256_of(stealth_ikm(owner, request_id, ephemeral), stealth_info())
}

/// The SHA3-256 input of a range-proof check.
pub open spec fn range_digest_input(commitment: Seq<u8>, min_amount: u64, max_amount: u64, proof: Seq<u8>) -> Seq<u8> {
    commitment + spec_u64_to_le_bytes(min_amount) + spec_u64_to_le_bytes(max_amount) + proof
}

/// The SHA-256 input of a payment-proof check.
pub open spec fn payment_digest_input(amount: u64, proof: Seq<u8>) -> Seq<u8> {
    spec_u64_to_le_bytes(amount) + proof + payment_suffix()
}

/// The SHA-256 input of an ownership-proof check.
pub open spec fn ownership_digest_input(owner: Seq<u8>, request_id: u64, secret: Seq<u8>, proof: Seq<u8>) -> Seq<u8> {
    owner + spec_u64_to_le_bytes(request_id) + secret + proof
}

/// The verdict on a range proof, checks in order: the bounds, the proof's
/// length, then its digest.
pub open spec fn range_proof_outcome(commitment: Seq<u8>, proof: Seq<u8>, min_amount: u64, max_amount: u64) -> Result<(), ZkPaymentRequestError> {
    if min_amount >= max_amount {
        Err(ZkPaymentRequestError::InvalidRange)
    } else if proof.len() < MIN_RANGE_PROOF_LEN || proof.len() > MAX_RANGE_PROOF_LEN {
        Err(ZkPaymentRequestError::InvalidProof)
    } else {
        range_digest_verdict(sha3_256_of(range_digest_input(commitment, min_amount, max_amount, proof)))
    }
}

/// The verdict on a range-proof digest. A placeholder test (enough non-zero
/// bytes), not a sound range-proof verification.
pub open spec fn range_digest_verdict(digest: Seq<u8>) -> Result<(), ZkPaymentRequestError> {
    if nonzero_count(digest) > RANGE_DIGEST_MIN_NONZERO {
        Ok(())
    } else {
        Err(ZkPaymentRequestError::InvalidProof)
    }
}

/// The verdict on a revealed amount against a stored commitment.
pub open spec fn payment_outcome(commitment: Seq<u8>, amount: u64, proof: Seq<u8>) -> Result<(), ZkPaymentRequestError> {
    if proof.len() < MIN_PAYMENT_PROOF_LEN {
        Err(ZkPaymentRequestError::InvalidPaymentProof)
    } else {
        payment_digest_verdict(sha256_of(payment_digest_input(amount, proof)), commitment)
    }
}

/// The verdict on a payment digest: it must equal the commitment.
pub open spec fn payment_digest_verdict(digest: Seq<u8>, commitment: Seq<u8>) -> Result<(), ZkPaymentRequestError> {
    if digest == commitment {
        Ok(())
    } else {
        Err(ZkPaymentRequestError::InvalidPaymentProof)
    }
}

/// The verdict on a claim of a stealth address, checks in order: the
/// recomputed address, the proof's length, then its digest.
pub open spec fn ownership_outcome(stealth: Seq<u8>, owner: Seq<u8>, request_id: u64, proof: Seq<u8>, secret: Seq<u8>) -> Result<(), ZkPaymentRequestError> {
    if stealth_address_of(owner, request_id, secret) != stealth {
        Err(ZkPaymentRequestError::UnauthorizedReceiver)
    } else if proof.len() < MIN_OWNERSHIP_PROOF_LEN || proof.len() > MAX_OWNERSHIP_PROOF_LEN {
        Err(ZkPaymentRequestError::InvalidReceiverProof)
    } else {
        ownership_digest_verdict(sha256_of(ownership_digest_input(owner, request_id, secret, proof)))
    }
}

/// The verdict on an ownership digest. A placeholder test (enough non-zero
/// bytes), not a sound proof of ownership.
pub open spec fn ownership_digest_verdict(digest: Seq<u8>) -> Result<(), ZkPaymentRequestError> {
    if nonzero_count(digest) > OWNERSHIP_DIGEST_MIN_NONZERO {
        Ok(())
    } else {
        Err(ZkPaymentRequestError::InvalidReceiverProof)
    }
}

/// Counts the non-zero bytes of `s`.
pub fn count_nonzero(s: &[u8]) -> (r: usize)
    ensures
        r == nonzero_count(s@),
{
    let mut count: usize = 0;
    let mut i: usize = 0;
    while i < s.len()
        invariant
            0 <= i <= s@.len(),
            count == nonzero_count(s@.subrange(0, i as int)),
            count <= i,
        decreases s@.len() - i,
    {
        assert(s@.subrange(0, i + 1).drop_last() =~= s@.subrange(0, i as int));
        if s[i] != 0 {
            count = count + 1;
        }
        i = i + 1;
    }
    assert(s@.subrange(0, s@.len() as int) =~= s@);
    count
}

/// Decides a range proof from its digest.
pub fn check_range_digest(digest: &[u8; 32]) -> (r: Result<(), ZkPaymentRequestError>)
    ensures
        r == range_digest_verdict(digest@),
{
    if count_nonzero(digest.as_slice()) > RANGE_DIGEST_MIN_NONZERO {
        Ok(())
    } else {
        Err(ZkPaymentRequestError::InvalidProof)
    }
}

/// Decides a payment proof from its digest and the stored commitment.
pub fn check_payment_digest(digest: &[u8; 32], commitment: &[u8; 32]) -> (r: Result<(), ZkPaymentRequestError>)
    ensures
        r == payment_digest_verdict(digest@, commitment@),
{
    if same_address(digest, commitment) {
        Ok(())
    } else {
        Err(ZkPaymentRequestError::InvalidPaymentProof)
    }
}

/// Decides an ownership proof from its digest.
pub fn check_ownership_digest(digest: &[u8; 32]) -> (r: Result<(), ZkPaymentRequestError>)
    ensures
        r == ownership_digest_verdict(digest@),
{
    if count_nonzero(digest.as_slice()) > OWNERSHIP_DIGEST_MIN_NONZERO {
        Ok(())
    } else {
        Err(ZkPaymentRequestError::InvalidReceiverProof)
    }
}

/// Derives the one-time stealth address of `(receiver, request_id)` under an
/// ephemeral key, by HKDF-SHA256 over `receiver ∥ request_id ∥ ephemeral`.
pub fn generate_stealth_address(receiver: &Address, request_id: u64, ephemeral_pubkey: &[u8; 32]) -> (r: Result<Address, ZkPaymentRequestError>)
    ensures
        r matches Ok(a) && a@ == stealth_address_of(receiver@, request_id, ephemeral_pubkey@),
{
    let mut ikm: Vec<u8> = Vec::new();
    append_bytes(&mut ikm, receiver.as_slice());
    let id = u64_to_le_bytes(request_id);
    append_bytes(&mut ikm, id.as_slice());
    append_bytes(&mut ikm, ephemeral_pubkey.as_slice());
    assert(ikm@ =~= stealth_ikm(receiver@, request_id, ephemeral_pubkey@));
    let info = vec![115u8, 116u8, 101u8, 97u8, 108u8, 116u8, 104u8, 45u8, 97u8, 100u8, 100u8, 114u8, 101u8, 115u8, 115u8];
    assert(info@ =~= stealth_info());
    match hkdf_sha256(ikm.as_slice(), info.as_slice()) {
        Some(okm) => Ok(okm),
        None => Err(ZkPaymentRequestError::InvalidCommitment),
    }
}

/// Checks a range proof that the committed amount lies in
/// `[min_amount, max_amount]`. Past the bound and length checks this is a
/// placeholder on the SHA3-256 digest, not a sound range-proof verification.
pub fn verify_bulletproof_range_proof(commitment: &[u8; 32], proof_bytes: &[u8], min_amount: u64, max_amount: u64) -> (r: Result<(), ZkPaymentRequestError>)
    ensures
        r == range_proof_outcome(commitment@, proof_bytes@, min_amount, max_amount),
{
    if min_amount >= max_amount {
        return Err(ZkPaymentRequestError::InvalidRange);
    }
    if proof_bytes.len() < MIN_RANGE_PROOF_LEN || proof_bytes.len() > MAX_RANGE_PROOF_LEN {
        return Err(ZkPaymentRequestError::InvalidProof);
    }
    let mut data: Vec<u8> = Vec::new();
    append_bytes(&mut data, commitment.as_slice());
    let lo = u64_to_le_bytes(min_amount);
    append_bytes(&mut data, lo.as_slice());
    let hi = u64_to_le_bytes(max_amount);
    append_bytes(&mut data, hi.as_slice());
    append_bytes(&mut data, proof_bytes);
    assert(data@ =~= range_digest_input(commitment@, min_amount, max_amount, proof_bytes@));
    let digest = sha3_256(data.as_slice());
    check_range_digest(&digest)
}

/// Checks that a revealed `amount` is consistent with `commitment` and the
/// proof stored with it: the SHA-256 of amount, proof and a fixed suffix must
/// equal the commitment. A placeholder, not a sound opening of a commitment.
pub fn verify_bulletproof_payment(commitment: &[u8; 32], amount: u64, proof_bytes: &[u8]) -> (r: Result<(), ZkPaymentRequestError>)
    ensures
        r == payment_outcome(commitment@, amount, proof_bytes@),
{
    if proof_bytes.len() < MIN_PAYMENT_PROOF_LEN {
        return Err(ZkPaymentRequestError::InvalidPaymentProof);
    }
    let mut data: Vec<u8> = Vec::new();
    let a = u64_to_le_bytes(amount);
    append_bytes(&mut data, a.as_slice());
    append_bytes(&mut data, proof_bytes);
    let suffix = vec![98u8, 117u8, 108u8, 108u8, 101u8, 116u8, 112u8, 114u8, 111u8, 111u8, 102u8, 95u8, 112u8, 97u8, 121u8, 109u8, 101u8, 110u8, 116u8];
    assert(suffix@ =~= payment_suffix());
    append_bytes(&mut data, suffix.as_slice());
    assert(data@ =~= payment_digest_input(amount, proof_bytes@));
    let digest = sha256(data.as_slice());
    check_payment_digest(&digest, commitment)
}

/// Checks a claim of `stealth_address` by `receiver`: the address must be
/// recomputed from the secret, and the ownership proof must be well formed.
/// The test on the proof's SHA-256 digest is a placeholder, not a sound proof
/// of ownership.
pub fn verify_stealth_ownership(stealth_address: &Address, receiver: &Address, request_id: u64, ownership_proof: &[u8], ephemeral_secret: &[u8; 32]) -> (r: Result<(), ZkPaymentRequestError>)
    ensures
        r == ownership_outcome(stealth_address@, receiver@, request_id, ownership_proof@, ephemeral_secret@),
{
    let computed = match generate_stealth_address(receiver, request_id, ephemeral_secret) {
        Ok(a) => a,
        Err(e) => return Err(e),
    };
    if !same_address(&computed, stealth_address) {
        return Err(ZkPaymentRequestError::UnauthorizedReceiver);
    }
    if ownership_proof.len() < MIN_OWNERSHIP_PROOF_LEN || ownership_proof.len() > MAX_OWNERSHIP_PROOF_LEN {
        return Err(ZkPaymentRequestError::InvalidReceiverProof);
    }
    let mut data: Vec<u8> = Vec::new();
    append_bytes(&mut data, receiver.as_slice());
    let id = u64_to_le_bytes(request_id);
    append_bytes(&mut data, id.as_slice());
    append_bytes(&mut data, ephemeral_secret.as_slice());
    append_bytes(&mut data, ownership_proof);
    assert(data@ =~= ownership_digest_input(receiver@, request_id, ephemeral_secret@, ownership_proof@));
    let digest = sha256(data.as_slice());
    check_ownership_digest(&digest)
}

} // verus!
