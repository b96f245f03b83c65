//! The zero-knowledge claim verifier contract.
//!
//! Proof and claim arrive as host byte strings (`soroban_sdk::Bytes`); the
//! verifier checks their sizes, decides the (placeholder) verdict, hashes the
//! claim with the host's SHA-256 and publishes a `vfy_claim` event.
use vstd::prelude::*;
use soroban_sdk::Bytes;
use crate::contract_events::{ClaimEvent, ContractEnv, publish_claim_event};

verus! {

/// Largest accepted proof, in bytes.
pub const MAX_PROOF_SIZE: u32 = 4096;

/// Largest accepted claim, in bytes.
pub const MAX_CLAIM_SIZE: u32 = 1024;

/// The reasons for which the verifier rejects its input.
#[derive(Copy, Clone, Debug, PartialEq, Eq, Structural)]
pub enum VerifierError {
    /// Proof bytes were empty.
    EmptyProof,
    /// Claim bytes were empty.
    EmptyClaim,
    /// Proof bytes exceed `MAX_PROOF_SIZE`.
    ProofTooLarge,
    /// Claim bytes exceed `MAX_CLAIM_SIZE`.
    ClaimTooLarge,
}

/// The contract error code of each rejection.
pub open spec fn error_code(e: VerifierError) -> u32 {
    match e {
        VerifierError::EmptyProof => 1,
        VerifierError::EmptyClaim => 2,
        VerifierError::ProofTooLarge => 3,
        VerifierError::ClaimTooLarge => 4,
    }
}

impl VerifierError {
    /// The contract error code under which the host reports this rejection.
    pub fn code(&self) -> (c: u32)
        ensures
            c == error_code(*self),
    {
        match self {
            VerifierError::EmptyProof => 1,
            VerifierError::EmptyClaim => 2,
            VerifierError::ProofTooLarge => 3,
            VerifierError::ClaimTooLarge => 4,
        }
    }
}

#[verifier::external_type_specification]
#[verifier::external_body]
pub struct ExBytes(soroban_sdk::Bytes);


/// The bytes that a host byte string holds. A `Bytes` value is a handle to an
/// immutable host object, so its contents are a function of the value.
pub uninterp spec fn bytes_view(b: Bytes) -> Seq<u8>;

/// The SHA-256 digest of a byte string, as the host computes it.
pub uninterp spec fn sha256_digest(data: Seq<u8>) -> Seq<u8>;

/// `Bytes::len`: the number of bytes held, which fits in a `u32`.
#[verifier::external_body]
fn bytes_len(b: &Bytes) -> (n: u32)
    ensures
        n == bytes_view(*b).len(),
{
    b.len()
}

/// `Bytes::is_empty`: whether no byte is held.
#[verifier::external_body]
fn bytes_is_empty(b: &Bytes) -> (r: bool)
    ensures
        r == (bytes_view(*b).len() == 0),
{
    b.is_empty()
}

/// `Bytes::get`: the byte at position `i`, or `None` past the end.
#[verifier::external_body]
fn bytes_get(b: &Bytes, i: u32) -> (r: Option<u8>)
    ensures
        i < bytes_view(*b).len() ==> r == Some(bytes_view(*b)[i as int]),
        i >= bytes_view(*b).len() ==> r is None,
{
    b.get(i)
}

/// `Crypto::sha256`, reached through the byte string's own environment
/// (`Bytes::env`, then `Env::crypto`): the host's SHA-256 of the bytes,
/// converted to a 32-byte array. Claimed: the result is the digest of the
/// bytes that `data` holds.
#[verifier::external_body]
fn host_sha256(data: &Bytes) -> (h: [u8; 32])
    ensures
        h@ == sha256_digest(bytes_view(*data)),
{
    data.env().crypto().sha256(data).to_array()
}

/// What the verifier answers for a proof and a claim: the first failing size
/// check, in the order empty proof, oversized proof, empty claim, oversized
/// claim; otherwise the verdict, which is `false` exactly for the one-byte
/// proof `0x00`.
pub open spec fn claim_outcome(proof: Seq<u8>, claim: Seq<u8>) -> Result<bool, VerifierError> {
    if proof.len() == 0 {
        Err(VerifierError::EmptyProof)
    } else if proof.len() > MAX_PROOF_SIZE {
        Err(VerifierError::ProofTooLarge)
    } else if claim.len() == 0 {
        Err(VerifierError::EmptyClaim)
    } else if claim.len() > MAX_CLAIM_SIZE {
        Err(VerifierError::ClaimTooLarge)
    } else {
        Ok(!(proof.len() == 1 && proof[0] == 0u8))
    }
}

/// Checks the sizes of a proof and a claim: the first failing check, in the
/// order empty proof, oversized proof, empty claim, oversized claim, or `Ok`
/// when both are within their limits. The contract rejects the call with the
/// error's code.
pub fn check_inputs(proof: &Bytes, claim: &Bytes) -> (r: Result<(), VerifierError>)
    ensures
        r is Ok <==> claim_outcome(bytes_view(*proof), bytes_view(*claim)) is Ok,
        r matches Err(e) ==> claim_outcome(bytes_view(*proof), bytes_view(*claim)) == Err::<bool, VerifierError>(e),
{
    if bytes_is_empty(proof) {
        return Err(VerifierError::EmptyProof);
    }
    if bytes_len(proof) > MAX_PROOF_SIZE {
        return Err(VerifierError::ProofTooLarge);
    }
    if bytes_is_empty(claim) {
        return Err(VerifierError::EmptyClaim);
    }
    if bytes_len(claim) > MAX_CLAIM_SIZE {
        return Err(VerifierError::ClaimTooLarge);
    }
    Ok(())
}

/// The verifier contract.
pub struct ZkVerifierContract;

impl ZkVerifierContract {
    /// Verifies a zero-knowledge proof against a claim whose sizes passed
    /// `check_inputs`.
    ///
    /// Real proof verification needs host primitives that do not exist yet;
    /// until then the verdict is a non-empty-bytes guard that rejects the
    /// known-invalid one-byte proof `0x00`. The call publishes exactly one
    /// event, topic `vfy_claim` with data `(result, sha256(claim))`.
    pub fn verify_claim(host: &mut ContractEnv, proof: Bytes, claim: Bytes) -> (result: bool)
        requires
            claim_outcome(bytes_view(proof), bytes_view(claim)) is Ok,
        ensures
            claim_outcome(bytes_view(proof), bytes_view(claim)) == Ok::<bool, VerifierError>(result),
            final(host).events().len() == old(host).events().len() + 1,
            final(host).events().drop_last() == old(host).events(),
            final(host).events().last().0 == "vfy_claim"@,
            final(host).events().last().1.result == result,
            final(host).events().last().1.claim_hash@ == sha256_digest(bytes_view(claim)),
    {
        let result = !(bytes_len(&proof) == 1 && bytes_get(&proof, 0) == Some(0u8));
        let claim_hash = host_sha256(&claim);
        proof {
            reveal_strlit("vfy_claim");
        }
        publish_claim_event(host, "vfy_claim", ClaimEvent { result, claim_hash });
        result
    }
}

/// The verifier answers (rather than rejects) exactly when the proof holds
/// 1 to `MAX_PROOF_SIZE` bytes and the claim 1 to `MAX_CLAIM_SIZE` bytes.
pub proof fn law_accepts_iff_sizes_in_range(proof: Seq<u8>, claim: Seq<u8>)
    ensures
        claim_outcome(proof, claim) is Ok <==> (1 <= proof.len() <= MAX_PROOF_SIZE && 1 <= claim.len() <= MAX_CLAIM_SIZE),
{
}

/// On accepted input the verdict is `false` exactly for the one-byte proof
/// `0x00`, whatever the claim.
pub proof fn law_only_zero_sentinel_fails(proof: Seq<u8>, claim: Seq<u8>)
    requires
        claim_outcome(proof, claim) is Ok,
    ensures
        claim_outcome(proof, claim) == Ok::<bool, VerifierError>(proof != seq![0u8]),
{
    if proof.len() == 1 && proof[0] == 0u8 {
        assert(proof =~= seq![0u8]);
    }
}

/// The verdict depends on the proof alone: two accepted claims get the same
/// answer for the same proof.
pub proof fn law_verdict_independent_of_claim(proof: Seq<u8>, claim1: Seq<u8>, claim2: Seq<u8>)
    requires
        claim_outcome(proof, claim1) is Ok,
        claim_outcome(proof, claim2) is Ok,
    ensures
        claim_outcome(proof, claim1) == claim_outcome(proof, claim2),
{
}

/// Each rejection has its own contract error code, from 1 to 4.
pub proof fn law_error_codes_distinct(e1: VerifierError, e2: VerifierError)
    ensures
        1 <= error_code(e1) <= 4,
        e1 != e2 ==> error_code(e1) != error_code(e2),
{
}

/// Each rejection names the input at fault: the proof is blamed only for its
/// own size, the claim only once the proof is in range.
pub proof fn law_rejection_names_failing_input(proof: Seq<u8>, claim: Seq<u8>)
    ensures
        claim_outcome(proof, claim) == Err::<bool, VerifierError>(VerifierError::EmptyProof) <==> proof.len() == 0,
        claim_outcome(proof, claim) == Err::<bool, VerifierError>(VerifierError::ProofTooLarge) <==> proof.len() > MAX_PROOF_SIZE,
        claim_outcome(proof, claim) == Err::<bool, VerifierError>(VerifierError::EmptyClaim)
            <==> (1 <= proof.len() <= MAX_PROOF_SIZE && claim.len() == 0),
        claim_outcome(proof, claim) == Err::<bool, VerifierError>(VerifierError::ClaimTooLarge)
            <==> (1 <= proof.len() <= MAX_PROOF_SIZE && claim.len() > MAX_CLAIM_SIZE),
{
}

/// The contract error codes: empty proof 1, empty claim 2, oversized proof 3,
/// oversized claim 4.
pub proof fn law_error_code_values()
    ensures
        error_code(VerifierError::EmptyProof) == 1,
        error_code(VerifierError::EmptyClaim) == 2,
        error_code(VerifierError::ProofTooLarge) == 3,
        error_code(VerifierError::ClaimTooLarge) == 4,
{
}

} // verus!
