use soroban_sdk::testutils::Address as _;
use soroban_sdk::testutils::Events as _;
use soroban_sdk::testutils::EnvTestConfig;
use soroban_sdk::{Address, Bytes, Env};
use ttl_legacy::claim_verifier::{check_inputs, VerifierError, ZkVerifierContract, MAX_CLAIM_SIZE, MAX_PROOF_SIZE};
use ttl_legacy::contract_events::ContractEnv;

fn test_env() -> Env {
    Env::new_with_config(EnvTestConfig { capture_snapshot_at_drop: false })
}

fn verify_in_contract(env: &Env, proof: &[u8], claim: &[u8]) -> Result<bool, VerifierError> {
    let id = env.register_stellar_asset_contract_v2(Address::generate(env)).address();
    let proof = Bytes::from_slice(env, proof);
    let claim = Bytes::from_slice(env, claim);
    env.as_contract(&id, || {
        check_inputs(&proof, &claim)?;
        let mut host = ContractEnv::new(env.clone());
        Ok(ZkVerifierContract::verify_claim(&mut host, proof, claim))
    })
}

fn event_count(env: &Env) -> usize {
    env.events().all().events().len()
}

#[test]
fn test_valid_proof_returns_true() {
    let env = test_env();
    assert!(verify_in_contract(&env, &[0xde, 0xad, 0xbe, 0xef], &[0xca, 0xfe, 0xba, 0xbe]).unwrap());
}

#[test]
fn test_invalid_proof_returns_false() {
    let env = test_env();
    assert!(!verify_in_contract(&env, &[0x00], &[0xca, 0xfe, 0xba, 0xbe]).unwrap());
}

#[test]
fn test_malformed_empty_proof_panics() {
    let env = test_env();
    let r = verify_in_contract(&env, &[], &[0xca, 0xfe, 0xba, 0xbe]);
    assert_eq!(r, Err(VerifierError::EmptyProof));
    assert_eq!(r.unwrap_err().code(), 1);
}

#[test]
fn test_malformed_empty_claim_panics() {
    let env = test_env();
    let r = verify_in_contract(&env, &[0xde, 0xad, 0xbe, 0xef], &[]);
    assert_eq!(r, Err(VerifierError::EmptyClaim));
    assert_eq!(r.unwrap_err().code(), 2);
}

#[test]
fn test_proof_at_max_size_succeeds() {
    let env = test_env();
    let data = [0xffu8; MAX_PROOF_SIZE as usize];
    assert!(verify_in_contract(&env, &data, &[0xca, 0xfe, 0xba, 0xbe]).unwrap());
}

#[test]
fn test_proof_exceeds_max_size_panics() {
    let env = test_env();
    let data = [0xffu8; MAX_PROOF_SIZE as usize + 1];
    let r = verify_in_contract(&env, &data, &[0xca, 0xfe, 0xba, 0xbe]);
    assert_eq!(r, Err(VerifierError::ProofTooLarge));
    assert_eq!(r.unwrap_err().code(), 3);
}

#[test]
fn test_claim_at_max_size_succeeds() {
    let env = test_env();
    let data = [0xaau8; MAX_CLAIM_SIZE as usize];
    assert!(verify_in_contract(&env, &[0xde, 0xad, 0xbe, 0xef], &data).unwrap());
}

#[test]
fn test_claim_exceeds_max_size_panics() {
    let env = test_env();
    let data = [0xaau8; MAX_CLAIM_SIZE as usize + 1];
    let r = verify_in_contract(&env, &[0xde, 0xad, 0xbe, 0xef], &data);
    assert_eq!(r, Err(VerifierError::ClaimTooLarge));
    assert_eq!(r.unwrap_err().code(), 4);
}

#[test]
fn test_verify_claim_emits_event_on_true_result() {
    let env = test_env();
    let result = verify_in_contract(&env, &[0xde, 0xad, 0xbe, 0xef], &[0xca, 0xfe, 0xba, 0xbe]).unwrap();
    assert!(result);
    assert_eq!(event_count(&env), 1);
}

#[test]
fn test_verify_claim_emits_event_on_false_result() {
    let env = test_env();
    let result = verify_in_contract(&env, &[0x00], &[0xca, 0xfe, 0xba, 0xbe]).unwrap();
    assert!(!result);
    assert_eq!(event_count(&env), 1);
}

#[test]
fn rejected_input_emits_no_event() {
    let env = test_env();
    assert!(verify_in_contract(&env, &[], &[0xca, 0xfe]).is_err());
    assert_eq!(event_count(&env), 0);
}

#[test]
fn proof_size_checked_before_claim() {
    let env = test_env();
    let big = [0x01u8; MAX_PROOF_SIZE as usize + 1];
    assert_eq!(verify_in_contract(&env, &big, &[]), Err(VerifierError::ProofTooLarge));
    assert_eq!(verify_in_contract(&env, &[], &[]), Err(VerifierError::EmptyProof));
}

#[test]
fn only_the_single_zero_byte_is_rejected() {
    let env = test_env();
    assert!(verify_in_contract(&env, &[0x00, 0x00], &[0x01]).unwrap());
    assert!(verify_in_contract(&env, &[0x01], &[0x01]).unwrap());
    assert!(!verify_in_contract(&env, &[0x00], &[0x01]).unwrap());
}

#[test]
fn verdict_ignores_claim() {
    let env = test_env();
    assert_eq!(verify_in_contract(&env, &[0x07], &[0x01]), verify_in_contract(&env, &[0x07], &[0x02, 0x03]));
}

#[test]
fn event_carries_sha256_of_claim() {
    let env = test_env();
    let claim = Bytes::from_slice(&env, &[0xca, 0xfe, 0xba, 0xbe]);
    let expected: soroban_sdk::BytesN<32> = env.crypto().sha256(&claim).into();
    assert!(verify_in_contract(&env, &[0xde, 0xad], &[0xca, 0xfe, 0xba, 0xbe]).unwrap());
    let all = env.events().all();
    let events = all.events();
    assert_eq!(events.len(), 1);
    let rendered = format!("{:?}", events[events.len() - 1]);
    let hex: String = expected.to_array().iter().map(|b| format!("{:02x}", b)).collect();
    assert!(rendered.contains("vfy_claim"), "{}", rendered);
    assert!(rendered.contains(&hex), "{}", rendered);
}

#[test]
fn claim_hash_uses_the_claims_own_environment() {
    let env = test_env();
    let other = test_env();
    let claim = Bytes::from_slice(&other, &[0x01, 0x02, 0x03]);
    let expected: soroban_sdk::BytesN<32> = other.crypto().sha256(&claim).into();
    let id = env.register_stellar_asset_contract_v2(Address::generate(&env)).address();
    let proof = Bytes::from_slice(&env, &[0x05]);
    let mut host = ContractEnv::new(env.clone());
    env.as_contract(&id, || ZkVerifierContract::verify_claim(&mut host, proof, claim));
    let all = env.events().all();
    let events = all.events();
    let rendered = format!("{:?}", events[events.len() - 1]);
    let hex: String = expected.to_array().iter().map(|b| format!("{:02x}", b)).collect();
    assert!(rendered.contains(&hex), "{}", rendered);
}
