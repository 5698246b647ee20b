use monsterra::digest::signing_digest;
use monsterra::error::ContractError;
use monsterra::guard::{is_expired, NonceRegistry};

const SEC: u64 = 1_000_000_000;

#[test]
fn same_nonce_accepted_once() {
    let mut g = NonceRegistry::new();
    let n = "n-1".to_string();
    assert_eq!(g.accept_action(&n, 100 * SEC, 150 * SEC, true), Ok(()));
    assert!(g.is_used_nonce(&n));
    assert_eq!(g.accept_action(&n, 100 * SEC, 150 * SEC, true), Err(ContractError::NonceUsed));
    assert_eq!(g.accept_action(&"n-2".to_string(), 100 * SEC, 150 * SEC, true), Ok(()));
}

#[test]
fn stale_action_expires_whatever_the_signature() {
    let mut g = NonceRegistry::new();
    let n = "n".to_string();
    assert_eq!(g.accept_action(&n, 100 * SEC, 220 * SEC, true), Err(ContractError::TimeExpired));
    assert_eq!(g.accept_action(&n, 100 * SEC, 220 * SEC, false), Err(ContractError::TimeExpired));
    assert!(!g.is_used_nonce(&n));
    assert!(is_expired(0, 120 * SEC));
    assert!(!is_expired(0, 120 * SEC - 1));
    assert!(!is_expired(500 * SEC, 10 * SEC));
}

#[test]
fn failed_signature_keeps_nonce_fresh() {
    let mut g = NonceRegistry::new();
    let n = "n".to_string();
    assert_eq!(g.accept_action(&n, 100 * SEC, 101 * SEC, false), Err(ContractError::InvalidSignature));
    assert!(!g.is_used_nonce(&n));
    assert_eq!(g.accept_action(&n, 100 * SEC, 101 * SEC, true), Ok(()));
}

#[test]
fn digest_is_sha256() {
    let d = signing_digest(&b"abc".to_vec());
    let hex: String = d.iter().map(|b| format!("{:02x}", b)).collect();
    assert_eq!(hex, "ba7816bf8f01cfea414140de5dae2223b00361a396177a9cb410ff61f20015ad");
}
