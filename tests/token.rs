use monsterra::error::ContractError;
use monsterra::token::FungibleToken;

const SEC: u64 = 1_000_000_000;

fn s(x: &str) -> String {
    x.to_string()
}

#[test]
fn replayed_mint_permit_is_refused() {
    let mut t = FungibleToken::instantiate(&s("owner"), None);
    assert_eq!(t.mint_with_signature(&s("alice"), 100, &s("n1"), 10 * SEC, 20 * SEC, true), Ok(()));
    assert_eq!(t.total_supply, 100);
    assert_eq!(t.balance(&s("alice")), 100);
    assert_eq!(t.mint_with_signature(&s("alice"), 100, &s("n1"), 10 * SEC, 20 * SEC, true), Err(ContractError::NonceUsed));
    assert_eq!(t.total_supply, 100);
    assert_eq!(t.balance(&s("alice")), 100);
}

#[test]
fn mint_respects_cap_and_signature() {
    let mut t = FungibleToken::instantiate(&s("owner"), Some(150));
    assert_eq!(t.mint_with_signature(&s("a"), 100, &s("n1"), 10 * SEC, 20 * SEC, false), Err(ContractError::InvalidSignature));
    assert_eq!(t.mint_with_signature(&s("a"), 100, &s("n1"), 10 * SEC, 20 * SEC, true), Ok(()));
    assert_eq!(t.mint_with_signature(&s("b"), 51, &s("n2"), 10 * SEC, 20 * SEC, true), Err(ContractError::CannotExceedCap));
    assert_eq!(t.mint_with_signature(&s("b"), 50, &s("n2"), 10 * SEC, 20 * SEC, true), Ok(()));
    assert_eq!(t.total_supply, 150);
    assert_eq!(t.mint_with_signature(&s("b"), 1, &s("n3"), 10 * SEC, 200 * SEC, true), Err(ContractError::TimeExpired));
}

#[test]
fn roles() {
    let mut t = FungibleToken::instantiate(&s("owner"), None);
    assert!(t.access.is_admin(&s("owner")));
    assert_eq!(t.access.set_admin(&s("x"), s("x"), true), Err(ContractError::Unauthorized));
    assert_eq!(t.access.set_signer(&s("x"), vec![1, 2]), Err(ContractError::Unauthorized));
    assert_eq!(t.access.set_admin(&s("owner"), s("adm"), true), Ok(()));
    assert_eq!(t.access.set_signer(&s("adm"), vec![1, 2]), Ok(()));
    assert_eq!(t.access.get_signer(), &vec![1u8, 2]);
    assert_eq!(t.access.set_new_owner(&s("adm"), s("adm")), Err(ContractError::Unauthorized));
    assert_eq!(t.access.set_new_owner(&s("owner"), s("new")), Ok(()));
    assert_eq!(t.access.get_owner(), &s("new"));
    assert_eq!(t.access.set_admin(&s("new"), s("adm"), false), Ok(()));
    assert!(!t.access.is_admin(&s("adm")));
}
