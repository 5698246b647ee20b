use monsterra::error::ContractError;
use monsterra::payment::GamePaymentContract;

fn s(x: &str) -> String {
    x.to_string()
}

#[test]
fn contract_support_and_payment_queries() {
    let mut p = GamePaymentContract::instantiate(&s("O"), s("Pay"), s("PAY"));
    assert_eq!(p.add_contract_support(&s("O"), s("A"), 500, s("P"), false), Ok(()));
    assert_eq!(p.get_contract_fee(&s("A")), 500);
    assert!(p.is_token_support(&s("A"), &s("P")));
    assert!(!p.is_token_support(&s("A"), &s("other_token")));
    assert_eq!(p.get_contract_fee(&s("B")), 0);
}

#[test]
fn payment_policy_is_owner_only() {
    let mut p = GamePaymentContract::instantiate(&s("O"), s("Pay"), s("PAY"));
    assert_eq!(p.add_contract_support(&s("X"), s("A"), 500, s("P"), false), Err(ContractError::Unauthorized));
    assert_eq!(p.add_contract_support(&s("O"), s("A"), 500, s("P"), true), Ok(()));
    assert_eq!(p.add_contract_support(&s("O"), s("A"), 100, s("Q"), true), Err(ContractError::Added));
    assert_eq!(p.set_payment_method(&s("O"), s("A"), s("P"), true), Err(ContractError::Added));
    assert_eq!(p.set_payment_method(&s("O"), s("A"), s("Q"), true), Ok(()));
    assert!(p.is_token_support(&s("A"), &s("Q")));
    assert_eq!(p.update_fee(&s("O"), &s("A"), 250), Ok(()));
    assert_eq!(p.get_contract_fee(&s("A")), 250);
    assert_eq!(p.update_fee(&s("O"), &s("Z"), 250), Err(ContractError::NotFound));
    assert_eq!(p.remove_contract_support(&s("O"), &s("A")), Ok(()));
    assert!(!p.contract_support_info(&s("A")).unwrap().status);
    assert_eq!(p.set_new_owner(&s("X"), s("X")), Err(ContractError::Unauthorized));
    assert_eq!(p.set_new_owner(&s("O"), s("N")), Ok(()));
    assert_eq!(p.update_fee(&s("O"), &s("A"), 1), Err(ContractError::Unauthorized));
}
