use monsterra::bridge::{Bridge, SwapMessage};
use monsterra::error::{ContractError, Effect};

fn s(x: &str) -> String {
    x.to_string()
}

fn swap(id: &str, amount: u128) -> SwapMessage {
    SwapMessage { transaction_id: s(id), cur_token: s("T"), des_token: s("D"), cur_user: s("u"), des_user: s("v"), amount }
}

#[test]
fn bridge_mint_and_burn() {
    let mut b = Bridge::instantiate(&s("owner"));
    assert_eq!(b.try_mint(&s("u"), &swap("t1", 10), true), Err(ContractError::InvalidSwapData));
    b.set_accepted_token(&s("owner"), s("T"), true).unwrap();
    b.set_accepted_des_token(&s("owner"), s("D"), true).unwrap();
    b.set_max_swap_amount(&s("owner"), s("T"), 100).unwrap();
    assert_eq!(b.try_mint(&s("x"), &swap("t1", 10), true), Err(ContractError::InvalidSwapData));
    assert_eq!(b.try_mint(&s("u"), &swap("t1", 0), true), Err(ContractError::InvalidSwapData));
    assert_eq!(b.try_mint(&s("u"), &swap("t1", 101), true), Err(ContractError::ExceededMaxAmount));
    assert_eq!(b.try_mint(&s("u"), &swap("t1", 10), false), Err(ContractError::InvalidSignature));
    let e = b.try_mint(&s("u"), &swap("t1", 10), true).unwrap();
    assert_eq!(e, vec![Effect::Mint { token: s("T"), recipient: s("u"), amount: 10 }]);
    assert!(b.is_transaction_existed(&s("t1")));
    assert_eq!(b.try_mint(&s("u"), &swap("t1", 10), true), Err(ContractError::TransactionExisted));
    assert_eq!(b.try_burn(&s("u"), &swap("t1", 10)), Err(ContractError::TransactionExisted));
    b.set_approve_transaction(&s("owner"), s("t2"), true).unwrap();
    assert!(b.try_mint(&s("u"), &swap("t2", 1000), true).is_ok());
    let e = b.try_burn(&s("u"), &swap("t3", 1000)).unwrap();
    assert_eq!(e, vec![Effect::BurnFrom { token: s("T"), owner: s("u"), amount: 1000 }]);
    assert_eq!(b.swaps.get(&s("t3")).unwrap().side, s("burn"));
    assert_eq!(b.set_max_swap_amount(&s("x"), s("T"), 1), Err(ContractError::Unauthorized));
}
