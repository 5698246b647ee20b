use monsterra::error::{ContractError, Effect};
use monsterra::staking::Staking;

const SEC: u64 = 1_000_000_000;

fn s(x: &str) -> String {
    x.to_string()
}

#[test]
fn stake_and_unstake() {
    let mut v = Staking::instantiate(&s("owner"));
    assert_eq!(v.execute_stake(&s("u"), &s("vault"), 5, &s("T"), 10, [0; 32]), Err(ContractError::NotAcceptedToken));
    assert_eq!(v.set_accepted_token(&s("x"), s("T"), true), Err(ContractError::Unauthorized));
    assert_eq!(v.set_accepted_token(&s("owner"), s("T"), true), Ok(()));
    let e = v.execute_stake(&s("u"), &s("vault"), 5, &s("T"), 10, [1; 32]).unwrap();
    assert_eq!(e, vec![Effect::TransferFrom { token: s("T"), owner: s("u"), recipient: s("vault"), amount: 10 }]);
    v.execute_stake(&s("u"), &s("vault"), 6, &s("T"), 7, [2; 32]).unwrap();
    v.execute_stake(&s("w"), &s("vault"), 7, &s("T"), 1, [3; 32]).unwrap();
    assert_eq!(v.get_total_staked(&s("u")), 17);
    let data = v.get_staked_data(&s("u"));
    assert_eq!(data.len(), 2);
    assert_eq!((data[0].amount, data[0].time, data[1].amount), (10, 5, 7));
    let out = v.execute_unstake(&s("u"), &s("T"), 10, &s("n"), 100 * SEC, 101 * SEC, true).unwrap();
    assert_eq!(out, vec![Effect::Transfer { token: s("T"), recipient: s("u"), amount: 10 }]);
    // The running total and the records stay as they were.
    assert_eq!(v.get_total_staked(&s("u")), 17);
    assert_eq!(v.get_staked_data(&s("u")).len(), 2);
    assert_eq!(v.execute_unstake(&s("u"), &s("T"), 10, &s("n"), 100 * SEC, 101 * SEC, true), Err(ContractError::NonceUsed));
    assert_eq!(v.execute_stake(&s("u"), &s("vault"), 8, &s("T"), u128::MAX, [0; 32]), Err(ContractError::Overflow));
}
