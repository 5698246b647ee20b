use monsterra::kv::StrMap;
use monsterra::market::{ContractInfo, GameMarketContract, Order};

fn s(x: &str) -> String {
    x.to_string()
}

#[test]
fn store_keeps_one_record_per_key() {
    let mut m: StrMap<u32> = StrMap::new();
    m.insert(s("a"), 1);
    m.insert(s("b"), 2);
    m.insert(s("a"), 3);
    assert_eq!(m.entries.len(), 2);
    assert_eq!(m.get(&s("a")), Some(&3));
    assert_eq!(m.remove(&s("a")), Some(3));
    assert_eq!(m.get(&s("a")), None);
    assert_eq!(m.remove(&s("a")), None);
    assert_eq!(m.get(&s("b")), Some(&2));
    assert!(StrMap::from_entries(vec![(s("x"), 1), (s("y"), 2)]).is_some());
    assert!(StrMap::from_entries(vec![(s("x"), 1), (s("y"), 2), (s("x"), 3)]).is_none());
}

fn info(total_order: u32) -> ContractInfo {
    ContractInfo {
        name: s("M"),
        symbol: s("M"),
        owner: s("o"),
        total_order,
        total_bid: 0,
        total_bundle: 0,
        bundle_fee: 0,
        game_market_payment_contract: s("p"),
    }
}

fn order(id: u32, quantity: u128, status: bool) -> Order {
    Order {
        id,
        owner: s("o"),
        token_address: s("t"),
        payment_contract: s("p"),
        token_id: s("0"),
        quantity,
        price: 1,
        is_cw721: false,
        status,
    }
}

#[test]
fn restore_refuses_damaged_state() {
    assert!(GameMarketContract::restore(info(1), vec![order(1, 5, true)], vec![], vec![], vec![]).is_some());
    assert!(GameMarketContract::restore(info(2), vec![order(1, 5, true)], vec![], vec![], vec![]).is_none());
    assert!(GameMarketContract::restore(info(1), vec![order(2, 5, true)], vec![], vec![], vec![]).is_none());
    assert!(GameMarketContract::restore(info(1), vec![order(1, 5, false)], vec![], vec![], vec![]).is_none());
}
