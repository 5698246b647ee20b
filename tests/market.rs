use monsterra::error::{ContractError, Effect};
use monsterra::market::{ContractSupportResponse, GameMarketContract, Holding, ItemFacts};

fn s(x: &str) -> String {
    x.to_string()
}

fn market() -> GameMarketContract {
    GameMarketContract::instantiate(&s("admin"), s("Market"), s("MKT"), 200, s("policy"))
}

fn support(fee: u16, is_cw721: bool) -> ContractSupportResponse {
    ContractSupportResponse { contract_address: s("asset"), fee, is_cw721, status: true }
}

#[test]
fn create_fungible_order_escrows_quantity() {
    let mut m = market();
    let (id, effects) = m
        .create_order(&s("seller"), &s("market"), s("ft"), s("pay"), s("0"), 10, 100, true, &support(500, false), &Holding::Balance(150))
        .unwrap();
    assert_eq!(id, 1);
    assert_eq!(m.contract_info.total_order, 1);
    assert_eq!(effects, vec![Effect::TransferFrom { token: s("ft"), owner: s("seller"), recipient: s("market"), amount: 100 }]);
    let o = m.order_info(1).unwrap();
    assert!(o.status);
    assert_eq!(o.quantity, 100);
    assert_eq!(o.owner, s("seller"));
}

#[test]
fn create_order_refusals() {
    let mut m = market();
    assert_eq!(
        m.create_order(&s("seller"), &s("market"), s("ft"), s("pay"), s("0"), 10, 100, false, &support(500, false), &Holding::Balance(150)),
        Err(ContractError::PaymentMethodNotSupport)
    );
    assert_eq!(
        m.create_order(&s("seller"), &s("market"), s("ft"), s("pay"), s("0"), 10, 100, true, &support(500, false), &Holding::Balance(99)),
        Err(ContractError::InsufficienTokenBalance)
    );
    assert_eq!(
        m.create_order(&s("seller"), &s("market"), s("ft"), s("pay"), s("0"), 10, 0, true, &support(500, false), &Holding::Balance(5)),
        Err(ContractError::InvalidQuantity)
    );
    assert_eq!(
        m.create_order(&s("seller"), &s("market"), s("nft"), s("pay"), s("7"), 10, 1, true, &support(500, true), &Holding::Owner(s("someone"))),
        Err(ContractError::InsufficienTokenBalance)
    );
    assert_eq!(m.contract_info.total_order, 0);
}

#[test]
fn overbuy_is_invalid_quantity_and_full_fill_closes_order() {
    let mut m = market();
    let (id, _) = m
        .create_order(&s("seller"), &s("market"), s("ft"), s("pay"), s("0"), 3, 10, true, &support(500, false), &Holding::Balance(10))
        .unwrap();
    assert_eq!(m.buy_order(&s("buyer"), &s("market"), id, 11, &support(500, false)), Err(ContractError::InvalidQuantity));
    assert_eq!(m.buy_order(&s("buyer"), &s("market"), id, 0, &support(500, false)), Err(ContractError::InvalidQuantity));
    let partial = m.buy_order(&s("buyer"), &s("market"), id, 4, &support(500, false)).unwrap();
    assert_eq!(
        partial,
        vec![
            Effect::Transfer { token: s("ft"), recipient: s("buyer"), amount: 4 },
            Effect::TransferFrom { token: s("pay"), owner: s("buyer"), recipient: s("market"), amount: 12 },
            Effect::Transfer { token: s("pay"), recipient: s("seller"), amount: 11 },
        ]
    );
    assert_eq!(m.order_info(id).unwrap().quantity, 6);
    m.buy_order(&s("buyer"), &s("market"), id, 6, &support(500, false)).unwrap();
    let o = m.order_info(id).unwrap();
    assert!(!o.status);
    assert_eq!(o.quantity, 0);
    assert_eq!(m.buy_order(&s("buyer"), &s("market"), id, 1, &support(500, false)), Err(ContractError::OrderCanceled));
    assert_eq!(m.update_order(&s("seller"), &s("market"), id, 5, 3, 100), Err(ContractError::OrderCanceled));
    assert_eq!(m.cancel_order(&s("seller"), id), Err(ContractError::OrderCanceled));
}

#[test]
fn free_order_moves_no_payment() {
    let mut m = market();
    let (id, _) = m
        .create_order(&s("seller"), &s("market"), s("ft"), s("pay"), s("0"), 0, 10, true, &support(500, false), &Holding::Balance(10))
        .unwrap();
    let effects = m.buy_order(&s("buyer"), &s("market"), id, 10, &support(500, false)).unwrap();
    assert_eq!(effects, vec![Effect::Transfer { token: s("ft"), recipient: s("buyer"), amount: 10 }]);
}

#[test]
fn create_then_cancel_returns_escrow() {
    let mut m = market();
    let (id, _) = m
        .create_order(&s("seller"), &s("market"), s("ft"), s("pay"), s("0"), 10, 100, true, &support(500, false), &Holding::Balance(100))
        .unwrap();
    assert_eq!(m.cancel_order(&s("other"), id), Err(ContractError::NotOwner));
    let effects = m.cancel_order(&s("seller"), id).unwrap();
    assert_eq!(effects, vec![Effect::Transfer { token: s("ft"), recipient: s("seller"), amount: 100 }]);
    let o = m.order_info(id).unwrap();
    assert!(!o.status);
    assert_eq!(o.quantity, 0);

    let (nid, _) = m
        .create_order(&s("seller"), &s("market"), s("nft"), s("pay"), s("7"), 10, 1, true, &support(500, true), &Holding::Owner(s("seller")))
        .unwrap();
    assert_eq!(nid, 2);
    assert!(m.can_accept_info(&s("nft"), &s("7"), &s("seller")).unwrap().status);
    let effects = m.cancel_order(&s("seller"), nid).unwrap();
    assert_eq!(effects, vec![Effect::TransferNft { contract: s("nft"), recipient: s("seller"), token_id: s("7") }]);
    assert!(!m.can_accept_info(&s("nft"), &s("7"), &s("seller")).unwrap().status);
}

#[test]
fn update_order_settles_quantity_change() {
    let mut m = market();
    let (id, _) = m
        .create_order(&s("seller"), &s("market"), s("ft"), s("pay"), s("0"), 10, 100, true, &support(500, false), &Holding::Balance(100))
        .unwrap();
    assert_eq!(m.update_order(&s("other"), &s("market"), id, 50, 10, 0), Err(ContractError::NotOwner));
    assert_eq!(m.update_order(&s("seller"), &s("market"), id, 0, 10, 0), Err(ContractError::InvalidQuantity));
    assert_eq!(m.update_order(&s("seller"), &s("market"), id, 150, 10, 49), Err(ContractError::InsufficienTokenBalance));
    let grow = m.update_order(&s("seller"), &s("market"), id, 150, 12, 50).unwrap();
    assert_eq!(grow, vec![Effect::TransferFrom { token: s("ft"), owner: s("seller"), recipient: s("market"), amount: 50 }]);
    let shrink = m.update_order(&s("seller"), &s("market"), id, 30, 12, 0).unwrap();
    assert_eq!(shrink, vec![Effect::Transfer { token: s("ft"), recipient: s("seller"), amount: 120 }]);
    let o = m.order_info(id).unwrap();
    assert_eq!((o.quantity, o.price), (30, 12));
    assert_eq!(m.update_order(&s("seller"), &s("market"), 9, 30, 12, 0), Err(ContractError::NotFound));
}

#[test]
fn bid_accepted_by_direct_owner() {
    let mut m = market();
    let (bid, created) = m
        .create_bid(&s("bidder"), &s("market"), s("A"), s("P"), s("7"), 1000, u64::MAX, true, &support(500, true))
        .unwrap();
    assert_eq!(created, vec![Effect::TransferFrom { token: s("P"), owner: s("bidder"), recipient: s("market"), amount: 1000 }]);
    let accepted = m.accept_bid(&s("holder"), 1_700_000_000_000_000_000, bid, &support(500, true), &Some(s("holder"))).unwrap();
    assert_eq!(
        accepted,
        vec![
            Effect::TransferNft { contract: s("A"), recipient: s("bidder"), token_id: s("7") },
            Effect::Transfer { token: s("P"), recipient: s("holder"), amount: 950 },
        ]
    );
    assert!(!m.bid_info(bid).unwrap().status);
    assert_eq!(
        m.accept_bid(&s("holder"), 1_700_000_000_000_000_000, bid, &support(500, true), &Some(s("holder"))),
        Err(ContractError::BidCanceled)
    );
}

#[test]
fn bid_refusals() {
    let mut m = market();
    assert_eq!(
        m.create_bid(&s("b"), &s("market"), s("A"), s("P"), s("7"), 0, 10, true, &support(0, true)),
        Err(ContractError::InvalidPrice)
    );
    assert_eq!(
        m.create_bid(&s("b"), &s("market"), s("A"), s("P"), s("7"), 5, 10, true, &support(0, false)),
        Err(ContractError::OnlySupportCw721)
    );
    assert_eq!(
        m.create_bid(&s("b"), &s("market"), s("A"), s("P"), s("7"), 5, 10, false, &support(0, true)),
        Err(ContractError::PaymentMethodNotSupport)
    );
    let (bid, _) = m.create_bid(&s("b"), &s("market"), s("A"), s("P"), s("7"), 5, 10, true, &support(0, true)).unwrap();
    // Expired ten seconds ago.
    assert_eq!(m.accept_bid(&s("h"), 20_000_000_000, bid, &support(0, true), &Some(s("h"))), Err(ContractError::BidExpired));
    // At the expiry second itself it may still be accepted; a stranger has no claim.
    assert_eq!(m.accept_bid(&s("h"), 10_000_000_000, bid, &support(0, true), &Some(s("x"))), Err(ContractError::CanNotAcceptBid));
    assert_eq!(m.update_bid(&s("h"), &s("market"), bid, 7, 10), Err(ContractError::NotOwner));
    let up = m.update_bid(&s("b"), &s("market"), bid, 8, 30).unwrap();
    assert_eq!(up, vec![Effect::TransferFrom { token: s("P"), owner: s("b"), recipient: s("market"), amount: 3 }]);
    let down = m.update_bid(&s("b"), &s("market"), bid, 2, 30).unwrap();
    assert_eq!(down, vec![Effect::Transfer { token: s("P"), recipient: s("b"), amount: 6 }]);
    let cancel = m.cancel_bid(&s("b"), bid).unwrap();
    assert_eq!(cancel, vec![Effect::Transfer { token: s("P"), recipient: s("b"), amount: 2 }]);
    assert_eq!(m.cancel_bid(&s("b"), bid), Err(ContractError::BidCanceled));
}

#[test]
fn bid_accepted_through_escrowed_order() {
    let mut m = market();
    let (order, _) = m
        .create_order(&s("seller"), &s("market"), s("A"), s("P"), s("7"), 50, 1, true, &support(1000, true), &Holding::Owner(s("seller")))
        .unwrap();
    let (bid, _) = m.create_bid(&s("bidder"), &s("market"), s("A"), s("P"), s("7"), 40, u64::MAX, true, &support(1000, true)).unwrap();
    let effects = m.accept_bid(&s("seller"), 0, bid, &support(1000, true), &Some(s("market"))).unwrap();
    assert_eq!(
        effects,
        vec![
            Effect::TransferNft { contract: s("A"), recipient: s("bidder"), token_id: s("7") },
            Effect::Transfer { token: s("P"), recipient: s("seller"), amount: 36 },
        ]
    );
    let o = m.order_info(order).unwrap();
    assert!(!o.status);
    assert_eq!(o.quantity, 0);
    assert!(!m.can_accept_info(&s("A"), &s("7"), &s("seller")).unwrap().status);
}

fn owned_by(owner: &str, n: usize) -> Vec<ItemFacts> {
    (0..n).map(|_| ItemFacts { supported: true, is_cw721: true, owner: s(owner) }).collect()
}

#[test]
fn bundle_lifecycle() {
    let mut m = market();
    assert_eq!(
        m.create_bundle(&s("seller"), &s("market"), vec![], vec![], s("P"), 10, &vec![]),
        Err(ContractError::InvalidNumberItem)
    );
    let many: Vec<String> = (0..21).map(|i| i.to_string()).collect();
    assert_eq!(
        m.create_bundle(&s("seller"), &s("market"), vec![s("A"); 21], many, s("P"), 10, &owned_by("seller", 21)),
        Err(ContractError::InvalidNumberItem)
    );
    assert_eq!(
        m.create_bundle(&s("seller"), &s("market"), vec![s("A"), s("B")], vec![s("1"), s("2")], s("P"), 10, &owned_by("x", 2)),
        Err(ContractError::InsufficienTokenBalance)
    );
    let (id, created) = m
        .create_bundle(&s("seller"), &s("market"), vec![s("A"), s("B")], vec![s("1"), s("2")], s("P"), 1000, &owned_by("seller", 2))
        .unwrap();
    assert_eq!(
        created,
        vec![
            Effect::TransferNft { contract: s("A"), recipient: s("market"), token_id: s("1") },
            Effect::TransferNft { contract: s("B"), recipient: s("market"), token_id: s("2") },
        ]
    );
    assert_eq!(m.cancel_bundle(&s("other"), id), Err(ContractError::NotOwner));
    let bought = m.buy_bundle(&s("buyer"), &s("market"), id).unwrap();
    assert_eq!(
        bought,
        vec![
            Effect::TransferNft { contract: s("A"), recipient: s("buyer"), token_id: s("1") },
            Effect::TransferNft { contract: s("B"), recipient: s("buyer"), token_id: s("2") },
            Effect::TransferFrom { token: s("P"), owner: s("buyer"), recipient: s("market"), amount: 1000 },
            Effect::Transfer { token: s("P"), recipient: s("seller"), amount: 980 },
        ]
    );
    assert_eq!(m.buy_bundle(&s("buyer"), &s("market"), id), Err(ContractError::BundleCanceled));
    assert_eq!(m.cancel_bundle(&s("seller"), id), Err(ContractError::BundleCanceled));
}

#[test]
fn bid_accepted_through_escrowed_bundle() {
    let mut m = market();
    let (bundle, _) = m
        .create_bundle(&s("seller"), &s("market"), vec![s("A"), s("B")], vec![s("7"), s("8")], s("P"), 100, &owned_by("seller", 2))
        .unwrap();
    let (bid, _) = m.create_bid(&s("bidder"), &s("market"), s("A"), s("P"), s("7"), 40, u64::MAX, true, &support(0, true)).unwrap();
    let effects = m.accept_bid(&s("seller"), 0, bid, &support(0, true), &Some(s("market"))).unwrap();
    assert_eq!(
        effects,
        vec![
            Effect::TransferNft { contract: s("B"), recipient: s("seller"), token_id: s("8") },
            Effect::TransferNft { contract: s("A"), recipient: s("bidder"), token_id: s("7") },
            Effect::Transfer { token: s("P"), recipient: s("seller"), amount: 40 },
        ]
    );
    assert!(!m.bundle_info(bundle).unwrap().status);
    let effects = m.cancel_bundle(&s("seller"), bundle);
    assert_eq!(effects, Err(ContractError::BundleCanceled));
}

#[test]
fn settings_change() {
    let mut m = market();
    assert_eq!(m.update_bundle_fee(&s("x"), 300), Err(ContractError::Unauthorized));
    assert_eq!(m.update_game_market_payment_contract(&s("x"), s("policy2")), Err(ContractError::Unauthorized));
    assert_eq!(m.contract_info.bundle_fee, 200);
    assert_eq!(m.update_bundle_fee(&s("admin"), 300), Ok(()));
    assert_eq!(m.update_game_market_payment_contract(&s("admin"), s("policy2")), Ok(()));
    assert_eq!(m.contract_info.bundle_fee, 300);
    assert_eq!(m.contract_info.game_market_payment_contract, s("policy2"));
    assert_eq!(m.contract_info.owner, s("admin"));
}

#[test]
fn amounts_out_of_range_are_refused() {
    let mut m = market();
    let (id, _) = m
        .create_order(&s("seller"), &s("market"), s("ft"), s("pay"), s("0"), u128::MAX / 2, 10, true, &support(0, false), &Holding::Balance(10))
        .unwrap();
    assert_eq!(m.buy_order(&s("buyer"), &s("market"), id, 3, &support(0, false)), Err(ContractError::Overflow));
    assert_eq!(m.buy_order(&s("buyer"), &s("market"), id, 1, &support(10001, false)), Err(ContractError::Overflow));
    assert_eq!(m.order_info(id).unwrap().quantity, 10);
    assert!(m.buy_order(&s("buyer"), &s("market"), id, 2, &support(10000, false)).is_ok());
}

#[test]
fn accept_without_route_is_refused_whatever_the_fee() {
    let mut m = market();
    let (bid, _) = m.create_bid(&s("b"), &s("market"), s("A"), s("P"), s("7"), 5, u64::MAX, true, &support(0, true)).unwrap();
    assert_eq!(m.accept_bid(&s("x"), 0, bid, &support(20000, true), &Some(s("owner"))), Err(ContractError::CanNotAcceptBid));
    assert_eq!(m.accept_bid(&s("x"), 0, bid, &support(0, true), &None), Err(ContractError::QueryFailed));
    assert_eq!(m.accept_bid(&s("owner"), 0, bid, &support(20000, true), &Some(s("owner"))), Err(ContractError::Overflow));
    assert!(m.bid_info(bid).unwrap().status);
}
