use vstd::prelude::*;
use vstd::string::StringExecFns;

use crate::error::{ContractError, Effect};
use crate::fee::{compute_net, net_of_fee, FEE_SCALE};
use crate::kv::StrMap;

verus! {

/// The largest number of assets that one bundle may hold.
pub const MAX_BUNDLE_ITEMS: usize = 20;

/// Configuration and the counters that hand out ids.
pub struct ContractInfo {
    pub name: String,
    pub symbol: String,
    pub owner: String,
    pub total_order: u32,
    pub total_bid: u32,
    pub total_bundle: u32,
    /// Fee in basis points held back from each bundle sale.
    pub bundle_fee: u16,
    pub game_market_payment_contract: String,
}

/// Which active listing holds an escrowed asset on behalf of its custodian.
pub struct CanAccept {
    pub token_address: String,
    pub token_id: String,
    pub owner: String,
    pub status: bool,
    /// The bundle that holds the asset, or 0.
    pub bundle_id: u32,
    /// The order that holds the asset, or 0.
    pub order_id: u32,
}

/// A sell listing. Its asset is escrowed by this contract while it is active.
pub struct Order {
    pub id: u32,
    pub owner: String,
    pub token_address: String,
    pub payment_contract: String,
    pub token_id: String,
    pub quantity: u128,
    pub price: u128,
    pub is_cw721: bool,
    pub status: bool,
}

/// An offer to buy one non-fungible asset. Its price is escrowed while it is active.
pub struct Bid {
    pub id: u32,
    pub owner: String,
    pub token_address: String,
    pub payment_contract: String,
    pub token_id: String,
    pub quantity: u128,
    pub price: u128,
    /// Unix seconds after which the bid can no longer be accepted.
    pub expired: u64,
    pub status: bool,
}

/// Several non-fungible assets sold together for one price.
pub struct Bundle {
    pub id: u32,
    pub owner: String,
    pub list_token_address: Vec<String>,
    pub payment_contract: String,
    pub list_token_id: Vec<String>,
    pub price: u128,
    pub status: bool,
}

/// What the payment-policy contract says of an asset contract.
pub struct ContractSupportResponse {
    pub contract_address: String,
    pub fee: u16,
    pub is_cw721: bool,
    pub status: bool,
}

/// What the asset contract reports of the caller's holding: the owner of a
/// non-fungible token, or the caller's fungible balance.
pub enum Holding {
    Owner(String),
    Balance(u128),
}

/// The marketplace: orders, bids and bundles, with the index of escrowed assets.
/// Ids are handed out from 1 by the counters of `contract_info` and never reused;
/// the record of id `n` stands at position `n - 1`.
pub struct GameMarketContract {
    pub contract_info: ContractInfo,
    pub orders: Vec<Order>,
    pub bids: Vec<Bid>,
    pub bundles: Vec<Bundle>,
    pub can_accept: StrMap<CanAccept>,
}

/// Closed orders, bids and bundles stay as they were, and none is dropped: every
/// transition into the closed state is final.
pub open spec fn terminal_kept(before: GameMarketContract, after: GameMarketContract) -> bool {
    &&& before.orders@.len() <= after.orders@.len()
    &&& before.bids@.len() <= after.bids@.len()
    &&& before.bundles@.len() <= after.bundles@.len()
    &&& forall|i: int| 0 <= i < before.orders@.len() && !(#[trigger] before.orders@[i]).status
        ==> after.orders@[i] == before.orders@[i]
    &&& forall|i: int| 0 <= i < before.bids@.len() && !(#[trigger] before.bids@[i]).status
        ==> after.bids@[i] == before.bids@[i]
    &&& forall|i: int| 0 <= i < before.bundles@.len() && !(#[trigger] before.bundles@[i]).status
        ==> after.bundles@[i] == before.bundles@[i]
}

/// The key of the escrow index: asset contract, token id and custodian, joined.
pub open spec fn claim_key(token_address: Seq<char>, token_id: Seq<char>, custodian: Seq<char>) -> Seq<char> {
    token_address + token_id + custodian
}

/// How much of the asset the caller holds, by what the asset contract reported.
pub open spec fn held_amount(is_cw721: bool, holding: Holding, sender: Seq<char>) -> int {
    match holding {
        Holding::Owner(o) => if is_cw721 && o@ == sender { 1 } else { 0 },
        Holding::Balance(b) => if is_cw721 { 0 } else { b as int },
    }
}

pub open spec fn claim(token_address: String, token_id: String, owner: String, status: bool, bundle_id: u32, order_id: u32) -> CanAccept {
    CanAccept { token_address, token_id, owner, status, bundle_id, order_id }
}

/// The order once `q` of it is bought: a full fill closes it.
pub open spec fn order_after_buy(o: Order, q: u128) -> Order {
    if q == o.quantity {
        Order { status: false, quantity: 0, ..o }
    } else {
        Order { quantity: (o.quantity - q) as u128, ..o }
    }
}

/// The payments of a purchase of `q` at `price` each: the buyer pays the gross into
/// escrow, the seller receives it net of the fee. Nothing moves at a price of zero.
pub open spec fn purchase_payments(payment: String, buyer: String, seller: String, escrow: String, gross: int, fee: u16) -> Seq<Effect> {
    seq![
        Effect::TransferFrom { token: payment, owner: buyer, recipient: escrow, amount: gross as u128 },
        Effect::Transfer { token: payment, recipient: seller, amount: net_of_fee(gross, fee as int) as u128 },
    ]
}

/// The asset of an order handed to `recipient`: the token itself, or `amount` of it.
pub open spec fn release_asset(o: Order, recipient: String, amount: u128) -> Effect {
    if o.is_cw721 {
        Effect::TransferNft { contract: o.token_address, recipient, token_id: o.token_id }
    } else {
        Effect::Transfer { token: o.token_address, recipient, amount }
    }
}


/// Why `create_order` is refused, if it is.
pub open spec fn create_order_failure(info: ContractInfo, sender: Seq<char>, quantity: u128, supported: bool, support: ContractSupportResponse, holding: Holding) -> Option<ContractError> {
    let held = held_amount(support.is_cw721, holding, sender);
    if !supported {
        Some(ContractError::PaymentMethodNotSupport)
    } else if held == 0 || held < quantity {
        Some(ContractError::InsufficienTokenBalance)
    } else if quantity == 0 {
        Some(ContractError::InvalidQuantity)
    } else if info.total_order == u32::MAX {
        Some(ContractError::Overflow)
    } else {
        None
    }
}

/// Why `update_order` is refused, if it is.
pub open spec fn update_order_failure(m: GameMarketContract, sender: Seq<char>, order_id: u32, quantity: u128, balance: u128) -> Option<ContractError> {
    if !m.has_order(order_id) {
        Some(ContractError::NotFound)
    } else if !m.order(order_id).status {
        Some(ContractError::OrderCanceled)
    } else if m.order(order_id).owner@ != sender {
        Some(ContractError::NotOwner)
    } else if quantity == 0 {
        Some(ContractError::InvalidQuantity)
    } else if !m.order(order_id).is_cw721 && quantity > m.order(order_id).quantity
        && balance < quantity - m.order(order_id).quantity {
        Some(ContractError::InsufficienTokenBalance)
    } else {
        None
    }
}

/// The settlement of a quantity change: a fungible order pulls what it grows by from
/// the seller and refunds what it shrinks by.
pub open spec fn update_order_effects(o: Order, sender: String, escrow: String, quantity: u128) -> Seq<Effect> {
    if !o.is_cw721 && quantity > o.quantity {
        seq![Effect::TransferFrom { token: o.token_address, owner: sender, recipient: escrow, amount: (quantity - o.quantity) as u128 }]
    } else if !o.is_cw721 && quantity < o.quantity {
        seq![Effect::Transfer { token: o.token_address, recipient: o.owner, amount: (o.quantity - quantity) as u128 }]
    } else {
        seq![]
    }
}

/// Why `buy_order` is refused, if it is.
pub open spec fn buy_order_failure(m: GameMarketContract, order_id: u32, quantity: u128, support: ContractSupportResponse) -> Option<ContractError> {
    if !m.has_order(order_id) {
        Some(ContractError::NotFound)
    } else if !m.order(order_id).status {
        Some(ContractError::OrderCanceled)
    } else if quantity == 0 || quantity > m.order(order_id).quantity {
        Some(ContractError::InvalidQuantity)
    } else if m.order(order_id).price > 0 && (m.order(order_id).price * quantity > u128::MAX
        || support.fee > FEE_SCALE) {
        Some(ContractError::Overflow)
    } else {
        None
    }
}

/// Why `cancel_order` is refused, if it is.
pub open spec fn cancel_order_failure(m: GameMarketContract, sender: Seq<char>, order_id: u32) -> Option<ContractError> {
    if !m.has_order(order_id) {
        Some(ContractError::NotFound)
    } else if !m.order(order_id).status {
        Some(ContractError::OrderCanceled)
    } else if m.order(order_id).owner@ != sender {
        Some(ContractError::NotOwner)
    } else {
        None
    }
}


/// Why `create_bid` is refused, if it is.
pub open spec fn create_bid_failure(info: ContractInfo, price: u128, supported: bool, support: ContractSupportResponse) -> Option<ContractError> {
    if !supported {
        Some(ContractError::PaymentMethodNotSupport)
    } else if price == 0 {
        Some(ContractError::InvalidPrice)
    } else if !support.is_cw721 {
        Some(ContractError::OnlySupportCw721)
    } else if info.total_bid == u32::MAX {
        Some(ContractError::Overflow)
    } else {
        None
    }
}

/// Why `update_bid` is refused, if it is.
pub open spec fn update_bid_failure(m: GameMarketContract, sender: Seq<char>, bid_id: u32, price: u128) -> Option<ContractError> {
    if !m.has_bid(bid_id) {
        Some(ContractError::NotFound)
    } else if !m.bid(bid_id).status {
        Some(ContractError::BidCanceled)
    } else if m.bid(bid_id).owner@ != sender {
        Some(ContractError::NotOwner)
    } else if price == 0 {
        Some(ContractError::InvalidPrice)
    } else {
        None
    }
}

/// The settlement of a new bid price: a lower price is refunded, a higher one pulled.
pub open spec fn update_bid_effects(b: Bid, sender: String, escrow: String, price: u128) -> Seq<Effect> {
    if b.price > price {
        seq![Effect::Transfer { token: b.payment_contract, recipient: sender, amount: (b.price - price) as u128 }]
    } else if b.price < price {
        seq![Effect::TransferFrom { token: b.payment_contract, owner: sender, recipient: escrow, amount: (price - b.price) as u128 }]
    } else {
        seq![]
    }
}

/// Why `cancel_bid` is refused, if it is.
pub open spec fn cancel_bid_failure(m: GameMarketContract, sender: Seq<char>, bid_id: u32) -> Option<ContractError> {
    if !m.has_bid(bid_id) {
        Some(ContractError::NotFound)
    } else if !m.bid(bid_id).status {
        Some(ContractError::BidCanceled)
    } else if m.bid(bid_id).owner@ != sender {
        Some(ContractError::NotOwner)
    } else {
        None
    }
}


/// What the payment policy and the asset contract say of one asset offered in a bundle.
pub struct ItemFacts {
    /// Whether the policy accepts the asset contract with the bundle's payment token.
    pub supported: bool,
    pub is_cw721: bool,
    /// The token's current owner.
    pub owner: String,
}

/// The escrow index after the first `n` assets of a list, held for `custodian`, are
/// recorded with the given claim, one after the other.
pub open spec fn claims_set(m: Map<Seq<char>, CanAccept>, addrs: Seq<String>, ids: Seq<String>, custodian: String, status: bool, bundle_id: u32, order_id: u32, n: nat) -> Map<Seq<char>, CanAccept>
    decreases n,
{
    if n == 0 {
        m
    } else {
        claims_set(m, addrs, ids, custodian, status, bundle_id, order_id, (n - 1) as nat).insert(
            claim_key(addrs[n - 1]@, ids[n - 1]@, custodian@),
            claim(addrs[n - 1], ids[n - 1], custodian, status, bundle_id, order_id),
        )
    }
}

/// The first `n` assets of a list handed to `recipient`, in order.
pub open spec fn nft_transfers(addrs: Seq<String>, ids: Seq<String>, recipient: String, n: nat) -> Seq<Effect>
    decreases n,
{
    if n == 0 {
        seq![]
    } else {
        nft_transfers(addrs, ids, recipient, (n - 1) as nat).push(
            Effect::TransferNft { contract: addrs[n - 1], recipient, token_id: ids[n - 1] })
    }
}

/// As `nft_transfers`, leaving out the asset `(skip_addr, skip_id)`.
pub open spec fn nft_transfers_except(addrs: Seq<String>, ids: Seq<String>, recipient: String, skip_addr: Seq<char>, skip_id: Seq<char>, n: nat) -> Seq<Effect>
    decreases n,
{
    if n == 0 {
        seq![]
    } else if addrs[n - 1]@ == skip_addr && ids[n - 1]@ == skip_id {
        nft_transfers_except(addrs, ids, recipient, skip_addr, skip_id, (n - 1) as nat)
    } else {
        nft_transfers_except(addrs, ids, recipient, skip_addr, skip_id, (n - 1) as nat).push(
            Effect::TransferNft { contract: addrs[n - 1], recipient, token_id: ids[n - 1] })
    }
}

pub open spec fn item_failure(f: ItemFacts, sender: Seq<char>) -> Option<ContractError> {
    if !f.supported {
        Some(ContractError::PaymentMethodNotSupport)
    } else if !f.is_cw721 {
        Some(ContractError::OnlySupportCw721)
    } else if f.owner@ != sender {
        Some(ContractError::InsufficienTokenBalance)
    } else {
        None
    }
}

/// The failure of the first of the first `n` assets that fails.
pub open spec fn items_failure(facts: Seq<ItemFacts>, sender: Seq<char>, n: nat) -> Option<ContractError>
    decreases n,
{
    if n == 0 {
        None
    } else {
        match items_failure(facts, sender, (n - 1) as nat) {
            Some(e) => Some(e),
            None => item_failure(facts[n - 1], sender),
        }
    }
}

/// Why `create_bundle` is refused, if it is.
pub open spec fn create_bundle_failure(info: ContractInfo, sender: Seq<char>, addrs: Seq<String>, ids: Seq<String>, facts: Seq<ItemFacts>) -> Option<ContractError> {
    if addrs.len() == 0 || addrs.len() != ids.len() || addrs.len() > MAX_BUNDLE_ITEMS {
        Some(ContractError::InvalidNumberItem)
    } else if items_failure(facts, sender, addrs.len()) is Some {
        items_failure(facts, sender, addrs.len())
    } else if info.total_bundle == u32::MAX {
        Some(ContractError::Overflow)
    } else {
        None
    }
}

/// Why `buy_bundle` is refused, if it is.
pub open spec fn buy_bundle_failure(m: GameMarketContract, bundle_id: u32) -> Option<ContractError> {
    if !m.has_bundle(bundle_id) {
        Some(ContractError::NotFound)
    } else if !m.bundle(bundle_id).status {
        Some(ContractError::BundleCanceled)
    } else if m.bundle(bundle_id).price > 0 && m.contract_info.bundle_fee > FEE_SCALE {
        Some(ContractError::Overflow)
    } else {
        None
    }
}

/// Why `cancel_bundle` is refused, if it is.
pub open spec fn cancel_bundle_failure(m: GameMarketContract, sender: Seq<char>, bundle_id: u32) -> Option<ContractError> {
    if !m.has_bundle(bundle_id) {
        Some(ContractError::NotFound)
    } else if !m.bundle(bundle_id).status {
        Some(ContractError::BundleCanceled)
    } else if m.bundle(bundle_id).owner@ != sender {
        Some(ContractError::NotOwner)
    } else {
        None
    }
}

/// Once one of the first `k` assets fails, the first failure stays the same.
pub proof fn lemma_items_failure_stable(facts: Seq<ItemFacts>, sender: Seq<char>, k: nat, n: nat)
    requires
        k <= n,
        items_failure(facts, sender, k) is Some,
    ensures
        items_failure(facts, sender, n) == items_failure(facts, sender, k),
    decreases n,
{
    if n > k {
        lemma_items_failure_stable(facts, sender, k, (n - 1) as nat);
    }
}

fn set_claim(index: &mut StrMap<CanAccept>, status: bool, token_address: &String, token_id: &String, owner: &String, bundle_id: u32, order_id: u32)
    requires
        old(index).wf(),
    ensures
        final(index).wf(),
        final(index)@ == old(index)@.insert(
            claim_key(token_address@, token_id@, owner@),
            claim(*token_address, *token_id, *owner, status, bundle_id, order_id),
        ),
{
    let key = claim_key_of(token_address, token_id, owner);
    let record = CanAccept {
        token_address: token_address.clone(),
        token_id: token_id.clone(),
        owner: owner.clone(),
        status,
        bundle_id,
        order_id,
    };
    index.insert(key, record);
}

/// Records every asset of a list, held for `custodian`, with one claim, and lists
/// the transfers that hand each of them to `recipient`.
fn set_claims_and_transfer(index: &mut StrMap<CanAccept>, addrs: &Vec<String>, ids: &Vec<String>, custodian: &String, status: bool, bundle_id: u32, order_id: u32, recipient: &String) -> (effects: Vec<Effect>)
    requires
        old(index).wf(),
        addrs@.len() == ids@.len(),
    ensures
        final(index).wf(),
        final(index)@ == claims_set(old(index)@, addrs@, ids@, *custodian, status, bundle_id, order_id, addrs@.len()),
        effects@ == nft_transfers(addrs@, ids@, *recipient, addrs@.len()),
{
    let mut effects: Vec<Effect> = Vec::new();
    let mut i: usize = 0;
    while i < addrs.len()
        invariant
            i <= addrs@.len(),
            addrs@.len() == ids@.len(),
            index.wf(),
            index@ == claims_set(old(index)@, addrs@, ids@, *custodian, status, bundle_id, order_id, i as nat),
            effects@ == nft_transfers(addrs@, ids@, *recipient, i as nat),
        decreases addrs@.len() - i,
    {
        set_claim(index, status, &addrs[i], &ids[i], custodian, bundle_id, order_id);
        effects.push(Effect::TransferNft { contract: addrs[i].clone(), recipient: recipient.clone(), token_id: ids[i].clone() });
        i = i + 1;
    }
    effects
}


/// Nanoseconds in one second.
pub const NANOS_PER_SECOND: u64 = 1_000_000_000;

/// A bid is expired once its expiry, in seconds, lies before `now_nanos`.
pub open spec fn bid_expired(expired: u64, now_nanos: u64) -> bool {
    expired * NANOS_PER_SECOND < now_nanos
}

/// The claim under which the caller holds the asset of a bid in escrow, if any.
pub open spec fn claim_of(m: GameMarketContract, b: Bid, sender: Seq<char>) -> Option<CanAccept> {
    let key = claim_key(b.token_address@, b.token_id@, sender);
    if m.can_accept@.contains_key(key) {
        Some(m.can_accept@[key])
    } else {
        None
    }
}

/// Why the caller, who does not own the bid's token outright, cannot hand it over
/// through the escrow index, if so.
pub open spec fn claim_route_failure(m: GameMarketContract, b: Bid, sender: Seq<char>) -> Option<ContractError> {
    match claim_of(m, b, sender) {
        None => Some(ContractError::CanNotAcceptBid),
        Some(c) => if !c.status {
            Some(ContractError::CanNotAcceptBid)
        } else if c.order_id != 0 && !m.has_order(c.order_id) {
            Some(ContractError::NotFound)
        } else if c.order_id == 0 && c.bundle_id != 0 && !m.has_bundle(c.bundle_id) {
            Some(ContractError::NotFound)
        } else {
            None
        },
    }
}

/// Why `accept_bid` is refused, if it is. `nft_owner` is the current owner of the
/// bid's token as its contract reports it, or `None` where that query failed.
pub open spec fn accept_bid_failure(m: GameMarketContract, sender: Seq<char>, now_nanos: u64, bid_id: u32, support: ContractSupportResponse, nft_owner: Option<String>) -> Option<ContractError> {
    if !m.has_bid(bid_id) {
        Some(ContractError::NotFound)
    } else if bid_expired(m.bid(bid_id).expired, now_nanos) {
        Some(ContractError::BidExpired)
    } else if !m.bid(bid_id).status {
        Some(ContractError::BidCanceled)
    } else if nft_owner is None {
        Some(ContractError::QueryFailed)
    } else if nft_owner->Some_0@ != sender && claim_route_failure(m, m.bid(bid_id), sender) is Some {
        claim_route_failure(m, m.bid(bid_id), sender)
    } else if support.fee > FEE_SCALE {
        Some(ContractError::Overflow)
    } else {
        None
    }
}

/// The bid's token goes to the bidder and the accepting caller is paid the price net
/// of the fee.
pub open spec fn accept_payout(b: Bid, sender: String, fee: u16) -> Seq<Effect> {
    seq![
        Effect::TransferNft { contract: b.token_address, recipient: b.owner, token_id: b.token_id },
        Effect::Transfer { token: b.payment_contract, recipient: sender, amount: net_of_fee(b.price as int, fee as int) as u128 },
    ]
}


/// Releases every asset of a bundle held for `custodian` from the escrow index, and
/// lists the transfers that return to `recipient` all of them but `(skip_addr, skip_id)`.
fn release_bundle_except(index: &mut StrMap<CanAccept>, addrs: &Vec<String>, ids: &Vec<String>, custodian: &String, bundle_id: u32, order_id: u32, recipient: &String, skip_addr: &String, skip_id: &String) -> (effects: Vec<Effect>)
    requires
        old(index).wf(),
        addrs@.len() == ids@.len(),
    ensures
        final(index).wf(),
        final(index)@ == claims_set(old(index)@, addrs@, ids@, *custodian, false, bundle_id, order_id, addrs@.len()),
        effects@ == nft_transfers_except(addrs@, ids@, *recipient, skip_addr@, skip_id@, addrs@.len()),
{
    let mut effects: Vec<Effect> = Vec::new();
    let mut i: usize = 0;
    while i < addrs.len()
        invariant
            i <= addrs@.len(),
            addrs@.len() == ids@.len(),
            index.wf(),
            index@ == claims_set(old(index)@, addrs@, ids@, *custodian, false, bundle_id, order_id, i as nat),
            effects@ == nft_transfers_except(addrs@, ids@, *recipient, skip_addr@, skip_id@, i as nat),
        decreases addrs@.len() - i,
    {
        if addrs[i] != *skip_addr || ids[i] != *skip_id {
            effects.push(Effect::TransferNft { contract: addrs[i].clone(), recipient: recipient.clone(), token_id: ids[i].clone() });
        }
        set_claim(index, false, &addrs[i], &ids[i], custodian, bundle_id, order_id);
        i = i + 1;
    }
    effects
}

fn held(is_cw721: bool, holding: &Holding, sender: &String) -> (r: u128)
    ensures
        r == held_amount(is_cw721, *holding, sender@),
{
    match holding {
        Holding::Owner(o) => if is_cw721 && *o == *sender { 1 } else { 0 },
        Holding::Balance(b) => if is_cw721 { 0 } else { *b },
    }
}

fn claim_key_of(token_address: &String, token_id: &String, custodian: &String) -> (r: String)
    ensures
        r@ == claim_key(token_address@, token_id@, custodian@),
{
    let mut k = token_address.clone();
    k.append(token_id.as_str());
    k.append(custodian.as_str());
    k
}

impl Order {
    pub fn duplicate(&self) -> (r: Order)
        ensures
            r == *self,
    {
        Order {
            id: self.id,
            owner: self.owner.clone(),
            token_address: self.token_address.clone(),
            payment_contract: self.payment_contract.clone(),
            token_id: self.token_id.clone(),
            quantity: self.quantity,
            price: self.price,
            is_cw721: self.is_cw721,
            status: self.status,
        }
    }
}

impl Bid {
    pub fn duplicate(&self) -> (r: Bid)
        ensures
            r == *self,
    {
        Bid {
            id: self.id,
            owner: self.owner.clone(),
            token_address: self.token_address.clone(),
            payment_contract: self.payment_contract.clone(),
            token_id: self.token_id.clone(),
            quantity: self.quantity,
            price: self.price,
            expired: self.expired,
            status: self.status,
        }
    }
}

impl GameMarketContract {
    /// The ids match the positions and the counters; every bundle lists as many
    /// token ids as contracts.
    pub open spec fn wf(&self) -> bool {
        &&& self.orders@.len() == self.contract_info.total_order
        &&& self.bids@.len() == self.contract_info.total_bid
        &&& self.bundles@.len() == self.contract_info.total_bundle
        &&& forall|i: int| 0 <= i < self.orders@.len() ==> (#[trigger] self.orders@[i]).id == i + 1
        &&& forall|i: int| 0 <= i < self.bids@.len() ==> (#[trigger] self.bids@[i]).id == i + 1
        &&& forall|i: int| 0 <= i < self.bundles@.len() ==> (#[trigger] self.bundles@[i]).id == i + 1
        &&& forall|i: int| 0 <= i < self.bundles@.len() ==>
            (#[trigger] self.bundles@[i]).list_token_address@.len() == self.bundles@[i].list_token_id@.len()
        &&& forall|i: int| 0 <= i < self.orders@.len() && !(#[trigger] self.orders@[i]).status ==> self.orders@[i].quantity == 0
        &&& self.can_accept.wf()
    }

    pub open spec fn has_order(&self, id: u32) -> bool {
        1 <= id <= self.orders@.len()
    }

    pub open spec fn order(&self, id: u32) -> Order {
        self.orders@[id - 1]
    }

    pub open spec fn has_bid(&self, id: u32) -> bool {
        1 <= id <= self.bids@.len()
    }

    pub open spec fn bid(&self, id: u32) -> Bid {
        self.bids@[id - 1]
    }

    pub open spec fn has_bundle(&self, id: u32) -> bool {
        1 <= id <= self.bundles@.len()
    }

    pub open spec fn bundle(&self, id: u32) -> Bundle {
        self.bundles@[id - 1]
    }

    /// A fresh marketplace with no listings.
    pub fn instantiate(sender: &String, name: String, symbol: String, bundle_fee: u16, game_market_payment_contract: String) -> (r: Self)
        ensures
            r.wf(),
            r.contract_info == (ContractInfo {
                name, symbol, owner: *sender, total_order: 0, total_bid: 0, total_bundle: 0,
                bundle_fee, game_market_payment_contract,
            }),
            r.orders@.len() == 0,
            r.bids@.len() == 0,
            r.bundles@.len() == 0,
            r.can_accept@ == Map::<Seq<char>, CanAccept>::empty(),
    {
        GameMarketContract {
            contract_info: ContractInfo {
                name,
                symbol,
                owner: sender.clone(),
                total_order: 0,
                total_bid: 0,
                total_bundle: 0,
                bundle_fee,
                game_market_payment_contract,
            },
            orders: Vec::new(),
            bids: Vec::new(),
            bundles: Vec::new(),
            can_accept: StrMap::new(),
        }
    }

    /// The marketplace made of stored parts, if they form a well-formed one.
    pub fn restore(contract_info: ContractInfo, orders: Vec<Order>, bids: Vec<Bid>, bundles: Vec<Bundle>, can_accept: Vec<(String, CanAccept)>) -> (r: Option<Self>)
        ensures
            match r {
                Some(m) => m.wf() && m.contract_info == contract_info && m.orders == orders && m.bids == bids
                    && m.bundles == bundles && m.can_accept.entries == can_accept,
                None => !(GameMarketContract {
                    contract_info, orders, bids, bundles, can_accept: StrMap { entries: can_accept },
                }).wf(),
            },
    {
        let ghost whole = GameMarketContract {
            contract_info, orders, bids, bundles, can_accept: StrMap { entries: can_accept },
        };
        if orders.len() != contract_info.total_order as usize || bids.len() != contract_info.total_bid as usize
            || bundles.len() != contract_info.total_bundle as usize {
            return None;
        }
        let mut i: usize = 0;
        while i < orders.len()
            invariant
                i <= orders@.len(),
                whole.orders == orders,
                whole.bids == bids,
                whole.bundles == bundles,
                orders@.len() == contract_info.total_order,
                forall|k: int| 0 <= k < i ==> (#[trigger] orders@[k]).id == k + 1,
                forall|k: int| 0 <= k < i && !(#[trigger] orders@[k]).status ==> orders@[k].quantity == 0,
            decreases orders@.len() - i,
        {
            if orders[i].id as usize != i + 1 || (!orders[i].status && orders[i].quantity != 0) {
                proof {
                    assert(!whole.wf()) by {
                        assert(whole.orders@[i as int] == orders@[i as int]);
                    }
                }
                return None;
            }
            i = i + 1;
        }
        let mut j: usize = 0;
        while j < bids.len()
            invariant
                j <= bids@.len(),
                whole.orders == orders,
                whole.bids == bids,
                whole.bundles == bundles,
                bids@.len() == contract_info.total_bid,
                forall|k: int| 0 <= k < j ==> (#[trigger] bids@[k]).id == k + 1,
            decreases bids@.len() - j,
        {
            if bids[j].id as usize != j + 1 {
                proof {
                    assert(!whole.wf()) by {
                        assert(whole.bids@[j as int] == bids@[j as int]);
                    }
                }
                return None;
            }
            j = j + 1;
        }
        let mut k: usize = 0;
        while k < bundles.len()
            invariant
                k <= bundles@.len(),
                whole.orders == orders,
                whole.bids == bids,
                whole.bundles == bundles,
                bundles@.len() == contract_info.total_bundle,
                forall|x: int| 0 <= x < k ==> (#[trigger] bundles@[x]).id == x + 1,
                forall|x: int| 0 <= x < k ==>
                    (#[trigger] bundles@[x]).list_token_address@.len() == bundles@[x].list_token_id@.len(),
            decreases bundles@.len() - k,
        {
            if bundles[k].id as usize != k + 1 || bundles[k].list_token_address.len() != bundles[k].list_token_id.len() {
                proof {
                    assert(!whole.wf()) by {
                        assert(whole.bundles@[k as int] == bundles@[k as int]);
                    }
                }
                return None;
            }
            k = k + 1;
        }
        match StrMap::from_entries(can_accept) {
            Some(index) => Some(GameMarketContract { contract_info, orders, bids, bundles, can_accept: index }),
            None => None,
        }
    }

    /// Records in the escrow index whether the asset held for `owner` can be claimed,
    /// and through which order or bundle.
    pub fn update_can_accept(&mut self, status: bool, token_address: &String, token_id: &String, owner: &String, bundle_id: u32, order_id: u32)
        requires
            old(self).wf(),
        ensures
            final(self).wf(),
            terminal_kept(*old(self), *final(self)),
            final(self).contract_info == old(self).contract_info,
            final(self).orders == old(self).orders,
            final(self).bids == old(self).bids,
            final(self).bundles == old(self).bundles,
            final(self).can_accept@ == old(self).can_accept@.insert(
                claim_key(token_address@, token_id@, owner@),
                claim(*token_address, *token_id, *owner, status, bundle_id, order_id),
            ),
    {
        set_claim(&mut self.can_accept, status, token_address, token_id, owner, bundle_id, order_id);
    }
    /// Lists `quantity` of an asset for sale at `price` each, escrowing it: the
    /// whole fungible quantity, or the one non-fungible token, whose escrow is then
    /// claimable through the new order. `supported` is whether the payment policy
    /// accepts the pair, `support` what it says of the asset contract, `holding` what
    /// the asset contract says of the caller. Returns the new order's id.
    pub fn create_order(&mut self, sender: &String, self_address: &String, token_address: String, payment_contract: String, token_id: String, price: u128, quantity: u128, supported: bool, support: &ContractSupportResponse, holding: &Holding) -> (r: Result<(u32, Vec<Effect>), ContractError>)
        requires
            old(self).wf(),
        ensures
            final(self).wf(),
            terminal_kept(*old(self), *final(self)),
            match create_order_failure(old(self).contract_info, sender@, quantity, supported, *support, *holding) {
                Some(e) => r == Err::<(u32, Vec<Effect>), ContractError>(e) && *final(self) == *old(self),
                None => r is Ok && {
                    let id = r->Ok_0.0;
                    let effects = r->Ok_0.1;
                    &&& id == old(self).contract_info.total_order + 1
                    &&& final(self).orders@ == old(self).orders@.push(Order {
                        id, owner: *sender, token_address, payment_contract, token_id, quantity, price,
                        is_cw721: support.is_cw721, status: true,
                    })
                    &&& final(self).contract_info == (ContractInfo { total_order: id, ..old(self).contract_info })
                    &&& final(self).bids == old(self).bids
                    &&& final(self).bundles == old(self).bundles
                    &&& if support.is_cw721 {
                        &&& final(self).can_accept@ == old(self).can_accept@.insert(
                            claim_key(token_address@, token_id@, sender@),
                            claim(token_address, token_id, *sender, true, 0, id))
                        &&& effects@ == seq![Effect::TransferNft { contract: token_address, recipient: *self_address, token_id }]
                    } else {
                        &&& final(self).can_accept@ == old(self).can_accept@
                        &&& effects@ == seq![Effect::TransferFrom { token: token_address, owner: *sender, recipient: *self_address, amount: quantity }]
                    }
                },
            },
    {
        if !supported {
            return Err(ContractError::PaymentMethodNotSupport);
        }
        let balance = held(support.is_cw721, holding, sender);
        if balance == 0 || balance < quantity {
            return Err(ContractError::InsufficienTokenBalance);
        }
        if quantity == 0 {
            return Err(ContractError::InvalidQuantity);
        }
        if self.contract_info.total_order == u32::MAX {
            return Err(ContractError::Overflow);
        }
        let id = self.contract_info.total_order + 1;
        let order = Order {
            id,
            owner: sender.clone(),
            token_address: token_address.clone(),
            payment_contract,
            token_id: token_id.clone(),
            quantity,
            price,
            is_cw721: support.is_cw721,
            status: true,
        };
        self.contract_info.total_order = id;
        self.orders.push(order);
        let mut effects: Vec<Effect> = Vec::new();
        if support.is_cw721 {
            self.update_can_accept(true, &token_address, &token_id, sender, 0, id);
            effects.push(Effect::TransferNft { contract: token_address, recipient: self_address.clone(), token_id });
        } else {
            effects.push(Effect::TransferFrom { token: token_address, owner: sender.clone(), recipient: self_address.clone(), amount: quantity });
        }
        Ok((id, effects))
    }

    /// The seller sets a new quantity and price on an active order; a fungible
    /// order settles the difference in quantity. `balance` is the seller's balance of
    /// the order's token, consulted only when a fungible order grows.
    pub fn update_order(&mut self, sender: &String, self_address: &String, order_id: u32, quantity: u128, price: u128, balance: u128) -> (r: Result<Vec<Effect>, ContractError>)
        requires
            old(self).wf(),
        ensures
            final(self).wf(),
            terminal_kept(*old(self), *final(self)),
            match update_order_failure(*old(self), sender@, order_id, quantity, balance) {
                Some(e) => r == Err::<Vec<Effect>, ContractError>(e) && *final(self) == *old(self),
                None => r is Ok && {
                    let o = old(self).order(order_id);
                    &&& final(self).orders@ == old(self).orders@.update(order_id - 1, Order { quantity, price, ..o })
                    &&& final(self).contract_info == old(self).contract_info
                    &&& final(self).bids == old(self).bids
                    &&& final(self).bundles == old(self).bundles
                    &&& final(self).can_accept == old(self).can_accept
                    &&& r->Ok_0@ == update_order_effects(o, *sender, *self_address, quantity)
                },
            },
    {
        if order_id == 0 || order_id as usize > self.orders.len() {
            return Err(ContractError::NotFound);
        }
        let idx = (order_id - 1) as usize;
        let o = self.orders[idx].duplicate();
        if !o.status {
            return Err(ContractError::OrderCanceled);
        }
        if o.owner != *sender {
            return Err(ContractError::NotOwner);
        }
        if quantity == 0 {
            return Err(ContractError::InvalidQuantity);
        }
        let mut effects: Vec<Effect> = Vec::new();
        if !o.is_cw721 {
            if quantity > o.quantity {
                if balance < quantity - o.quantity {
                    return Err(ContractError::InsufficienTokenBalance);
                }
                effects.push(Effect::TransferFrom {
                    token: o.token_address.clone(),
                    owner: sender.clone(),
                    recipient: self_address.clone(),
                    amount: quantity - o.quantity,
                });
            } else if quantity < o.quantity {
                effects.push(Effect::Transfer {
                    token: o.token_address.clone(),
                    recipient: o.owner.clone(),
                    amount: o.quantity - quantity,
                });
            }
        }
        self.orders.set(idx, Order { quantity, price, ..o });
        Ok(effects)
    }

    /// Buys `quantity` of an active order. The buyer receives the asset; at a
    /// nonzero price the buyer pays `price * quantity` into escrow and the seller
    /// receives it net of the fee that `support` (the payment policy's word on the
    /// asset contract, read now) gives. A full fill closes the order and its claim.
    pub fn buy_order(&mut self, sender: &String, self_address: &String, order_id: u32, quantity: u128, support: &ContractSupportResponse) -> (r: Result<Vec<Effect>, ContractError>)
        requires
            old(self).wf(),
        ensures
            final(self).wf(),
            terminal_kept(*old(self), *final(self)),
            match buy_order_failure(*old(self), order_id, quantity, *support) {
                Some(e) => r == Err::<Vec<Effect>, ContractError>(e) && *final(self) == *old(self),
                None => r is Ok && {
                    let o = old(self).order(order_id);
                    &&& final(self).orders@ == old(self).orders@.update(order_id - 1, order_after_buy(o, quantity))
                    &&& final(self).contract_info == old(self).contract_info
                    &&& final(self).bids == old(self).bids
                    &&& final(self).bundles == old(self).bundles
                    &&& final(self).can_accept@ == if o.is_cw721 {
                        old(self).can_accept@.insert(claim_key(o.token_address@, o.token_id@, o.owner@),
                            claim(o.token_address, o.token_id, o.owner, false, 0, order_id))
                    } else {
                        old(self).can_accept@
                    }
                    &&& r->Ok_0@ == seq![release_asset(o, *sender, quantity)] + if o.price > 0 {
                        purchase_payments(o.payment_contract, *sender, o.owner, *self_address, o.price * quantity, support.fee)
                    } else {
                        seq![]
                    }
                },
            },
    {
        if order_id == 0 || order_id as usize > self.orders.len() {
            return Err(ContractError::NotFound);
        }
        let idx = (order_id - 1) as usize;
        let o = self.orders[idx].duplicate();
        if !o.status {
            return Err(ContractError::OrderCanceled);
        }
        if quantity == 0 || quantity > o.quantity {
            return Err(ContractError::InvalidQuantity);
        }
        let gross = o.price.checked_mul(quantity);
        if o.price > 0 && (gross.is_none() || support.fee > FEE_SCALE) {
            return Err(ContractError::Overflow);
        }
        let after = if quantity == o.quantity {
            Order { status: false, quantity: 0, ..o.duplicate() }
        } else {
            Order { quantity: o.quantity - quantity, ..o.duplicate() }
        };
        self.orders.set(idx, after);
        let mut effects: Vec<Effect> = Vec::new();
        if o.is_cw721 {
            self.update_can_accept(false, &o.token_address, &o.token_id, &o.owner, 0, order_id);
            effects.push(Effect::TransferNft { contract: o.token_address.clone(), recipient: sender.clone(), token_id: o.token_id.clone() });
        } else {
            effects.push(Effect::Transfer { token: o.token_address.clone(), recipient: sender.clone(), amount: quantity });
        }
        if o.price > 0 {
            let total = gross.unwrap();
            effects.push(Effect::TransferFrom {
                token: o.payment_contract.clone(),
                owner: sender.clone(),
                recipient: self_address.clone(),
                amount: total,
            });
            effects.push(Effect::Transfer {
                token: o.payment_contract.clone(),
                recipient: o.owner.clone(),
                amount: compute_net(total, support.fee),
            });
        }
        Ok(effects)
    }

    /// The seller withdraws an active order: the escrowed remainder goes back to the
    /// seller, the order closes with nothing left and its claim is released.
    pub fn cancel_order(&mut self, sender: &String, order_id: u32) -> (r: Result<Vec<Effect>, ContractError>)
        requires
            old(self).wf(),
        ensures
            final(self).wf(),
            terminal_kept(*old(self), *final(self)),
            match cancel_order_failure(*old(self), sender@, order_id) {
                Some(e) => r == Err::<Vec<Effect>, ContractError>(e) && *final(self) == *old(self),
                None => r is Ok && {
                    let o = old(self).order(order_id);
                    &&& final(self).orders@ == old(self).orders@.update(order_id - 1, Order { quantity: 0, status: false, ..o })
                    &&& final(self).contract_info == old(self).contract_info
                    &&& final(self).bids == old(self).bids
                    &&& final(self).bundles == old(self).bundles
                    &&& final(self).can_accept@ == if o.is_cw721 {
                        old(self).can_accept@.insert(claim_key(o.token_address@, o.token_id@, o.owner@),
                            claim(o.token_address, o.token_id, o.owner, false, 0, order_id))
                    } else {
                        old(self).can_accept@
                    }
                    &&& r->Ok_0@ == seq![release_asset(o, *sender, o.quantity)]
                },
            },
    {
        if order_id == 0 || order_id as usize > self.orders.len() {
            return Err(ContractError::NotFound);
        }
        let idx = (order_id - 1) as usize;
        let o = self.orders[idx].duplicate();
        if !o.status {
            return Err(ContractError::OrderCanceled);
        }
        if o.owner != *sender {
            return Err(ContractError::NotOwner);
        }
        self.orders.set(idx, Order { quantity: 0, status: false, ..o.duplicate() });
        let mut effects: Vec<Effect> = Vec::new();
        if o.is_cw721 {
            self.update_can_accept(false, &o.token_address, &o.token_id, &o.owner, 0, order_id);
            effects.push(Effect::TransferNft { contract: o.token_address.clone(), recipient: sender.clone(), token_id: o.token_id.clone() });
        } else {
            effects.push(Effect::Transfer { token: o.token_address.clone(), recipient: sender.clone(), amount: o.quantity });
        }
        Ok(effects)
    }
    /// Offers `price` for one non-fungible token, valid until `expired` (Unix
    /// seconds), escrowing the price. Returns the new bid's id.
    pub fn create_bid(&mut self, sender: &String, self_address: &String, token_address: String, payment_contract: String, token_id: String, price: u128, expired: u64, supported: bool, support: &ContractSupportResponse) -> (r: Result<(u32, Vec<Effect>), ContractError>)
        requires
            old(self).wf(),
        ensures
            final(self).wf(),
            terminal_kept(*old(self), *final(self)),
            match create_bid_failure(old(self).contract_info, price, supported, *support) {
                Some(e) => r == Err::<(u32, Vec<Effect>), ContractError>(e) && *final(self) == *old(self),
                None => r is Ok && {
                    let id = r->Ok_0.0;
                    &&& id == old(self).contract_info.total_bid + 1
                    &&& final(self).bids@ == old(self).bids@.push(Bid {
                        id, owner: *sender, token_address, payment_contract, token_id, quantity: 1, price,
                        expired, status: true,
                    })
                    &&& final(self).contract_info == (ContractInfo { total_bid: id, ..old(self).contract_info })
                    &&& final(self).orders == old(self).orders
                    &&& final(self).bundles == old(self).bundles
                    &&& final(self).can_accept == old(self).can_accept
                    &&& r->Ok_0.1@ == seq![Effect::TransferFrom { token: payment_contract, owner: *sender, recipient: *self_address, amount: price }]
                },
            },
    {
        if !supported {
            return Err(ContractError::PaymentMethodNotSupport);
        }
        if price == 0 {
            return Err(ContractError::InvalidPrice);
        }
        if !support.is_cw721 {
            return Err(ContractError::OnlySupportCw721);
        }
        if self.contract_info.total_bid == u32::MAX {
            return Err(ContractError::Overflow);
        }
        let id = self.contract_info.total_bid + 1;
        let effects = vec![Effect::TransferFrom {
            token: payment_contract.clone(),
            owner: sender.clone(),
            recipient: self_address.clone(),
            amount: price,
        }];
        self.bids.push(Bid {
            id,
            owner: sender.clone(),
            token_address,
            payment_contract,
            token_id,
            quantity: 1,
            price,
            expired,
            status: true,
        });
        self.contract_info.total_bid = id;
        Ok((id, effects))
    }

    /// The bidder sets a new price and expiry on an active bid; the escrow is
    /// topped up or refunded by the difference.
    pub fn update_bid(&mut self, sender: &String, self_address: &String, bid_id: u32, price: u128, expired: u64) -> (r: Result<Vec<Effect>, ContractError>)
        requires
            old(self).wf(),
        ensures
            final(self).wf(),
            terminal_kept(*old(self), *final(self)),
            match update_bid_failure(*old(self), sender@, bid_id, price) {
                Some(e) => r == Err::<Vec<Effect>, ContractError>(e) && *final(self) == *old(self),
                None => r is Ok && {
                    let b = old(self).bid(bid_id);
                    &&& final(self).bids@ == old(self).bids@.update(bid_id - 1, Bid { price, expired, ..b })
                    &&& final(self).contract_info == old(self).contract_info
                    &&& final(self).orders == old(self).orders
                    &&& final(self).bundles == old(self).bundles
                    &&& final(self).can_accept == old(self).can_accept
                    &&& r->Ok_0@ == update_bid_effects(b, *sender, *self_address, price)
                },
            },
    {
        if bid_id == 0 || bid_id as usize > self.bids.len() {
            return Err(ContractError::NotFound);
        }
        let idx = (bid_id - 1) as usize;
        let b = self.bids[idx].duplicate();
        if !b.status {
            return Err(ContractError::BidCanceled);
        }
        if b.owner != *sender {
            return Err(ContractError::NotOwner);
        }
        if price == 0 {
            return Err(ContractError::InvalidPrice);
        }
        let mut effects: Vec<Effect> = Vec::new();
        if b.price > price {
            effects.push(Effect::Transfer { token: b.payment_contract.clone(), recipient: sender.clone(), amount: b.price - price });
        } else if b.price < price {
            effects.push(Effect::TransferFrom {
                token: b.payment_contract.clone(),
                owner: sender.clone(),
                recipient: self_address.clone(),
                amount: price - b.price,
            });
        }
        self.bids.set(idx, Bid { price, expired, ..b });
        Ok(effects)
    }

    /// The bidder withdraws an active bid and the escrowed price is refunded.
    pub fn cancel_bid(&mut self, sender: &String, bid_id: u32) -> (r: Result<Vec<Effect>, ContractError>)
        requires
            old(self).wf(),
        ensures
            final(self).wf(),
            terminal_kept(*old(self), *final(self)),
            match cancel_bid_failure(*old(self), sender@, bid_id) {
                Some(e) => r == Err::<Vec<Effect>, ContractError>(e) && *final(self) == *old(self),
                None => r is Ok && {
                    let b = old(self).bid(bid_id);
                    &&& final(self).bids@ == old(self).bids@.update(bid_id - 1, Bid { quantity: 0, status: false, ..b })
                    &&& final(self).contract_info == old(self).contract_info
                    &&& final(self).orders == old(self).orders
                    &&& final(self).bundles == old(self).bundles
                    &&& final(self).can_accept == old(self).can_accept
                    &&& r->Ok_0@ == seq![Effect::Transfer { token: b.payment_contract, recipient: b.owner, amount: b.price }]
                },
            },
    {
        if bid_id == 0 || bid_id as usize > self.bids.len() {
            return Err(ContractError::NotFound);
        }
        let idx = (bid_id - 1) as usize;
        let b = self.bids[idx].duplicate();
        if !b.status {
            return Err(ContractError::BidCanceled);
        }
        if b.owner != *sender {
            return Err(ContractError::NotOwner);
        }
        let effects = vec![Effect::Transfer { token: b.payment_contract.clone(), recipient: b.owner.clone(), amount: b.price }];
        self.bids.set(idx, Bid { quantity: 0, status: false, ..b });
        Ok(effects)
    }
    /// Lists up to twenty non-fungible tokens for sale together at `price`,
    /// escrowing each and making each claimable through the new bundle. `facts[i]`
    /// is what the payment policy and the asset contract say of the `i`-th token.
    /// Returns the new bundle's id.
    pub fn create_bundle(&mut self, sender: &String, self_address: &String, list_token_address: Vec<String>, list_token_id: Vec<String>, payment_contract: String, price: u128, facts: &Vec<ItemFacts>) -> (r: Result<(u32, Vec<Effect>), ContractError>)
        requires
            old(self).wf(),
            facts@.len() == list_token_address@.len(),
        ensures
            final(self).wf(),
            terminal_kept(*old(self), *final(self)),
            match create_bundle_failure(old(self).contract_info, sender@, list_token_address@, list_token_id@, facts@) {
                Some(e) => r == Err::<(u32, Vec<Effect>), ContractError>(e) && *final(self) == *old(self),
                None => r is Ok && {
                    let id = r->Ok_0.0;
                    let n = list_token_address@.len();
                    &&& id == old(self).contract_info.total_bundle + 1
                    &&& final(self).bundles@.len() == old(self).bundles@.len() + 1
                    &&& final(self).bundles@.drop_last() == old(self).bundles@
                    &&& final(self).bundle(id) == (Bundle {
                        id, owner: *sender, list_token_address, payment_contract, list_token_id, price, status: true,
                    })
                    &&& final(self).contract_info == (ContractInfo { total_bundle: id, ..old(self).contract_info })
                    &&& final(self).orders == old(self).orders
                    &&& final(self).bids == old(self).bids
                    &&& final(self).can_accept@ == claims_set(old(self).can_accept@, list_token_address@, list_token_id@, *sender, true, id, 0, n)
                    &&& r->Ok_0.1@ == nft_transfers(list_token_address@, list_token_id@, *self_address, n)
                },
            },
    {
        let n = list_token_address.len();
        if n == 0 || n != list_token_id.len() || n > MAX_BUNDLE_ITEMS {
            return Err(ContractError::InvalidNumberItem);
        }
        let mut i: usize = 0;
        while i < n
            invariant
                i <= n,
                n == list_token_address@.len(),
                facts@.len() == n,
                n == list_token_id@.len(),
                1 <= n <= MAX_BUNDLE_ITEMS,
                self.wf(),
                items_failure(facts@, sender@, i as nat) is None,
            decreases n - i,
        {
            let f = &facts[i];
            proof {
                if item_failure(facts@[i as int], sender@) is Some {
                    lemma_items_failure_stable(facts@, sender@, (i + 1) as nat, n as nat);
                }
            }
            if !f.supported {
                return Err(ContractError::PaymentMethodNotSupport);
            }
            if !f.is_cw721 {
                return Err(ContractError::OnlySupportCw721);
            }
            if f.owner != *sender {
                return Err(ContractError::InsufficienTokenBalance);
            }
            i = i + 1;
        }
        if self.contract_info.total_bundle == u32::MAX {
            return Err(ContractError::Overflow);
        }
        let id = self.contract_info.total_bundle + 1;
        let effects = set_claims_and_transfer(&mut self.can_accept, &list_token_address, &list_token_id, sender, true, id, 0, self_address);
        self.bundles.push(Bundle {
            id,
            owner: sender.clone(),
            list_token_address,
            payment_contract,
            list_token_id,
            price,
            status: true,
        });
        self.contract_info.total_bundle = id;
        assert(self.bundles@.drop_last() =~= old(self).bundles@);
        Ok((id, effects))
    }

    /// Buys an active bundle whole: every token goes to the buyer, the buyer pays
    /// the price into escrow, and at a nonzero price the seller receives it net of
    /// the bundle fee. The bundle closes and its claims are released.
    pub fn buy_bundle(&mut self, sender: &String, self_address: &String, bundle_id: u32) -> (r: Result<Vec<Effect>, ContractError>)
        requires
            old(self).wf(),
        ensures
            final(self).wf(),
            terminal_kept(*old(self), *final(self)),
            match buy_bundle_failure(*old(self), bundle_id) {
                Some(e) => r == Err::<Vec<Effect>, ContractError>(e) && *final(self) == *old(self),
                None => r is Ok && {
                    let b = old(self).bundle(bundle_id);
                    let n = b.list_token_address@.len();
                    &&& final(self).bundles@ == old(self).bundles@.update(bundle_id - 1, Bundle { status: false, ..b })
                    &&& final(self).contract_info == old(self).contract_info
                    &&& final(self).orders == old(self).orders
                    &&& final(self).bids == old(self).bids
                    &&& final(self).can_accept@ == claims_set(old(self).can_accept@, b.list_token_address@, b.list_token_id@, b.owner, false, bundle_id, 0, n)
                    &&& r->Ok_0@ == nft_transfers(b.list_token_address@, b.list_token_id@, *sender, n)
                        + seq![Effect::TransferFrom { token: b.payment_contract, owner: *sender, recipient: *self_address, amount: b.price }]
                        + if b.price > 0 {
                            seq![Effect::Transfer { token: b.payment_contract, recipient: b.owner, amount: net_of_fee(b.price as int, old(self).contract_info.bundle_fee as int) as u128 }]
                        } else {
                            seq![]
                        }
                },
            },
    {
        if bundle_id == 0 || bundle_id as usize > self.bundles.len() {
            return Err(ContractError::NotFound);
        }
        let idx = (bundle_id - 1) as usize;
        if !self.bundles[idx].status {
            return Err(ContractError::BundleCanceled);
        }
        let fee = self.contract_info.bundle_fee;
        if self.bundles[idx].price > 0 && fee > FEE_SCALE {
            return Err(ContractError::Overflow);
        }
        let b = self.bundles.remove(idx);
        let mut effects = set_claims_and_transfer(&mut self.can_accept, &b.list_token_address, &b.list_token_id, &b.owner, false, bundle_id, 0, sender);
        effects.push(Effect::TransferFrom { token: b.payment_contract.clone(), owner: sender.clone(), recipient: self_address.clone(), amount: b.price });
        if b.price > 0 {
            effects.push(Effect::Transfer { token: b.payment_contract.clone(), recipient: b.owner.clone(), amount: compute_net(b.price, fee) });
        }
        self.bundles.insert(idx, Bundle { status: false, ..b });
        assert(self.bundles@ =~= old(self).bundles@.update(idx as int, old(self).bundles@[idx as int]).update(idx as int, self.bundles@[idx as int]));
        Ok(effects)
    }

    /// The seller withdraws an active bundle: every token goes back to the seller and
    /// the bundle's claims are released.
    pub fn cancel_bundle(&mut self, sender: &String, bundle_id: u32) -> (r: Result<Vec<Effect>, ContractError>)
        requires
            old(self).wf(),
        ensures
            final(self).wf(),
            terminal_kept(*old(self), *final(self)),
            match cancel_bundle_failure(*old(self), sender@, bundle_id) {
                Some(e) => r == Err::<Vec<Effect>, ContractError>(e) && *final(self) == *old(self),
                None => r is Ok && {
                    let b = old(self).bundle(bundle_id);
                    let n = b.list_token_address@.len();
                    &&& final(self).bundles@ == old(self).bundles@.update(bundle_id - 1, Bundle { status: false, ..b })
                    &&& final(self).contract_info == old(self).contract_info
                    &&& final(self).orders == old(self).orders
                    &&& final(self).bids == old(self).bids
                    &&& final(self).can_accept@ == claims_set(old(self).can_accept@, b.list_token_address@, b.list_token_id@, *sender, false, bundle_id, 0, n)
                    &&& r->Ok_0@ == nft_transfers(b.list_token_address@, b.list_token_id@, b.owner, n)
                },
            },
    {
        if bundle_id == 0 || bundle_id as usize > self.bundles.len() {
            return Err(ContractError::NotFound);
        }
        let idx = (bundle_id - 1) as usize;
        if !self.bundles[idx].status {
            return Err(ContractError::BundleCanceled);
        }
        if self.bundles[idx].owner != *sender {
            return Err(ContractError::NotOwner);
        }
        let b = self.bundles.remove(idx);
        let effects = set_claims_and_transfer(&mut self.can_accept, &b.list_token_address, &b.list_token_id, sender, false, bundle_id, 0, &b.owner);
        self.bundles.insert(idx, Bundle { status: false, ..b });
        assert(self.bundles@ =~= old(self).bundles@.update(idx as int, old(self).bundles@[idx as int]).update(idx as int, self.bundles@[idx as int]));
        Ok(effects)
    }
    /// The holder of a bid's token accepts the bid at time `now_nanos`. A caller who
    /// owns the token outright hands it over directly. A caller whose token this
    /// contract escrows hands it over through the claim: the order holding it is
    /// closed, or the bundle holding it is closed and its other tokens go back to
    /// the bundle's owner. Either way the bidder receives the token and the caller
    /// the escrowed price net of the fee of `support`. `nft_owner` is the token's
    /// current owner as its contract reports it, `None` where that query failed.
    pub fn accept_bid(&mut self, sender: &String, now_nanos: u64, bid_id: u32, support: &ContractSupportResponse, nft_owner: &Option<String>) -> (r: Result<Vec<Effect>, ContractError>)
        requires
            old(self).wf(),
        ensures
            final(self).wf(),
            terminal_kept(*old(self), *final(self)),
            match accept_bid_failure(*old(self), sender@, now_nanos, bid_id, *support, *nft_owner) {
                Some(e) => r == Err::<Vec<Effect>, ContractError>(e) && *final(self) == *old(self),
                None => r is Ok && {
                    let b = old(self).bid(bid_id);
                    let payout = accept_payout(b, *sender, support.fee);
                    &&& final(self).bids@ == old(self).bids@.update(bid_id - 1, Bid { quantity: 0, status: false, ..b })
                    &&& final(self).contract_info == old(self).contract_info
                    &&& if nft_owner->Some_0@ == sender@ {
                        &&& final(self).orders == old(self).orders
                        &&& final(self).bundles == old(self).bundles
                        &&& final(self).can_accept == old(self).can_accept
                        &&& r->Ok_0@ == payout
                    } else {
                        let c = claim_of(*old(self), b, sender@)->Some_0;
                        if c.order_id != 0 {
                            let o = old(self).order(c.order_id);
                            &&& final(self).orders@ == old(self).orders@.update(c.order_id - 1, Order { status: false, quantity: 0, ..o })
                            &&& final(self).bundles == old(self).bundles
                            &&& final(self).can_accept@ == old(self).can_accept@.insert(
                                claim_key(b.token_address@, b.token_id@, sender@),
                                claim(b.token_address, b.token_id, *sender, false, c.bundle_id, c.order_id))
                            &&& r->Ok_0@ == payout
                        } else if c.bundle_id != 0 {
                            let bu = old(self).bundle(c.bundle_id);
                            let n = bu.list_token_address@.len();
                            &&& final(self).orders == old(self).orders
                            &&& final(self).bundles@ == old(self).bundles@.update(c.bundle_id - 1, Bundle { status: false, ..bu })
                            &&& final(self).can_accept@ == claims_set(old(self).can_accept@, bu.list_token_address@, bu.list_token_id@, *sender, false, c.bundle_id, c.order_id, n)
                            &&& r->Ok_0@ == nft_transfers_except(bu.list_token_address@, bu.list_token_id@, bu.owner, b.token_address@, b.token_id@, n) + payout
                        } else {
                            &&& final(self).orders == old(self).orders
                            &&& final(self).bundles == old(self).bundles
                            &&& final(self).can_accept == old(self).can_accept
                            &&& r->Ok_0@ == payout
                        }
                    }
                },
            },
    {
        if bid_id == 0 || bid_id as usize > self.bids.len() {
            return Err(ContractError::NotFound);
        }
        let idx = (bid_id - 1) as usize;
        let b = self.bids[idx].duplicate();
        if (b.expired as u128) * (NANOS_PER_SECOND as u128) < now_nanos as u128 {
            return Err(ContractError::BidExpired);
        }
        if !b.status {
            return Err(ContractError::BidCanceled);
        }
        let direct = match nft_owner {
            None => {
                return Err(ContractError::QueryFailed);
            },
            Some(o) => *o == *sender,
        };
        let mut order_id: u32 = 0;
        let mut bundle_id: u32 = 0;
        if !direct {
            let key = claim_key_of(&b.token_address, &b.token_id, sender);
            let (status, claimed_order, claimed_bundle) = match self.can_accept.get(&key) {
                Some(c) => (c.status, c.order_id, c.bundle_id),
                None => {
                    return Err(ContractError::CanNotAcceptBid);
                },
            };
            if !status {
                return Err(ContractError::CanNotAcceptBid);
            }
            if claimed_order != 0 && claimed_order as usize > self.orders.len() {
                return Err(ContractError::NotFound);
            }
            if claimed_order == 0 && claimed_bundle != 0 && claimed_bundle as usize > self.bundles.len() {
                return Err(ContractError::NotFound);
            }
            order_id = claimed_order;
            bundle_id = claimed_bundle;
        }
        if support.fee > FEE_SCALE {
            return Err(ContractError::Overflow);
        }
        let mut effects: Vec<Effect> = Vec::new();
        if !direct {
            if order_id != 0 {
                let oidx = (order_id - 1) as usize;
                let o = self.orders[oidx].duplicate();
                self.orders.set(oidx, Order { status: false, quantity: 0, ..o });
                self.update_can_accept(false, &b.token_address, &b.token_id, sender, bundle_id, order_id);
            } else if bundle_id != 0 {
                let bidx = (bundle_id - 1) as usize;
                let bu = self.bundles.remove(bidx);
                effects = release_bundle_except(&mut self.can_accept, &bu.list_token_address, &bu.list_token_id, sender, bundle_id, order_id, &bu.owner, &b.token_address, &b.token_id);
                self.bundles.insert(bidx, Bundle { status: false, ..bu });
                assert(self.bundles@ =~= old(self).bundles@.update(bidx as int, self.bundles@[bidx as int]));
            }
        }
        effects.push(Effect::TransferNft { contract: b.token_address.clone(), recipient: b.owner.clone(), token_id: b.token_id.clone() });
        effects.push(Effect::Transfer { token: b.payment_contract.clone(), recipient: sender.clone(), amount: compute_net(b.price, support.fee) });
        self.bids.set(idx, Bid { quantity: 0, status: false, ..b });
        Ok(effects)
    }
    /// The marketplace's owner sets the fee held back from bundle sales.
    pub fn update_bundle_fee(&mut self, sender: &String, bundle_fee: u16) -> (r: Result<(), ContractError>)
        requires
            old(self).wf(),
        ensures
            final(self).wf(),
            terminal_kept(*old(self), *final(self)),
            sender@ != old(self).contract_info.owner@ ==> r == Err::<(), ContractError>(ContractError::Unauthorized)
                && *final(self) == *old(self),
            sender@ == old(self).contract_info.owner@ ==> r is Ok && *final(self) == (GameMarketContract {
                contract_info: ContractInfo { bundle_fee, ..old(self).contract_info },
                ..*old(self)
            }),
    {
        if *sender != self.contract_info.owner {
            return Err(ContractError::Unauthorized);
        }
        self.contract_info.bundle_fee = bundle_fee;
        Ok(())
    }

    /// The marketplace's owner points it at another payment-policy contract.
    pub fn update_game_market_payment_contract(&mut self, sender: &String, game_market_payment_contract: String) -> (r: Result<(), ContractError>)
        requires
            old(self).wf(),
        ensures
            final(self).wf(),
            terminal_kept(*old(self), *final(self)),
            sender@ != old(self).contract_info.owner@ ==> r == Err::<(), ContractError>(ContractError::Unauthorized)
                && *final(self) == *old(self),
            sender@ == old(self).contract_info.owner@ ==> r is Ok && *final(self) == (GameMarketContract {
                contract_info: ContractInfo { game_market_payment_contract, ..old(self).contract_info },
                ..*old(self)
            }),
    {
        if *sender != self.contract_info.owner {
            return Err(ContractError::Unauthorized);
        }
        self.contract_info.game_market_payment_contract = game_market_payment_contract;
        Ok(())
    }

    pub fn order_info(&self, order_id: u32) -> (r: Option<&Order>)
        requires
            self.wf(),
        ensures
            match r {
                Some(o) => self.has_order(order_id) && *o == self.order(order_id),
                None => !self.has_order(order_id),
            },
    {
        if order_id == 0 || order_id as usize > self.orders.len() {
            None
        } else {
            Some(&self.orders[(order_id - 1) as usize])
        }
    }

    pub fn bid_info(&self, bid_id: u32) -> (r: Option<&Bid>)
        requires
            self.wf(),
        ensures
            match r {
                Some(b) => self.has_bid(bid_id) && *b == self.bid(bid_id),
                None => !self.has_bid(bid_id),
            },
    {
        if bid_id == 0 || bid_id as usize > self.bids.len() {
            None
        } else {
            Some(&self.bids[(bid_id - 1) as usize])
        }
    }

    pub fn bundle_info(&self, bundle_id: u32) -> (r: Option<&Bundle>)
        requires
            self.wf(),
        ensures
            match r {
                Some(b) => self.has_bundle(bundle_id) && *b == self.bundle(bundle_id),
                None => !self.has_bundle(bundle_id),
            },
    {
        if bundle_id == 0 || bundle_id as usize > self.bundles.len() {
            None
        } else {
            Some(&self.bundles[(bundle_id - 1) as usize])
        }
    }

    /// The claim recorded for an asset held for `custodian`, if any.
    pub fn can_accept_info(&self, token_address: &String, token_id: &String, custodian: &String) -> (r: Option<&CanAccept>)
        requires
            self.wf(),
        ensures
            match r {
                Some(c) => self.can_accept@.contains_key(claim_key(token_address@, token_id@, custodian@))
                    && *c == self.can_accept@[claim_key(token_address@, token_id@, custodian@)],
                None => !self.can_accept@.contains_key(claim_key(token_address@, token_id@, custodian@)),
            },
    {
        let key = claim_key_of(token_address, token_id, custodian);
        self.can_accept.get(&key)
    }
}

/// What is closed stays closed over any run of operations.
pub proof fn lemma_terminal_kept_transitive(a: GameMarketContract, b: GameMarketContract, c: GameMarketContract)
    requires
        terminal_kept(a, b),
        terminal_kept(b, c),
    ensures
        terminal_kept(a, c),
{
}

/// Buying more of an active order than it holds is refused for the quantity.
pub proof fn lemma_overbuy_refused(m: GameMarketContract, order_id: u32, quantity: u128, support: ContractSupportResponse)
    requires
        m.has_order(order_id),
        m.order(order_id).status,
        quantity > m.order(order_id).quantity,
    ensures
        buy_order_failure(m, order_id, quantity, support) == Some(ContractError::InvalidQuantity),
{
}

/// Once an order is bought out whole it is closed with nothing left, and a later
/// buy, update or cancel of it is refused as canceled.
pub proof fn lemma_full_fill_closes(m: GameMarketContract, after: GameMarketContract, order_id: u32, quantity: u128)
    requires
        m.has_order(order_id),
        quantity == m.order(order_id).quantity,
        after.orders@ == m.orders@.update(order_id - 1, order_after_buy(m.order(order_id), quantity)),
    ensures
        !after.order(order_id).status,
        after.order(order_id).quantity == 0,
        forall|q: u128, support: ContractSupportResponse|
            buy_order_failure(after, order_id, q, support) == Some(ContractError::OrderCanceled),
        forall|sender: Seq<char>, q: u128, balance: u128|
            update_order_failure(after, sender, order_id, q, balance) == Some(ContractError::OrderCanceled),
        forall|sender: Seq<char>| cancel_order_failure(after, sender, order_id) == Some(ContractError::OrderCanceled),
{
}

/// Buying out an active order whole is accepted whenever the price arithmetic fits:
/// a free order, or a gross `price * quantity` within `u128` and a fee of at most the
/// whole.
pub proof fn lemma_full_fill_accepted(m: GameMarketContract, order_id: u32, support: ContractSupportResponse)
    requires
        m.has_order(order_id),
        m.order(order_id).status,
        m.order(order_id).quantity > 0,
        m.order(order_id).price == 0 || (m.order(order_id).price * m.order(order_id).quantity <= u128::MAX
            && support.fee <= FEE_SCALE),
    ensures
        buy_order_failure(m, order_id, m.order(order_id).quantity, support) is None,
        !order_after_buy(m.order(order_id), m.order(order_id).quantity).status,
        order_after_buy(m.order(order_id), m.order(order_id).quantity).quantity == 0,
{
}

/// A bid on a supported non-fungible token at a nonzero price is taken whenever the
/// bid counter has room.
pub proof fn lemma_bid_created(info: ContractInfo, price: u128, support: ContractSupportResponse)
    requires
        price > 0,
        support.is_cw721,
        info.total_bid < u32::MAX,
    ensures
        create_bid_failure(info, price, true, support) is None,
{
}

/// The token's direct owner may accept an active, unexpired bid whenever the fee is
/// at most the whole; no claim is consulted.
pub proof fn lemma_direct_accept(m: GameMarketContract, sender: String, now_nanos: u64, bid_id: u32, support: ContractSupportResponse)
    requires
        m.has_bid(bid_id),
        m.bid(bid_id).status,
        !bid_expired(m.bid(bid_id).expired, now_nanos),
        support.fee <= FEE_SCALE,
    ensures
        accept_bid_failure(m, sender@, now_nanos, bid_id, support, Some(sender)) is None,
{
}

/// A caller who neither owns the bid's token nor holds an active claim on it is
/// refused as unable to accept, whatever the fee.
pub proof fn lemma_no_route_refused(m: GameMarketContract, sender: Seq<char>, now_nanos: u64, bid_id: u32, support: ContractSupportResponse, owner: String)
    requires
        m.has_bid(bid_id),
        m.bid(bid_id).status,
        !bid_expired(m.bid(bid_id).expired, now_nanos),
        owner@ != sender,
        claim_of(m, m.bid(bid_id), sender) is None || !claim_of(m, m.bid(bid_id), sender)->Some_0.status,
    ensures
        accept_bid_failure(m, sender, now_nanos, bid_id, support, Some(owner)) == Some(ContractError::CanNotAcceptBid),
{
}

/// An order canceled by its creator right after it was created hands back exactly
/// what its creation escrowed, to the creator, and ends closed and empty.
pub proof fn lemma_cancel_returns_escrow(before: GameMarketContract, created: GameMarketContract, canceled: GameMarketContract, seller: String, token_address: String, payment_contract: String, token_id: String, quantity: u128, price: u128, is_cw721: bool)
    requires
        before.orders@.len() < u32::MAX,
        created.orders@ == before.orders@.push(Order {
            id: (before.orders@.len() + 1) as u32, owner: seller, token_address, payment_contract, token_id, quantity, price,
            is_cw721, status: true,
        }),
        canceled.orders@ == created.orders@.update(before.orders@.len() as int,
            Order { quantity: 0, status: false, ..created.orders@[before.orders@.len() as int] }),
    ensures
        ({
            let id = (before.orders@.len() + 1) as u32;
            &&& created.has_order(id)
            &&& cancel_order_failure(created, seller@, id) is None
            &&& release_asset(created.order(id), seller, created.order(id).quantity) == if is_cw721 {
                Effect::TransferNft { contract: token_address, recipient: seller, token_id }
            } else {
                Effect::Transfer { token: token_address, recipient: seller, amount: quantity }
            }
            &&& !canceled.order(id).status
            &&& canceled.order(id).quantity == 0
        }),
{
}

} // verus!
