use vstd::prelude::*;

verus! {

/// Why an action was refused. A refused action changes nothing.
#[derive(Clone, Copy, Debug, PartialEq, Eq, Structural)]
pub enum ContractError {
    /// The caller lacks the role or ownership that the action needs.
    Unauthorized,
    /// The signature over the action's payload did not verify.
    InvalidSignature,
    /// The action's nonce was consumed before.
    NonceUsed,
    /// The action's timestamp is two minutes old or older.
    TimeExpired,
    InvalidQuantity,
    InvalidPrice,
    InvalidNumberItem,
    /// The caller does not hold enough of the asset.
    InsufficienTokenBalance,
    NotOwnedNFT,
    NotExistedNFT,
    NotOwner,
    NotAdmin,
    PaymentMethodNotSupport,
    InvalidBoxContract,
    InvalidNftInfo,
    OnlySupportCw721,
    OrderCanceled,
    BidCanceled,
    BundleCanceled,
    BidExpired,
    CanNotAcceptBid,
    /// A record with that key exists already.
    Added,
    /// No record under the given key.
    NotFound,
    /// Minting would take the total supply over its cap.
    CannotExceedCap,
    NotAcceptedToken,
    TransactionExisted,
    InvalidSwapData,
    ExceededMaxAmount,
    /// An amount, a counter or a fee left the range that the arithmetic holds.
    Overflow,
    /// A query to another contract failed.
    QueryFailed,
}

/// A transfer, mint or burn that the host carries out after the action commits, in
/// the order given.
#[derive(Clone, Debug, PartialEq, Eq)]
pub enum Effect {
    /// Fungible `amount` of `token` from this contract to `recipient`.
    Transfer { token: String, recipient: String, amount: u128 },
    /// Fungible `amount` of `token` from `owner` (who approved it) to `recipient`.
    TransferFrom { token: String, owner: String, recipient: String, amount: u128 },
    /// The non-fungible `token_id` of `contract` to `recipient`.
    TransferNft { contract: String, recipient: String, token_id: String },
    /// New fungible `amount` of `token` for `recipient`.
    Mint { token: String, recipient: String, amount: u128 },
    /// Burn fungible `amount` of `token` held by `owner`.
    BurnFrom { token: String, owner: String, amount: u128 },
    /// Burn the non-fungible `token_id` of `contract`.
    BurnNft { contract: String, token_id: String },
    /// Mint the non-fungible `token_id` of `contract` to `owner`.
    MintNft { contract: String, token_id: String, owner: String },
    /// Ask the collection `contract` to move its own `token_id` from `sender` to
    /// `recipient`, the sender's permission having been checked already.
    InternalTransfer { contract: String, sender: String, recipient: String, token_id: String },
}

} // verus!
