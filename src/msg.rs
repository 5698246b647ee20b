use vstd::prelude::*;

verus! {

/// The message of a contract migration; it carries nothing.
#[derive(Clone, Copy, Debug, PartialEq, Eq, Default, Structural)]
pub struct MigrateMsg {}

/// The extension data of a collection's tokens; it carries nothing.
#[derive(Clone, Copy, Debug, PartialEq, Eq, Default, Structural)]
pub struct Data {}

/// The message that creates a non-fungible collection.
#[derive(Clone, Debug, PartialEq, Eq)]
pub struct MonsterraNFTInstantiateMsg {
    /// Name of the collection.
    pub name: String,
    /// Symbol of the collection.
    pub symbol: String,
    /// The only account that may create tokens through the base contract.
    pub minter: String,
    /// The prefix of every token's metadata address.
    pub base_uri: String,
}

/// The message of a collection's migration; it carries nothing.
#[derive(Clone, Copy, Debug, PartialEq, Eq, Default, Structural)]
pub struct MonsterraNFTMigrateMsg {}

/// One recorded transfer of a token.
#[derive(Clone, Debug, PartialEq, Eq)]
pub struct TransferLog {
    pub from: String,
    pub to: String,
    pub token_id: String,
}

} // verus!
