use vstd::prelude::*;

use vstd::string::StringExecFns;

use crate::access::AccessControl;
use crate::error::{ContractError, Effect};
use crate::guard::{accept_failure, NonceRegistry};
use crate::kv::StrMap;

verus! {

/// A request to mint one token of this collection to `owner`.
pub struct MintMsg {
    pub token_id: String,
    pub owner: String,
}

/// The minting side of a non-fungible collection: admins mint in batches, and any
/// account may mint to itself under an admin-signed permit.
pub struct NftMinter {
    pub access: AccessControl,
    pub nonces: NonceRegistry,
    /// The prefix of every token's metadata address.
    pub base_uri: String,
    /// Who staked each token that the collection holds in stake.
    pub stake_owners: StrMap<String>,
}

/// The stake records after the first `n` tokens are staked by `owner`.
pub open spec fn staked(m: Map<Seq<char>, String>, token_ids: Seq<String>, owner: String, n: nat) -> Map<Seq<char>, String>
    decreases n,
{
    if n == 0 {
        m
    } else {
        staked(m, token_ids, owner, (n - 1) as nat).insert(token_ids[n - 1]@, owner)
    }
}

/// The moves of the first `n` tokens from `sender` into the collection's stake.
pub open spec fn stake_transfers(collection: String, token_ids: Seq<String>, sender: String, n: nat) -> Seq<Effect>
    decreases n,
{
    if n == 0 {
        seq![]
    } else {
        stake_transfers(collection, token_ids, sender, (n - 1) as nat).push(
            Effect::InternalTransfer { contract: collection, sender, recipient: collection, token_id: token_ids[n - 1] })
    }
}

/// The mints of the first `n` requests, each carried out by this contract itself.
pub open spec fn batch_mints(collection: String, msgs: Seq<MintMsg>, n: nat) -> Seq<Effect>
    decreases n,
{
    if n == 0 {
        seq![]
    } else {
        batch_mints(collection, msgs, (n - 1) as nat).push(
            Effect::MintNft { contract: collection, token_id: msgs[n - 1].token_id, owner: msgs[n - 1].owner })
    }
}

/// The mints of the first `n` token ids to `owner`.
pub open spec fn self_mints(collection: String, token_ids: Seq<String>, owner: String, n: nat) -> Seq<Effect>
    decreases n,
{
    if n == 0 {
        seq![]
    } else {
        self_mints(collection, token_ids, owner, (n - 1) as nat).push(
            Effect::MintNft { contract: collection, token_id: token_ids[n - 1], owner })
    }
}

impl NftMinter {
    pub open spec fn wf(&self) -> bool {
        self.access.wf() && self.nonces.wf() && self.stake_owners.wf()
    }

    pub fn instantiate(creator: &String, base_uri: String) -> (r: Self)
        ensures
            r.wf(),
            r.access.owner == *creator,
            r.access.admin(creator@),
            r.nonces.used@ == Map::<Seq<char>, bool>::empty(),
            r.base_uri == base_uri,
            r.stake_owners@ == Map::<Seq<char>, String>::empty(),
    {
        NftMinter { access: AccessControl::new(creator), nonces: NonceRegistry::new(), base_uri, stake_owners: StrMap::new() }
    }

    /// Only an admin may set the metadata prefix.
    pub fn set_base_uri(&mut self, sender: &String, base_uri: String) -> (r: Result<(), ContractError>)
        requires
            old(self).wf(),
        ensures
            final(self).wf(),
            !old(self).access.admin(sender@) ==> r == Err::<(), ContractError>(ContractError::Unauthorized)
                && *final(self) == *old(self),
            old(self).access.admin(sender@) ==> r is Ok && final(self).base_uri == base_uri
                && final(self).access == old(self).access && final(self).nonces == old(self).nonces
                && final(self).stake_owners == old(self).stake_owners,
    {
        if !self.access.is_admin(sender) {
            return Err(ContractError::Unauthorized);
        }
        self.base_uri = base_uri;
        Ok(())
    }

    pub fn get_base_uri(&self) -> (r: &String)
        ensures
            *r == self.base_uri,
    {
        &self.base_uri
    }

    /// The metadata address of a token: the one stored with it, or else the base
    /// prefix followed by its id.
    pub fn nft_info(&self, token_id: &String, stored_uri: Option<String>) -> (r: String)
        ensures
            r@ == match stored_uri {
                Some(u) => u@,
                None => self.base_uri@ + token_id@,
            },
    {
        match stored_uri {
            Some(u) => u,
            None => {
                let mut uri = self.base_uri.clone();
                uri.append(token_id.as_str());
                uri
            },
        }
    }

    /// An admin mints every requested token, in order, through this contract
    /// (`collection`, its own address).
    pub fn mint_batch(&self, sender: &String, collection: &String, msgs: &Vec<MintMsg>) -> (r: Result<Vec<Effect>, ContractError>)
        requires
            self.wf(),
        ensures
            !self.access.admin(sender@) ==> r == Err::<Vec<Effect>, ContractError>(ContractError::Unauthorized),
            self.access.admin(sender@) ==> r is Ok && r->Ok_0@ == batch_mints(*collection, msgs@, msgs@.len()),
    {
        if !self.access.is_admin(sender) {
            return Err(ContractError::Unauthorized);
        }
        let mut effects: Vec<Effect> = Vec::new();
        let mut i: usize = 0;
        while i < msgs.len()
            invariant
                i <= msgs@.len(),
                effects@ == batch_mints(*collection, msgs@, i as nat),
            decreases msgs@.len() - i,
        {
            effects.push(Effect::MintNft { contract: collection.clone(), token_id: msgs[i].token_id.clone(), owner: msgs[i].owner.clone() });
            i = i + 1;
        }
        Ok(effects)
    }

    /// The sender mints `token_ids` to itself under a permit signed at
    /// `timestamp_nanos` with `nonce`; `signature_valid` is whether the signer key
    /// verified the permit. The nonce is consumed; a refusal changes nothing.
    pub fn mint_batch_with_signature(&mut self, sender: &String, collection: &String, token_ids: &Vec<String>, nonce: &String, timestamp_nanos: u64, now_nanos: u64, signature_valid: bool) -> (r: Result<Vec<Effect>, ContractError>)
        requires
            old(self).wf(),
        ensures
            final(self).wf(),
            match accept_failure(old(self).nonces.used@, nonce@, timestamp_nanos, now_nanos, signature_valid) {
                Some(e) => r == Err::<Vec<Effect>, ContractError>(e) && *final(self) == *old(self),
                None => {
                    &&& r is Ok
                    &&& r->Ok_0@ == self_mints(*collection, token_ids@, *sender, token_ids@.len())
                    &&& final(self).nonces.used@ == old(self).nonces.used@.insert(nonce@, true)
                    &&& final(self).access == old(self).access
                    &&& final(self).base_uri == old(self).base_uri
                    &&& final(self).stake_owners == old(self).stake_owners
                },
            },
    {
        self.nonces.accept_action(nonce, timestamp_nanos, now_nanos, signature_valid)?;
        let mut effects: Vec<Effect> = Vec::new();
        let mut i: usize = 0;
        while i < token_ids.len()
            invariant
                i <= token_ids@.len(),
                effects@ == self_mints(*collection, token_ids@, *sender, i as nat),
            decreases token_ids@.len() - i,
        {
            effects.push(Effect::MintNft { contract: collection.clone(), token_id: token_ids[i].clone(), owner: sender.clone() });
            i = i + 1;
        }
        Ok(effects)
    }
    /// The sender stakes `token_ids` into the collection (`collection`, its own
    /// address): each moves into the collection's keeping and is recorded as the
    /// sender's. `can_send[i]` is whether the sender may move the `i`-th token, by
    /// ownership or approval; if any may not, nothing happens.
    pub fn stake_batch(&mut self, sender: &String, collection: &String, token_ids: &Vec<String>, can_send: &Vec<bool>) -> (r: Result<Vec<Effect>, ContractError>)
        requires
            old(self).wf(),
            can_send@.len() == token_ids@.len(),
        ensures
            final(self).wf(),
            (exists|i: int| 0 <= i < can_send@.len() && !can_send@[i]) ==>
                r == Err::<Vec<Effect>, ContractError>(ContractError::Unauthorized) && *final(self) == *old(self),
            (forall|i: int| 0 <= i < can_send@.len() ==> can_send@[i]) ==> {
                &&& r is Ok
                &&& r->Ok_0@ == stake_transfers(*collection, token_ids@, *sender, token_ids@.len())
                &&& final(self).stake_owners@ == staked(old(self).stake_owners@, token_ids@, *sender, token_ids@.len())
                &&& final(self).access == old(self).access
                &&& final(self).nonces == old(self).nonces
                &&& final(self).base_uri == old(self).base_uri
            },
    {
        let mut i: usize = 0;
        while i < can_send.len()
            invariant
                self.wf(),
                i <= can_send@.len(),
                forall|j: int| 0 <= j < i ==> can_send@[j],
            decreases can_send@.len() - i,
        {
            if !can_send[i] {
                return Err(ContractError::Unauthorized);
            }
            i = i + 1;
        }
        let mut effects: Vec<Effect> = Vec::new();
        let mut k: usize = 0;
        while k < token_ids.len()
            invariant
                k <= token_ids@.len(),
                self.wf(),
                self.access == old(self).access,
                self.nonces == old(self).nonces,
                self.base_uri == old(self).base_uri,
                self.stake_owners@ == staked(old(self).stake_owners@, token_ids@, *sender, k as nat),
                effects@ == stake_transfers(*collection, token_ids@, *sender, k as nat),
            decreases token_ids@.len() - k,
        {
            self.stake_owners.insert(token_ids[k].clone(), sender.clone());
            effects.push(Effect::InternalTransfer {
                contract: collection.clone(),
                sender: sender.clone(),
                recipient: collection.clone(),
                token_id: token_ids[k].clone(),
            });
            k = k + 1;
        }
        Ok(effects)
    }

    /// Settles a mint of `token_id`: a token that the collection holds in stake is
    /// released from its stake record and handed out again by transfer (its staker is
    /// returned); any other is minted afresh (`None`).
    pub fn internal_mint(&mut self, token_id: &String) -> (r: Option<String>)
        requires
            old(self).wf(),
        ensures
            final(self).wf(),
            final(self).stake_owners@ == old(self).stake_owners@.remove(token_id@),
            match r {
                Some(o) => old(self).stake_owners@.contains_key(token_id@) && o == old(self).stake_owners@[token_id@],
                None => !old(self).stake_owners@.contains_key(token_id@),
            },
            final(self).access == old(self).access,
            final(self).nonces == old(self).nonces,
            final(self).base_uri == old(self).base_uri,
    {
        self.stake_owners.remove(token_id)
    }
}

} // verus!
