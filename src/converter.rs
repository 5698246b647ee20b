use vstd::prelude::*;

use crate::access::AccessControl;
use crate::error::{ContractError, Effect};
use crate::guard::is_stale;
use crate::kv::StrMap;

verus! {

/// One non-fungible token: its contract and its id.
pub struct NftInfo {
    pub contract_addr: String,
    pub token_id: String,
}

/// Burns the caller's boxes and mints new tokens in their place, under a permit
/// that the signer key signed over the caller, the boxes, the new tokens and a
/// timestamp.
pub struct BoxConverter {
    pub access: AccessControl,
    pub box_contracts: StrMap<bool>,
}

/// The failure of the first of the first `n` boxes that fails: its contract must be
/// a box contract, and its owner (as the contract reports it; `None` when the token
/// does not exist) must be the caller.
pub open spec fn boxes_failure(box_contracts: Map<Seq<char>, bool>, boxes: Seq<NftInfo>, owners: Seq<Option<String>>, sender: Seq<char>, n: nat) -> Option<ContractError>
    decreases n,
{
    if n == 0 {
        None
    } else {
        match boxes_failure(box_contracts, boxes, owners, sender, (n - 1) as nat) {
            Some(e) => Some(e),
            None => {
                let b = boxes[n - 1];
                if !(box_contracts.contains_key(b.contract_addr@) && box_contracts[b.contract_addr@]) {
                    Some(ContractError::InvalidBoxContract)
                } else if owners[n - 1] is None {
                    Some(ContractError::NotExistedNFT)
                } else if owners[n - 1]->Some_0@ != sender {
                    Some(ContractError::NotOwnedNFT)
                } else {
                    None
                }
            },
        }
    }
}

/// The failure of the first of the first `n` target contracts that does not make
/// this contract an admin (`None`: the query failed).
pub open spec fn minters_failure(minter: Seq<Option<bool>>, n: nat) -> Option<ContractError>
    decreases n,
{
    if n == 0 {
        None
    } else {
        match minters_failure(minter, (n - 1) as nat) {
            Some(e) => Some(e),
            None => match minter[n - 1] {
                None => Some(ContractError::QueryFailed),
                Some(false) => Some(ContractError::NotAdmin),
                Some(true) => None,
            },
        }
    }
}

pub proof fn lemma_boxes_failure_stable(box_contracts: Map<Seq<char>, bool>, boxes: Seq<NftInfo>, owners: Seq<Option<String>>, sender: Seq<char>, k: nat, n: nat)
    requires
        k <= n,
        boxes_failure(box_contracts, boxes, owners, sender, k) is Some,
    ensures
        boxes_failure(box_contracts, boxes, owners, sender, n) == boxes_failure(box_contracts, boxes, owners, sender, k),
    decreases n,
{
    if n > k {
        lemma_boxes_failure_stable(box_contracts, boxes, owners, sender, k, (n - 1) as nat);
    }
}

pub proof fn lemma_minters_failure_stable(minter: Seq<Option<bool>>, k: nat, n: nat)
    requires
        k <= n,
        minters_failure(minter, k) is Some,
    ensures
        minters_failure(minter, n) == minters_failure(minter, k),
    decreases n,
{
    if n > k {
        lemma_minters_failure_stable(minter, k, (n - 1) as nat);
    }
}

/// The burns of the first `n` boxes, in order.
pub open spec fn burns(boxes: Seq<NftInfo>, n: nat) -> Seq<Effect>
    decreases n,
{
    if n == 0 {
        seq![]
    } else {
        burns(boxes, (n - 1) as nat).push(Effect::BurnNft { contract: boxes[n - 1].contract_addr, token_id: boxes[n - 1].token_id })
    }
}

/// The mints of the first `n` new tokens to `owner`, in order.
pub open spec fn mints(nfts: Seq<NftInfo>, owner: String, n: nat) -> Seq<Effect>
    decreases n,
{
    if n == 0 {
        seq![]
    } else {
        mints(nfts, owner, (n - 1) as nat).push(Effect::MintNft { contract: nfts[n - 1].contract_addr, token_id: nfts[n - 1].token_id, owner })
    }
}

/// Why `convert` is refused, if it is.
pub open spec fn convert_failure(c: BoxConverter, sender: Seq<char>, boxes: Seq<NftInfo>, nfts: Seq<NftInfo>, timestamp_nanos: u64, now_nanos: u64, signature_valid: bool, owners: Seq<Option<String>>, minter: Seq<Option<bool>>) -> Option<ContractError> {
    if is_stale(timestamp_nanos, now_nanos) {
        Some(ContractError::TimeExpired)
    } else if !signature_valid {
        Some(ContractError::InvalidSignature)
    } else if boxes.len() == 0 {
        Some(ContractError::InvalidNftInfo)
    } else if boxes_failure(c.box_contracts@, boxes, owners, sender, boxes.len()) is Some {
        boxes_failure(c.box_contracts@, boxes, owners, sender, boxes.len())
    } else if nfts.len() == 0 {
        Some(ContractError::InvalidNftInfo)
    } else {
        minters_failure(minter, nfts.len())
    }
}

/// A stale conversion is refused as expired, whatever its signature, boxes, targets
/// and query answers.
pub proof fn lemma_stale_convert_refused(c: BoxConverter, sender: Seq<char>, boxes: Seq<NftInfo>, nfts: Seq<NftInfo>, timestamp_nanos: u64, now_nanos: u64, signature_valid: bool, owners: Seq<Option<String>>, minter: Seq<Option<bool>>)
    requires
        timestamp_nanos + crate::guard::VALIDITY_WINDOW_NANOS <= now_nanos,
    ensures
        convert_failure(c, sender, boxes, nfts, timestamp_nanos, now_nanos, signature_valid, owners, minter)
            == Some(ContractError::TimeExpired),
{
}

impl BoxConverter {
    pub open spec fn wf(&self) -> bool {
        self.access.wf() && self.box_contracts.wf()
    }

    pub fn instantiate(creator: &String) -> (r: Self)
        ensures
            r.wf(),
            r.access.owner == *creator,
            r.access.admin(creator@),
            r.box_contracts@ == Map::<Seq<char>, bool>::empty(),
    {
        BoxConverter { access: AccessControl::new(creator), box_contracts: StrMap::new() }
    }

    pub fn is_box_contract(&self, box_contract: &String) -> (r: bool)
        requires
            self.wf(),
        ensures
            r == (self.box_contracts@.contains_key(box_contract@) && self.box_contracts@[box_contract@]),
    {
        match self.box_contracts.get(box_contract) {
            Some(v) => *v,
            None => false,
        }
    }

    /// Only an admin may mark a contract as a box contract or unmark it.
    pub fn set_box_contract(&mut self, sender: &String, box_contract: String, status: bool) -> (r: Result<(), ContractError>)
        requires
            old(self).wf(),
        ensures
            final(self).wf(),
            !old(self).access.admin(sender@) ==> r == Err::<(), ContractError>(ContractError::Unauthorized)
                && *final(self) == *old(self),
            old(self).access.admin(sender@) ==> r is Ok && final(self).access == old(self).access
                && final(self).box_contracts@ == old(self).box_contracts@.insert(box_contract@, status),
    {
        if !self.access.is_admin(sender) {
            return Err(ContractError::Unauthorized);
        }
        self.box_contracts.insert(box_contract, status);
        Ok(())
    }

    /// Checks a conversion and lists its effects: every box burnt, then every new
    /// token minted to the caller. `owners[i]` is the owner of the `i`-th box as its
    /// contract reports it, `minter[i]` whether the `i`-th target contract lists this
    /// contract as an admin. Nothing is stored.
    pub fn convert(&self, sender: &String, boxes: &Vec<NftInfo>, nfts: &Vec<NftInfo>, timestamp_nanos: u64, now_nanos: u64, signature_valid: bool, owners: &Vec<Option<String>>, minter: &Vec<Option<bool>>) -> (r: Result<Vec<Effect>, ContractError>)
        requires
            self.wf(),
            owners@.len() == boxes@.len(),
            minter@.len() == nfts@.len(),
        ensures
            match convert_failure(*self, sender@, boxes@, nfts@, timestamp_nanos, now_nanos, signature_valid, owners@, minter@) {
                Some(e) => r == Err::<Vec<Effect>, ContractError>(e),
                None => r is Ok && r->Ok_0@ == burns(boxes@, boxes@.len()) + mints(nfts@, *sender, nfts@.len()),
            },
    {
        if crate::guard::is_expired(timestamp_nanos, now_nanos) {
            return Err(ContractError::TimeExpired);
        }
        if !signature_valid {
            return Err(ContractError::InvalidSignature);
        }
        if boxes.len() == 0 {
            return Err(ContractError::InvalidNftInfo);
        }
        let mut effects: Vec<Effect> = Vec::new();
        let mut i: usize = 0;
        while i < boxes.len()
            invariant
                self.wf(),
                !is_stale(timestamp_nanos, now_nanos),
                signature_valid,
                boxes@.len() > 0,
                i <= boxes@.len(),
                owners@.len() == boxes@.len(),
                boxes_failure(self.box_contracts@, boxes@, owners@, sender@, i as nat) is None,
                effects@ == burns(boxes@, i as nat),
            decreases boxes@.len() - i,
        {
            let b = &boxes[i];
            proof {
                if boxes_failure(self.box_contracts@, boxes@, owners@, sender@, (i + 1) as nat) is Some {
                    lemma_boxes_failure_stable(self.box_contracts@, boxes@, owners@, sender@, (i + 1) as nat, boxes@.len());
                }
            }
            if !self.is_box_contract(&b.contract_addr) {
                return Err(ContractError::InvalidBoxContract);
            }
            match &owners[i] {
                None => {
                    return Err(ContractError::NotExistedNFT);
                },
                Some(o) => {
                    if *o != *sender {
                        return Err(ContractError::NotOwnedNFT);
                    }
                },
            }
            effects.push(Effect::BurnNft { contract: b.contract_addr.clone(), token_id: b.token_id.clone() });
            i = i + 1;
        }
        if nfts.len() == 0 {
            return Err(ContractError::InvalidNftInfo);
        }
        let ghost burnt = effects@;
        let mut j: usize = 0;
        while j < nfts.len()
            invariant
                !is_stale(timestamp_nanos, now_nanos),
                signature_valid,
                boxes@.len() > 0,
                nfts@.len() > 0,
                boxes_failure(self.box_contracts@, boxes@, owners@, sender@, boxes@.len()) is None,
                j <= nfts@.len(),
                minter@.len() == nfts@.len(),
                burnt == burns(boxes@, boxes@.len()),
                minters_failure(minter@, j as nat) is None,
                effects@ == burnt + mints(nfts@, *sender, j as nat),
            decreases nfts@.len() - j,
        {
            proof {
                if minters_failure(minter@, (j + 1) as nat) is Some {
                    lemma_minters_failure_stable(minter@, (j + 1) as nat, nfts@.len());
                }
            }
            match minter[j] {
                None => {
                    return Err(ContractError::QueryFailed);
                },
                Some(false) => {
                    return Err(ContractError::NotAdmin);
                },
                Some(true) => {},
            }
            effects.push(Effect::MintNft { contract: nfts[j].contract_addr.clone(), token_id: nfts[j].token_id.clone(), owner: sender.clone() });
            j = j + 1;
            assert(effects@ =~= burnt + mints(nfts@, *sender, j as nat));
        }
        Ok(effects)
    }
}

} // verus!
