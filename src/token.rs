use vstd::prelude::*;

use crate::access::AccessControl;
use crate::error::ContractError;
use crate::guard::{accept_failure, is_stale, NonceRegistry};
use crate::kv::StrMap;

verus! {

/// What an account holds in a balance map; an absent account holds nothing.
pub open spec fn balance_in(balances: Map<Seq<char>, u128>, who: Seq<char>) -> int {
    if balances.contains_key(who) {
        balances[who] as int
    } else {
        0
    }
}

/// A fungible token whose holders may mint to themselves with an admin-signed
/// permit, each permit usable once and for two minutes.
pub struct FungibleToken {
    pub access: AccessControl,
    pub nonces: NonceRegistry,
    pub total_supply: u128,
    /// The most that may ever be in supply, if there is a limit.
    pub cap: Option<u128>,
    pub balances: StrMap<u128>,
}

/// Why `mint_with_signature` is refused, if it is.
pub open spec fn mint_failure(t: FungibleToken, sender: Seq<char>, amount: u128, nonce: Seq<char>, timestamp_nanos: u64, now_nanos: u64, signature_valid: bool) -> Option<ContractError> {
    if accept_failure(t.nonces.used@, nonce, timestamp_nanos, now_nanos, signature_valid) is Some {
        accept_failure(t.nonces.used@, nonce, timestamp_nanos, now_nanos, signature_valid)
    } else if t.total_supply + amount > u128::MAX {
        Some(ContractError::Overflow)
    } else if t.cap is Some && t.total_supply + amount > t.cap->Some_0 {
        Some(ContractError::CannotExceedCap)
    } else if balance_in(t.balances@, sender) + amount > u128::MAX {
        Some(ContractError::Overflow)
    } else {
        None
    }
}

impl FungibleToken {
    pub open spec fn wf(&self) -> bool {
        self.access.wf() && self.nonces.wf() && self.balances.wf()
    }

    /// A token with no supply, owned and administered by its creator.
    pub fn instantiate(creator: &String, cap: Option<u128>) -> (r: Self)
        ensures
            r.wf(),
            r.access.owner == *creator,
            r.access.admin(creator@),
            r.total_supply == 0,
            r.cap == cap,
            r.balances@ == Map::<Seq<char>, u128>::empty(),
            r.nonces.used@ == Map::<Seq<char>, bool>::empty(),
    {
        FungibleToken {
            access: AccessControl::new(creator),
            nonces: NonceRegistry::new(),
            total_supply: 0,
            cap,
            balances: StrMap::new(),
        }
    }

    pub fn balance(&self, who: &String) -> (r: u128)
        requires
            self.wf(),
        ensures
            r == balance_in(self.balances@, who@),
    {
        match self.balances.get(who) {
            Some(b) => *b,
            None => 0,
        }
    }

    /// Mints `amount` to the sender under a permit signed at `timestamp_nanos` with
    /// `nonce`, at `now_nanos`; `signature_valid` is whether the signer key verified
    /// the permit over the sender, amount, nonce and timestamp. The supply and the
    /// sender's balance grow by `amount` and the nonce is consumed; a refusal
    /// changes nothing.
    pub fn mint_with_signature(&mut self, sender: &String, amount: u128, nonce: &String, timestamp_nanos: u64, now_nanos: u64, signature_valid: bool) -> (r: Result<(), ContractError>)
        requires
            old(self).wf(),
        ensures
            final(self).wf(),
            match mint_failure(*old(self), sender@, amount, nonce@, timestamp_nanos, now_nanos, signature_valid) {
                Some(e) => r == Err::<(), ContractError>(e) && *final(self) == *old(self),
                None => {
                    &&& r is Ok
                    &&& final(self).total_supply == old(self).total_supply + amount
                    &&& final(self).balances@ == old(self).balances@.insert(sender@,
                        (balance_in(old(self).balances@, sender@) + amount) as u128)
                    &&& final(self).nonces.used@ == old(self).nonces.used@.insert(nonce@, true)
                    &&& final(self).access == old(self).access
                    &&& final(self).cap == old(self).cap
                },
            },
    {
        if crate::guard::is_expired(timestamp_nanos, now_nanos) {
            return Err(ContractError::TimeExpired);
        }
        if self.nonces.is_used_nonce(nonce) {
            return Err(ContractError::NonceUsed);
        }
        if !signature_valid {
            return Err(ContractError::InvalidSignature);
        }
        if amount > u128::MAX - self.total_supply {
            return Err(ContractError::Overflow);
        }
        let supply = self.total_supply + amount;
        match self.cap {
            Some(limit) => {
                if supply > limit {
                    return Err(ContractError::CannotExceedCap);
                }
            },
            None => {},
        }
        let held = self.balance(sender);
        if amount > u128::MAX - held {
            return Err(ContractError::Overflow);
        }
        self.nonces.accept_action(nonce, timestamp_nanos, now_nanos, signature_valid)?;
        self.total_supply = supply;
        self.balances.insert(sender.clone(), held + amount);
        Ok(())
    }
}

/// A permit replayed after its nonce was consumed is refused as used while it is
/// fresh, and a refused mint leaves the supply as it was.
pub proof fn lemma_mint_replay_refused(t: FungibleToken, sender: Seq<char>, amount: u128, nonce: Seq<char>, timestamp_nanos: u64, now_nanos: u64, signature_valid: bool)
    requires
        t.nonces.consumed(nonce),
        !is_stale(timestamp_nanos, now_nanos),
    ensures
        mint_failure(t, sender, amount, nonce, timestamp_nanos, now_nanos, signature_valid) == Some(ContractError::NonceUsed),
{
}

} // verus!
