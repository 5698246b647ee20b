use vstd::prelude::*;

use crate::access::AccessControl;
use crate::error::{ContractError, Effect};
use crate::guard::{accept_failure, NonceRegistry};
use crate::kv::StrMap;
use crate::token::balance_in;

verus! {

/// One stake as it was made: never merged with others, never removed.
pub struct StakeData {
    pub amount: u128,
    /// The chosen duration, a 256-bit unsigned number in big-endian bytes.
    pub duration: [u8; 32],
    pub token: String,
    /// When the stake was made, in nanoseconds.
    pub time: u64,
}

/// A stake together with the account that made it.
pub struct StakeRecord {
    pub user: String,
    pub data: StakeData,
}

/// The stakes that `user` made, oldest first.
pub open spec fn stakes_of(records: Seq<StakeRecord>, user: Seq<char>) -> Seq<StakeData>
    decreases records.len(),
{
    if records.len() == 0 {
        seq![]
    } else if records.last().user@ == user {
        stakes_of(records.drop_last(), user).push(records.last().data)
    } else {
        stakes_of(records.drop_last(), user)
    }
}

/// A vault that takes accepted tokens into custody and releases them against an
/// admin-signed permit.
pub struct Staking {
    pub access: AccessControl,
    pub nonces: NonceRegistry,
    pub accepted_tokens: StrMap<bool>,
    /// Per account, the sum of what it ever staked.
    pub total_staked: StrMap<u128>,
    pub stakes: Vec<StakeRecord>,
}

impl StakeData {
    pub fn duplicate(&self) -> (r: StakeData)
        ensures
            r == *self,
    {
        StakeData { amount: self.amount, duration: self.duration, token: self.token.clone(), time: self.time }
    }
}

impl Staking {
    pub open spec fn wf(&self) -> bool {
        self.access.wf() && self.nonces.wf() && self.accepted_tokens.wf() && self.total_staked.wf()
    }

    pub open spec fn accepted(&self, token: Seq<char>) -> bool {
        self.accepted_tokens@.contains_key(token) && self.accepted_tokens@[token]
    }

    /// A vault with nothing accepted and nothing staked, owned and administered by
    /// its creator.
    pub fn instantiate(creator: &String) -> (r: Self)
        ensures
            r.wf(),
            r.access.owner == *creator,
            r.access.admin(creator@),
            r.accepted_tokens@ == Map::<Seq<char>, bool>::empty(),
            r.total_staked@ == Map::<Seq<char>, u128>::empty(),
            r.stakes@.len() == 0,
    {
        Staking {
            access: AccessControl::new(creator),
            nonces: NonceRegistry::new(),
            accepted_tokens: StrMap::new(),
            total_staked: StrMap::new(),
            stakes: Vec::new(),
        }
    }

    pub fn is_accepted_token(&self, token: &String) -> (r: bool)
        requires
            self.wf(),
        ensures
            r == self.accepted(token@),
    {
        match self.accepted_tokens.get(token) {
            Some(v) => *v,
            None => false,
        }
    }

    /// Only an admin may accept or refuse a token for staking.
    pub fn set_accepted_token(&mut self, sender: &String, token: String, status: bool) -> (r: Result<(), ContractError>)
        requires
            old(self).wf(),
        ensures
            final(self).wf(),
            !old(self).access.admin(sender@) ==> r == Err::<(), ContractError>(ContractError::Unauthorized)
                && *final(self) == *old(self),
            old(self).access.admin(sender@) ==> r is Ok
                && final(self).accepted_tokens@ == old(self).accepted_tokens@.insert(token@, status)
                && final(self).access == old(self).access && final(self).nonces == old(self).nonces
                && final(self).total_staked == old(self).total_staked && final(self).stakes == old(self).stakes,
    {
        if !self.access.is_admin(sender) {
            return Err(ContractError::Unauthorized);
        }
        self.accepted_tokens.insert(token, status);
        Ok(())
    }

    pub fn get_total_staked(&self, user: &String) -> (r: u128)
        requires
            self.wf(),
        ensures
            r == balance_in(self.total_staked@, user@),
    {
        match self.total_staked.get(user) {
            Some(v) => *v,
            None => 0,
        }
    }

    /// Every stake that `user` made, oldest first.
    pub fn get_staked_data(&self, user: &String) -> (r: Vec<StakeData>)
        ensures
            r@ == stakes_of(self.stakes@, user@),
    {
        let mut r: Vec<StakeData> = Vec::new();
        let mut i: usize = 0;
        while i < self.stakes.len()
            invariant
                i <= self.stakes@.len(),
                r@ == stakes_of(self.stakes@.subrange(0, i as int), user@),
            decreases self.stakes@.len() - i,
        {
            let ghost prefix = self.stakes@.subrange(0, i as int);
            if self.stakes[i].user == *user {
                r.push(self.stakes[i].data.duplicate());
            }
            i = i + 1;
            assert(self.stakes@.subrange(0, i as int).drop_last() =~= prefix);
        }
        assert(self.stakes@.subrange(0, self.stakes@.len() as int) =~= self.stakes@);
        r
    }

    /// Stakes `amount` of an accepted token for `duration` at `now_nanos`: the
    /// tokens move into custody, the stake is recorded and the sender's running
    /// total grows.
    pub fn execute_stake(&mut self, sender: &String, self_address: &String, now_nanos: u64, token: &String, amount: u128, duration: [u8; 32]) -> (r: Result<Vec<Effect>, ContractError>)
        requires
            old(self).wf(),
        ensures
            final(self).wf(),
            !old(self).accepted(token@) ==> r == Err::<Vec<Effect>, ContractError>(ContractError::NotAcceptedToken)
                && *final(self) == *old(self),
            old(self).accepted(token@) && balance_in(old(self).total_staked@, sender@) + amount > u128::MAX
                ==> r == Err::<Vec<Effect>, ContractError>(ContractError::Overflow) && *final(self) == *old(self),
            old(self).accepted(token@) && balance_in(old(self).total_staked@, sender@) + amount <= u128::MAX ==> {
                &&& r is Ok
                &&& r->Ok_0@ == seq![Effect::TransferFrom { token: *token, owner: *sender, recipient: *self_address, amount }]
                &&& final(self).stakes@ == old(self).stakes@.push(StakeRecord {
                    user: *sender,
                    data: StakeData { amount, duration, token: *token, time: now_nanos },
                })
                &&& final(self).total_staked@ == old(self).total_staked@.insert(sender@,
                    (balance_in(old(self).total_staked@, sender@) + amount) as u128)
                &&& final(self).access == old(self).access
                &&& final(self).nonces == old(self).nonces
                &&& final(self).accepted_tokens == old(self).accepted_tokens
            },
    {
        if !self.is_accepted_token(token) {
            return Err(ContractError::NotAcceptedToken);
        }
        let total = self.get_total_staked(sender);
        if amount > u128::MAX - total {
            return Err(ContractError::Overflow);
        }
        self.stakes.push(StakeRecord {
            user: sender.clone(),
            data: StakeData { amount, duration, token: token.clone(), time: now_nanos },
        });
        self.total_staked.insert(sender.clone(), total + amount);
        Ok(vec![Effect::TransferFrom { token: token.clone(), owner: sender.clone(), recipient: self_address.clone(), amount }])
    }

    /// Releases `amount` of an accepted token to the sender under a permit signed
    /// at `timestamp_nanos` with `nonce`; `signature_valid` is whether the signer key
    /// verified the permit. Only the nonce is recorded: the stakes and the running
    /// totals stay as they were.
    pub fn execute_unstake(&mut self, sender: &String, token: &String, amount: u128, nonce: &String, timestamp_nanos: u64, now_nanos: u64, signature_valid: bool) -> (r: Result<Vec<Effect>, ContractError>)
        requires
            old(self).wf(),
        ensures
            final(self).wf(),
            !old(self).accepted(token@) ==> r == Err::<Vec<Effect>, ContractError>(ContractError::NotAcceptedToken)
                && *final(self) == *old(self),
            old(self).accepted(token@) ==> match accept_failure(old(self).nonces.used@, nonce@, timestamp_nanos, now_nanos, signature_valid) {
                Some(e) => r == Err::<Vec<Effect>, ContractError>(e) && *final(self) == *old(self),
                None => {
                    &&& r is Ok
                    &&& r->Ok_0@ == seq![Effect::Transfer { token: *token, recipient: *sender, amount }]
                    &&& final(self).nonces.used@ == old(self).nonces.used@.insert(nonce@, true)
                    &&& final(self).access == old(self).access
                    &&& final(self).accepted_tokens == old(self).accepted_tokens
                    &&& final(self).total_staked == old(self).total_staked
                    &&& final(self).stakes == old(self).stakes
                },
            },
    {
        if !self.is_accepted_token(token) {
            return Err(ContractError::NotAcceptedToken);
        }
        self.nonces.accept_action(nonce, timestamp_nanos, now_nanos, signature_valid)?;
        Ok(vec![Effect::Transfer { token: token.clone(), recipient: sender.clone(), amount }])
    }
}

} // verus!
