use vstd::prelude::*;

use crate::access::AccessControl;
use crate::error::{ContractError, Effect};
use crate::kv::StrMap;
use crate::token::balance_in;

verus! {

/// A cross-chain swap as the signer approved it: `amount` of `cur_token` for
/// `cur_user` here, against `des_token` for `des_user` on the other side.
pub struct SwapMessage {
    pub transaction_id: String,
    pub cur_token: String,
    pub des_token: String,
    pub cur_user: String,
    pub des_user: String,
    pub amount: u128,
}

/// The record of a processed swap; `side` is "mint" or "burn".
pub struct Swapdata {
    pub cur_token: String,
    pub des_token: String,
    pub cur_user: String,
    pub des_user: String,
    pub amount: u128,
    pub side: String,
}

/// The bridge: allow-lists of tokens, per-token swap limits, admin approvals of
/// transactions over the limit, and the record of each processed transaction.
pub struct Bridge {
    pub access: AccessControl,
    pub accepted_tokens: StrMap<bool>,
    pub accepted_des_tokens: StrMap<bool>,
    pub max_swap_amount: StrMap<u128>,
    pub approved_transactions: StrMap<bool>,
    pub swaps: StrMap<Swapdata>,
}

pub open spec fn flag(m: Map<Seq<char>, bool>, k: Seq<char>) -> bool {
    m.contains_key(k) && m[k]
}

impl Bridge {
    pub open spec fn wf(&self) -> bool {
        &&& self.access.wf()
        &&& self.accepted_tokens.wf()
        &&& self.accepted_des_tokens.wf()
        &&& self.max_swap_amount.wf()
        &&& self.approved_transactions.wf()
        &&& self.swaps.wf()
    }

    /// A transaction id is spent once a record with a nonzero amount stands under it.
    pub open spec fn spent(&self, transaction_id: Seq<char>) -> bool {
        self.swaps@.contains_key(transaction_id) && self.swaps@[transaction_id].amount != 0
    }

    /// The amount is nonzero, both tokens are allowed and the sender is the swap's
    /// own user.
    pub open spec fn valid_swap(&self, sender: Seq<char>, msg: SwapMessage) -> bool {
        &&& msg.amount != 0
        &&& flag(self.accepted_tokens@, msg.cur_token@)
        &&& flag(self.accepted_des_tokens@, msg.des_token@)
        &&& sender == msg.cur_user@
    }

    /// Within the token's limit (none when it is zero), or approved by an admin.
    pub open spec fn within_limit(&self, msg: SwapMessage) -> bool {
        let max = balance_in(self.max_swap_amount@, msg.cur_token@);
        msg.amount <= max || max == 0 || flag(self.approved_transactions@, msg.transaction_id@)
    }

    pub open spec fn mint_failure(&self, sender: Seq<char>, msg: SwapMessage, signature_valid: bool) -> Option<ContractError> {
        if self.spent(msg.transaction_id@) {
            Some(ContractError::TransactionExisted)
        } else if !self.valid_swap(sender, msg) {
            Some(ContractError::InvalidSwapData)
        } else if !self.within_limit(msg) {
            Some(ContractError::ExceededMaxAmount)
        } else if !signature_valid {
            Some(ContractError::InvalidSignature)
        } else {
            None
        }
    }

    pub open spec fn burn_failure(&self, sender: Seq<char>, msg: SwapMessage) -> Option<ContractError> {
        if self.spent(msg.transaction_id@) {
            Some(ContractError::TransactionExisted)
        } else if !self.valid_swap(sender, msg) {
            Some(ContractError::InvalidSwapData)
        } else {
            None
        }
    }

    /// A bridge with nothing allowed, owned and administered by its creator.
    pub fn instantiate(creator: &String) -> (r: Self)
        ensures
            r.wf(),
            r.access.owner == *creator,
            r.access.admin(creator@),
            r.swaps@ == Map::<Seq<char>, Swapdata>::empty(),
    {
        Bridge {
            access: AccessControl::new(creator),
            accepted_tokens: StrMap::new(),
            accepted_des_tokens: StrMap::new(),
            max_swap_amount: StrMap::new(),
            approved_transactions: StrMap::new(),
            swaps: StrMap::new(),
        }
    }

    fn flag_of(m: &StrMap<bool>, k: &String) -> (r: bool)
        requires
            m.wf(),
        ensures
            r == flag(m@, k@),
    {
        match m.get(k) {
            Some(v) => *v,
            None => false,
        }
    }

    pub fn is_accepted_token(&self, token: &String) -> (r: bool)
        requires
            self.wf(),
        ensures
            r == flag(self.accepted_tokens@, token@),
    {
        Self::flag_of(&self.accepted_tokens, token)
    }

    pub fn is_accepted_des_token(&self, token: &String) -> (r: bool)
        requires
            self.wf(),
        ensures
            r == flag(self.accepted_des_tokens@, token@),
    {
        Self::flag_of(&self.accepted_des_tokens, token)
    }

    pub fn is_approve_transaction(&self, transaction_id: &String) -> (r: bool)
        requires
            self.wf(),
        ensures
            r == flag(self.approved_transactions@, transaction_id@),
    {
        Self::flag_of(&self.approved_transactions, transaction_id)
    }

    /// The swap limit of a token; zero means no limit.
    pub fn get_max_swap_amount(&self, token: &String) -> (r: u128)
        requires
            self.wf(),
        ensures
            r == balance_in(self.max_swap_amount@, token@),
    {
        match self.max_swap_amount.get(token) {
            Some(v) => *v,
            None => 0,
        }
    }

    /// Whether a transaction id is spent.
    pub fn is_transaction_existed(&self, transaction_id: &String) -> (r: bool)
        requires
            self.wf(),
        ensures
            r == self.spent(transaction_id@),
    {
        match self.swaps.get(transaction_id) {
            Some(d) => d.amount != 0,
            None => false,
        }
    }

    /// Only an admin may change an allow-list, a limit or an approval.
    pub fn set_accepted_token(&mut self, sender: &String, token: String, status: bool) -> (r: Result<(), ContractError>)
        requires
            old(self).wf(),
        ensures
            final(self).wf(),
            !old(self).access.admin(sender@) ==> r == Err::<(), ContractError>(ContractError::Unauthorized)
                && *final(self) == *old(self),
            old(self).access.admin(sender@) ==> r is Ok
                && *final(self) == (Bridge { accepted_tokens: final(self).accepted_tokens, ..*old(self) })
                && final(self).accepted_tokens@ == old(self).accepted_tokens@.insert(token@, status),
    {
        if !self.access.is_admin(sender) {
            return Err(ContractError::Unauthorized);
        }
        self.accepted_tokens.insert(token, status);
        Ok(())
    }

    pub fn set_accepted_des_token(&mut self, sender: &String, token: String, status: bool) -> (r: Result<(), ContractError>)
        requires
            old(self).wf(),
        ensures
            final(self).wf(),
            !old(self).access.admin(sender@) ==> r == Err::<(), ContractError>(ContractError::Unauthorized)
                && *final(self) == *old(self),
            old(self).access.admin(sender@) ==> r is Ok
                && *final(self) == (Bridge { accepted_des_tokens: final(self).accepted_des_tokens, ..*old(self) })
                && final(self).accepted_des_tokens@ == old(self).accepted_des_tokens@.insert(token@, status),
    {
        if !self.access.is_admin(sender) {
            return Err(ContractError::Unauthorized);
        }
        self.accepted_des_tokens.insert(token, status);
        Ok(())
    }

    pub fn set_max_swap_amount(&mut self, sender: &String, token: String, max_amount: u128) -> (r: Result<(), ContractError>)
        requires
            old(self).wf(),
        ensures
            final(self).wf(),
            !old(self).access.admin(sender@) ==> r == Err::<(), ContractError>(ContractError::Unauthorized)
                && *final(self) == *old(self),
            old(self).access.admin(sender@) ==> r is Ok
                && *final(self) == (Bridge { max_swap_amount: final(self).max_swap_amount, ..*old(self) })
                && final(self).max_swap_amount@ == old(self).max_swap_amount@.insert(token@, max_amount),
    {
        if !self.access.is_admin(sender) {
            return Err(ContractError::Unauthorized);
        }
        self.max_swap_amount.insert(token, max_amount);
        Ok(())
    }

    pub fn set_approve_transaction(&mut self, sender: &String, transaction_id: String, status: bool) -> (r: Result<(), ContractError>)
        requires
            old(self).wf(),
        ensures
            final(self).wf(),
            !old(self).access.admin(sender@) ==> r == Err::<(), ContractError>(ContractError::Unauthorized)
                && *final(self) == *old(self),
            old(self).access.admin(sender@) ==> r is Ok
                && *final(self) == (Bridge { approved_transactions: final(self).approved_transactions, ..*old(self) })
                && final(self).approved_transactions@ == old(self).approved_transactions@.insert(transaction_id@, status),
    {
        if !self.access.is_admin(sender) {
            return Err(ContractError::Unauthorized);
        }
        self.approved_transactions.insert(transaction_id, status);
        Ok(())
    }

    fn validate_swap_data(&self, sender: &String, msg: &SwapMessage) -> (r: bool)
        requires
            self.wf(),
        ensures
            r == self.valid_swap(sender@, *msg),
    {
        if msg.amount == 0 {
            return false;
        }
        if !self.is_accepted_token(&msg.cur_token) || !self.is_accepted_des_token(&msg.des_token) {
            return false;
        }
        *sender == msg.cur_user
    }

    fn validate_max_swap_amount(&self, msg: &SwapMessage) -> (r: bool)
        requires
            self.wf(),
        ensures
            r == self.within_limit(*msg),
    {
        let max = self.get_max_swap_amount(&msg.cur_token);
        if msg.amount <= max || max == 0 {
            return true;
        }
        self.is_approve_transaction(&msg.transaction_id)
    }

    fn record_swap(&mut self, msg: &SwapMessage, side: &str)
        requires
            old(self).wf(),
        ensures
            final(self).wf(),
            *final(self) == (Bridge { swaps: final(self).swaps, ..*old(self) }),
            final(self).swaps@.contains_key(msg.transaction_id@),
            final(self).swaps@ == old(self).swaps@.insert(msg.transaction_id@, final(self).swaps@[msg.transaction_id@]),
            final(self).swaps@[msg.transaction_id@].side@ == side@,
            final(self).swaps@[msg.transaction_id@].amount == msg.amount,
            final(self).swaps@[msg.transaction_id@].cur_token == msg.cur_token,
            final(self).swaps@[msg.transaction_id@].des_token == msg.des_token,
            final(self).swaps@[msg.transaction_id@].cur_user == msg.cur_user,
            final(self).swaps@[msg.transaction_id@].des_user == msg.des_user,
    {
        let data = Swapdata {
            cur_token: msg.cur_token.clone(),
            des_token: msg.des_token.clone(),
            cur_user: msg.cur_user.clone(),
            des_user: msg.des_user.clone(),
            amount: msg.amount,
            side: side.to_owned(),
        };
        self.swaps.insert(msg.transaction_id.clone(), data);
    }

    /// Mints on this side the tokens of a swap that the signer approved;
    /// `signature_valid` is whether the signer key verified the swap message. The
    /// transaction id is then spent.
    pub fn try_mint(&mut self, sender: &String, msg: &SwapMessage, signature_valid: bool) -> (r: Result<Vec<Effect>, ContractError>)
        requires
            old(self).wf(),
        ensures
            final(self).wf(),
            match old(self).mint_failure(sender@, *msg, signature_valid) {
                Some(e) => r == Err::<Vec<Effect>, ContractError>(e) && *final(self) == *old(self),
                None => {
                    &&& r is Ok
                    &&& r->Ok_0@ == seq![Effect::Mint { token: msg.cur_token, recipient: msg.cur_user, amount: msg.amount }]
                    &&& *final(self) == (Bridge { swaps: final(self).swaps, ..*old(self) })
                    &&& final(self).spent(msg.transaction_id@)
                    &&& final(self).swaps@[msg.transaction_id@].side@ == seq!['m', 'i', 'n', 't']
                    &&& final(self).swaps@ == old(self).swaps@.insert(msg.transaction_id@, final(self).swaps@[msg.transaction_id@])
                },
            },
    {
        if self.is_transaction_existed(&msg.transaction_id) {
            return Err(ContractError::TransactionExisted);
        }
        if !self.validate_swap_data(sender, msg) {
            return Err(ContractError::InvalidSwapData);
        }
        if !self.validate_max_swap_amount(msg) {
            return Err(ContractError::ExceededMaxAmount);
        }
        if !signature_valid {
            return Err(ContractError::InvalidSignature);
        }
        proof {
            reveal_strlit("mint");
        }
        self.record_swap(msg, "mint");
        Ok(vec![Effect::Mint { token: msg.cur_token.clone(), recipient: msg.cur_user.clone(), amount: msg.amount }])
    }

    /// Burns on this side the tokens of a swap toward the other chain; the
    /// transaction id is then spent.
    pub fn try_burn(&mut self, sender: &String, msg: &SwapMessage) -> (r: Result<Vec<Effect>, ContractError>)
        requires
            old(self).wf(),
        ensures
            final(self).wf(),
            match old(self).burn_failure(sender@, *msg) {
                Some(e) => r == Err::<Vec<Effect>, ContractError>(e) && *final(self) == *old(self),
                None => {
                    &&& r is Ok
                    &&& r->Ok_0@ == seq![Effect::BurnFrom { token: msg.cur_token, owner: msg.cur_user, amount: msg.amount }]
                    &&& *final(self) == (Bridge { swaps: final(self).swaps, ..*old(self) })
                    &&& final(self).spent(msg.transaction_id@)
                    &&& final(self).swaps@[msg.transaction_id@].side@ == seq!['b', 'u', 'r', 'n']
                    &&& final(self).swaps@ == old(self).swaps@.insert(msg.transaction_id@, final(self).swaps@[msg.transaction_id@])
                },
            },
    {
        if self.is_transaction_existed(&msg.transaction_id) {
            return Err(ContractError::TransactionExisted);
        }
        if !self.validate_swap_data(sender, msg) {
            return Err(ContractError::InvalidSwapData);
        }
        proof {
            reveal_strlit("burn");
        }
        self.record_swap(msg, "burn");
        Ok(vec![Effect::BurnFrom { token: msg.cur_token.clone(), owner: msg.cur_user.clone(), amount: msg.amount }])
    }
}

} // verus!
