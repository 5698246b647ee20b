use vstd::prelude::*;
use vstd::string::StringExecFns;

use crate::error::ContractError;
use crate::kv::StrMap;

verus! {

pub struct PaymentInfo {
    pub name: String,
    pub symbol: String,
    pub total_contract_supported: u32,
    pub owner: String,
}

/// The policy for one asset contract: its fee in basis points and its kind.
pub struct ContractSupport {
    pub contract_address: String,
    pub fee: u16,
    pub is_cw721: bool,
    pub status: bool,
}

/// Whether an asset contract may be paid for with a payment token.
pub struct PaymentMethod {
    pub contract_address: String,
    pub payment_contract: String,
    pub status: bool,
}

/// The payment policy that the marketplace consults: which asset contracts it
/// supports, at what fee, and with which payment tokens. Only the owner changes it.
pub struct GamePaymentContract {
    pub contract_info: PaymentInfo,
    pub contract_supports: StrMap<ContractSupport>,
    pub token_payments: StrMap<PaymentMethod>,
}

/// The key of a payment method: the asset contract and the payment token, joined.
pub open spec fn method_key(contract_address: Seq<char>, payment_contract: Seq<char>) -> Seq<char> {
    contract_address + payment_contract
}

fn method_key_of(contract_address: &String, payment_contract: &String) -> (r: String)
    ensures
        r@ == method_key(contract_address@, payment_contract@),
{
    let mut k = contract_address.clone();
    k.append(payment_contract.as_str());
    k
}

impl GamePaymentContract {
    pub open spec fn wf(&self) -> bool {
        self.contract_supports.wf() && self.token_payments.wf()
    }

    /// Whether the policy accepts `payment_contract` for `contract_address`.
    pub open spec fn token_supported(&self, contract_address: Seq<char>, payment_contract: Seq<char>) -> bool {
        let k = method_key(contract_address, payment_contract);
        self.token_payments@.contains_key(k) && self.token_payments@[k].status
    }

    pub fn instantiate(sender: &String, name: String, symbol: String) -> (r: Self)
        ensures
            r.wf(),
            r.contract_info == (PaymentInfo { name, symbol, total_contract_supported: 0, owner: *sender }),
            r.contract_supports@ == Map::<Seq<char>, ContractSupport>::empty(),
            r.token_payments@ == Map::<Seq<char>, PaymentMethod>::empty(),
    {
        GamePaymentContract {
            contract_info: PaymentInfo { name, symbol, total_contract_supported: 0, owner: sender.clone() },
            contract_supports: StrMap::new(),
            token_payments: StrMap::new(),
        }
    }

    /// Supports a new asset contract at `fee` with one payment token. Neither the
    /// contract nor the pair may be there already.
    pub fn add_contract_support(&mut self, sender: &String, contract_address: String, fee: u16, payment_contract: String, is_cw721: bool) -> (r: Result<(), ContractError>)
        requires
            old(self).wf(),
        ensures
            final(self).wf(),
            sender@ != old(self).contract_info.owner@ ==> r == Err::<(), ContractError>(ContractError::Unauthorized) && *final(self) == *old(self),
            sender@ == old(self).contract_info.owner@ && (old(self).contract_supports@.contains_key(contract_address@)
                || old(self).token_payments@.contains_key(method_key(contract_address@, payment_contract@)))
                ==> r == Err::<(), ContractError>(ContractError::Added) && *final(self) == *old(self),
            sender@ == old(self).contract_info.owner@ && !old(self).contract_supports@.contains_key(contract_address@)
                && !old(self).token_payments@.contains_key(method_key(contract_address@, payment_contract@)) ==> {
                &&& r is Ok
                &&& final(self).contract_info == old(self).contract_info
                &&& final(self).contract_supports@ == old(self).contract_supports@.insert(contract_address@,
                    ContractSupport { contract_address, fee, is_cw721, status: true })
                &&& final(self).token_payments@ == old(self).token_payments@.insert(method_key(contract_address@, payment_contract@),
                    PaymentMethod { contract_address, payment_contract, status: true })
            },
    {
        if *sender != self.contract_info.owner {
            return Err(ContractError::Unauthorized);
        }
        let key = method_key_of(&contract_address, &payment_contract);
        if self.contract_supports.find(&contract_address).is_some() || self.token_payments.find(&key).is_some() {
            return Err(ContractError::Added);
        }
        self.contract_supports.insert(contract_address.clone(), ContractSupport {
            contract_address: contract_address.clone(),
            fee,
            is_cw721,
            status: true,
        });
        self.token_payments.insert(key, PaymentMethod { contract_address, payment_contract, status: true });
        Ok(())
    }

    /// Sets the fee of a supported asset contract.
    pub fn update_fee(&mut self, sender: &String, contract_address: &String, fee: u16) -> (r: Result<(), ContractError>)
        requires
            old(self).wf(),
        ensures
            final(self).wf(),
            sender@ != old(self).contract_info.owner@ ==> r == Err::<(), ContractError>(ContractError::Unauthorized) && *final(self) == *old(self),
            sender@ == old(self).contract_info.owner@ && !old(self).contract_supports@.contains_key(contract_address@)
                ==> r == Err::<(), ContractError>(ContractError::NotFound) && *final(self) == *old(self),
            sender@ == old(self).contract_info.owner@ && old(self).contract_supports@.contains_key(contract_address@) ==> {
                &&& r is Ok
                &&& final(self).contract_info == old(self).contract_info
                &&& final(self).token_payments == old(self).token_payments
                &&& final(self).contract_supports@ == old(self).contract_supports@.insert(contract_address@,
                    ContractSupport { fee, ..old(self).contract_supports@[contract_address@] })
            },
    {
        if *sender != self.contract_info.owner {
            return Err(ContractError::Unauthorized);
        }
        let (address, is_cw721, status) = match self.contract_supports.get(contract_address) {
            Some(c) => (c.contract_address.clone(), c.is_cw721, c.status),
            None => {
                return Err(ContractError::NotFound);
            },
        };
        self.contract_supports.insert(contract_address.clone(), ContractSupport { contract_address: address, fee, is_cw721, status });
        Ok(())
    }

    /// Adds a payment token for an asset contract; the pair may not be there already.
    pub fn set_payment_method(&mut self, sender: &String, contract_address: String, payment_contract: String, status: bool) -> (r: Result<(), ContractError>)
        requires
            old(self).wf(),
        ensures
            final(self).wf(),
            sender@ != old(self).contract_info.owner@ ==> r == Err::<(), ContractError>(ContractError::Unauthorized) && *final(self) == *old(self),
            sender@ == old(self).contract_info.owner@ && old(self).token_payments@.contains_key(method_key(contract_address@, payment_contract@))
                ==> r == Err::<(), ContractError>(ContractError::Added) && *final(self) == *old(self),
            sender@ == old(self).contract_info.owner@ && !old(self).token_payments@.contains_key(method_key(contract_address@, payment_contract@)) ==> {
                &&& r is Ok
                &&& final(self).contract_info == old(self).contract_info
                &&& final(self).contract_supports == old(self).contract_supports
                &&& final(self).token_payments@ == old(self).token_payments@.insert(method_key(contract_address@, payment_contract@),
                    PaymentMethod { contract_address, payment_contract, status })
            },
    {
        if *sender != self.contract_info.owner {
            return Err(ContractError::Unauthorized);
        }
        let key = method_key_of(&contract_address, &payment_contract);
        if self.token_payments.find(&key).is_some() {
            return Err(ContractError::Added);
        }
        self.token_payments.insert(key, PaymentMethod { contract_address, payment_contract, status });
        Ok(())
    }

    /// Withdraws support from an asset contract; its record stays, inactive.
    pub fn remove_contract_support(&mut self, sender: &String, contract_address: &String) -> (r: Result<(), ContractError>)
        requires
            old(self).wf(),
        ensures
            final(self).wf(),
            sender@ != old(self).contract_info.owner@ ==> r == Err::<(), ContractError>(ContractError::Unauthorized) && *final(self) == *old(self),
            sender@ == old(self).contract_info.owner@ && !old(self).contract_supports@.contains_key(contract_address@)
                ==> r == Err::<(), ContractError>(ContractError::NotFound) && *final(self) == *old(self),
            sender@ == old(self).contract_info.owner@ && old(self).contract_supports@.contains_key(contract_address@) ==> {
                &&& r is Ok
                &&& final(self).contract_info == old(self).contract_info
                &&& final(self).token_payments == old(self).token_payments
                &&& final(self).contract_supports@ == old(self).contract_supports@.insert(contract_address@,
                    ContractSupport { status: false, ..old(self).contract_supports@[contract_address@] })
            },
    {
        if *sender != self.contract_info.owner {
            return Err(ContractError::Unauthorized);
        }
        let (address, fee, is_cw721) = match self.contract_supports.get(contract_address) {
            Some(c) => (c.contract_address.clone(), c.fee, c.is_cw721),
            None => {
                return Err(ContractError::NotFound);
            },
        };
        self.contract_supports.insert(contract_address.clone(), ContractSupport { contract_address: address, fee, is_cw721, status: false });
        Ok(())
    }

    /// Only the owner may hand the policy to `user`.
    pub fn set_new_owner(&mut self, sender: &String, user: String) -> (r: Result<(), ContractError>)
        requires
            old(self).wf(),
        ensures
            final(self).wf(),
            sender@ != old(self).contract_info.owner@ ==> r == Err::<(), ContractError>(ContractError::Unauthorized) && *final(self) == *old(self),
            sender@ == old(self).contract_info.owner@ ==> r is Ok
                && final(self).contract_info == (PaymentInfo { owner: user, ..old(self).contract_info })
                && final(self).contract_supports == old(self).contract_supports
                && final(self).token_payments == old(self).token_payments,
    {
        if *sender != self.contract_info.owner {
            return Err(ContractError::Unauthorized);
        }
        self.contract_info.owner = user;
        Ok(())
    }

    /// The policy of an asset contract, if it was ever supported.
    pub fn contract_support_info(&self, contract_address: &String) -> (r: Option<&ContractSupport>)
        requires
            self.wf(),
        ensures
            match r {
                Some(c) => self.contract_supports@.contains_key(contract_address@) && *c == self.contract_supports@[contract_address@],
                None => !self.contract_supports@.contains_key(contract_address@),
            },
    {
        self.contract_supports.get(contract_address)
    }

    pub fn is_token_support(&self, contract_address: &String, payment_contract: &String) -> (r: bool)
        requires
            self.wf(),
        ensures
            r == self.token_supported(contract_address@, payment_contract@),
    {
        let key = method_key_of(contract_address, payment_contract);
        match self.token_payments.get(&key) {
            Some(m) => m.status,
            None => false,
        }
    }

    /// The fee of an asset contract; zero for one never supported.
    pub fn get_contract_fee(&self, contract_address: &String) -> (r: u16)
        requires
            self.wf(),
        ensures
            self.contract_supports@.contains_key(contract_address@) ==> r == self.contract_supports@[contract_address@].fee,
            !self.contract_supports@.contains_key(contract_address@) ==> r == 0,
    {
        match self.contract_supports.get(contract_address) {
            Some(c) => c.fee,
            None => 0,
        }
    }
}

} // verus!
