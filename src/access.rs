use vstd::prelude::*;

use crate::error::ContractError;
use crate::kv::StrMap;

verus! {

/// The two roles: one owner, who alone appoints admins and hands ownership on, and
/// the admins, who set the signer key and the other operational settings. Also the
/// one public key that off-chain signed actions are checked against.
pub struct AccessControl {
    pub owner: String,
    pub admins: StrMap<bool>,
    pub signer: Vec<u8>,
}

impl AccessControl {
    pub open spec fn wf(&self) -> bool {
        self.admins.wf()
    }

    /// Whether `user` is listed as an admin; an unlisted user is not.
    pub open spec fn admin(&self, user: Seq<char>) -> bool {
        self.admins@.contains_key(user) && self.admins@[user]
    }

    /// The roles at creation: the creator owns and administers; no signer key yet.
    pub fn new(creator: &String) -> (r: Self)
        ensures
            r.wf(),
            r.owner == *creator,
            r.admins@ == Map::<Seq<char>, bool>::empty().insert(creator@, true),
            r.signer@.len() == 0,
    {
        let mut admins = StrMap::new();
        admins.insert(creator.clone(), true);
        AccessControl { owner: creator.clone(), admins, signer: Vec::new() }
    }

    pub fn get_owner(&self) -> (r: &String)
        ensures
            *r == self.owner,
    {
        &self.owner
    }

    pub fn is_admin(&self, user: &String) -> (r: bool)
        requires
            self.wf(),
        ensures
            r == self.admin(user@),
    {
        match self.admins.get(user) {
            Some(v) => *v,
            None => false,
        }
    }

    /// Only the owner may hand ownership to `user`.
    pub fn set_new_owner(&mut self, sender: &String, user: String) -> (r: Result<(), ContractError>)
        requires
            old(self).wf(),
        ensures
            final(self).wf(),
            sender@ != old(self).owner@ ==> r == Err::<(), ContractError>(ContractError::Unauthorized)
                && *final(self) == *old(self),
            sender@ == old(self).owner@ ==> r is Ok && final(self).owner == user
                && final(self).admins == old(self).admins && final(self).signer == old(self).signer,
    {
        if *sender != self.owner {
            return Err(ContractError::Unauthorized);
        }
        self.owner = user;
        Ok(())
    }

    /// Only the owner may list or unlist an admin.
    pub fn set_admin(&mut self, sender: &String, user: String, status: bool) -> (r: Result<(), ContractError>)
        requires
            old(self).wf(),
        ensures
            final(self).wf(),
            sender@ != old(self).owner@ ==> r == Err::<(), ContractError>(ContractError::Unauthorized)
                && *final(self) == *old(self),
            sender@ == old(self).owner@ ==> r is Ok && final(self).admins@ == old(self).admins@.insert(user@, status)
                && final(self).owner == old(self).owner && final(self).signer == old(self).signer,
    {
        if *sender != self.owner {
            return Err(ContractError::Unauthorized);
        }
        self.admins.insert(user, status);
        Ok(())
    }

    /// Only an admin may replace the signer key; the old key stops verifying at once.
    pub fn set_signer(&mut self, sender: &String, public_key: Vec<u8>) -> (r: Result<(), ContractError>)
        requires
            old(self).wf(),
        ensures
            final(self).wf(),
            !old(self).admin(sender@) ==> r == Err::<(), ContractError>(ContractError::Unauthorized)
                && *final(self) == *old(self),
            old(self).admin(sender@) ==> r is Ok && final(self).signer == public_key
                && final(self).owner == old(self).owner && final(self).admins == old(self).admins,
    {
        if !self.is_admin(sender) {
            return Err(ContractError::Unauthorized);
        }
        self.signer = public_key;
        Ok(())
    }

    pub fn get_signer(&self) -> (r: &Vec<u8>)
        ensures
            *r == self.signer,
    {
        &self.signer
    }
}

} // verus!
