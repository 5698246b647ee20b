use vstd::prelude::*;

use crate::error::ContractError;
use crate::kv::StrMap;

verus! {

/// How long a signed action stays valid after its timestamp: two minutes, in
/// nanoseconds.
pub const VALIDITY_WINDOW_NANOS: u64 = 120_000_000_000;

/// A signed action is stale once two minutes have passed since its timestamp. A
/// timestamp in the future is never stale.
pub open spec fn is_stale(timestamp_nanos: u64, now_nanos: u64) -> bool {
    timestamp_nanos + VALIDITY_WINDOW_NANOS <= now_nanos
}

/// Whether an action signed at `timestamp_nanos` is refused at `now_nanos`.
pub fn is_expired(timestamp_nanos: u64, now_nanos: u64) -> (r: bool)
    ensures
        r == is_stale(timestamp_nanos, now_nanos),
{
    timestamp_nanos <= now_nanos && now_nanos - timestamp_nanos >= VALIDITY_WINDOW_NANOS
}

/// The nonces of signed actions, each marked once it is consumed. It only grows.
pub struct NonceRegistry {
    pub used: StrMap<bool>,
}

/// Why a signed action is refused before its effect, if it is: staleness first,
/// then replay, then the signature.
pub open spec fn accept_failure(used: Map<Seq<char>, bool>, nonce: Seq<char>, timestamp_nanos: u64, now_nanos: u64, signature_valid: bool) -> Option<ContractError> {
    if is_stale(timestamp_nanos, now_nanos) {
        Some(ContractError::TimeExpired)
    } else if used.contains_key(nonce) && used[nonce] {
        Some(ContractError::NonceUsed)
    } else if !signature_valid {
        Some(ContractError::InvalidSignature)
    } else {
        None
    }
}

impl NonceRegistry {
    pub open spec fn wf(&self) -> bool {
        self.used.wf()
    }

    pub open spec fn consumed(&self, nonce: Seq<char>) -> bool {
        self.used@.contains_key(nonce) && self.used@[nonce]
    }

    pub fn new() -> (r: Self)
        ensures
            r.wf(),
            r.used@ == Map::<Seq<char>, bool>::empty(),
    {
        NonceRegistry { used: StrMap::new() }
    }

    pub fn is_used_nonce(&self, nonce: &String) -> (r: bool)
        requires
            self.wf(),
        ensures
            r == self.consumed(nonce@),
    {
        match self.used.get(nonce) {
            Some(v) => *v,
            None => false,
        }
    }

    pub fn set_used_nonce(&mut self, nonce: String, value: bool)
        requires
            old(self).wf(),
        ensures
            final(self).wf(),
            final(self).used@ == old(self).used@.insert(nonce@, value),
    {
        self.used.insert(nonce, value);
    }

    /// Accepts a signed action with `nonce`, signed at `timestamp_nanos`, at
    /// `now_nanos`: it must not be stale, its nonce must be fresh and
    /// `signature_valid` must hold. An accepted action consumes its nonce; a refused
    /// one leaves the registry as it was.
    pub fn accept_action(&mut self, nonce: &String, timestamp_nanos: u64, now_nanos: u64, signature_valid: bool) -> (r: Result<(), ContractError>)
        requires
            old(self).wf(),
        ensures
            final(self).wf(),
            match accept_failure(old(self).used@, nonce@, timestamp_nanos, now_nanos, signature_valid) {
                Some(e) => r == Err::<(), ContractError>(e) && *final(self) == *old(self),
                None => r is Ok && final(self).used@ == old(self).used@.insert(nonce@, true),
            },
    {
        if is_expired(timestamp_nanos, now_nanos) {
            return Err(ContractError::TimeExpired);
        }
        if self.is_used_nonce(nonce) {
            return Err(ContractError::NonceUsed);
        }
        if !signature_valid {
            return Err(ContractError::InvalidSignature);
        }
        self.set_used_nonce(nonce.clone(), true);
        Ok(())
    }
}

/// A signed action accepted once is refused when it comes again with the same
/// nonce: by replay while it is fresh, by staleness after that.
pub proof fn lemma_nonce_accepted_once(used: Map<Seq<char>, bool>, nonce: Seq<char>, t1: u64, now1: u64, sig1: bool, t2: u64, now2: u64, sig2: bool)
    requires
        accept_failure(used, nonce, t1, now1, sig1) is None,
    ensures
        accept_failure(used.insert(nonce, true), nonce, t2, now2, sig2) is Some,
        !is_stale(t2, now2) ==> accept_failure(used.insert(nonce, true), nonce, t2, now2, sig2)
            == Some(ContractError::NonceUsed),
{
}

/// A stale action is refused as expired, whatever its nonce and signature.
pub proof fn lemma_stale_refused(used: Map<Seq<char>, bool>, nonce: Seq<char>, timestamp_nanos: u64, now_nanos: u64, signature_valid: bool)
    requires
        timestamp_nanos + VALIDITY_WINDOW_NANOS <= now_nanos,
    ensures
        accept_failure(used, nonce, timestamp_nanos, now_nanos, signature_valid) == Some(ContractError::TimeExpired),
{
}

} // verus!
