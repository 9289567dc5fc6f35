use vstd::prelude::*;

verus! {

/// Typed failure of a state transition.  Every failing transition
/// returns one of these and leaves the ledger exactly as it was: the
/// host commits a transition atomically or not at all, and the engine
/// never writes before it has decided to succeed.
#[derive(Clone, Copy, Debug, PartialEq, Eq, Structural)]
pub enum SocialError {
    /// The registry singleton has not been set up, so no counter can be
    /// issued and no other operation may run.
    NotInitialized,
    /// A record already sits at the derived address.
    AlreadyExists,
    /// No record sits at the derived address.
    NotFound,
    /// A declared address disagrees with the canonical derivation from
    /// its seed tag and key, or names the wrong kind of entity.
    AddressMismatch,
    /// The caller is not the owner of the record it tried to mutate.
    Unauthorized,
    /// Internal bookkeeping disagrees with itself, such as a like
    /// counter about to underflow.  Defensive: unreachable while the
    /// ledger's invariant holds.
    InvariantViolation,
}

impl SocialError {
    /// A short name for the failure, for hosts that log one.
    pub fn describe(&self) -> (r: String)
        ensures
            r@ == self.spec_describe(),
    {
        match self {
            SocialError::NotInitialized => "not initialized".to_owned(),
            SocialError::AlreadyExists => "already exists".to_owned(),
            SocialError::NotFound => "not found".to_owned(),
            SocialError::AddressMismatch => "address mismatch".to_owned(),
            SocialError::Unauthorized => "unauthorized".to_owned(),
            SocialError::InvariantViolation => "invariant violation".to_owned(),
        }
    }

    /// The characters `describe` returns for each variant.
    pub open spec fn spec_describe(self) -> Seq<char> {
        match self {
            SocialError::NotInitialized => "not initialized"@,
            SocialError::AlreadyExists => "already exists"@,
            SocialError::NotFound => "not found"@,
            SocialError::AddressMismatch => "address mismatch"@,
            SocialError::Unauthorized => "unauthorized"@,
            SocialError::InvariantViolation => "invariant violation"@,
        }
    }
}

} // verus!
