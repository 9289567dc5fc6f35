use vstd::prelude::*;
use crate::errors::SocialError;
use crate::states::Bank;
use crate::transfer::BANK_CAPACITY;

verus! {

/// Creates the storage-fee reserve.
pub struct CreateBank {
    /// The reserve record being created.
    pub bank: Bank,
}

impl CreateBank {
    /// Sets the reserve to its full, fixed capacity and stores the
    /// canonicalization byte of its derived address.
    pub fn process(&mut self, bump: u8) -> (r: Result<(), SocialError>)
        ensures
            final(self).bank == (Bank { size: BANK_CAPACITY, bump }),
            r is Ok,
    {
        self.bank.size = BANK_CAPACITY;
        self.bank.bump = bump;
        Ok(())
    }
}

} // verus!
