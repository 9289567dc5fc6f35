use vstd::prelude::*;
use crate::errors::SocialError;
use crate::states::Bank;
use crate::transfer::BANK_CAPACITY;

verus! {

/// Restores the storage-fee reserve to full capacity.
pub struct ResetBank {
    /// The reserve record being reset.
    pub bank: Bank,
}

impl ResetBank {
    /// Sets the reserve's size back to its fixed capacity, leaving
    /// the rest of the record as it was.
    pub fn process(&mut self) -> (r: Result<(), SocialError>)
        ensures
            final(self).bank == (Bank { size: BANK_CAPACITY, ..old(self).bank }),
            r is Ok,
    {
        self.bank.size = BANK_CAPACITY;
        Ok(())
    }
}

} // verus!
