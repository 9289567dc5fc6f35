use vstd::prelude::*;
use crate::transfer::{TransferPlan, tip_plan, spec_tip_plan};

verus! {

/// Deletes a post the caller owns.  The record itself is closed by
/// the ledger once ownership has been checked; what remains here is
/// the transfer the deletion asks for.
pub struct DeletePost {}

impl DeletePost {
    /// Plans the optional fee payment that accompanies the deletion.
    pub fn process(&mut self, amount: Option<u64>) -> (p: TransferPlan)
        ensures
            p == spec_tip_plan(amount),
    {
        tip_plan(amount)
    }
}

} // verus!
