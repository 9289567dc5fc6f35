use vstd::prelude::*;
use crate::listops::{seq_remove, vec_remove_val};
use crate::states::{UserProfile, UserProfileView};
use crate::transfer::{TransferPlan, tip_plan, spec_tip_plan};

verus! {

/// Removes a group id from the caller's membership list.
pub struct LeaveGroup {
    /// The caller's profile.
    pub user_profile: UserProfile,
}

impl LeaveGroup {
    /// Retains every membership entry except `address`, keeping the
    /// order of the rest.
    pub fn process(&mut self, address: u32, amount: Option<u64>) -> (p: TransferPlan)
        ensures
            final(self).user_profile@ == (UserProfileView {
                groups: seq_remove(old(self).user_profile@.groups, address),
                ..old(self).user_profile@
            }),
            p == spec_tip_plan(amount),
    {
        vec_remove_val(&mut self.user_profile.groups, address);
        tip_plan(amount)
    }
}

} // verus!
