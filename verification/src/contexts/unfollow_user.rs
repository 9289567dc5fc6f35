use vstd::prelude::*;
use crate::listops::{seq_remove, vec_remove_val};
use crate::states::{UserProfile, UserProfileView};
use crate::transfer::{TransferPlan, tip_plan, spec_tip_plan};

verus! {

/// Removes a user id from the caller's follow list.
pub struct UnfollowUser {
    /// The caller's profile.
    pub user_profile: UserProfile,
}

impl UnfollowUser {
    /// Retains every followed id except `address`, keeping the order
    /// of the rest.
    pub fn process(&mut self, address: u32, amount: Option<u64>) -> (p: TransferPlan)
        ensures
            final(self).user_profile@ == (UserProfileView {
                following: seq_remove(old(self).user_profile@.following, address),
                ..old(self).user_profile@
            }),
            p == spec_tip_plan(amount),
    {
        vec_remove_val(&mut self.user_profile.following, address);
        tip_plan(amount)
    }
}

} // verus!
