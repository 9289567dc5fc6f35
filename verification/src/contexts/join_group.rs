use vstd::prelude::*;
use crate::states::{UserProfile, UserProfileView};
use crate::transfer::{TransferPlan, tip_plan, spec_tip_plan};

verus! {

/// Adds a group id to the caller's membership list.
pub struct JoinGroup {
    /// The caller's profile.
    pub user_profile: UserProfile,
}

impl JoinGroup {
    /// Appends `address` to the membership list.  By design the id is
    /// not checked to exist and may already be present; leaving later
    /// removes every occurrence.
    pub fn process(&mut self, address: u32, amount: Option<u64>) -> (p: TransferPlan)
        ensures
            final(self).user_profile@ == (UserProfileView {
                groups: old(self).user_profile@.groups.push(address),
                ..old(self).user_profile@
            }),
            p == spec_tip_plan(amount),
    {
        self.user_profile.groups.push(address);
        tip_plan(amount)
    }
}

} // verus!
