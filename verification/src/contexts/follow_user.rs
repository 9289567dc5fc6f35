use vstd::prelude::*;
use crate::states::{UserProfile, UserProfileView};
use crate::transfer::{TransferPlan, tip_plan, spec_tip_plan};

verus! {

/// Adds a user id to the caller's follow list.
pub struct FollowUser {
    /// The caller's profile.
    pub user_profile: UserProfile,
}

impl FollowUser {
    /// Appends `address` to the follow list.  As with group
    /// membership, the id is not checked to exist and may already be
    /// present.
    pub fn process(&mut self, address: u32, amount: Option<u64>) -> (p: TransferPlan)
        ensures
            final(self).user_profile@ == (UserProfileView {
                following: old(self).user_profile@.following.push(address),
                ..old(self).user_profile@
            }),
            p == spec_tip_plan(amount),
    {
        self.user_profile.following.push(address);
        tip_plan(amount)
    }
}

} // verus!
