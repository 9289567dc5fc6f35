use vstd::prelude::*;
use crate::states::{Spling, UserProfile, UserProfileView};
use crate::transfer::{TransferPlan, subsidized_plan, spec_subsidized_plan, USER_SUBSIDY};

verus! {

/// Creates a user profile for the caller.
pub struct CreateUserProfile {
    /// The registry, whose user counter issues the new id.
    pub spling: Spling,
    /// The profile record being created.
    pub user_profile: UserProfile,
}

impl CreateUserProfile {
    /// Fills the fresh profile: stamps the time, records the owner and
    /// the content address, assigns the next user id, and bumps the
    /// user counter so the id is never issued again.  Returns the id
    /// and the transfer plan: the bootstrap subsidy when no fee
    /// payment was given, else the mirrored fee payment.
    pub fn process(&mut self, user: u64, shdw: u64, now: i64, amount: Option<u64>, bump: u8) -> (r:
        (u32, TransferPlan))
        requires
            old(self).spling.users < u32::MAX,
        ensures
            final(self).spling == (Spling {
                users: (old(self).spling.users + 1) as u32,
                ..old(self).spling
            }),
            final(self).user_profile@ == (UserProfileView {
                ts: now,
                user,
                uid: (old(self).spling.users + 1) as u32,
                st: 1,
                shdw,
                groups: Seq::empty(),
                following: Seq::empty(),
                bump,
            }),
            r.0 == old(self).spling.users + 1,
            r.1 == spec_subsidized_plan(amount, USER_SUBSIDY),
    {
        self.user_profile.ts = now;
        self.user_profile.user = user;
        let uid = self.spling.users + 1;
        self.user_profile.uid = uid;
        self.spling.users = uid;
        self.user_profile.st = 1;
        self.user_profile.shdw = shdw;
        self.user_profile.groups = Vec::new();
        self.user_profile.following = Vec::new();
        self.user_profile.bump = bump;
        (uid, subsidized_plan(amount, USER_SUBSIDY))
    }
}

} // verus!
