use vstd::prelude::*;
use crate::states::{GroupProfile, Spling};
use crate::transfer::{TransferPlan, tip_plan, spec_tip_plan};

verus! {

/// Creates a group profile for the caller.
pub struct CreateGroupProfile {
    /// The registry, whose group counter issues the new id.
    pub spling: Spling,
    /// The profile record being created.
    pub group_profile: GroupProfile,
}

impl CreateGroupProfile {
    /// Fills the fresh group profile and assigns the next group id,
    /// bumping the group counter.  Unlike user creation there is no
    /// bootstrap subsidy: without a fee payment nothing is transferred.
    pub fn process(&mut self, user: u64, shdw: u64, now: i64, amount: Option<u64>, bump: u8) -> (r:
        (u32, TransferPlan))
        requires
            old(self).spling.groups < u32::MAX,
        ensures
            final(self).spling == (Spling {
                groups: (old(self).spling.groups + 1) as u32,
                ..old(self).spling
            }),
            final(self).group_profile == (GroupProfile {
                ts: now,
                group: user,
                gid: (old(self).spling.groups + 1) as u32,
                st: 1,
                shdw,
                bump,
            }),
            r.0 == old(self).spling.groups + 1,
            r.1 == spec_tip_plan(amount),
    {
        self.group_profile.ts = now;
        self.group_profile.group = user;
        let gid = self.spling.groups + 1;
        self.group_profile.gid = gid;
        self.spling.groups = gid;
        self.group_profile.st = 1;
        self.group_profile.shdw = shdw;
        self.group_profile.bump = bump;
        (gid, tip_plan(amount))
    }
}

} // verus!
