use vstd::prelude::*;
use crate::errors::SocialError;
use crate::listops::{vec_contains_u32, vec_remove_val};
use crate::model::toggle_like;
use crate::states::{Likes, likes_wf};
use crate::transfer::{TransferPlan, tip_plan, spec_tip_plan};

verus! {

/// Toggles the caller's like on one post.
pub struct LikePost {
    /// The post's like record.
    pub likes: Likes,
}

impl LikePost {
    /// Membership toggle: a liker already in the list is removed and
    /// the counter decremented, a new liker is appended and the
    /// counter incremented.  A decrement that would underflow is a
    /// fatal bookkeeping fault, reported as `InvariantViolation`; it
    /// cannot happen while the record is well formed, so under this
    /// contract's precondition the toggle always succeeds.
    pub fn process(&mut self, uid: u32, amount: Option<u64>) -> (r: Result<
        TransferPlan,
        SocialError,
    >)
        requires
            likes_wf(old(self).likes@),
            old(self).likes@.users.len() < u16::MAX,
        ensures
            r is Ok,
            final(self).likes@ == toggle_like(old(self).likes@, uid),
            r == Ok::<TransferPlan, SocialError>(spec_tip_plan(amount)),
    {
        if vec_contains_u32(&self.likes.users, uid) {
            if self.likes.counter == 0 {
                return Err(SocialError::InvariantViolation);
            }
            vec_remove_val(&mut self.likes.users, uid);
            self.likes.counter = self.likes.counter - 1;
        } else {
            self.likes.users.push(uid);
            self.likes.counter = self.likes.counter + 1;
        }
        Ok(tip_plan(amount))
    }
}

} // verus!
