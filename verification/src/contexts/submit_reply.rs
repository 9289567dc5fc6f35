use vstd::prelude::*;
use crate::states::Reply;
use crate::transfer::{TransferPlan, subsidized_plan, spec_subsidized_plan, REPLY_SUBSIDY};

verus! {

/// Creates a reply to a post.
pub struct SubmitReply {
    /// The reply record being created.
    pub reply: Reply,
}

impl SubmitReply {
    /// Fills the fresh reply: stamps the time and records the author's
    /// id and the referenced post id as given — deliberately without
    /// checking that the post exists.  Returns the transfer plan: the
    /// reply subsidy when no fee payment was given, else the mirrored
    /// fee payment.
    pub fn process(&mut self, uid: u32, post_id: u32, now: i64, amount: Option<u64>, bump: u8) -> (
        p: TransferPlan)
        ensures
            final(self).reply == (Reply { ts: now, uid, pid: post_id, st: 1, bump }),
            p == spec_subsidized_plan(amount, REPLY_SUBSIDY),
    {
        self.reply.ts = now;
        self.reply.uid = uid;
        self.reply.pid = post_id;
        self.reply.st = 1;
        self.reply.bump = bump;
        subsidized_plan(amount, REPLY_SUBSIDY)
    }
}

} // verus!
