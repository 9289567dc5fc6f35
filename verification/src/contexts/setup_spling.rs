use vstd::prelude::*;
use crate::errors::SocialError;
use crate::states::Spling;

verus! {

/// Sets up the registry singleton.
pub struct SetupSpling {
    /// The registry record being initialized.
    pub spling: Spling,
}

impl SetupSpling {
    /// Zeroes every counter — a new user, group, post or tag will
    /// increment its counter to 1 — and stores the canonicalization
    /// byte of the registry's derived address.
    pub fn process(&mut self, bump: u8) -> (r: Result<(), SocialError>)
        ensures
            final(self).spling == (Spling { users: 0, groups: 0, posts: 0, tags: 0, bump }),
            r is Ok,
    {
        self.spling.users = 0;
        self.spling.groups = 0;
        self.spling.posts = 0;
        self.spling.tags = 0;
        self.spling.bump = bump;
        Ok(())
    }
}

} // verus!
