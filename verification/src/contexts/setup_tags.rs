use vstd::prelude::*;
use crate::errors::SocialError;
use crate::model::seed_tag_name;
use crate::states::Tags;

verus! {

/// Seeds the shared tag index.
pub struct SetupTags {
    /// The tag index being initialized.
    pub tags: Tags,
}

impl SetupTags {
    /// Appends the seed entry — position 0, which posts without a tag
    /// point at — and stores the canonicalization byte of the index's
    /// derived address.
    pub fn process(&mut self, bump: u8) -> (r: Result<(), SocialError>)
        ensures
            final(self).tags@.taglist == old(self).tags@.taglist.push(seed_tag_name()),
            final(self).tags@.bump == bump,
            r is Ok,
    {
        let seed: String = "spling".to_owned();
        proof {
            assert(self.tags.taglist@.push(seed).map_values(|s: String| s@)
                =~= self.tags.taglist@.map_values(|s: String| s@).push(seed@));
        }
        self.tags.taglist.push(seed);
        self.tags.bump = bump;
        Ok(())
    }
}

} // verus!
