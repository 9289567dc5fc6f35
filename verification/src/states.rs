use vstd::prelude::*;

verus! {

/// The registry singleton.  Each counter doubles as the count of
/// entities ever created of its kind and as the most recently issued
/// id; deletion never decrements one, so ids are never reused.
#[derive(Clone, Copy, Debug, PartialEq, Eq, Structural)]
pub struct Spling {
    /// Count of user profiles ever created; the last issued user id.
    pub users: u32,
    /// Count of group profiles ever created; the last issued group id.
    pub groups: u32,
    /// Count of posts ever created; the last issued post id.
    pub posts: u32,
    /// Count of tags ever appended to the tag index after its seed.
    pub tags: u16,
    /// Canonicalization byte of the registry's derived address.
    pub bump: u8,
}

/// The shared tag index: one ordered list of distinct lowercase tag
/// names.  A tag's id is its position in the list; position 0 holds the
/// seed entry that stands for "untagged".
pub struct Tags {
    /// The tag names, in the order they were first used.
    pub taglist: Vec<String>,
    /// Canonicalization byte of the index's derived address.
    pub bump: u8,
}

/// Mathematical model of [`Tags`]: the names as sequences of characters.
pub struct TagsView {
    /// The tag names, in first-use order.
    pub taglist: Seq<Seq<char>>,
    /// Canonicalization byte of the index's derived address.
    pub bump: u8,
}

impl View for Tags {
    type V = TagsView;

    open spec fn view(&self) -> TagsView {
        TagsView { taglist: self.taglist@.map_values(|s: String| s@), bump: self.bump }
    }
}

/// A marker record reserved for tipping bookkeeping.  No transition
/// reads or writes one yet; the type fixes its layout.
#[derive(Clone, Copy, Debug, PartialEq, Eq, Structural)]
pub struct Tip {
    /// The user id the tip belongs to.
    pub uid: u32,
    /// Canonicalization byte of the record's derived address.
    pub bump: u8,
}

/// The like record co-located with one post: a counter and the liker
/// user ids in insertion order.  Membership toggles: liking twice
/// removes the id again.
pub struct Likes {
    /// Number of users currently liking the post.
    pub counter: u16,
    /// The liker user ids, in the order they first liked.
    pub users: Vec<u32>,
    /// Canonicalization byte of the record's derived address.
    pub bump: u8,
}

/// Mathematical model of [`Likes`].
pub struct LikesView {
    /// Number of users currently liking the post.
    pub counter: u16,
    /// The liker user ids, in the order they first liked.
    pub users: Seq<u32>,
    /// Canonicalization byte of the record's derived address.
    pub bump: u8,
}

impl View for Likes {
    type V = LikesView;

    open spec fn view(&self) -> LikesView {
        LikesView { counter: self.counter, users: self.users@, bump: self.bump }
    }
}

/// A like record is well formed when its counter equals the number of
/// likers and no liker appears twice.
pub open spec fn likes_wf(l: LikesView) -> bool {
    &&& l.counter == l.users.len()
    &&& forall|i: int, j: int|
        0 <= i < j < l.users.len() ==> l.users[i] != l.users[j]
}

/// A post record.  Its storage key is the externally supplied content
/// address, not the ordinal `pid`.
#[derive(Clone, Copy, Debug, PartialEq, Eq, Structural)]
pub struct Post {
    /// Creation timestamp, as the host's clock reported it.
    pub ts: i64,
    /// User id of the author.
    pub uid: u32,
    /// Ordinal post id issued by the registry.
    pub pid: u32,
    /// Group id the post was posted in; not checked to exist.
    pub gid: u32,
    /// Tag id: position in the tag index, 0 for untagged.
    pub tid: u16,
    /// Status flag; 1 when active.
    pub st: u8,
    /// Canonicalization byte of the record's derived address.
    pub bump: u8,
}

/// A reply to a post, addressed by its own content address.  The
/// referenced `pid` is recorded as given and may dangle.
#[derive(Clone, Copy, Debug, PartialEq, Eq, Structural)]
pub struct Reply {
    /// Creation timestamp, as the host's clock reported it.
    pub ts: i64,
    /// User id of the author.
    pub uid: u32,
    /// Post id the reply refers to; not checked to exist.
    pub pid: u32,
    /// Status flag; 1 when active.
    pub st: u8,
    /// Canonicalization byte of the record's derived address.
    pub bump: u8,
}

/// A user profile, one per owner identity.
pub struct UserProfile {
    /// Creation timestamp, as the host's clock reported it.
    pub ts: i64,
    /// The owner identity the profile belongs to.
    pub user: u64,
    /// User id issued by the registry; immutable afterwards.
    pub uid: u32,
    /// Status flag; 1 when active.
    pub st: u8,
    /// Content address of the profile's off-ledger content.
    pub shdw: u64,
    /// Group ids the owner joined, in join order; value-removal on
    /// leave, and deliberately no duplicate or existence check.
    pub groups: Vec<u32>,
    /// User ids the owner follows, in follow order; same regime.
    pub following: Vec<u32>,
    /// Canonicalization byte of the record's derived address.
    pub bump: u8,
}

/// Mathematical model of [`UserProfile`].
pub struct UserProfileView {
    /// Creation timestamp.
    pub ts: i64,
    /// The owner identity the profile belongs to.
    pub user: u64,
    /// User id issued by the registry.
    pub uid: u32,
    /// Status flag; 1 when active.
    pub st: u8,
    /// Content address of the profile's off-ledger content.
    pub shdw: u64,
    /// Group ids the owner joined, in join order.
    pub groups: Seq<u32>,
    /// User ids the owner follows, in follow order.
    pub following: Seq<u32>,
    /// Canonicalization byte of the record's derived address.
    pub bump: u8,
}

impl View for UserProfile {
    type V = UserProfileView;

    open spec fn view(&self) -> UserProfileView {
        UserProfileView {
            ts: self.ts,
            user: self.user,
            uid: self.uid,
            st: self.st,
            shdw: self.shdw,
            groups: self.groups@,
            following: self.following@,
            bump: self.bump,
        }
    }
}

/// A group profile, one per creator identity.
#[derive(Clone, Copy, Debug, PartialEq, Eq, Structural)]
pub struct GroupProfile {
    /// Creation timestamp, as the host's clock reported it.
    pub ts: i64,
    /// The creator identity the profile belongs to.
    pub group: u64,
    /// Group id issued by the registry; immutable afterwards.
    pub gid: u32,
    /// Status flag; 1 when active.
    pub st: u8,
    /// Content address of the group's off-ledger content.
    pub shdw: u64,
    /// Canonicalization byte of the record's derived address.
    pub bump: u8,
}

/// The storage-fee reserve: a fixed-capacity container whose rent
/// funds new-entity creation and receives reclaimed fees.
#[derive(Clone, Copy, Debug, PartialEq, Eq, Structural)]
pub struct Bank {
    /// Reserved size; `BANK_CAPACITY` when full.
    pub size: u16,
    /// Canonicalization byte of the record's derived address.
    pub bump: u8,
}

/// The zero-balance placeholder account that fronts the native leg of
/// fee transfers.  It holds no data of its own.
#[derive(Clone, Copy, Debug, PartialEq, Eq, Structural)]
pub struct B {}

} // verus!
