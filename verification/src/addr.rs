use vstd::prelude::*;

verus! {

/// The seed tag that selects an entity kind's address space.  Every
/// persistent record lives at an address derived from its kind's tag
/// plus one discriminating key, so records of different kinds can never
/// collide.
#[derive(Clone, Copy, Debug, PartialEq, Eq, Structural)]
pub enum SeedTag {
    /// The registry singleton.
    Spling,
    /// The shared tag index.
    Tags,
    /// The storage-fee reserve.
    Bank,
    /// The zero-balance placeholder account that fronts fee transfers.
    Well,
    /// A user profile, keyed by its owner identity.
    UserProfile,
    /// A group profile, keyed by its creator identity.
    GroupProfile,
    /// A post, keyed by its off-ledger content address.
    Post,
    /// A reply, keyed by its off-ledger content address.
    Reply,
    /// The like record co-located with a post, keyed like the post.
    Likes,
    /// The expiry-callback registration for a post, keyed like the post.
    PostThread,
}

/// One byte per seed tag, folded into the canonicalization byte.
pub open spec fn tag_code(tag: SeedTag) -> u8 {
    match tag {
        SeedTag::Spling => 1,
        SeedTag::Tags => 2,
        SeedTag::Bank => 3,
        SeedTag::Well => 4,
        SeedTag::UserProfile => 5,
        SeedTag::GroupProfile => 6,
        SeedTag::Post => 7,
        SeedTag::Reply => 8,
        SeedTag::Likes => 9,
        SeedTag::PostThread => 10,
    }
}

/// The bytes of `key` folded together by exclusive or.
pub open spec fn key_fold(key: u64) -> u64 {
    key ^ (key >> 8) ^ (key >> 16) ^ (key >> 24) ^ (key >> 32) ^ (key >> 40) ^ (key >> 48) ^ (
    key >> 56)
}

/// The canonicalization byte of the address derived from `tag` and
/// `key`: the unique byte a valid derivation carries.
pub open spec fn bump_of(tag: SeedTag, key: u64) -> u8 {
    tag_code(tag) ^ ((key_fold(key) & 0xff) as u8)
}

/// A derived storage address: the seed tag and discriminating key that
/// identify an entity's slot, together with the canonicalization byte
/// that marks the one valid derivation.
#[derive(Clone, Copy, Debug, PartialEq, Eq, Structural)]
pub struct Address {
    /// Which entity kind's address space the slot belongs to.
    pub tag: SeedTag,
    /// The discriminating key: an owner identity or a content address.
    pub key: u64,
    /// The canonicalization byte stored with the derivation.
    pub bump: u8,
}

/// The canonical address derived from a seed tag and a key.
pub open spec fn spec_derive(tag: SeedTag, key: u64) -> Address {
    Address { tag, key, bump: bump_of(tag, key) }
}

/// Whether a declared address is exactly the canonical derivation for
/// its own tag and key.
pub open spec fn address_ok(a: Address) -> bool {
    a == spec_derive(a.tag, a.key)
}

/// The exact code of each seed tag.
fn code_of(tag: SeedTag) -> (c: u8)
    ensures
        c == tag_code(tag),
{
    match tag {
        SeedTag::Spling => 1,
        SeedTag::Tags => 2,
        SeedTag::Bank => 3,
        SeedTag::Well => 4,
        SeedTag::UserProfile => 5,
        SeedTag::GroupProfile => 6,
        SeedTag::Post => 7,
        SeedTag::Reply => 8,
        SeedTag::Likes => 9,
        SeedTag::PostThread => 10,
    }
}

/// Derives the storage address of the entity of kind `tag` discriminated
/// by `key`.  Deterministic: equal inputs always give the equal address.
pub fn derive_address(tag: SeedTag, key: u64) -> (a: Address)
    ensures
        a == spec_derive(tag, key),
{
    let folded: u64 = key ^ (key >> 8) ^ (key >> 16) ^ (key >> 24) ^ (key >> 32) ^ (key >> 40) ^ (
    key >> 56) ^ (key >> 48);
    assert(folded == key_fold(key)) by (bit_vector)
        requires
            folded == key ^ (key >> 8) ^ (key >> 16) ^ (key >> 24) ^ (key >> 32) ^ (key >> 40) ^ (
            key >> 56) ^ (key >> 48),
    ;
    let low: u64 = folded & 0xff;
    assert(low < 256) by (bit_vector)
        requires
            low == folded & 0xff,
    ;
    let bump: u8 = code_of(tag) ^ (low as u8);
    Address { tag, key, bump }
}

/// Whether `a` carries the canonical derivation for its tag and key.
/// Mutating operations run this before touching the record a caller
/// names; a `false` here becomes `AddressMismatch`.
pub fn address_valid(a: &Address) -> (r: bool)
    ensures
        r == address_ok(*a),
{
    let d = derive_address(a.tag, a.key);
    *a == d
}

/// Derivation is collision-free: equal derived addresses can only come
/// from the same seed tag and the same discriminating key.
pub proof fn lemma_derive_collision_free(t1: SeedTag, k1: u64, t2: SeedTag, k2: u64)
    ensures
        spec_derive(t1, k1) == spec_derive(t2, k2) ==> t1 == t2 && k1 == k2,
{
}

} // verus!
