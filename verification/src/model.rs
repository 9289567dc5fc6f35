use vstd::prelude::*;
use crate::addr::{SeedTag, Address, bump_of, address_ok};
use crate::errors::SocialError;
use crate::listops::{seq_remove, first_index};
use crate::states::{
    Spling,
    TagsView,
    LikesView,
    UserProfileView,
    GroupProfile,
    Post,
    Reply,
    Bank,
    likes_wf,
};
use crate::textnorm::lower_of;
use crate::transfer::{
    TransferPlan,
    spec_tip_plan,
    spec_subsidized_plan,
    USER_SUBSIDY,
    REPLY_SUBSIDY,
    BANK_CAPACITY,
};

verus! {

/// A post together with its co-located like record, as one stored
/// entry: the two are created and destroyed together.
#[verifier::ext_equal]
pub struct PostEntryView {
    /// The post record.
    pub post: Post,
    /// Its like record.
    pub likes: LikesView,
}

/// The fee reserve together with the operator identity that created it
/// and alone may draw on it.
#[derive(Clone, Copy, Debug, PartialEq, Eq, Structural)]
pub struct BankEntry {
    /// The reserve record.
    pub bank: Bank,
    /// The identity that created the reserve.
    pub operator: u64,
}

/// Mathematical model of the whole ledger: every persistent record the
/// engine owns, as a value.  Each transition of the engine is a pure
/// function from one `NetworkView` to the next.
#[verifier::ext_equal]
pub struct NetworkView {
    /// The registry singleton, once set up.
    pub spling: Option<Spling>,
    /// The shared tag index, once set up.
    pub tags: Option<TagsView>,
    /// User profiles, keyed by owner identity.
    pub users: Map<u64, UserProfileView>,
    /// Group profiles, keyed by creator identity.
    pub group_profiles: Map<u64, GroupProfile>,
    /// Posts with their like records, keyed by content address.
    pub posts: Map<u64, PostEntryView>,
    /// Replies, keyed by content address.
    pub replies: Map<u64, Reply>,
    /// The storage-fee reserve, once created.
    pub bank: Option<BankEntry>,
    /// Whether the placeholder well account exists.
    pub well: bool,
    /// Content addresses of posts with a registered expiry callback.
    /// A manual delete leaves its registration dangling on purpose;
    /// the callback is idempotent against the post being gone.
    pub threads: Set<u64>,
}

/// The ledger before anything was set up.
pub open spec fn empty_network() -> NetworkView {
    NetworkView {
        spling: None,
        tags: None,
        users: Map::empty(),
        group_profiles: Map::empty(),
        posts: Map::empty(),
        replies: Map::empty(),
        bank: None,
        well: false,
        threads: Set::empty(),
    }
}

/// The seed entry the tag index starts with; its position 0 stands for
/// "untagged".
pub open spec fn seed_tag_name() -> Seq<char> {
    "spling"@
}

/// Well-formedness of the ledger.  Established by setup, preserved by
/// every transition.
pub open spec fn wf(s: NetworkView) -> bool {
    &&& s.spling is None ==> s =~= empty_network()
    &&& match s.tags {
        Some(t) => {
            &&& s.spling is Some
            &&& t.taglist.len() >= 1
            &&& t.taglist[0] == seed_tag_name()
            &&& t.taglist.no_duplicates()
            &&& t.taglist.len() == s.spling.unwrap().tags + 1
            &&& t.bump == bump_of(SeedTag::Tags, 0)
        },
        None => s.spling is Some ==> s.spling.unwrap().tags == 0 && s.posts =~= Map::empty(),
    }
    &&& match s.spling {
        Some(sp) => {
            &&& sp.bump == bump_of(SeedTag::Spling, 0)
            &&& forall|k: u64| #[trigger]
                s.users.contains_key(k) ==> {
                    &&& s.users[k].user == k
                    &&& 1 <= s.users[k].uid <= sp.users
                    &&& s.users[k].bump == bump_of(SeedTag::UserProfile, k)
                }
            &&& forall|k1: u64, k2: u64|
                #![trigger s.users[k1], s.users[k2]]
                s.users.contains_key(k1) && s.users.contains_key(k2) && k1 != k2
                    ==> s.users[k1].uid != s.users[k2].uid
            &&& forall|k: u64| #[trigger]
                s.group_profiles.contains_key(k) ==> {
                    &&& s.group_profiles[k].group == k
                    &&& 1 <= s.group_profiles[k].gid <= sp.groups
                    &&& s.group_profiles[k].bump == bump_of(SeedTag::GroupProfile, k)
                }
            &&& forall|k1: u64, k2: u64|
                #![trigger s.group_profiles[k1], s.group_profiles[k2]]
                s.group_profiles.contains_key(k1) && s.group_profiles.contains_key(k2) && k1 != k2
                    ==> s.group_profiles[k1].gid != s.group_profiles[k2].gid
            &&& forall|k: u64| #[trigger]
                s.posts.contains_key(k) ==> {
                    &&& 1 <= s.posts[k].post.pid <= sp.posts
                    &&& s.posts[k].post.bump == bump_of(SeedTag::Post, k)
                    &&& s.posts[k].likes.bump == bump_of(SeedTag::Likes, k)
                    &&& likes_wf(s.posts[k].likes)
                    &&& s.tags is Some ==> s.posts[k].post.tid < s.tags.unwrap().taglist.len()
                }
            &&& forall|k1: u64, k2: u64|
                #![trigger s.posts[k1], s.posts[k2]]
                s.posts.contains_key(k1) && s.posts.contains_key(k2) && k1 != k2
                    ==> s.posts[k1].post.pid != s.posts[k2].post.pid
            &&& forall|k: u64| #[trigger]
                s.replies.contains_key(k) ==> s.replies[k].bump == bump_of(SeedTag::Reply, k)
        },
        None => true,
    }
    &&& match s.bank {
        Some(b) => s.spling is Some && b.bank.bump == bump_of(SeedTag::Bank, 0),
        None => true,
    }
}

/// Tag resolution on the index: the first occurrence's position when
/// the (already normalized) name is present, else the name appended
/// and the fresh position.  Position = tag id.
pub open spec fn resolve_tag(taglist: Seq<Seq<char>>, name: Seq<char>) -> (Seq<Seq<char>>, int) {
    let i = first_index(taglist, name);
    if i >= 0 {
        (taglist, i)
    } else {
        (taglist.push(name), taglist.len() as int)
    }
}

/// The taglist and tag id a submission leaves behind: the untagged id
/// 0 for an empty name, else the resolution of the lowercased name
/// against the index.
pub open spec fn submitted_tag(taglist: Seq<Seq<char>>, tag_name: Seq<char>) -> (
    Seq<Seq<char>>,
    int,
) {
    if tag_name.len() == 0 {
        (taglist, 0int)
    } else {
        resolve_tag(taglist, lower_of(tag_name))
    }
}

/// The like toggle on a like record: a liker already present is
/// removed and counted down, a new liker is appended and counted up.
pub open spec fn toggle_like(l: LikesView, uid: u32) -> LikesView {
    if l.users.contains(uid) {
        LikesView { counter: (l.counter - 1) as u16, users: seq_remove(l.users, uid), bump: l.bump }
    } else {
        LikesView { counter: (l.counter + 1) as u16, users: l.users.push(uid), bump: l.bump }
    }
}

/// The toggle preserves well-formedness as long as one more liker
/// still fits the counter.
pub proof fn lemma_toggle_like_wf(l: LikesView, uid: u32)
    requires
        likes_wf(l),
        l.users.len() < u16::MAX,
    ensures
        likes_wf(toggle_like(l, uid)),
{
    if l.users.contains(uid) {
        crate::listops::lemma_seq_remove_distinct(l.users, uid);
    } else {
        crate::listops::lemma_push_distinct(l.users, uid);
    }
}

/// Sets up the registry singleton with all counters at zero.
pub open spec fn spec_setup_spling(s: NetworkView) -> (NetworkView, Result<(), SocialError>) {
    if s.spling is Some {
        (s, Err(SocialError::AlreadyExists))
    } else {
        let sp = Spling { users: 0, groups: 0, posts: 0, tags: 0, bump: bump_of(
            SeedTag::Spling,
            0,
        ) };
        (NetworkView { spling: Some(sp), ..s }, Ok(()))
    }
}

/// Seeds the tag index with its default entry.
pub open spec fn spec_setup_tags(s: NetworkView) -> (NetworkView, Result<(), SocialError>) {
    if s.spling is None {
        (s, Err(SocialError::NotInitialized))
    } else if s.tags is Some {
        (s, Err(SocialError::AlreadyExists))
    } else {
        let t = TagsView { taglist: seq![seed_tag_name()], bump: bump_of(SeedTag::Tags, 0) };
        (NetworkView { tags: Some(t), ..s }, Ok(()))
    }
}

/// Creates the caller's user profile: issues the next user id, stamps
/// the time, and plans the bootstrap subsidy or the mirrored fee
/// payment.
pub open spec fn spec_create_user_profile(
    s: NetworkView,
    caller: u64,
    shdw: u64,
    now: i64,
    amount: Option<u64>,
) -> (NetworkView, Result<(u32, TransferPlan), SocialError>) {
    match s.spling {
        None => (s, Err(SocialError::NotInitialized)),
        Some(sp) => {
            if s.users.contains_key(caller) {
                (s, Err(SocialError::AlreadyExists))
            } else {
                let uid = (sp.users + 1) as u32;
                let profile = UserProfileView {
                    ts: now,
                    user: caller,
                    uid,
                    st: 1,
                    shdw,
                    groups: Seq::empty(),
                    following: Seq::empty(),
                    bump: bump_of(SeedTag::UserProfile, caller),
                };
                let s2 = NetworkView {
                    spling: Some(Spling { users: uid, ..sp }),
                    users: s.users.insert(caller, profile),
                    ..s
                };
                (s2, Ok((uid, spec_subsidized_plan(amount, USER_SUBSIDY))))
            }
        },
    }
}

/// Creates the caller's group profile: issues the next group id.  No
/// bootstrap subsidy exists on this path.
pub open spec fn spec_create_group_profile(
    s: NetworkView,
    caller: u64,
    shdw: u64,
    now: i64,
    amount: Option<u64>,
) -> (NetworkView, Result<(u32, TransferPlan), SocialError>) {
    match s.spling {
        None => (s, Err(SocialError::NotInitialized)),
        Some(sp) => {
            if s.group_profiles.contains_key(caller) {
                (s, Err(SocialError::AlreadyExists))
            } else {
                let gid = (sp.groups + 1) as u32;
                let profile = GroupProfile {
                    ts: now,
                    group: caller,
                    gid,
                    st: 1,
                    shdw,
                    bump: bump_of(SeedTag::GroupProfile, caller),
                };
                let s2 = NetworkView {
                    spling: Some(Spling { groups: gid, ..sp }),
                    group_profiles: s.group_profiles.insert(caller, profile),
                    ..s
                };
                (s2, Ok((gid, spec_tip_plan(amount))))
            }
        },
    }
}

/// Appends `group_id` to the caller's membership list.  By design no
/// duplicate or existence check is made on the id.
pub open spec fn spec_join_group(
    s: NetworkView,
    caller: u64,
    group_id: u32,
    amount: Option<u64>,
) -> (NetworkView, Result<TransferPlan, SocialError>) {
    if s.spling is None {
        (s, Err(SocialError::NotInitialized))
    } else if !s.users.contains_key(caller) {
        (s, Err(SocialError::NotFound))
    } else {
        let p = s.users[caller];
        let p2 = UserProfileView { groups: p.groups.push(group_id), ..p };
        (NetworkView { users: s.users.insert(caller, p2), ..s }, Ok(spec_tip_plan(amount)))
    }
}

/// Removes every occurrence of `group_id` from the caller's
/// membership list, keeping the order of the rest.
pub open spec fn spec_leave_group(
    s: NetworkView,
    caller: u64,
    group_id: u32,
    amount: Option<u64>,
) -> (NetworkView, Result<TransferPlan, SocialError>) {
    if s.spling is None {
        (s, Err(SocialError::NotInitialized))
    } else if !s.users.contains_key(caller) {
        (s, Err(SocialError::NotFound))
    } else {
        let p = s.users[caller];
        let p2 = UserProfileView { groups: seq_remove(p.groups, group_id), ..p };
        (NetworkView { users: s.users.insert(caller, p2), ..s }, Ok(spec_tip_plan(amount)))
    }
}

/// Appends `target_id` to the caller's follow list; same regime as
/// [`spec_join_group`].
pub open spec fn spec_follow_user(
    s: NetworkView,
    caller: u64,
    target_id: u32,
    amount: Option<u64>,
) -> (NetworkView, Result<TransferPlan, SocialError>) {
    if s.spling is None {
        (s, Err(SocialError::NotInitialized))
    } else if !s.users.contains_key(caller) {
        (s, Err(SocialError::NotFound))
    } else {
        let p = s.users[caller];
        let p2 = UserProfileView { following: p.following.push(target_id), ..p };
        (NetworkView { users: s.users.insert(caller, p2), ..s }, Ok(spec_tip_plan(amount)))
    }
}

/// Removes every occurrence of `target_id` from the caller's follow
/// list; same regime as [`spec_leave_group`].
pub open spec fn spec_unfollow_user(
    s: NetworkView,
    caller: u64,
    target_id: u32,
    amount: Option<u64>,
) -> (NetworkView, Result<TransferPlan, SocialError>) {
    if s.spling is None {
        (s, Err(SocialError::NotInitialized))
    } else if !s.users.contains_key(caller) {
        (s, Err(SocialError::NotFound))
    } else {
        let p = s.users[caller];
        let p2 = UserProfileView { following: seq_remove(p.following, target_id), ..p };
        (NetworkView { users: s.users.insert(caller, p2), ..s }, Ok(spec_tip_plan(amount)))
    }
}

/// Creates a post under the caller's profile: issues the next post id,
/// resolves the tag name against the index (empty name means
/// untagged), co-creates the like record, and registers the expiry
/// callback for the post's address.
pub open spec fn spec_submit_post(
    s: NetworkView,
    caller: u64,
    group_id: u32,
    shdw: u64,
    tag_name: Seq<char>,
    now: i64,
    amount: Option<u64>,
) -> (NetworkView, Result<(u32, TransferPlan), SocialError>) {
    match (s.spling, s.tags) {
        (Some(sp), Some(t)) => {
            if !s.users.contains_key(caller) {
                (s, Err(SocialError::NotFound))
            } else if s.posts.contains_key(shdw) {
                (s, Err(SocialError::AlreadyExists))
            } else {
                let pid = (sp.posts + 1) as u32;
                let resolved = submitted_tag(t.taglist, tag_name);
                let new_list = resolved.0;
                let tid = resolved.1 as u16;
                let post = Post {
                    ts: now,
                    uid: s.users[caller].uid,
                    pid,
                    gid: group_id,
                    tid,
                    st: 1,
                    bump: bump_of(SeedTag::Post, shdw),
                };
                let likes = LikesView {
                    counter: 0,
                    users: Seq::empty(),
                    bump: bump_of(SeedTag::Likes, shdw),
                };
                let new_tags = (sp.tags + new_list.len() - t.taglist.len()) as u16;
                let s2 = NetworkView {
                    spling: Some(Spling { posts: pid, tags: new_tags, ..sp }),
                    tags: Some(TagsView { taglist: new_list, ..t }),
                    posts: s.posts.insert(shdw, PostEntryView { post, likes }),
                    threads: s.threads.insert(shdw),
                    ..s
                };
                (s2, Ok((pid, spec_tip_plan(amount))))
            }
        },
        _ => (s, Err(SocialError::NotInitialized)),
    }
}

/// Toggles the caller's like on the post at the given address.
pub open spec fn spec_like_post(
    s: NetworkView,
    caller: u64,
    post: Address,
    amount: Option<u64>,
) -> (NetworkView, Result<TransferPlan, SocialError>) {
    if s.spling is None {
        (s, Err(SocialError::NotInitialized))
    } else if !s.users.contains_key(caller) {
        (s, Err(SocialError::NotFound))
    } else if post.tag != SeedTag::Post || !address_ok(post) {
        (s, Err(SocialError::AddressMismatch))
    } else if !s.posts.contains_key(post.key) {
        (s, Err(SocialError::NotFound))
    } else {
        let uid = s.users[caller].uid;
        let entry = s.posts[post.key];
        if entry.likes.users.contains(uid) && entry.likes.counter == 0 {
            (s, Err(SocialError::InvariantViolation))
        } else {
            let entry2 = PostEntryView { likes: toggle_like(entry.likes, uid), ..entry };
            (
                NetworkView { posts: s.posts.insert(post.key, entry2), ..s },
                Ok(spec_tip_plan(amount)),
            )
        }
    }
}

/// Creates a reply under the caller's profile.  The referenced post id
/// is recorded as given, without an existence check.
pub open spec fn spec_submit_reply(
    s: NetworkView,
    caller: u64,
    post_id: u32,
    shdw: u64,
    now: i64,
    amount: Option<u64>,
) -> (NetworkView, Result<TransferPlan, SocialError>) {
    if s.spling is None {
        (s, Err(SocialError::NotInitialized))
    } else if !s.users.contains_key(caller) {
        (s, Err(SocialError::NotFound))
    } else if s.replies.contains_key(shdw) {
        (s, Err(SocialError::AlreadyExists))
    } else {
        let reply = Reply {
            ts: now,
            uid: s.users[caller].uid,
            pid: post_id,
            st: 1,
            bump: bump_of(SeedTag::Reply, shdw),
        };
        (
            NetworkView { replies: s.replies.insert(shdw, reply), ..s },
            Ok(spec_subsidized_plan(amount, REPLY_SUBSIDY)),
        )
    }
}

/// Deletes the caller's own post and its like record, returning the
/// storage fee.  The expiry registration is left dangling on purpose;
/// the callback tolerates it.
pub open spec fn spec_delete_post(
    s: NetworkView,
    caller: u64,
    post: Address,
    amount: Option<u64>,
) -> (NetworkView, Result<TransferPlan, SocialError>) {
    if s.spling is None {
        (s, Err(SocialError::NotInitialized))
    } else if !s.users.contains_key(caller) {
        (s, Err(SocialError::NotFound))
    } else if post.tag != SeedTag::Post || !address_ok(post) {
        (s, Err(SocialError::AddressMismatch))
    } else if !s.posts.contains_key(post.key) {
        (s, Err(SocialError::NotFound))
    } else if s.posts[post.key].post.uid != s.users[caller].uid {
        (s, Err(SocialError::Unauthorized))
    } else {
        (NetworkView { posts: s.posts.remove(post.key), ..s }, Ok(spec_tip_plan(amount)))
    }
}

/// Deletes the caller's own reply, returning the storage fee.
pub open spec fn spec_delete_reply(
    s: NetworkView,
    caller: u64,
    reply: Address,
    amount: Option<u64>,
) -> (NetworkView, Result<TransferPlan, SocialError>) {
    if s.spling is None {
        (s, Err(SocialError::NotInitialized))
    } else if !s.users.contains_key(caller) {
        (s, Err(SocialError::NotFound))
    } else if reply.tag != SeedTag::Reply || !address_ok(reply) {
        (s, Err(SocialError::AddressMismatch))
    } else if !s.replies.contains_key(reply.key) {
        (s, Err(SocialError::NotFound))
    } else if s.replies[reply.key].uid != s.users[caller].uid {
        (s, Err(SocialError::Unauthorized))
    } else {
        (NetworkView { replies: s.replies.remove(reply.key), ..s }, Ok(spec_tip_plan(amount)))
    }
}

/// Deletes a user profile.  Only the owner may: a caller other than
/// the recorded owner identity fails `Unauthorized` and changes
/// nothing; the registry's counters never move on deletion.
pub open spec fn spec_delete_user_profile(
    s: NetworkView,
    caller: u64,
    profile: Address,
    amount: Option<u64>,
) -> (NetworkView, Result<TransferPlan, SocialError>) {
    if s.spling is None {
        (s, Err(SocialError::NotInitialized))
    } else if profile.tag != SeedTag::UserProfile || !address_ok(profile) {
        (s, Err(SocialError::AddressMismatch))
    } else if !s.users.contains_key(profile.key) {
        (s, Err(SocialError::NotFound))
    } else if s.users[profile.key].user != caller {
        (s, Err(SocialError::Unauthorized))
    } else {
        (NetworkView { users: s.users.remove(profile.key), ..s }, Ok(spec_tip_plan(amount)))
    }
}

/// Deletes a group profile; only its creator may.
pub open spec fn spec_delete_group_profile(
    s: NetworkView,
    caller: u64,
    profile: Address,
    amount: Option<u64>,
) -> (NetworkView, Result<TransferPlan, SocialError>) {
    if s.spling is None {
        (s, Err(SocialError::NotInitialized))
    } else if profile.tag != SeedTag::GroupProfile || !address_ok(profile) {
        (s, Err(SocialError::AddressMismatch))
    } else if !s.group_profiles.contains_key(profile.key) {
        (s, Err(SocialError::NotFound))
    } else if s.group_profiles[profile.key].group != caller {
        (s, Err(SocialError::Unauthorized))
    } else {
        (
            NetworkView { group_profiles: s.group_profiles.remove(profile.key), ..s },
            Ok(spec_tip_plan(amount)),
        )
    }
}

/// Creates the fee reserve at full capacity and records the caller as
/// its operator.
pub open spec fn spec_create_bank(s: NetworkView, caller: u64) -> (
    NetworkView,
    Result<(), SocialError>,
) {
    if s.spling is None {
        (s, Err(SocialError::NotInitialized))
    } else if s.bank is Some {
        (s, Err(SocialError::AlreadyExists))
    } else {
        let b = BankEntry {
            bank: Bank { size: BANK_CAPACITY, bump: bump_of(SeedTag::Bank, 0) },
            operator: caller,
        };
        (NetworkView { bank: Some(b), ..s }, Ok(()))
    }
}

/// Creates the placeholder well account.
pub open spec fn spec_create_b(s: NetworkView) -> (NetworkView, Result<(), SocialError>) {
    if s.spling is None {
        (s, Err(SocialError::NotInitialized))
    } else if s.well {
        (s, Err(SocialError::AlreadyExists))
    } else {
        (NetworkView { well: true, ..s }, Ok(()))
    }
}

/// Restores the fee reserve to full capacity.
pub open spec fn spec_reset_bank(s: NetworkView) -> (NetworkView, Result<(), SocialError>) {
    if s.spling is None {
        (s, Err(SocialError::NotInitialized))
    } else {
        match s.bank {
            None => (s, Err(SocialError::NotFound)),
            Some(b) => {
                let b2 = BankEntry { bank: Bank { size: BANK_CAPACITY, ..b.bank }, ..b };
                (NetworkView { bank: Some(b2), ..s }, Ok(()))
            },
        }
    }
}

/// Plans an operator-only extraction from the reserve: a token
/// transfer mirrored by a native-asset transfer from the well.
pub open spec fn spec_extract_bank(s: NetworkView, caller: u64, amount: Option<u64>) -> (
    NetworkView,
    Result<TransferPlan, SocialError>,
) {
    if s.spling is None {
        (s, Err(SocialError::NotInitialized))
    } else {
        match s.bank {
            None => (s, Err(SocialError::NotFound)),
            Some(b) => {
                if b.operator != caller {
                    (s, Err(SocialError::Unauthorized))
                } else {
                    (s, Ok(spec_tip_plan(amount)))
                }
            },
        }
    }
}

/// The expiry callback: closes the post at the given address back to
/// the fee pool and retires its registration.  Idempotent against a
/// post already deleted by hand: that is a successful no-op, not an
/// error.
pub open spec fn spec_clockwork_delete_post(s: NetworkView, post: Address) -> (
    NetworkView,
    Result<(), SocialError>,
) {
    if s.spling is None {
        (s, Err(SocialError::NotInitialized))
    } else if post.tag != SeedTag::Post || !address_ok(post) {
        (s, Err(SocialError::AddressMismatch))
    } else {
        (
            NetworkView {
                posts: s.posts.remove(post.key),
                threads: s.threads.remove(post.key),
                ..s
            },
            Ok(()),
        )
    }
}

/// Setting up the registry establishes well-formedness.
pub proof fn lemma_setup_spling_wf(s: NetworkView)
    requires
        wf(s),
    ensures
        wf(spec_setup_spling(s).0),
{
}

/// Seeding the tag index preserves well-formedness.
pub proof fn lemma_setup_tags_wf(s: NetworkView)
    requires
        wf(s),
    ensures
        wf(spec_setup_tags(s).0),
{
}

/// Creating a user profile preserves well-formedness: the fresh id is
/// one past every id issued before, so ids stay unique.
pub proof fn lemma_create_user_profile_wf(
    s: NetworkView,
    caller: u64,
    shdw: u64,
    now: i64,
    amount: Option<u64>,
)
    requires
        wf(s),
        s.spling matches Some(sp) ==> sp.users < u32::MAX,
    ensures
        wf(spec_create_user_profile(s, caller, shdw, now, amount).0),
{
    let s2 = spec_create_user_profile(s, caller, shdw, now, amount).0;
    if s.spling is Some && !s.users.contains_key(caller) {
        let sp = s.spling.unwrap();
        assert forall|k: u64| #[trigger] s2.users.contains_key(k) implies {
            &&& s2.users[k].user == k
            &&& 1 <= s2.users[k].uid <= s2.spling.unwrap().users
            &&& s2.users[k].bump == bump_of(SeedTag::UserProfile, k)
        } by {
            if k != caller {
                assert(s.users.contains_key(k));
            }
        }
        assert forall|k1: u64, k2: u64|
            #![trigger s2.users[k1], s2.users[k2]]
            s2.users.contains_key(k1) && s2.users.contains_key(k2) && k1 != k2 implies s2.users[k1].uid
            != s2.users[k2].uid by {
            if k1 != caller && k2 != caller {
                assert(s.users.contains_key(k1));
                assert(s.users.contains_key(k2));
            } else if k1 == caller {
                assert(s.users.contains_key(k2));
                assert(s.users[k2].uid <= sp.users);
            } else {
                assert(s.users.contains_key(k1));
                assert(s.users[k1].uid <= sp.users);
            }
        }
    }
}

/// Creating a group profile preserves well-formedness.
pub proof fn lemma_create_group_profile_wf(
    s: NetworkView,
    caller: u64,
    shdw: u64,
    now: i64,
    amount: Option<u64>,
)
    requires
        wf(s),
        s.spling matches Some(sp) ==> sp.groups < u32::MAX,
    ensures
        wf(spec_create_group_profile(s, caller, shdw, now, amount).0),
{
    let s2 = spec_create_group_profile(s, caller, shdw, now, amount).0;
    if s.spling is Some && !s.group_profiles.contains_key(caller) {
        let sp = s.spling.unwrap();
        assert forall|k: u64| #[trigger] s2.group_profiles.contains_key(k) implies {
            &&& s2.group_profiles[k].group == k
            &&& 1 <= s2.group_profiles[k].gid <= s2.spling.unwrap().groups
            &&& s2.group_profiles[k].bump == bump_of(SeedTag::GroupProfile, k)
        } by {
            if k != caller {
                assert(s.group_profiles.contains_key(k));
            }
        }
        assert forall|k1: u64, k2: u64|
            #![trigger s2.group_profiles[k1], s2.group_profiles[k2]]
            s2.group_profiles.contains_key(k1) && s2.group_profiles.contains_key(k2) && k1
            != k2 implies s2.group_profiles[k1].gid != s2.group_profiles[k2].gid by {
            if k1 != caller && k2 != caller {
                assert(s.group_profiles.contains_key(k1));
                assert(s.group_profiles.contains_key(k2));
            } else if k1 == caller {
                assert(s.group_profiles.contains_key(k2));
                assert(s.group_profiles[k2].gid <= sp.groups);
            } else {
                assert(s.group_profiles.contains_key(k1));
                assert(s.group_profiles[k1].gid <= sp.groups);
            }
        }
    }
}

/// Rewriting one profile's lists, with owner, id and canonicalization
/// byte untouched, preserves well-formedness.
pub proof fn lemma_update_profile_lists_wf(s: NetworkView, caller: u64, p2: UserProfileView)
    requires
        wf(s),
        s.spling is Some,
        s.users.contains_key(caller),
        p2.user == s.users[caller].user,
        p2.uid == s.users[caller].uid,
        p2.bump == s.users[caller].bump,
    ensures
        wf(NetworkView { users: s.users.insert(caller, p2), ..s }),
{
    let s2 = NetworkView { users: s.users.insert(caller, p2), ..s };
    assert forall|k: u64| #[trigger] s2.users.contains_key(k) implies {
        &&& s2.users[k].user == k
        &&& 1 <= s2.users[k].uid <= s2.spling.unwrap().users
        &&& s2.users[k].bump == bump_of(SeedTag::UserProfile, k)
    } by {
        assert(s.users.contains_key(k));
        if k != caller {
            assert(s2.users[k] == s.users[k]);
        }
    }
    assert forall|k1: u64, k2: u64|
        #![trigger s2.users[k1], s2.users[k2]]
        s2.users.contains_key(k1) && s2.users.contains_key(k2) && k1 != k2 implies s2.users[k1].uid
        != s2.users[k2].uid by {
        assert(s.users.contains_key(k1));
        assert(s.users.contains_key(k2));
        assert(s.users[k1].uid != s.users[k2].uid);
    }
}

/// Submitting a post preserves well-formedness: the index stays
/// duplicate-free and one longer than the tag counter, and the fresh
/// post id is one past every id issued before.
pub proof fn lemma_submit_post_wf(
    s: NetworkView,
    caller: u64,
    group_id: u32,
    shdw: u64,
    tag_name: Seq<char>,
    now: i64,
    amount: Option<u64>,
)
    requires
        wf(s),
        s.spling matches Some(sp) ==> sp.posts < u32::MAX && sp.tags < u16::MAX,
    ensures
        wf(spec_submit_post(s, caller, group_id, shdw, tag_name, now, amount).0),
{
    let s2 = spec_submit_post(s, caller, group_id, shdw, tag_name, now, amount).0;
    if s.spling is Some && s.tags is Some && s.users.contains_key(caller) && !s.posts.contains_key(
        shdw,
    ) {
        let sp = s.spling.unwrap();
        let t = s.tags.unwrap();
        let resolved = submitted_tag(t.taglist, tag_name);
        let tid = resolved.1;
        crate::listops::lemma_first_index_props(t.taglist, lower_of(tag_name));
        if tag_name.len() != 0 && first_index(t.taglist, lower_of(tag_name)) == -1 {
            assert(!t.taglist.contains(lower_of(tag_name))) by {
                if t.taglist.contains(lower_of(tag_name)) {
                    let i = choose|i: int|
                        0 <= i < t.taglist.len() && t.taglist[i] == lower_of(tag_name);
                }
            }
            crate::listops::lemma_push_distinct(t.taglist, lower_of(tag_name));
        }
        assert(0 <= tid < resolved.0.len());
        assert forall|k: u64| #[trigger] s2.posts.contains_key(k) implies {
            &&& 1 <= s2.posts[k].post.pid <= s2.spling.unwrap().posts
            &&& s2.posts[k].post.bump == bump_of(SeedTag::Post, k)
            &&& s2.posts[k].likes.bump == bump_of(SeedTag::Likes, k)
            &&& likes_wf(s2.posts[k].likes)
            &&& s2.tags is Some ==> s2.posts[k].post.tid < s2.tags.unwrap().taglist.len()
        } by {
            if k != shdw {
                assert(s.posts.contains_key(k));
            }
        }
        assert forall|k1: u64, k2: u64|
            #![trigger s2.posts[k1], s2.posts[k2]]
            s2.posts.contains_key(k1) && s2.posts.contains_key(k2) && k1 != k2 implies s2.posts[k1].post.pid
            != s2.posts[k2].post.pid by {
            if k1 != shdw && k2 != shdw {
                assert(s.posts.contains_key(k1));
                assert(s.posts.contains_key(k2));
            } else if k1 == shdw {
                assert(s.posts.contains_key(k2));
                assert(s.posts[k2].post.pid <= sp.posts);
            } else {
                assert(s.posts.contains_key(k1));
                assert(s.posts[k1].post.pid <= sp.posts);
            }
        }
    }
}

/// Toggling a like preserves well-formedness.
pub proof fn lemma_like_post_wf(s: NetworkView, caller: u64, post: Address, amount: Option<u64>)
    requires
        wf(s),
        s.posts.contains_key(post.key) ==> s.posts[post.key].likes.users.len() < u16::MAX,
    ensures
        wf(spec_like_post(s, caller, post, amount).0),
{
    let s2 = spec_like_post(s, caller, post, amount).0;
    if s.spling is Some && s.users.contains_key(caller) && post.tag == SeedTag::Post && address_ok(
        post,
    ) && s.posts.contains_key(post.key) {
        let uid = s.users[caller].uid;
        let entry = s.posts[post.key];
        if !(entry.likes.users.contains(uid) && entry.likes.counter == 0) {
            lemma_toggle_like_wf(entry.likes, uid);
            assert forall|k: u64| #[trigger] s2.posts.contains_key(k) implies {
                &&& 1 <= s2.posts[k].post.pid <= s2.spling.unwrap().posts
                &&& s2.posts[k].post.bump == bump_of(SeedTag::Post, k)
                &&& s2.posts[k].likes.bump == bump_of(SeedTag::Likes, k)
                &&& likes_wf(s2.posts[k].likes)
                &&& s2.tags is Some ==> s2.posts[k].post.tid < s2.tags.unwrap().taglist.len()
            } by {
                assert(s.posts.contains_key(k));
                if k != post.key {
                    assert(s2.posts[k] == s.posts[k]);
                }
            }
            assert forall|k1: u64, k2: u64|
                #![trigger s2.posts[k1], s2.posts[k2]]
                s2.posts.contains_key(k1) && s2.posts.contains_key(k2) && k1 != k2 implies s2.posts[k1].post.pid
                != s2.posts[k2].post.pid by {
                assert(s.posts.contains_key(k1));
                assert(s.posts.contains_key(k2));
                assert(s.posts[k1].post.pid != s.posts[k2].post.pid);
            }
        }
    }
}

/// Submitting a reply preserves well-formedness.
pub proof fn lemma_submit_reply_wf(
    s: NetworkView,
    caller: u64,
    post_id: u32,
    shdw: u64,
    now: i64,
    amount: Option<u64>,
)
    requires
        wf(s),
    ensures
        wf(spec_submit_reply(s, caller, post_id, shdw, now, amount).0),
{
    let s2 = spec_submit_reply(s, caller, post_id, shdw, now, amount).0;
    if s.spling is Some && s.users.contains_key(caller) && !s.replies.contains_key(shdw) {
        assert forall|k: u64| #[trigger] s2.replies.contains_key(k) implies s2.replies[k].bump
            == bump_of(SeedTag::Reply, k) by {
            if k != shdw {
                assert(s.replies.contains_key(k));
            }
        }
    }
}

/// Removing records never breaks well-formedness: every remaining
/// record already satisfied its clauses.
pub proof fn lemma_remove_records_wf(s: NetworkView, s2: NetworkView)
    requires
        wf(s),
        s.spling is Some,
        s2.spling == s.spling,
        s2.tags == s.tags,
        s2.bank == s.bank,
        s2.well == s.well,
        forall|k: u64| #[trigger] s2.users.contains_key(k) ==> s.users.contains_key(k) && s2.users[k] == s.users[k],
        forall|k: u64| #[trigger]
            s2.group_profiles.contains_key(k) ==> s.group_profiles.contains_key(k)
                && s2.group_profiles[k] == s.group_profiles[k],
        forall|k: u64| #[trigger] s2.posts.contains_key(k) ==> s.posts.contains_key(k) && s2.posts[k] == s.posts[k],
        forall|k: u64| #[trigger] s2.replies.contains_key(k) ==> s.replies.contains_key(k) && s2.replies[k]
            == s.replies[k],
    ensures
        wf(s2),
{
    if s2.tags is None {
        assert forall|k: u64| !(#[trigger] s2.posts.contains_key(k)) by {
            if s2.posts.contains_key(k) {
                assert(s.posts.contains_key(k));
            }
        }
        assert(s2.posts =~= Map::empty());
    }
}

} // verus!
