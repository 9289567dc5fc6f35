use std::collections::HashMap;
use std::collections::HashSet;
use vstd::prelude::*;
use crate::addr::{SeedTag, Address, derive_address, address_valid};
use crate::contexts::create_b::CreateB;
use crate::contexts::create_bank::CreateBank;
use crate::contexts::create_group_profile::CreateGroupProfile;
use crate::contexts::create_user_profile::CreateUserProfile;
use crate::contexts::delete_post::DeletePost;
use crate::contexts::delete_reply::DeleteReply;
use crate::contexts::follow_user::FollowUser;
use crate::contexts::join_group::JoinGroup;
use crate::contexts::leave_group::LeaveGroup;
use crate::contexts::like_post::LikePost;
use crate::contexts::reset_bank::ResetBank;
use crate::contexts::setup_spling::SetupSpling;
use crate::contexts::setup_tags::SetupTags;
use crate::contexts::submit_post::SubmitPost;
use crate::contexts::submit_reply::SubmitReply;
use crate::contexts::unfollow_user::UnfollowUser;
use crate::errors::SocialError;
use crate::listops::copy_ids;
use crate::model::{
    BankEntry,
    NetworkView,
    PostEntryView,
    empty_network,
    spec_clockwork_delete_post,
    spec_create_b,
    spec_create_bank,
    spec_create_group_profile,
    spec_create_user_profile,
    spec_delete_group_profile,
    spec_delete_post,
    spec_delete_reply,
    spec_delete_user_profile,
    spec_extract_bank,
    spec_follow_user,
    spec_join_group,
    spec_leave_group,
    spec_like_post,
    spec_reset_bank,
    spec_setup_spling,
    spec_setup_tags,
    spec_submit_post,
    spec_submit_reply,
    spec_unfollow_user,
    lemma_create_group_profile_wf,
    lemma_create_user_profile_wf,
    lemma_like_post_wf,
    lemma_remove_records_wf,
    lemma_setup_spling_wf,
    lemma_setup_tags_wf,
    lemma_submit_post_wf,
    lemma_submit_reply_wf,
    lemma_update_profile_lists_wf,
    wf,
};
use crate::states::{Bank, GroupProfile, Likes, Post, Reply, Spling, Tags, UserProfile};
use crate::transfer::{TransferPlan, tip_plan};

verus! {

broadcast use vstd::std_specs::hash::group_hash_axioms;

/// A post together with its co-located like record, stored as one
/// entry so the two are created and destroyed together.
pub struct PostEntry {
    /// The post record.
    pub post: Post,
    /// Its like record.
    pub likes: Likes,
}

impl View for PostEntry {
    type V = PostEntryView;

    open spec fn view(&self) -> PostEntryView {
        PostEntryView { post: self.post, likes: self.likes@ }
    }
}

/// The ledger: the explicit keyed store of every persistent record,
/// addressed by derived key, together with the transition rules that
/// mutate it.  The host serializes transitions, so each method runs
/// alone; a method that fails returns its error having changed
/// nothing.
pub struct Ledger {
    spling: Option<Spling>,
    tags: Option<Tags>,
    users: HashMap<u64, UserProfile>,
    group_profiles: HashMap<u64, GroupProfile>,
    posts: HashMap<u64, PostEntry>,
    replies: HashMap<u64, Reply>,
    bank: Option<BankEntry>,
    well: bool,
    threads: HashSet<u64>,
}

impl View for Ledger {
    type V = NetworkView;

    closed spec fn view(&self) -> NetworkView {
        NetworkView {
            spling: self.spling,
            tags: match self.tags {
                Some(t) => Some(t@),
                None => None,
            },
            users: self.users@.map_values(|p: UserProfile| p@),
            group_profiles: self.group_profiles@,
            posts: self.posts@.map_values(|e: PostEntry| e@),
            replies: self.replies@,
            bank: self.bank,
            well: self.well,
            threads: self.threads@,
        }
    }
}

impl Ledger {
    /// An empty ledger, before anything was set up.
    pub fn new() -> (l: Ledger)
        ensures
            l@ == empty_network(),
            wf(l@),
    {
        let l = Ledger {
            spling: None,
            tags: None,
            users: HashMap::new(),
            group_profiles: HashMap::new(),
            posts: HashMap::new(),
            replies: HashMap::new(),
            bank: None,
            well: false,
            threads: HashSet::new(),
        };
        proof {
            assert(l@ =~= empty_network());
        }
        l
    }

    /// Sets up the registry singleton with every counter at zero;
    /// precondition of all other operations.  Fails `AlreadyExists`
    /// once set up.
    pub fn setup_spling(&mut self) -> (r: Result<(), SocialError>)
        requires
            wf(old(self)@),
        ensures
            wf(final(self)@),
            final(self)@ == spec_setup_spling(old(self)@).0,
            r == spec_setup_spling(old(self)@).1,
    {
        proof {
            lemma_setup_spling_wf(self@);
        }
        if self.spling.is_some() {
            return Err(SocialError::AlreadyExists);
        }
        let a = derive_address(SeedTag::Spling, 0);
        let mut ctx = SetupSpling {
            spling: Spling { users: 0, groups: 0, posts: 0, tags: 0, bump: 0 },
        };
        let _r = ctx.process(a.bump);
        self.spling = Some(ctx.spling);
        proof {
            assert(self@ =~= spec_setup_spling(old(self)@).0);
        }
        Ok(())
    }

    /// Seeds the tag index with its default entry.  Fails
    /// `NotInitialized` before the registry exists and `AlreadyExists`
    /// once seeded.
    pub fn setup_tags(&mut self) -> (r: Result<(), SocialError>)
        requires
            wf(old(self)@),
        ensures
            wf(final(self)@),
            final(self)@ == spec_setup_tags(old(self)@).0,
            r == spec_setup_tags(old(self)@).1,
    {
        proof {
            lemma_setup_tags_wf(self@);
        }
        if self.spling.is_none() {
            return Err(SocialError::NotInitialized);
        }
        if self.tags.is_some() {
            return Err(SocialError::AlreadyExists);
        }
        let a = derive_address(SeedTag::Tags, 0);
        let mut ctx = SetupTags { tags: Tags { taglist: Vec::new(), bump: 0 } };
        let _r = ctx.process(a.bump);
        self.tags = Some(ctx.tags);
        proof {
            assert(self@.tags.unwrap().taglist =~= seq![crate::model::seed_tag_name()]);
            assert(self@ =~= spec_setup_tags(old(self)@).0);
        }
        Ok(())
    }

    /// Creates the caller's user profile: issues the next user id and
    /// plans the bootstrap subsidy, or the mirrored fee payment when
    /// one was given.  Fails `AlreadyExists` when the caller already
    /// has a profile.
    pub fn create_user_profile(
        &mut self,
        caller: u64,
        shdw: u64,
        now: i64,
        amount: Option<u64>,
    ) -> (r: Result<(u32, TransferPlan), SocialError>)
        requires
            wf(old(self)@),
            old(self)@.spling matches Some(sp) ==> sp.users < u32::MAX,
        ensures
            wf(final(self)@),
            final(self)@ == spec_create_user_profile(old(self)@, caller, shdw, now, amount).0,
            r == spec_create_user_profile(old(self)@, caller, shdw, now, amount).1,
    {
        proof {
            lemma_create_user_profile_wf(self@, caller, shdw, now, amount);
        }
        let sp = match self.spling {
            None => { return Err(SocialError::NotInitialized) },
            Some(sp) => sp,
        };
        if self.users.contains_key(&caller) {
            return Err(SocialError::AlreadyExists);
        }
        let a = derive_address(SeedTag::UserProfile, caller);
        let mut ctx = CreateUserProfile {
            spling: sp,
            user_profile: UserProfile {
                ts: 0,
                user: 0,
                uid: 0,
                st: 0,
                shdw: 0,
                groups: Vec::new(),
                following: Vec::new(),
                bump: 0,
            },
        };
        let (uid, plan) = ctx.process(caller, shdw, now, amount, a.bump);
        self.spling = Some(ctx.spling);
        self.users.insert(caller, ctx.user_profile);
        proof {
            assert(self@ =~= spec_create_user_profile(old(self)@, caller, shdw, now, amount).0);
        }
        Ok((uid, plan))
    }

    /// Creates the caller's group profile: issues the next group id.
    /// No subsidy exists on this path; a fee payment becomes the
    /// mirrored pair.
    pub fn create_group_profile(
        &mut self,
        caller: u64,
        shdw: u64,
        now: i64,
        amount: Option<u64>,
    ) -> (r: Result<(u32, TransferPlan), SocialError>)
        requires
            wf(old(self)@),
            old(self)@.spling matches Some(sp) ==> sp.groups < u32::MAX,
        ensures
            wf(final(self)@),
            final(self)@ == spec_create_group_profile(old(self)@, caller, shdw, now, amount).0,
            r == spec_create_group_profile(old(self)@, caller, shdw, now, amount).1,
    {
        proof {
            lemma_create_group_profile_wf(self@, caller, shdw, now, amount);
        }
        let sp = match self.spling {
            None => { return Err(SocialError::NotInitialized) },
            Some(sp) => sp,
        };
        if self.group_profiles.contains_key(&caller) {
            return Err(SocialError::AlreadyExists);
        }
        let a = derive_address(SeedTag::GroupProfile, caller);
        let mut ctx = CreateGroupProfile {
            spling: sp,
            group_profile: GroupProfile { ts: 0, group: 0, gid: 0, st: 0, shdw: 0, bump: 0 },
        };
        let (gid, plan) = ctx.process(caller, shdw, now, amount, a.bump);
        self.spling = Some(ctx.spling);
        self.group_profiles.insert(caller, ctx.group_profile);
        proof {
            assert(self@ =~= spec_create_group_profile(old(self)@, caller, shdw, now, amount).0);
        }
        Ok((gid, plan))
    }

    /// Appends `group_id` to the caller's membership list; the id is
    /// deliberately not checked to exist or to be absent already.
    /// Fails `NotFound` when the caller has no profile.
    pub fn join_group(&mut self, caller: u64, group_id: u32, amount: Option<u64>) -> (r: Result<
        TransferPlan,
        SocialError,
    >)
        requires
            wf(old(self)@),
        ensures
            wf(final(self)@),
            final(self)@ == spec_join_group(old(self)@, caller, group_id, amount).0,
            r == spec_join_group(old(self)@, caller, group_id, amount).1,
    {
        if self.spling.is_none() {
            return Err(SocialError::NotInitialized);
        }
        match self.users.remove(&caller) {
            None => {
                proof {
                    assert(self@ =~= old(self)@);
                }
                Err(SocialError::NotFound)
            },
            Some(prof) => {
                let mut ctx = JoinGroup { user_profile: prof };
                let p = ctx.process(group_id, amount);
                let ghost p2 = ctx.user_profile@;
                self.users.insert(caller, ctx.user_profile);
                proof {
                    lemma_update_profile_lists_wf(old(self)@, caller, p2);
                    assert(self@ =~= spec_join_group(old(self)@, caller, group_id, amount).0);
                }
                Ok(p)
            },
        }
    }

    /// Removes every occurrence of `group_id` from the caller's
    /// membership list, keeping the order of the rest.
    pub fn leave_group(&mut self, caller: u64, group_id: u32, amount: Option<u64>) -> (r: Result<
        TransferPlan,
        SocialError,
    >)
        requires
            wf(old(self)@),
        ensures
            wf(final(self)@),
            final(self)@ == spec_leave_group(old(self)@, caller, group_id, amount).0,
            r == spec_leave_group(old(self)@, caller, group_id, amount).1,
    {
        if self.spling.is_none() {
            return Err(SocialError::NotInitialized);
        }
        match self.users.remove(&caller) {
            None => {
                proof {
                    assert(self@ =~= old(self)@);
                }
                Err(SocialError::NotFound)
            },
            Some(prof) => {
                let mut ctx = LeaveGroup { user_profile: prof };
                let p = ctx.process(group_id, amount);
                let ghost p2 = ctx.user_profile@;
                self.users.insert(caller, ctx.user_profile);
                proof {
                    lemma_update_profile_lists_wf(old(self)@, caller, p2);
                    assert(self@ =~= spec_leave_group(old(self)@, caller, group_id, amount).0);
                }
                Ok(p)
            },
        }
    }

    /// Appends `target_id` to the caller's follow list; same regime as
    /// joining a group.
    pub fn follow_user(&mut self, caller: u64, target_id: u32, amount: Option<u64>) -> (r: Result<
        TransferPlan,
        SocialError,
    >)
        requires
            wf(old(self)@),
        ensures
            wf(final(self)@),
            final(self)@ == spec_follow_user(old(self)@, caller, target_id, amount).0,
            r == spec_follow_user(old(self)@, caller, target_id, amount).1,
    {
        if self.spling.is_none() {
            return Err(SocialError::NotInitialized);
        }
        match self.users.remove(&caller) {
            None => {
                proof {
                    assert(self@ =~= old(self)@);
                }
                Err(SocialError::NotFound)
            },
            Some(prof) => {
                let mut ctx = FollowUser { user_profile: prof };
                let p = ctx.process(target_id, amount);
                let ghost p2 = ctx.user_profile@;
                self.users.insert(caller, ctx.user_profile);
                proof {
                    lemma_update_profile_lists_wf(old(self)@, caller, p2);
                    assert(self@ =~= spec_follow_user(old(self)@, caller, target_id, amount).0);
                }
                Ok(p)
            },
        }
    }

    /// Removes every occurrence of `target_id` from the caller's
    /// follow list, keeping the order of the rest.
    pub fn unfollow_user(&mut self, caller: u64, target_id: u32, amount: Option<u64>) -> (r:
        Result<TransferPlan, SocialError>)
        requires
            wf(old(self)@),
        ensures
            wf(final(self)@),
            final(self)@ == spec_unfollow_user(old(self)@, caller, target_id, amount).0,
            r == spec_unfollow_user(old(self)@, caller, target_id, amount).1,
    {
        if self.spling.is_none() {
            return Err(SocialError::NotInitialized);
        }
        match self.users.remove(&caller) {
            None => {
                proof {
                    assert(self@ =~= old(self)@);
                }
                Err(SocialError::NotFound)
            },
            Some(prof) => {
                let mut ctx = UnfollowUser { user_profile: prof };
                let p = ctx.process(target_id, amount);
                let ghost p2 = ctx.user_profile@;
                self.users.insert(caller, ctx.user_profile);
                proof {
                    lemma_update_profile_lists_wf(old(self)@, caller, p2);
                    assert(self@ =~= spec_unfollow_user(old(self)@, caller, target_id, amount).0);
                }
                Ok(p)
            },
        }
    }

    /// Creates a post under the caller's profile: issues the next post
    /// id, resolves the tag name against the index (lowercased; empty
    /// means untagged), co-creates the empty like record, and
    /// registers the recurring expiry callback for the post's address.
    /// Returns the post id and the plan of the optional fee payment.
    /// The requested schedule is accepted for interface parity; the
    /// registration always uses the fixed recurring trigger.
    pub fn submit_post(
        &mut self,
        caller: u64,
        group_id: u32,
        shdw: u64,
        tag_name: String,
        now: i64,
        amount: Option<u64>,
        _schedule: String,
    ) -> (r: Result<(u32, TransferPlan), SocialError>)
        requires
            wf(old(self)@),
            old(self)@.spling matches Some(sp) ==> sp.posts < u32::MAX && sp.tags < u16::MAX,
        ensures
            wf(final(self)@),
            final(self)@ == spec_submit_post(
                old(self)@,
                caller,
                group_id,
                shdw,
                tag_name@,
                now,
                amount,
            ).0,
            r == spec_submit_post(old(self)@, caller, group_id, shdw, tag_name@, now, amount).1,
    {
        proof {
            lemma_submit_post_wf(self@, caller, group_id, shdw, tag_name@, now, amount);
        }
        let sp = match self.spling {
            None => { return Err(SocialError::NotInitialized) },
            Some(sp) => sp,
        };
        if self.tags.is_none() {
            return Err(SocialError::NotInitialized);
        }
        let uid = match self.users.get(&caller) {
            None => { return Err(SocialError::NotFound) },
            Some(p) => p.uid,
        };
        if self.posts.contains_key(&shdw) {
            return Err(SocialError::AlreadyExists);
        }
        let post_a = derive_address(SeedTag::Post, shdw);
        let likes_a = derive_address(SeedTag::Likes, shdw);
        let tg = self.tags.take().unwrap();
        let mut ctx = SubmitPost {
            spling: sp,
            post: Post { ts: 0, uid: 0, pid: 0, gid: 0, tid: 0, st: 0, bump: 0 },
            likes: Likes { counter: 0, users: Vec::new(), bump: 0 },
            tags: tg,
        };
        let (pid, plan) = ctx.process(group_id, uid, &tag_name, now, amount, post_a.bump, likes_a.bump);
        self.spling = Some(ctx.spling);
        self.tags = Some(ctx.tags);
        self.posts.insert(shdw, PostEntry { post: ctx.post, likes: ctx.likes });
        self.threads.insert(shdw);
        proof {
            assert(self@ =~= spec_submit_post(
                old(self)@,
                caller,
                group_id,
                shdw,
                tag_name@,
                now,
                amount,
            ).0);
        }
        Ok((pid, plan))
    }

    /// Toggles the caller's like on the post at `post`: a first like
    /// appends the caller's user id and counts up, a repeated like
    /// removes it and counts down.
    pub fn like_post(&mut self, caller: u64, post: Address, amount: Option<u64>) -> (r: Result<
        TransferPlan,
        SocialError,
    >)
        requires
            wf(old(self)@),
            old(self)@.posts.contains_key(post.key) ==> old(self)@.posts[post.key].likes.users.len()
                < u16::MAX,
        ensures
            wf(final(self)@),
            final(self)@ == spec_like_post(old(self)@, caller, post, amount).0,
            r == spec_like_post(old(self)@, caller, post, amount).1,
    {
        proof {
            lemma_like_post_wf(self@, caller, post, amount);
        }
        if self.spling.is_none() {
            return Err(SocialError::NotInitialized);
        }
        let uid = match self.users.get(&caller) {
            None => { return Err(SocialError::NotFound) },
            Some(p) => p.uid,
        };
        if !matches!(post.tag, SeedTag::Post) || !address_valid(&post) {
            return Err(SocialError::AddressMismatch);
        }
        match self.posts.remove(&post.key) {
            None => {
                proof {
                    assert(self@ =~= old(self)@);
                }
                Err(SocialError::NotFound)
            },
            Some(entry) => {
                let mut ctx = LikePost { likes: entry.likes };
                let r = ctx.process(uid, amount);
                self.posts.insert(post.key, PostEntry { post: entry.post, likes: ctx.likes });
                proof {
                    assert(self@ =~= spec_like_post(old(self)@, caller, post, amount).0);
                }
                r
            },
        }
    }

    /// Creates a reply under the caller's profile.  The referenced
    /// post id is recorded as given, deliberately without an existence
    /// check.  Returns the reply subsidy plan, or the mirrored fee
    /// payment when one was given.
    pub fn submit_reply(
        &mut self,
        caller: u64,
        post_id: u32,
        shdw: u64,
        now: i64,
        amount: Option<u64>,
    ) -> (r: Result<TransferPlan, SocialError>)
        requires
            wf(old(self)@),
        ensures
            wf(final(self)@),
            final(self)@ == spec_submit_reply(old(self)@, caller, post_id, shdw, now, amount).0,
            r == spec_submit_reply(old(self)@, caller, post_id, shdw, now, amount).1,
    {
        proof {
            lemma_submit_reply_wf(self@, caller, post_id, shdw, now, amount);
        }
        if self.spling.is_none() {
            return Err(SocialError::NotInitialized);
        }
        let uid = match self.users.get(&caller) {
            None => { return Err(SocialError::NotFound) },
            Some(p) => p.uid,
        };
        if self.replies.contains_key(&shdw) {
            return Err(SocialError::AlreadyExists);
        }
        let a = derive_address(SeedTag::Reply, shdw);
        let mut ctx = SubmitReply { reply: Reply { ts: 0, uid: 0, pid: 0, st: 0, bump: 0 } };
        let p = ctx.process(uid, post_id, now, amount, a.bump);
        self.replies.insert(shdw, ctx.reply);
        proof {
            assert(self@ =~= spec_submit_reply(old(self)@, caller, post_id, shdw, now, amount).0);
        }
        Ok(p)
    }

    /// Deletes the caller's own post together with its like record,
    /// releasing the storage fee.  A caller who does not own the post
    /// fails `Unauthorized` and changes nothing.  The expiry
    /// registration is left dangling on purpose: the callback treats
    /// the missing post as a no-op.
    pub fn delete_post(&mut self, caller: u64, post: Address, amount: Option<u64>) -> (r: Result<
        TransferPlan,
        SocialError,
    >)
        requires
            wf(old(self)@),
        ensures
            wf(final(self)@),
            final(self)@ == spec_delete_post(old(self)@, caller, post, amount).0,
            r == spec_delete_post(old(self)@, caller, post, amount).1,
    {
        if self.spling.is_none() {
            return Err(SocialError::NotInitialized);
        }
        let uid = match self.users.get(&caller) {
            None => { return Err(SocialError::NotFound) },
            Some(p) => p.uid,
        };
        if !matches!(post.tag, SeedTag::Post) || !address_valid(&post) {
            return Err(SocialError::AddressMismatch);
        }
        match self.posts.remove(&post.key) {
            None => {
                proof {
                    assert(self@ =~= old(self)@);
                }
                Err(SocialError::NotFound)
            },
            Some(entry) => {
                if entry.post.uid != uid {
                    self.posts.insert(post.key, entry);
                    proof {
                        assert(self@ =~= old(self)@);
                    }
                    return Err(SocialError::Unauthorized);
                }
                let mut ctx = DeletePost {};
                let p = ctx.process(amount);
                proof {
                    let s2 = spec_delete_post(old(self)@, caller, post, amount).0;
                    assert(self@ =~= s2);
                    lemma_remove_records_wf(old(self)@, s2);
                }
                Ok(p)
            },
        }
    }

    /// Deletes the caller's own reply, releasing the storage fee.
    pub fn delete_reply(&mut self, caller: u64, reply: Address, amount: Option<u64>) -> (r:
        Result<TransferPlan, SocialError>)
        requires
            wf(old(self)@),
        ensures
            wf(final(self)@),
            final(self)@ == spec_delete_reply(old(self)@, caller, reply, amount).0,
            r == spec_delete_reply(old(self)@, caller, reply, amount).1,
    {
        if self.spling.is_none() {
            return Err(SocialError::NotInitialized);
        }
        let uid = match self.users.get(&caller) {
            None => { return Err(SocialError::NotFound) },
            Some(p) => p.uid,
        };
        if !matches!(reply.tag, SeedTag::Reply) || !address_valid(&reply) {
            return Err(SocialError::AddressMismatch);
        }
        match self.replies.remove(&reply.key) {
            None => {
                proof {
                    assert(self@ =~= old(self)@);
                }
                Err(SocialError::NotFound)
            },
            Some(rec) => {
                if rec.uid != uid {
                    self.replies.insert(reply.key, rec);
                    proof {
                        assert(self@ =~= old(self)@);
                    }
                    return Err(SocialError::Unauthorized);
                }
                let mut ctx = DeleteReply {};
                let p = ctx.process(amount);
                proof {
                    let s2 = spec_delete_reply(old(self)@, caller, reply, amount).0;
                    assert(self@ =~= s2);
                    lemma_remove_records_wf(old(self)@, s2);
                }
                Ok(p)
            },
        }
    }

    /// Deletes a user profile, releasing the storage fee.  Only the
    /// recorded owner may: any other caller fails `Unauthorized` and
    /// the ledger — the registry's counters included — is unchanged.
    pub fn delete_user_profile(&mut self, caller: u64, profile: Address, amount: Option<u64>) -> (
        r: Result<TransferPlan, SocialError>)
        requires
            wf(old(self)@),
        ensures
            wf(final(self)@),
            final(self)@ == spec_delete_user_profile(old(self)@, caller, profile, amount).0,
            r == spec_delete_user_profile(old(self)@, caller, profile, amount).1,
    {
        if self.spling.is_none() {
            return Err(SocialError::NotInitialized);
        }
        if !matches!(profile.tag, SeedTag::UserProfile) || !address_valid(&profile) {
            return Err(SocialError::AddressMismatch);
        }
        match self.users.remove(&profile.key) {
            None => {
                proof {
                    assert(self@ =~= old(self)@);
                }
                Err(SocialError::NotFound)
            },
            Some(prof) => {
                if prof.user != caller {
                    self.users.insert(profile.key, prof);
                    proof {
                        assert(self@ =~= old(self)@);
                    }
                    return Err(SocialError::Unauthorized);
                }
                let p = tip_plan(amount);
                proof {
                    let s2 = spec_delete_user_profile(old(self)@, caller, profile, amount).0;
                    assert(self@ =~= s2);
                    lemma_remove_records_wf(old(self)@, s2);
                }
                Ok(p)
            },
        }
    }

    /// Deletes a group profile, releasing the storage fee.  Only the
    /// recorded creator may.
    pub fn delete_group_profile(&mut self, caller: u64, profile: Address, amount: Option<u64>) -> (
        r: Result<TransferPlan, SocialError>)
        requires
            wf(old(self)@),
        ensures
            wf(final(self)@),
            final(self)@ == spec_delete_group_profile(old(self)@, caller, profile, amount).0,
            r == spec_delete_group_profile(old(self)@, caller, profile, amount).1,
    {
        if self.spling.is_none() {
            return Err(SocialError::NotInitialized);
        }
        if !matches!(profile.tag, SeedTag::GroupProfile) || !address_valid(&profile) {
            return Err(SocialError::AddressMismatch);
        }
        match self.group_profiles.remove(&profile.key) {
            None => {
                proof {
                    assert(self@ =~= old(self)@);
                }
                Err(SocialError::NotFound)
            },
            Some(prof) => {
                if prof.group != caller {
                    self.group_profiles.insert(profile.key, prof);
                    proof {
                        assert(self@ =~= old(self)@);
                    }
                    return Err(SocialError::Unauthorized);
                }
                let p = tip_plan(amount);
                proof {
                    let s2 = spec_delete_group_profile(old(self)@, caller, profile, amount).0;
                    assert(self@ =~= s2);
                    lemma_remove_records_wf(old(self)@, s2);
                }
                Ok(p)
            },
        }
    }

    /// Creates the storage-fee reserve at full capacity and records
    /// the caller as its operator.
    pub fn create_bank(&mut self, caller: u64) -> (r: Result<(), SocialError>)
        requires
            wf(old(self)@),
        ensures
            wf(final(self)@),
            final(self)@ == spec_create_bank(old(self)@, caller).0,
            r == spec_create_bank(old(self)@, caller).1,
    {
        if self.spling.is_none() {
            return Err(SocialError::NotInitialized);
        }
        if self.bank.is_some() {
            return Err(SocialError::AlreadyExists);
        }
        let a = derive_address(SeedTag::Bank, 0);
        let mut ctx = CreateBank { bank: Bank { size: 0, bump: 0 } };
        let _r = ctx.process(a.bump);
        self.bank = Some(BankEntry { bank: ctx.bank, operator: caller });
        proof {
            assert(self@ =~= spec_create_bank(old(self)@, caller).0);
        }
        Ok(())
    }

    /// Creates the placeholder well account that fronts the native
    /// leg of fee transfers.
    pub fn create_b(&mut self) -> (r: Result<(), SocialError>)
        requires
            wf(old(self)@),
        ensures
            wf(final(self)@),
            final(self)@ == spec_create_b(old(self)@).0,
            r == spec_create_b(old(self)@).1,
    {
        if self.spling.is_none() {
            return Err(SocialError::NotInitialized);
        }
        if self.well {
            return Err(SocialError::AlreadyExists);
        }
        let mut ctx = CreateB {};
        let _r = ctx.process();
        self.well = true;
        proof {
            assert(self@ =~= spec_create_b(old(self)@).0);
        }
        Ok(())
    }

    /// Restores the fee reserve to full capacity.
    pub fn reset_bank(&mut self) -> (r: Result<(), SocialError>)
        requires
            wf(old(self)@),
        ensures
            wf(final(self)@),
            final(self)@ == spec_reset_bank(old(self)@).0,
            r == spec_reset_bank(old(self)@).1,
    {
        if self.spling.is_none() {
            return Err(SocialError::NotInitialized);
        }
        match self.bank {
            None => Err(SocialError::NotFound),
            Some(be) => {
                let mut ctx = ResetBank { bank: be.bank };
                let _r = ctx.process();
                self.bank = Some(BankEntry { bank: ctx.bank, operator: be.operator });
                proof {
                    assert(self@ =~= spec_reset_bank(old(self)@).0);
                }
                Ok(())
            },
        }
    }

    /// Plans an operator-only extraction from the reserve: a token
    /// transfer of the given amount mirrored by a native-asset
    /// transfer from the well.  A caller other than the recorded
    /// operator fails `Unauthorized`.  The ledger itself is unchanged;
    /// a shortfall surfaces when the host executes the plan.
    pub fn extract_bank(&mut self, caller: u64, amount: Option<u64>) -> (r: Result<
        TransferPlan,
        SocialError,
    >)
        requires
            wf(old(self)@),
        ensures
            wf(final(self)@),
            final(self)@ == spec_extract_bank(old(self)@, caller, amount).0,
            r == spec_extract_bank(old(self)@, caller, amount).1,
    {
        if self.spling.is_none() {
            return Err(SocialError::NotInitialized);
        }
        match self.bank {
            None => Err(SocialError::NotFound),
            Some(be) => {
                if be.operator != caller {
                    return Err(SocialError::Unauthorized);
                }
                Ok(tip_plan(amount))
            },
        }
    }

    /// The expiry callback, invoked by the external automation
    /// collaborator: closes the post at the given address back to the
    /// fee pool and retires its registration.  Invoked after a manual
    /// delete of the same post it succeeds as a no-op — the race is
    /// resolved by idempotent deletion, never by an error.
    pub fn clockwork_delete_post(&mut self, post: Address) -> (r: Result<(), SocialError>)
        requires
            wf(old(self)@),
        ensures
            wf(final(self)@),
            final(self)@ == spec_clockwork_delete_post(old(self)@, post).0,
            r == spec_clockwork_delete_post(old(self)@, post).1,
    {
        if self.spling.is_none() {
            return Err(SocialError::NotInitialized);
        }
        if !matches!(post.tag, SeedTag::Post) || !address_valid(&post) {
            return Err(SocialError::AddressMismatch);
        }
        self.threads.remove(&post.key);
        self.posts.remove(&post.key);
        proof {
            let s2 = spec_clockwork_delete_post(old(self)@, post).0;
            assert(self@ =~= s2);
            lemma_remove_records_wf(old(self)@, s2);
        }
        Ok(())
    }

    /// The registry singleton, if set up.
    pub fn registry(&self) -> (r: Option<Spling>)
        ensures
            r == self@.spling,
    {
        self.spling
    }

    /// How many entries the tag index holds, the seed entry included;
    /// `None` before the index is seeded.
    pub fn tag_count(&self) -> (r: Option<usize>)
        ensures
            match self@.tags {
                Some(t) => r == Some(t.taglist.len() as usize),
                None => r is None,
            },
    {
        match &self.tags {
            Some(t) => Some(t.taglist.len()),
            None => None,
        }
    }

    /// The tag name at position `i` of the index, or `None` when the
    /// index is not seeded or `i` is out of range.
    pub fn tag_at(&self, i: usize) -> (r: Option<String>)
        ensures
            match r {
                Some(name) => self@.tags is Some && i < self@.tags.unwrap().taglist.len()
                    && name@ == self@.tags.unwrap().taglist[i as int],
                None => self@.tags is None || i >= self@.tags.unwrap().taglist.len(),
            },
    {
        match &self.tags {
            Some(t) => {
                if i < t.taglist.len() {
                    Some(t.taglist[i].clone())
                } else {
                    None
                }
            },
            None => None,
        }
    }

    /// The user profile stored for `owner`, as a copy.
    pub fn get_user_profile(&self, owner: u64) -> (r: Option<UserProfile>)
        ensures
            match r {
                Some(p) => self@.users.contains_key(owner) && p@ == self@.users[owner],
                None => !self@.users.contains_key(owner),
            },
    {
        match self.users.get(&owner) {
            Some(p) => Some(
                UserProfile {
                    ts: p.ts,
                    user: p.user,
                    uid: p.uid,
                    st: p.st,
                    shdw: p.shdw,
                    groups: copy_ids(&p.groups),
                    following: copy_ids(&p.following),
                    bump: p.bump,
                },
            ),
            None => None,
        }
    }

    /// The group profile stored for `creator`.
    pub fn get_group_profile(&self, creator: u64) -> (r: Option<GroupProfile>)
        ensures
            match r {
                Some(p) => self@.group_profiles.contains_key(creator) && p
                    == self@.group_profiles[creator],
                None => !self@.group_profiles.contains_key(creator),
            },
    {
        match self.group_profiles.get(&creator) {
            Some(p) => Some(*p),
            None => None,
        }
    }

    /// The post stored at content address `shdw`.
    pub fn get_post(&self, shdw: u64) -> (r: Option<Post>)
        ensures
            match r {
                Some(p) => self@.posts.contains_key(shdw) && p == self@.posts[shdw].post,
                None => !self@.posts.contains_key(shdw),
            },
    {
        match self.posts.get(&shdw) {
            Some(e) => Some(e.post),
            None => None,
        }
    }

    /// The like record of the post at content address `shdw`: its
    /// counter and the liker ids in insertion order, as a copy.
    pub fn get_likes(&self, shdw: u64) -> (r: Option<(u16, Vec<u32>)>)
        ensures
            match r {
                Some(l) => self@.posts.contains_key(shdw) && l.0 == self@.posts[shdw].likes.counter
                    && l.1@ == self@.posts[shdw].likes.users,
                None => !self@.posts.contains_key(shdw),
            },
    {
        match self.posts.get(&shdw) {
            Some(e) => Some((e.likes.counter, copy_ids(&e.likes.users))),
            None => None,
        }
    }

    /// The reply stored at content address `shdw`.
    pub fn get_reply(&self, shdw: u64) -> (r: Option<Reply>)
        ensures
            match r {
                Some(p) => self@.replies.contains_key(shdw) && p == self@.replies[shdw],
                None => !self@.replies.contains_key(shdw),
            },
    {
        match self.replies.get(&shdw) {
            Some(p) => Some(*p),
            None => None,
        }
    }

    /// The fee reserve and its operator, if created.
    pub fn get_bank(&self) -> (r: Option<BankEntry>)
        ensures
            r == self@.bank,
    {
        self.bank
    }

    /// Whether the placeholder well account exists.
    pub fn has_well(&self) -> (r: bool)
        ensures
            r == self@.well,
    {
        self.well
    }

    /// Whether an expiry callback is still registered for the post
    /// at content address `shdw`.
    pub fn has_thread(&self, shdw: u64) -> (r: bool)
        ensures
            r == self@.threads.contains(shdw),
    {
        self.threads.contains(&shdw)
    }
}

} // verus!
