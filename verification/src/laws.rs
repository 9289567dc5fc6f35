use vstd::prelude::*;
use crate::addr::{SeedTag, Address, address_ok};
use crate::errors::SocialError;
use crate::listops::{
    lemma_first_index_found,
    lemma_first_index_props,
    lemma_seq_remove_absent,
    lemma_seq_remove_push,
    first_index,
};
use crate::model::{
    NetworkView,
    spec_submit_post,
    lemma_create_user_profile_wf,
    resolve_tag,
    spec_clockwork_delete_post,
    spec_create_user_profile,
    spec_delete_post,
    spec_delete_user_profile,
    spec_join_group,
    spec_leave_group,
    toggle_like,
    wf,
};
use crate::states::{LikesView, likes_wf};
use crate::textnorm::lower_of;

verus! {

/// The ledger after one `create_user_profile` transition for each
/// owner in `owners`, in order, all with the same content address and
/// timestamp (which play no part in id issuance).
pub open spec fn apply_creates(s: NetworkView, owners: Seq<u64>, shdw: u64, now: i64) -> NetworkView
    decreases owners.len(),
{
    if owners.len() == 0 {
        s
    } else {
        apply_creates(
            spec_create_user_profile(s, owners[0], shdw, now, None).0,
            owners.drop_first(),
            shdw,
            now,
        )
    }
}

/// Sequential profile creation issues consecutive user ids in call
/// order.  From a ledger whose user counter stands at `u`, creating
/// profiles for n distinct new owners gives the i-th owner the id
/// `u + i + 1` and leaves the counter at `u + n`; profiles that
/// already existed are untouched.  From a freshly set-up registry
/// (`u == 0`) the assigned ids are therefore exactly 1..n in call
/// order and the user counter equals n.
pub proof fn lemma_user_ids_sequential(s: NetworkView, owners: Seq<u64>, shdw: u64, now: i64)
    requires
        wf(s),
        s.spling is Some,
        s.spling.unwrap().users + owners.len() <= u32::MAX,
        owners.no_duplicates(),
        forall|i: int| 0 <= i < owners.len() ==> !s.users.contains_key(#[trigger] owners[i]),
    ensures
        ({
            let s2 = apply_creates(s, owners, shdw, now);
            &&& wf(s2)
            &&& s2.spling is Some
            &&& s2.spling.unwrap().users == s.spling.unwrap().users + owners.len()
            &&& forall|i: int|
                0 <= i < owners.len() ==> s2.users.contains_key(#[trigger] owners[i])
                    && s2.users[owners[i]].uid == s.spling.unwrap().users + i + 1
            &&& forall|k: u64| #[trigger]
                s.users.contains_key(k) ==> s2.users.contains_key(k) && s2.users[k] == s.users[k]
        }),
    decreases owners.len(),
{
    if owners.len() == 0 {
    } else {
        let u = s.spling.unwrap().users;
        let first = owners[0];
        lemma_create_user_profile_wf(s, first, shdw, now, None);
        let s1 = spec_create_user_profile(s, first, shdw, now, None).0;
        assert(s1.users.contains_key(first) && s1.users[first].uid == u + 1);
        let rest = owners.drop_first();
        assert(rest.no_duplicates());
        assert forall|i: int| 0 <= i < rest.len() implies !s1.users.contains_key(
            #[trigger] rest[i],
        ) by {
            assert(rest[i] == owners[i + 1]);
            assert(owners[i + 1] != first);
        }
        lemma_user_ids_sequential(s1, rest, shdw, now);
        let s2 = apply_creates(s1, rest, shdw, now);
        assert(apply_creates(s, owners, shdw, now) == s2);
        assert forall|i: int| 0 <= i < owners.len() implies s2.users.contains_key(
            #[trigger] owners[i],
        ) && s2.users[owners[i]].uid == u + i + 1 by {
            if i == 0 {
                assert(s1.users.contains_key(first));
                assert(s2.users.contains_key(first) && s2.users[first] == s1.users[first]);
            } else {
                assert(rest[i - 1] == owners[i]);
            }
        }
        assert forall|k: u64| #[trigger] s.users.contains_key(k) implies s2.users.contains_key(k)
            && s2.users[k] == s.users[k] by {
            assert(k != first);
            assert(s1.users.contains_key(k) && s1.users[k] == s.users[k]);
        }
    }
}

/// Tag resolution is idempotent: resolving the same normalized name a
/// second time finds the entry the first resolution used or created,
/// yields the same tag id, and leaves the index unchanged — over the
/// two calls the index grows by at most one entry, never two.
pub proof fn lemma_tag_resolution_idempotent(taglist: Seq<Seq<char>>, name: Seq<char>)
    ensures
        ({
            let r1 = resolve_tag(taglist, name);
            let r2 = resolve_tag(r1.0, name);
            &&& r2.0 == r1.0
            &&& r2.1 == r1.1
            &&& taglist.len() <= r1.0.len() <= taglist.len() + 1
        }),
{
    lemma_first_index_props(taglist, name);
    let i = first_index(taglist, name);
    if i == -1 {
        let l1 = taglist.push(name);
        assert(l1[taglist.len() as int] == name);
        assert(forall|j: int| 0 <= j < taglist.len() ==> l1[j] == taglist[j]);
        lemma_first_index_found(l1, name, taglist.len() as int);
    }
}

/// Two posts whose tag names agree after lowercasing share one tag
/// id: the second submission reuses the entry the first created (or
/// found), so over both submissions the index and the tag counter
/// grow by at most one, never two.
pub proof fn lemma_submissions_share_tag(
    s: NetworkView,
    caller: u64,
    group_id: u32,
    shdw1: u64,
    shdw2: u64,
    name1: Seq<char>,
    name2: Seq<char>,
    now: i64,
)
    requires
        wf(s),
        s.spling is Some,
        s.tags is Some,
        s.users.contains_key(caller),
        !s.posts.contains_key(shdw1),
        !s.posts.contains_key(shdw2),
        shdw1 != shdw2,
        s.spling.unwrap().posts + 2 <= u32::MAX,
        s.spling.unwrap().tags + 1 <= u16::MAX,
        name1.len() > 0,
        name2.len() > 0,
        lower_of(name1) == lower_of(name2),
    ensures
        ({
            let s1 = spec_submit_post(s, caller, group_id, shdw1, name1, now, None).0;
            let s2 = spec_submit_post(s1, caller, group_id, shdw2, name2, now, None).0;
            &&& s2.posts.contains_key(shdw1)
            &&& s2.posts.contains_key(shdw2)
            &&& s2.posts[shdw1].post.tid == s2.posts[shdw2].post.tid
            &&& s2.tags.unwrap().taglist.len() <= s.tags.unwrap().taglist.len() + 1
            &&& s2.spling.unwrap().tags <= s.spling.unwrap().tags + 1
        }),
{
    let t = s.tags.unwrap().taglist;
    let name = lower_of(name1);
    lemma_tag_resolution_idempotent(t, name);
    let s1 = spec_submit_post(s, caller, group_id, shdw1, name1, now, None).0;
    let s2 = spec_submit_post(s1, caller, group_id, shdw2, name2, now, None).0;
    let r1 = resolve_tag(t, name);
    lemma_first_index_props(t, name);
    assert(0 <= r1.1 < r1.0.len());
    assert(r1.0.len() == s1.spling.unwrap().tags + 1) by {
        lemma_first_index_props(t, name);
    }
    assert(s2.posts[shdw1] == s1.posts[shdw1]);
}

/// The like toggle undoes itself: for a user not yet among the
/// likers, toggling twice restores the like record exactly — the
/// counter comes back down and the list returns to what it was.
/// (For a user already present the first toggle removes every
/// occurrence, so a re-like appends at the end instead of restoring
/// the old position.)
pub proof fn lemma_like_toggle_roundtrip(l: LikesView, a: u32)
    requires
        likes_wf(l),
        !l.users.contains(a),
        l.users.len() < u16::MAX,
    ensures
        toggle_like(toggle_like(l, a), a) == l,
{
    let t1 = toggle_like(l, a);
    assert(t1.users.contains(a)) by {
        assert(t1.users[l.users.len() as int] == a);
    }
    lemma_seq_remove_push(l.users, a, a);
    lemma_seq_remove_absent(l.users, a);
}

/// Two distinct new likers both land in the list, in insertion
/// order, and the counter counts them both.
pub proof fn lemma_like_two_users(l: LikesView, a: u32, b: u32)
    requires
        likes_wf(l),
        a != b,
        !l.users.contains(a),
        !l.users.contains(b),
        l.users.len() + 1 < u16::MAX,
    ensures
        ({
            let t = toggle_like(toggle_like(l, a), b);
            &&& t.counter == l.counter + 2
            &&& t.users == l.users.push(a).push(b)
        }),
{
    let t1 = toggle_like(l, a);
    assert(!t1.users.contains(b)) by {
        if t1.users.contains(b) {
            let i = choose|i: int| 0 <= i < t1.users.len() && t1.users[i] == b;
            if i < l.users.len() {
                assert(l.users[i] == b);
            }
        }
    }
}

/// Joining and then leaving the same group restores the membership
/// list to its pre-join contents, preserving the order of the
/// remaining elements — for a group the caller was not already in.
/// (Leaving removes every occurrence, so a pre-existing duplicate of
/// the id would be removed too.)
pub proof fn lemma_join_leave_restores(
    s: NetworkView,
    caller: u64,
    group_id: u32,
    amount1: Option<u64>,
    amount2: Option<u64>,
)
    requires
        wf(s),
        s.spling is Some,
        s.users.contains_key(caller),
        !s.users[caller].groups.contains(group_id),
    ensures
        spec_leave_group(
            spec_join_group(s, caller, group_id, amount1).0,
            caller,
            group_id,
            amount2,
        ).0 == s,
{
    let s1 = spec_join_group(s, caller, group_id, amount1).0;
    let s2 = spec_leave_group(s1, caller, group_id, amount2).0;
    let p = s.users[caller];
    lemma_seq_remove_push(p.groups, group_id, group_id);
    lemma_seq_remove_absent(p.groups, group_id);
    assert(s2.users[caller] == p);
    assert(s2.users =~= s.users);
    assert(s2 =~= s);
}

/// Deleting a user profile not owned by the caller fails
/// `Unauthorized` and changes nothing: the profile stays, and the
/// registry's counters — the user count included — are exactly what
/// they were.
pub proof fn lemma_delete_profile_unauthorized(
    s: NetworkView,
    caller: u64,
    profile: Address,
    amount: Option<u64>,
)
    requires
        wf(s),
        s.spling is Some,
        profile.tag == SeedTag::UserProfile,
        address_ok(profile),
        s.users.contains_key(profile.key),
        s.users[profile.key].user != caller,
    ensures
        spec_delete_user_profile(s, caller, profile, amount) == (
            s,
            Err::<crate::transfer::TransferPlan, SocialError>(SocialError::Unauthorized),
        ),
{
}

/// The expiry callback is idempotent against a post already gone: on
/// any well-formed ledger without a post at the given address it
/// succeeds as a no-op on the content store, merely retiring the
/// dangling registration.
pub proof fn lemma_expiry_noop(s: NetworkView, post: Address)
    requires
        wf(s),
        s.spling is Some,
        post.tag == SeedTag::Post,
        address_ok(post),
        !s.posts.contains_key(post.key),
    ensures
        spec_clockwork_delete_post(s, post).1 == Ok::<(), SocialError>(()),
        spec_clockwork_delete_post(s, post).0 == (NetworkView {
            threads: s.threads.remove(post.key),
            ..s
        }),
{
    let s2 = spec_clockwork_delete_post(s, post).0;
    assert(s2.posts =~= s.posts);
    assert(s2 =~= (NetworkView { threads: s.threads.remove(post.key), ..s }));
}

/// A manual delete followed by the scheduled callback: the callback
/// still succeeds — the race between the timer and the owner's own
/// delete resolves as a no-op, never as `NotFound`.
pub proof fn lemma_expiry_after_manual_delete(
    s: NetworkView,
    caller: u64,
    post: Address,
    amount: Option<u64>,
)
    requires
        wf(s),
        spec_delete_post(s, caller, post, amount).1 is Ok,
    ensures
        spec_clockwork_delete_post(spec_delete_post(s, caller, post, amount).0, post).1 == Ok::<
            (),
            SocialError,
        >(()),
        !spec_clockwork_delete_post(
            spec_delete_post(s, caller, post, amount).0,
            post,
        ).0.posts.contains_key(post.key),
{
}

} // verus!
