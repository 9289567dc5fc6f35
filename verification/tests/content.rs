use socialprotocol::addr::{derive_address, SeedTag};
use socialprotocol::errors::SocialError;
use socialprotocol::network::Ledger;
use socialprotocol::transfer::TransferPlan;

fn with_author() -> Ledger {
    let mut l = Ledger::new();
    l.setup_spling().unwrap();
    l.setup_tags().unwrap();
    l.create_user_profile(1, 10, 0, None).unwrap();
    l
}

fn submit(l: &mut Ledger, shdw: u64, tag: &str) -> u32 {
    let (pid, _) = l
        .submit_post(1, 4, shdw, tag.to_string(), 50, None, String::new())
        .unwrap();
    pid
}

#[test]
fn post_fields_and_ids() {
    let mut l = with_author();
    let pid = submit(&mut l, 500, "");
    assert_eq!(pid, 1);
    let post = l.get_post(500).unwrap();
    assert_eq!(post.pid, 1);
    assert_eq!(post.uid, 1);
    assert_eq!(post.gid, 4);
    assert_eq!(post.tid, 0);
    assert_eq!(post.st, 1);
    assert_eq!(post.ts, 50);
    assert_eq!(l.registry().unwrap().posts, 1);
    let (counter, users) = l.get_likes(500).unwrap();
    assert_eq!(counter, 0);
    assert!(users.is_empty());
    let pid2 = submit(&mut l, 501, "");
    assert_eq!(pid2, 2);
}

#[test]
fn duplicate_post_address_rejected() {
    let mut l = with_author();
    submit(&mut l, 500, "");
    let r = l.submit_post(1, 4, 500, String::new(), 51, None, String::new());
    assert_eq!(r, Err(SocialError::AlreadyExists));
}

#[test]
fn post_requires_profile_and_index() {
    let mut l = Ledger::new();
    l.setup_spling().unwrap();
    let r = l.submit_post(1, 4, 500, String::new(), 0, None, String::new());
    assert_eq!(r, Err(SocialError::NotInitialized));
    l.setup_tags().unwrap();
    let r = l.submit_post(1, 4, 500, String::new(), 0, None, String::new());
    assert_eq!(r, Err(SocialError::NotFound));
}

#[test]
fn tag_resolution_is_idempotent() {
    let mut l = with_author();
    submit(&mut l, 500, "Rust");
    let count_after_first = l.tag_count().unwrap();
    submit(&mut l, 501, "rust");
    let t1 = l.get_post(500).unwrap().tid;
    let t2 = l.get_post(501).unwrap().tid;
    assert_eq!(t1, t2);
    // The list grew by exactly 1 over both submissions, not 2.
    assert_eq!(count_after_first, 2);
    assert_eq!(l.tag_count().unwrap(), 2);
    assert_eq!(l.tag_at(1).unwrap(), "rust");
}

#[test]
fn tags_share_id_end_to_end() {
    let mut l = Ledger::new();
    l.setup_spling().unwrap();
    l.setup_tags().unwrap();
    l.create_user_profile(55, 10, 0, None).unwrap();
    l.submit_post(55, 1, 600, "news".to_string(), 0, None, String::new())
        .unwrap();
    l.submit_post(55, 1, 601, "News".to_string(), 1, None, String::new())
        .unwrap();
    assert_eq!(l.get_post(600).unwrap().tid, 1);
    assert_eq!(l.get_post(601).unwrap().tid, 1);
    assert_eq!(l.registry().unwrap().tags, 1);
}

#[test]
fn distinct_tags_get_distinct_ids() {
    let mut l = with_author();
    submit(&mut l, 500, "alpha");
    submit(&mut l, 501, "beta");
    assert_eq!(l.get_post(500).unwrap().tid, 1);
    assert_eq!(l.get_post(501).unwrap().tid, 2);
    assert_eq!(l.registry().unwrap().tags, 2);
    assert_eq!(l.tag_count().unwrap(), 3);
}

#[test]
fn seed_entry_is_position_zero() {
    let mut l = with_author();
    // The seed entry stands at position 0, so its name resolves to the
    // untagged id.
    submit(&mut l, 500, "Spling");
    assert_eq!(l.get_post(500).unwrap().tid, 0);
    assert_eq!(l.tag_count().unwrap(), 1);
    assert_eq!(l.registry().unwrap().tags, 0);
}

#[test]
fn like_toggle_roundtrip() {
    let mut l = with_author();
    l.create_user_profile(2, 11, 0, None).unwrap();
    submit(&mut l, 500, "");
    let post = derive_address(SeedTag::Post, 500);
    l.like_post(1, post, None).unwrap();
    let (counter, users) = l.get_likes(500).unwrap();
    assert_eq!(counter, 1);
    assert_eq!(users, vec![1]);
    // A second like from the same user toggles the first off again.
    l.like_post(1, post, None).unwrap();
    let (counter, users) = l.get_likes(500).unwrap();
    assert_eq!(counter, 0);
    assert!(users.is_empty());
    // Two different likers are both counted, in insertion order.
    l.like_post(1, post, None).unwrap();
    l.like_post(2, post, None).unwrap();
    let (counter, users) = l.get_likes(500).unwrap();
    assert_eq!(counter, 2);
    assert_eq!(users, vec![1, 2]);
}

#[test]
fn like_errors() {
    let mut l = with_author();
    submit(&mut l, 500, "");
    let post = derive_address(SeedTag::Post, 500);
    assert_eq!(l.like_post(9, post, None), Err(SocialError::NotFound));
    let gone = derive_address(SeedTag::Post, 999);
    assert_eq!(l.like_post(1, gone, None), Err(SocialError::NotFound));
    let wrong_kind = derive_address(SeedTag::Reply, 500);
    assert_eq!(l.like_post(1, wrong_kind, None), Err(SocialError::AddressMismatch));
}

#[test]
fn reply_fields_and_subsidy() {
    let mut l = with_author();
    let plan = l.submit_reply(1, 1, 700, 60, None).unwrap();
    assert_eq!(plan, TransferPlan::Subsidy { lamports: 2000000 });
    let r = l.get_reply(700).unwrap();
    assert_eq!(r.uid, 1);
    assert_eq!(r.pid, 1);
    assert_eq!(r.st, 1);
    assert_eq!(r.ts, 60);
    let plan = l.submit_reply(1, 1, 701, 61, Some(4)).unwrap();
    assert_eq!(plan, TransferPlan::Mirrored { amount: 4 });
    // A reply may reference a post id that does not exist.
    assert!(l.submit_reply(1, 999, 702, 62, None).is_ok());
    // The registry's post counter is untouched by replies.
    assert_eq!(l.registry().unwrap().posts, 0);
}

#[test]
fn delete_reply_owner_only() {
    let mut l = with_author();
    l.create_user_profile(2, 11, 0, None).unwrap();
    l.submit_reply(1, 1, 700, 60, None).unwrap();
    let addr = derive_address(SeedTag::Reply, 700);
    assert_eq!(l.delete_reply(2, addr, None), Err(SocialError::Unauthorized));
    assert!(l.get_reply(700).is_some());
    assert_eq!(l.delete_reply(1, addr, None), Ok(TransferPlan::NoTransfer));
    assert!(l.get_reply(700).is_none());
}

#[test]
fn delete_post_closes_likes_too() {
    let mut l = with_author();
    submit(&mut l, 500, "x");
    let post = derive_address(SeedTag::Post, 500);
    l.like_post(1, post, None).unwrap();
    assert_eq!(l.delete_post(1, post, None), Ok(TransferPlan::NoTransfer));
    assert!(l.get_post(500).is_none());
    assert!(l.get_likes(500).is_none());
    assert_eq!(l.registry().unwrap().posts, 1);
}

#[test]
fn delete_post_unauthorized() {
    let mut l = with_author();
    l.create_user_profile(2, 11, 0, None).unwrap();
    submit(&mut l, 500, "");
    let post = derive_address(SeedTag::Post, 500);
    assert_eq!(l.delete_post(2, post, None), Err(SocialError::Unauthorized));
    assert!(l.get_post(500).is_some());
}

#[test]
fn expiry_callback_after_manual_delete_is_noop() {
    let mut l = with_author();
    submit(&mut l, 500, "");
    let post = derive_address(SeedTag::Post, 500);
    assert!(l.has_thread(500));
    // The manual delete leaves the registration dangling on purpose.
    l.delete_post(1, post, None).unwrap();
    assert!(l.has_thread(500));
    // The callback then succeeds as a no-op, not `NotFound`, and
    // retires the registration.
    assert_eq!(l.clockwork_delete_post(post), Ok(()));
    assert!(!l.has_thread(500));
    assert!(l.get_post(500).is_none());
}

#[test]
fn expiry_callback_closes_post() {
    let mut l = with_author();
    submit(&mut l, 500, "");
    let post = derive_address(SeedTag::Post, 500);
    assert_eq!(l.clockwork_delete_post(post), Ok(()));
    assert!(l.get_post(500).is_none());
    assert!(l.get_likes(500).is_none());
    assert!(!l.has_thread(500));
    // Running the callback twice stays a success.
    assert_eq!(l.clockwork_delete_post(post), Ok(()));
}
