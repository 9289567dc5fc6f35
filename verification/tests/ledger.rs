use socialprotocol::addr::{derive_address, address_valid, Address, SeedTag};
use socialprotocol::errors::SocialError;
use socialprotocol::network::Ledger;
use socialprotocol::transfer::TransferPlan;

fn initialized() -> Ledger {
    let mut l = Ledger::new();
    l.setup_spling().unwrap();
    l.setup_tags().unwrap();
    l
}

#[test]
fn setup_spling_zeroes_counters() {
    let mut l = Ledger::new();
    assert!(l.registry().is_none());
    l.setup_spling().unwrap();
    let sp = l.registry().unwrap();
    assert_eq!(sp.users, 0);
    assert_eq!(sp.groups, 0);
    assert_eq!(sp.posts, 0);
    assert_eq!(sp.tags, 0);
    assert_eq!(l.setup_spling(), Err(SocialError::AlreadyExists));
}

#[test]
fn setup_tags_requires_registry() {
    let mut l = Ledger::new();
    assert_eq!(l.setup_tags(), Err(SocialError::NotInitialized));
    l.setup_spling().unwrap();
    l.setup_tags().unwrap();
    assert_eq!(l.tag_count(), Some(1));
    assert_eq!(l.tag_at(0).unwrap(), "spling");
    assert_eq!(l.setup_tags(), Err(SocialError::AlreadyExists));
}

#[test]
fn operations_require_registry() {
    let mut l = Ledger::new();
    assert_eq!(
        l.create_user_profile(1, 10, 0, None),
        Err(SocialError::NotInitialized)
    );
    assert_eq!(l.join_group(1, 2, None), Err(SocialError::NotInitialized));
    assert_eq!(l.create_bank(1), Err(SocialError::NotInitialized));
}

#[test]
fn user_ids_sequential() {
    let mut l = initialized();
    let (uid_a, _) = l.create_user_profile(101, 11, 1000, None).unwrap();
    let (uid_b, _) = l.create_user_profile(102, 12, 1001, None).unwrap();
    let (uid_c, _) = l.create_user_profile(103, 13, 1002, None).unwrap();
    assert_eq!((uid_a, uid_b, uid_c), (1, 2, 3));
    assert_eq!(l.registry().unwrap().users, 3);
    let p = l.get_user_profile(102).unwrap();
    assert_eq!(p.uid, 2);
    assert_eq!(p.user, 102);
    assert_eq!(p.st, 1);
    assert_eq!(p.ts, 1001);
    assert_eq!(p.shdw, 12);
    assert!(p.groups.is_empty());
    assert!(p.following.is_empty());
}

#[test]
fn create_user_profile_plans() {
    let mut l = initialized();
    let (_, plan) = l.create_user_profile(1, 10, 0, None).unwrap();
    assert_eq!(plan, TransferPlan::Subsidy { lamports: 1000000 });
    let (_, plan) = l.create_user_profile(2, 11, 0, Some(75)).unwrap();
    assert_eq!(plan, TransferPlan::Mirrored { amount: 75 });
}

#[test]
fn duplicate_user_profile_rejected() {
    let mut l = initialized();
    l.create_user_profile(1, 10, 0, None).unwrap();
    assert_eq!(
        l.create_user_profile(1, 99, 5, None),
        Err(SocialError::AlreadyExists)
    );
    assert_eq!(l.registry().unwrap().users, 1);
}

#[test]
fn group_ids_sequential_and_no_subsidy() {
    let mut l = initialized();
    let (gid_a, plan_a) = l.create_group_profile(201, 21, 7, None).unwrap();
    let (gid_b, plan_b) = l.create_group_profile(202, 22, 8, Some(9)).unwrap();
    assert_eq!((gid_a, gid_b), (1, 2));
    assert_eq!(plan_a, TransferPlan::NoTransfer);
    assert_eq!(plan_b, TransferPlan::Mirrored { amount: 9 });
    assert_eq!(l.registry().unwrap().groups, 2);
    let g = l.get_group_profile(201).unwrap();
    assert_eq!(g.gid, 1);
    assert_eq!(g.group, 201);
    assert_eq!(g.shdw, 21);
}

#[test]
fn join_then_leave_restores_groups() {
    let mut l = initialized();
    l.create_user_profile(1, 10, 0, None).unwrap();
    l.join_group(1, 5, None).unwrap();
    let before: Vec<u32> = l.get_user_profile(1).unwrap().groups;
    l.join_group(1, 9, None).unwrap();
    assert_eq!(l.get_user_profile(1).unwrap().groups, vec![5, 9]);
    l.leave_group(1, 9, None).unwrap();
    assert_eq!(l.get_user_profile(1).unwrap().groups, before);
}

#[test]
fn join_has_no_duplicate_check() {
    let mut l = initialized();
    l.create_user_profile(1, 10, 0, None).unwrap();
    l.join_group(1, 5, None).unwrap();
    l.join_group(1, 5, None).unwrap();
    assert_eq!(l.get_user_profile(1).unwrap().groups, vec![5, 5]);
    // Leaving removes every occurrence of the id.
    l.leave_group(1, 5, None).unwrap();
    assert!(l.get_user_profile(1).unwrap().groups.is_empty());
}

#[test]
fn follow_and_unfollow_keep_order() {
    let mut l = initialized();
    l.create_user_profile(1, 10, 0, None).unwrap();
    l.follow_user(1, 2, None).unwrap();
    l.follow_user(1, 3, None).unwrap();
    l.follow_user(1, 4, None).unwrap();
    l.unfollow_user(1, 3, None).unwrap();
    assert_eq!(l.get_user_profile(1).unwrap().following, vec![2, 4]);
}

#[test]
fn membership_requires_profile() {
    let mut l = initialized();
    assert_eq!(l.join_group(42, 5, None), Err(SocialError::NotFound));
    assert_eq!(l.follow_user(42, 5, None), Err(SocialError::NotFound));
}

#[test]
fn delete_user_profile_unauthorized() {
    let mut l = initialized();
    l.create_user_profile(1, 10, 0, None).unwrap();
    let addr = derive_address(SeedTag::UserProfile, 1);
    assert_eq!(
        l.delete_user_profile(2, addr, None),
        Err(SocialError::Unauthorized)
    );
    assert_eq!(l.registry().unwrap().users, 1);
    assert!(l.get_user_profile(1).is_some());
}

#[test]
fn delete_user_profile_owner_only_counter_kept() {
    let mut l = initialized();
    l.create_user_profile(1, 10, 0, None).unwrap();
    let addr = derive_address(SeedTag::UserProfile, 1);
    assert_eq!(l.delete_user_profile(1, addr, None), Ok(TransferPlan::NoTransfer));
    assert!(l.get_user_profile(1).is_none());
    // Ids are never reused: the counter stays where it was...
    assert_eq!(l.registry().unwrap().users, 1);
    // ...so a re-created profile gets a fresh id.
    let (uid, _) = l.create_user_profile(1, 10, 5, None).unwrap();
    assert_eq!(uid, 2);
}

#[test]
fn delete_group_profile_creator_only() {
    let mut l = initialized();
    l.create_group_profile(7, 70, 0, None).unwrap();
    let addr = derive_address(SeedTag::GroupProfile, 7);
    assert_eq!(
        l.delete_group_profile(8, addr, None),
        Err(SocialError::Unauthorized)
    );
    assert_eq!(l.delete_group_profile(7, addr, Some(3)), Ok(TransferPlan::Mirrored { amount: 3 }));
    assert!(l.get_group_profile(7).is_none());
    assert_eq!(l.registry().unwrap().groups, 1);
}

#[test]
fn tampered_address_is_rejected() {
    let mut l = initialized();
    l.create_user_profile(1, 10, 0, None).unwrap();
    let good = derive_address(SeedTag::UserProfile, 1);
    assert!(address_valid(&good));
    let bad = Address {
        bump: good.bump.wrapping_add(1),
        ..good
    };
    assert!(!address_valid(&bad));
    assert_eq!(
        l.delete_user_profile(1, bad, None),
        Err(SocialError::AddressMismatch)
    );
    // An address of the wrong kind fails the same way.
    let wrong_kind = derive_address(SeedTag::Post, 1);
    assert_eq!(
        l.delete_user_profile(1, wrong_kind, None),
        Err(SocialError::AddressMismatch)
    );
    assert!(l.get_user_profile(1).is_some());
}

#[test]
fn derivation_is_deterministic() {
    let a = derive_address(SeedTag::Post, 900);
    let b = derive_address(SeedTag::Post, 900);
    assert_eq!(a, b);
    let c = derive_address(SeedTag::Likes, 900);
    assert_eq!(c.key, a.key);
    assert_ne!(c.tag, a.tag);
}

#[test]
fn error_descriptions() {
    assert_eq!(SocialError::NotFound.describe(), "not found");
    assert_eq!(SocialError::Unauthorized.describe(), "unauthorized");
    assert_eq!(SocialError::AddressMismatch.describe(), "address mismatch");
}
