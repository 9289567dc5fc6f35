//! Record-level logic of each transition: one context per operation,
//! holding the records the transition mutates.  The ledger looks the
//! records up by derived address, runs the context, and stores the
//! results back.

pub mod create_b;
pub mod create_bank;
pub mod create_group_profile;
pub mod create_user_profile;
pub mod delete_post;
pub mod delete_reply;
pub mod follow_user;
pub mod join_group;
pub mod leave_group;
pub mod like_post;
pub mod reset_bank;
pub mod setup_spling;
pub mod setup_tags;
pub mod submit_post;
pub mod submit_reply;
pub mod unfollow_user;
