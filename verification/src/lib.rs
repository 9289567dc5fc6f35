//! Ledger state engine for a decentralized social network: identity
//! (user and group profiles), content (posts, replies, likes, a shared
//! tag index), a storage-fee reserve, and a scheduled self-expiry
//! protocol for posts.
//!
//! The engine is the deterministic core of the system: it issues ids,
//! maintains relationship lists, deduplicates tags, and decides which
//! value transfers the external token rail must perform.  The host that
//! embeds it authenticates callers, serializes transitions, and executes
//! the requested transfers; none of that happens here.

pub mod addr;
pub mod contexts;
pub mod errors;
pub mod laws;
pub mod listops;
pub mod model;
pub mod network;
pub mod states;
pub mod textnorm;
pub mod transfer;
