//! Session identity: envelopes, a Redis-backed store's command logic, signed
//! account-claims tokens, and the per-request resolution rule.

pub mod account_store;
pub mod addr;
pub mod error;
pub mod redis_store;
pub mod session;
pub mod text;
pub mod time;
pub mod util;
