//! A cache facade over interchangeable storage backends.
//!
//! Callers describe a logical partition with a [`ColumnDefinition`] and talk to an
//! [`Engine`], which holds one [`CacheStorage`] backend for its whole lifetime.
//! Every fallible operation reports one of the five kinds of [`CacheError`];
//! an absent entry and an expired entry are both `Ok(None)`.

pub mod clock;
pub mod column;
pub mod engine;
pub mod error;
pub mod noop_engine;
pub mod record;
pub mod redis_engine;
pub mod sled_engine;
pub mod storage;

pub use column::{Column, ColumnDefinition};
pub use engine::Engine;
pub use error::CacheError;
pub use storage::CacheStorage;
