//! The names most callers need.

pub use crate::contract::Transaction;
pub use crate::erasure::Erase;
pub use crate::leaves::{err, lazy, ok, result, with_ctx};
