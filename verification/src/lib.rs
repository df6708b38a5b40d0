//! Composable units of work over a caller-owned context.
//!
//! A transaction is inert data. Running it threads one mutable context through
//! the whole composition, on the caller's thread, and gives back either a value
//! or a failure. Leaves are the only nodes that touch the context; combinators
//! decide which children run, in which order, and what becomes of their results.
//!
//! Every `run` is verified against two relations of the trait [`Transaction`]:
//! `admits`, the contexts a transaction may be started in, and `yields`, the
//! pairs of final context and result it may end with. A function handed to a
//! transaction may do anything its own contract allows, so both relations are
//! stated over `call_requires` and `call_ensures` of that function.
//!
//! The relations of a transaction that holds a function unfold from the bound
//! on the function's type. Verified callers reason about such a transaction
//! in code that is generic in that type.

pub mod contract;
pub mod erasure;
pub mod joining;
pub mod laws;
pub mod leaves;
pub mod prelude;
pub mod sequencing;
pub mod transmuting;

pub use contract::{FailsWith, IntoTransaction, Settles, SucceedsWith, Transaction};
pub use erasure::{Boxed, DynTransaction, Erase};
pub use joining::{joined, joined3, joined4, Join, Join3, Join4};
pub use leaves::{err, lazy, ok, result, with_ctx, Lazy, TxErr, TxOk, TxResult, WithCtx};
pub use sequencing::{AndThen, MapErr, MapOk, OrElse, Then};
pub use transmuting::{Abort, Recover, TryAbort, TryRecover};
