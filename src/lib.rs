//! Coordination of asynchronous drop work for values whose lifetime ends in a
//! synchronous `drop`.
//!
//! The library holds the decisions; the runtime that spawns and awaits the
//! drop work sits outside it:
//! - [`AsyncDropper`] and [`no_default_bound::AsyncDropper`] wrap a value and
//!   release it for asynchronous dropping at most once;
//! - [`oracle`] decides, by comparison with the type's empty instance, whether a
//!   value that carries its own drop hook still owes that work;
//! - [`policy`] classifies how the drop work ended and applies the configured
//!   [`DropFailAction`].
pub mod dropper;
pub mod no_default_bound;
pub mod oracle;
pub mod policy;

pub use dropper::AsyncDropper;
pub use oracle::{AsyncDrop, ResetDefault};
pub use policy::{AsyncDropError, DropFailAction, DropFault, DropOutcome};
