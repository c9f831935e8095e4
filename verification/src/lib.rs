//! A lazily initialised cell for cooperative tasks.
//!
//! A [`Lazy`] starts empty and is filled at most once. Nobody hands it an
//! initialiser up front: callers ask the cell, and the one that finds it empty
//! while holding its lock is given a [`Setter`], the right to fill it. Everyone
//! else gets the stored value, or waits for the lock without blocking a thread.
//!
//! ```ignore
//! use lazy_futuristic::{Lazy, ValueOrSetter};
//!
//! let lazy_number: Lazy<i32> = Lazy::new();
//! let number = match lazy_number.get_or_set().await {
//!     ValueOrSetter::Value(value) => value,
//!     ValueOrSetter::Setter(setter) => setter.set(10),
//! };
//! assert_eq!(*number, 10);
//! ```
//!
//! The crate has four parts:
//!
//! * [`protocol`] states the synchronisation protocol as a transition system
//!   over plain values.
//! * [`laws`] proves what holds of every interleaving of tasks that follow
//!   the protocol.
//! * [`cell`] is the executable cell, whose decisions are the ones the
//!   protocol names.
//! * [`primitives`] declares what the cell is built from and says what is
//!   taken on trust about each item.
pub mod cell;
pub mod laws;
pub mod primitives;
pub mod protocol;

pub use crate::cell::Lazy;
pub use crate::cell::Setter;
pub use crate::cell::ValueOrSetter;
