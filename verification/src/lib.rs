//! Polyhedral dice: `D4`, `D6`, `D8`, `D10`, `D12` and `D20`.
//!
//! A die is any type that is [`Rollable`]: it can be rolled into a fresh
//! instance and it can report the value it shows. The free function [`roll`]
//! rolls whichever die the caller's expected type names:
//!
//! ```text
//! let d: D10 = roll();
//! // 1 <= d.val() <= 10
//! ```
//!
//! Every built-in die carries, as a type invariant, that the value it shows
//! lies between one and its number of sides. `roll` draws that value from the
//! calling thread's random generator; `from_source` on each die draws it from
//! a source that the caller hands in.

pub mod dice;
pub mod prelude;
pub mod rollable;
pub mod source;

pub use dice::{D10, D12, D20, D4, D6, D8};
pub use rollable::{roll, Rollable};
