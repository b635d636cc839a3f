//! What a caller needs in scope to roll a die.

pub use crate::rollable::{roll, Rollable};
