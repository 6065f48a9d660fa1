//! Graded matching of function-signature search patterns against
//! declarations, with machine-checked contracts.

pub mod compare;
pub mod context;
pub mod item;
pub mod laws;
pub mod outcome;
pub mod query;
pub mod similarity;
pub mod symbol;
