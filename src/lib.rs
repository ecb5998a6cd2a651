//! Composable combining operations: semigroups, monoids and reducers,
//! with folds over sequences built on them and wrapper types that pin
//! one combining operation onto a primitive value.

pub mod iter;
pub mod traits;
pub mod wrappers;
