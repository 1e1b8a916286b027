//! The items most code needs, for a single import.
pub use crate::{CTNone, CTOption, CTSome, OptionalConstGeneric, IS_NONE, IS_SOME};
