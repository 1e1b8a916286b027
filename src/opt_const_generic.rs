//! Turning a container of unknown tag into an ordinary `Option`.
use vstd::prelude::*;

use crate::OptionalConstGeneric;

verus! {

/// The contents of `opt` as an ordinary `Option`: `Some` with the value when
/// its tag is `true`, `None` when it is `false`.
pub fn to_option<T: OptionalConstGeneric>(opt: T) -> (r: Option<T::Inner>)
    ensures
        r == opt.contents(),
        r.is_some() == T::IS_SOME_VAL,
{
    if T::IS_SOME_VAL {
        let some = opt.assume_some();
        Some(some.into_inner())
    } else {
        let _none = opt.assume_none();
        None
    }
}

} // verus!
