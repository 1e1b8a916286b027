//! An optional value meant to be written as a constant.
use vstd::prelude::*;

verus! {

/// An optional value meant to be written as a constant, for instance as the
/// argument of a const generic parameter; `into_core` turns it into a
/// `core::option::Option`.
#[derive(PartialEq, Eq)]
pub enum Option<T> {
    Present(T),
    Absent,
}

impl<T> Option<T> {
    /// The same optional value as a `core::option::Option`.
    pub fn into_core(self) -> (r: core::option::Option<T>)
        ensures
            r == (match self {
                Option::Present(x) => core::option::Option::Some(x),
                Option::Absent => core::option::Option::None,
            }),
    {
        match self {
            Self::Present(x) => core::option::Option::Some(x),
            Self::Absent => core::option::Option::None,
        }
    }
}

} // verus!
