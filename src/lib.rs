//! An optional value whose presence or absence is fixed by its type.
//!
//! `CTOption<T, true>` always holds a `T`; `CTOption<T, false>` never does.
//! Moving between the two is done by consuming one container and producing
//! the other, so a value that is absent cannot be read.
use vstd::prelude::*;

pub mod laws;
pub mod opt_const_generic;
pub mod prelude;
pub mod workarounds;

verus! {

/// An optional value whose presence is the compile-time tag `IS_SOME_VAL`.
///
/// The storage cell holds a value exactly when the tag is `true`; the type
/// invariant states this, so a present container always has something to
/// hand out and an absent one never owns a value. Dropping a container drops
/// the value it holds, which happens exactly when the tag is `true`.
pub struct CTOption<T, const IS_SOME_VAL: bool> {
    slot: Option<T>,
}

/// The tag of a container that holds a value.
pub const IS_SOME: bool = true;

/// The tag of a container that holds nothing.
pub const IS_NONE: bool = false;

/// A container that holds a value.
pub type CTSome<T> = CTOption<T, true>;

/// A container that holds nothing.
pub type CTNone<T> = CTOption<T, false>;

/// Lets code that is generic over a container learn its value type and tag,
/// and move it to the shape that the tag names.
pub trait OptionalConstGeneric: Sized {
    /// The type of the value the container may hold.
    type Inner;

    /// Whether the container holds a value.
    const IS_SOME_VAL: bool;

    /// What the container holds.
    spec fn contents(&self) -> Option<Self::Inner>;

    /// Gives the container the shape of a present one, keeping its contents.
    fn assume_some(self) -> (r: CTSome<Self::Inner>)
        requires
            Self::IS_SOME_VAL,
        ensures
            r@ == self.contents(),
    ;

    /// Gives the container the shape of an absent one; it held nothing.
    fn assume_none(self) -> (r: CTNone<Self::Inner>)
        requires
            !Self::IS_SOME_VAL,
        ensures
            r@ == self.contents(),
            r@ == None::<Self::Inner>,
    ;
}

impl<T, const IS_SOME_VAL: bool> CTOption<T, IS_SOME_VAL> {
    #[verifier::type_invariant]
    spec fn slot_matches_tag(self) -> bool {
        self.slot.is_some() == IS_SOME_VAL
    }

    /// What the container holds: `Some` exactly when the tag is `true`.
    pub closed spec fn view(&self) -> Option<T> {
        self.slot
    }

    /// Builds a container from a storage cell whose state matches the tag:
    /// `Some` for a present container, `None` for an absent one.
    pub fn from_maybe_uninit(val: Option<T>) -> (r: Self)
        requires
            val.is_some() == IS_SOME_VAL,
        ensures
            r@ == val,
    {
        CTOption { slot: val }
    }

    /// Whether the container holds a value; this is its tag.
    pub fn is_some(&self) -> (r: bool)
        ensures
            r == IS_SOME_VAL,
            r == self@.is_some(),
    {
        proof {
            use_type_invariant(self);
        }
        IS_SOME_VAL
    }

    /// Gives a container whose tag is `true` the shape of a present one.
    pub fn assume_some(self) -> (r: CTSome<T>)
        requires
            IS_SOME_VAL,
        ensures
            r@ == self@,
    {
        proof {
            use_type_invariant(&self);
        }
        CTOption { slot: self.slot }
    }

    /// Gives a container whose tag is `false` the shape of an absent one.
    pub fn assume_none(self) -> (r: CTNone<T>)
        requires
            !IS_SOME_VAL,
        ensures
            r@ == self@,
            r@ == None::<T>,
    {
        proof {
            use_type_invariant(&self);
        }
        CTOption { slot: self.slot }
    }
}

impl<T> CTSome<T> {
    /// A container that holds `val`.
    pub fn new(val: T) -> (r: Self)
        ensures
            r@ == Some(val),
    {
        CTOption { slot: Some(val) }
    }

    /// Takes the value out of the container, which ceases to exist.
    pub fn into_inner(self) -> (r: T)
        ensures
            self@ == Some(r),
    {
        proof {
            use_type_invariant(&self);
        }
        match self.slot {
            Some(v) => v,
            None => unreached(),
        }
    }

    /// Gives the container the tag `IS_SOME_VAL`, which must be `true`,
    /// since the container holds a value.
    pub fn assume_const_generic_val<const IS_SOME_VAL: bool>(self) -> (r: CTOption<T, IS_SOME_VAL>)
        requires
            IS_SOME_VAL,
        ensures
            r@ == self@,
    {
        proof {
            use_type_invariant(&self);
        }
        CTOption { slot: self.slot }
    }
}

impl<T> CTNone<T> {
    /// A container that holds nothing.
    pub fn new() -> (r: Self)
        ensures
            r@ == None::<T>,
    {
        CTOption { slot: None }
    }

    /// Puts `val` into the empty container, which becomes a present one.
    pub fn insert(self, val: T) -> (r: CTSome<T>)
        ensures
            r@ == Some(val),
    {
        CTOption { slot: Some(val) }
    }
}

impl<T, const IS_SOME_VAL: bool> OptionalConstGeneric for CTOption<T, IS_SOME_VAL> {
    type Inner = T;

    const IS_SOME_VAL: bool = IS_SOME_VAL;

    open spec fn contents(&self) -> Option<T> {
        self@
    }

    fn assume_some(self) -> (r: CTSome<T>) {
        CTOption::assume_some(self)
    }

    fn assume_none(self) -> (r: CTNone<T>) {
        CTOption::assume_none(self)
    }
}

} // verus!
