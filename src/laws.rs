//! Laws that relate the operations on containers, stated over what each
//! operation's contract says of its result.
use vstd::prelude::*;

use crate::{CTNone, CTOption, CTSome, OptionalConstGeneric};

verus! {

/// Taking the value out of a container made by `CTSome::new(v)` gives back
/// `v`: `c` is what `new` returned and `r` what `into_inner(c)` returned.
pub proof fn lemma_new_then_into_inner<T>(v: T, c: CTSome<T>, r: T)
    requires
        c@ == Some(v),
        c@ == Some(r),
    ensures
        r == v,
{
}

/// Putting `v` into an empty container and taking it out again gives back
/// `v`: `s` is what `insert(n, v)` returned and `r` what `into_inner(s)`
/// returned.
pub proof fn lemma_insert_then_into_inner<T>(n: CTNone<T>, v: T, s: CTSome<T>, r: T)
    requires
        n@ == None::<T>,
        s@ == Some(v),
        s@ == Some(r),
    ensures
        r == v,
{
}

/// `to_option` of a container made by `CTSome::new(v)` is `Some(v)`, and of
/// an empty container `None`: `r` is what `to_option(c)` returned.
pub proof fn lemma_to_option_keeps_contents<T, const IS_SOME_VAL: bool>(
    c: CTOption<T, IS_SOME_VAL>,
    v: T,
    r: Option<T>,
)
    requires
        r == c.contents(),
    ensures
        c@ == Some(v) ==> r == Some(v),
        c@ == None::<T> ==> r == None::<T>,
{
}

} // verus!
