//! What the standard conversions used by the chain constructors return.
//!
//! Constructors take their payload as `impl Into<Payload>`, and say in their
//! contracts that the payload stored is what `into` returned. For the
//! conversions below, which callers use all the time, that result is known.

use vstd::prelude::*;

verus! {

/// `converted` is what `value.into()` returned.
pub open spec fn converts_to<I: Into<T>, T>(value: I, converted: T) -> bool {
    call_ensures(I::into, (value,), converted)
}

/// `impl<T> From<T> for T` of the standard library, documented as returning
/// its argument unchanged.
pub assume_specification<A>[ <A as core::convert::From<A>>::from ](a: A) -> (ret: A)
    ensures
        ret == a,
;

/// `impl From<&str> for String` of the standard library: the owned string
/// holds the characters of the slice.
pub assume_specification<'a>[ <String as core::convert::From<&'a str>>::from ](a: &str) -> (ret:
    String)
    ensures
        ret@ == a@,
;

/// `impl<T> From<T> for Box<T>` of the standard library: the box holds the
/// value it was given.
pub assume_specification<A>[ <Box<A> as core::convert::From<A>>::from ](a: A) -> (ret: Box<A>)
    ensures
        *ret == a,
;

} // verus!
