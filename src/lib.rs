//! Identity-based wrapping of pointer-like values.
//!
//! [`ByAddr`] wraps any pointer type (anything that implements `Deref`: references, `Box`,
//! `Rc`, `Vec`, `String`, ...). Equality, ordering and hashing of the wrapper go by the address
//! of the target rather than by its value; for fat pointers the length is part of that address.
//! The comparison machinery is the one of `by_address::ByAddress`, re-exported here under a
//! shorter name.
//!
//! On top of it this crate offers two conversion entry points: [`FromTarget::from_target`] builds
//! the pointer from a raw value and wraps it in one step, and [`IntoByAddr::into_byaddr`] does the
//! same as a method on the raw value.
use std::ops::Deref;
use vstd::prelude::*;
use vstd::std_specs::convert::FromSpec;

pub use by_address::ByAddress as ByAddr;

verus! {

/// `by_address::ByAddress` as Verus sees it: a tuple struct whose one public field is the
/// wrapped pointer. Its comparison and hashing impls are not specified here: they go by the
/// target's address, which Verus's model of references and smart pointers does not carry.
#[verifier::external_type_specification]
#[verifier::reject_recursive_types(T)]
pub struct ExByAddress<T: ?Sized + Deref>(by_address::ByAddress<T>);

/// The wrapper `r` holds a value that converting `y` into `T` can produce.
pub open spec fn wraps_conversion_of<T: Deref + From<Y>, Y>(r: ByAddr<T>, y: Y) -> bool {
    call_ensures(T::from, (y,), r.0)
}

/// Construction of a wrapped pointer straight from the value it is to point to.
pub trait FromTarget<T>: Deref {
    fn from_target(t: T) -> Self where Self: Sized;
}

impl<T, Y> FromTarget<Y> for ByAddr<T> where T: From<Y> + Deref {
    /// Converts `t` into the pointer type `T` and wraps the result.
    fn from_target(t: Y) -> (r: ByAddr<T>)
        ensures
            wraps_conversion_of(r, t),
            T::obeys_from_spec() ==> r == ByAddr(T::from_spec(t)),
    {
        ByAddr(t.into())
    }
}

/// Wrapping of a raw value, as a method on that value: the pointer type `T` is built from it
/// and then wrapped.
pub trait IntoByAddr<T>: Into<T> where T: Deref {
    fn into_byaddr(self) -> ByAddr<T>;
}

impl<T, Y> IntoByAddr<T> for Y where Y: Into<T>, T: Deref + From<Y> {
    /// Same as `ByAddr::<T>::from_target(self)`.
    fn into_byaddr(self) -> (r: ByAddr<T>)
        ensures
            wraps_conversion_of(r, self),
            T::obeys_from_spec() ==> r == ByAddr(T::from_spec(self)),
    {
        ByAddr::from_target(self)
    }
}

/// Both entry points agree with wrapping by hand: where converting into `T` is a function of
/// the value converted, the wrapper that `from_target(y)` returns, the one that
/// `y.into_byaddr()` returns and `ByAddr(T::from(y))` all hold the same pointer.
pub proof fn lemma_conversions_agree<T: Deref + From<Y>, Y>(
    y: Y,
    by_from_target: ByAddr<T>,
    by_into_byaddr: ByAddr<T>,
    converted: T,
)
    requires
        T::obeys_from_spec(),
        call_ensures(<ByAddr<T> as FromTarget<Y>>::from_target, (y,), by_from_target),
        call_ensures(<Y as IntoByAddr<T>>::into_byaddr, (y,), by_into_byaddr),
        call_ensures(T::from, (y,), converted),
    ensures
        by_from_target == ByAddr(converted),
        by_into_byaddr == ByAddr(converted),
{
}

} // verus!
