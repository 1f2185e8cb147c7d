//! Exact (lossless) conversion from binary floating-point values to
//! fixed-width integers, together with the bit-level layout of the two
//! standard floating-point formats.
//!
//! A floating-point value enters the library as its raw bit pattern
//! ([`Fp32`], [`Fp64`]), so that every step of the conversion is ordinary
//! integer arithmetic.  A conversion succeeds only when the value is an
//! integer that lies inside the target's range; otherwise it reports
//! whether the value was out of range ([`ExactError::Overflow`]) or merely
//! not integral ([`ExactError::Inexact`]).
use vstd::prelude::*;

pub mod casts;
pub mod engine;
pub mod fp32;
pub mod fp64;
pub mod layout;
pub mod model;
pub mod power;

pub use fp32::Fp32;
pub use fp64::Fp64;
pub use layout::IEEE754;
pub use model::ExactError;

verus! {

/// Checked conversion from a value of type `T` into `Self`, failing rather
/// than losing information.
pub trait ExactFrom<T>: Sized {
    type Error;

    /// What `exact_from` returns, as a mathematical function of the input.
    spec fn exact_from_spec(value: T) -> Result<Self, Self::Error>;

    fn exact_from(value: T) -> (r: Result<Self, Self::Error>)
        ensures
            r == Self::exact_from_spec(value),
    ;
}

/// The companion of [`ExactFrom`], in the direction a caller usually
/// writes: `value.exact_into()`.
pub trait ExactInto<T> {
    type Error;

    /// What `exact_into` returns, as a mathematical function of the input.
    spec fn exact_into_spec(self) -> Result<T, Self::Error> where Self: Sized;

    fn exact_into(self) -> (r: Result<T, Self::Error>) where Self: Sized
        ensures
            r == self.exact_into_spec(),
    ;
}

impl<T, U: ExactFrom<T>> ExactInto<U> for T {
    type Error = <U as ExactFrom<T>>::Error;

    open spec fn exact_into_spec(self) -> Result<U, Self::Error> {
        U::exact_from_spec(self)
    }

    fn exact_into(self) -> (r: Result<U, Self::Error>) {
        U::exact_from(self)
    }
}

} // verus!
