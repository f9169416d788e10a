//! The arithmetic capability a quadrature oscillator needs from its sample
//! type: addition, subtraction, multiplication, and a simultaneous
//! sine/cosine evaluation used only when a phase or step angle is (re)seeded.

use vstd::prelude::*;

verus! {

/// A floating-point carrier for oscillator samples.
///
/// The oscillator is generic over the numeric representation so that single-
/// and double-precision variants (and any other rounding arithmetic) share one
/// verified algorithm. An implementation is supplied by the embedding code;
/// each of its operations is left abstract here as a spec function, because a
/// rounding arithmetic satisfies no exact algebraic law this library could
/// soundly assume. The contracts of the executable methods pin each result to
/// its abstract counterpart, so everything proved about the oscillator holds
/// for the exact sequence of carrier operations it performs — drift included,
/// never idealized away.
///
/// An implementation must make each executable method return precisely the
/// value its spec function denotes on the same operands: the same operands
/// must always produce the same result. Ordinary floating-point arithmetic
/// (deterministic and free of hidden state) has this property. In builds of
/// this crate for execution the spec functions survive as inert methods; an
/// implementation discharges them by defining each as the operation it
/// stands for, which makes the correspondence hold by construction.
pub trait Float: Sized + Copy {
    /// The value the carrier's addition produces.
    spec fn spec_plus(self, other: Self) -> Self;

    /// The value the carrier's subtraction produces.
    spec fn spec_minus(self, other: Self) -> Self;

    /// The value the carrier's multiplication produces.
    spec fn spec_times(self, other: Self) -> Self;

    /// The sine the carrier computes for `self`, read as an angle in radians.
    spec fn spec_sin(self) -> Self;

    /// The cosine the carrier computes for `self`, read as an angle in radians.
    spec fn spec_cos(self) -> Self;

    /// Carrier addition.
    fn plus(self, other: Self) -> (r: Self)
        ensures
            r == self.spec_plus(other),
    ;

    /// Carrier subtraction.
    fn minus(self, other: Self) -> (r: Self)
        ensures
            r == self.spec_minus(other),
    ;

    /// Carrier multiplication.
    fn times(self, other: Self) -> (r: Self)
        ensures
            r == self.spec_times(other),
    ;

    /// Simultaneous sine and cosine of `self`, read as an angle in radians.
    fn sin_cos(self) -> (r: (Self, Self))
        ensures
            r == (self.spec_sin(), self.spec_cos()),
    ;
}

} // verus!
