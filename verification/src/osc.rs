//! The oscillator itself: a two-field state machine holding the sine/cosine
//! pair of the fixed step and of the current phase, advanced by the
//! angle-addition recurrence.

use vstd::prelude::*;

use crate::float::Float;

verus! {

/// The pair `(sin a, cos a)` the carrier computes for the angle `a`.
pub open spec fn sin_cos_of<T: Float>(a: T) -> (T, T) {
    (a.spec_sin(), a.spec_cos())
}

/// `phase` rotated once by `step`, in the carrier's arithmetic.
///
/// `phase` is read as `(sin Φ, cos Φ)` and `step` as `(sin ω, cos ω)`; the
/// result is the angle-addition form of `(sin (Φ + ω), cos (Φ + ω))`:
/// four multiplications, one addition and one subtraction, evaluated with
/// whatever rounding the carrier's operations carry.
pub open spec fn rotate<T: Float>(phase: (T, T), step: (T, T)) -> (T, T) {
    (
        phase.0.spec_times(step.1).spec_plus(phase.1.spec_times(step.0)),
        phase.1.spec_times(step.1).spec_minus(phase.0.spec_times(step.0)),
    )
}

/// `phase` rotated by `step` `n` times over.
pub open spec fn rotate_n<T: Float>(phase: (T, T), step: (T, T), n: nat) -> (T, T)
    decreases n,
{
    if n == 0 {
        phase
    } else {
        rotate(rotate_n(phase, step, (n - 1) as nat), step)
    }
}

/// The sample the `n`-th advance (counting from zero) returns on an
/// oscillator constructed from the initial phase `theta0` and step `omega`
/// and never re-stepped: the constructed phase pair, rotated `n` times by the
/// constructed step pair.
pub open spec fn nth_sample<T: Float>(theta0: T, omega: T, n: nat) -> (T, T) {
    rotate_n(sin_cos_of(theta0), sin_cos_of(omega), n)
}

/// Quadrature oscillator with current phase Φ and fixed phase step ω.
///
/// Trigonometric functions run only in [`QuadOsc::new`] and
/// [`QuadOsc::set_step`]; every [`QuadOsc::next`] costs six arithmetic
/// operations. Round-off therefore accumulates across advances — roughly in
/// proportion to their number — and is not corrected: there is no
/// renormalization back onto the unit circle.
pub struct QuadOsc<T: Float> {
    /// Holds `(sin ω, cos ω)` for the phase step ω.
    step: (T, T),
    /// Holds `(sin Φ, cos Φ)` for the current phase Φ.
    phase: (T, T),
}

impl<T: Float> QuadOsc<T> {
    /// The stored `(sin ω, cos ω)` pair of the phase step.
    pub closed spec fn step_pair(self) -> (T, T) {
        self.step
    }

    /// The stored `(sin Φ, cos Φ)` pair of the current phase — the sample the
    /// pending advance will return.
    pub closed spec fn phase_pair(self) -> (T, T) {
        self.phase
    }

    /// The state `n` advances leave behind: the phase pair rotated `n` times
    /// by the step pair, the step pair untouched.
    /// [`lemma_advanced_unfold`] exposes this reading, and [`QuadOsc::next`]
    /// ensures each call moves the state to `advanced(1)` of the old one.
    pub closed spec fn advanced(self, n: nat) -> Self {
        QuadOsc { step: self.step, phase: rotate_n(self.phase, self.step, n) }
    }

    /// The state a step update leaves behind: the step pair reseeded from
    /// `omega`, the phase pair kept. [`QuadOsc::set_step`] ensures its new
    /// state is exactly this.
    pub closed spec fn with_step(self, omega: T) -> Self {
        QuadOsc { step: sin_cos_of(omega), phase: self.phase }
    }

    /// Create an oscillator starting at the initial phase `phase` (θ₀, in
    /// radians) with the phase step `step` (ω, in radians).
    ///
    /// Both angles are converted to their sine/cosine pairs here, each by one
    /// carrier `sin_cos` evaluation; the first call to [`QuadOsc::next`] then
    /// returns `(sin θ₀, cos θ₀)`. Every carrier value is accepted; what the
    /// carrier's trigonometry makes of a non-finite angle is its own affair.
    pub fn new(phase: T, step: T) -> (osc: Self)
        ensures
            osc.phase_pair() == sin_cos_of(phase),
            osc.step_pair() == sin_cos_of(step),
    {
        QuadOsc { step: step.sin_cos(), phase: phase.sin_cos() }
    }

    /// Change the phase step to `step` (ω, in radians).
    ///
    /// The current phase pair — the value the already pending advance returns
    /// — is untouched; the new step takes effect with the rotation that
    /// advance performs, so it shows in samples only from the following
    /// advance on.
    pub fn set_step(&mut self, step: T)
        ensures
            *final(self) == old(self).with_step(step),
            final(self).step_pair() == sin_cos_of(step),
            final(self).phase_pair() == old(self).phase_pair(),
    {
        self.step = step.sin_cos();
    }

    /// Return `(sin Φ, cos Φ)` for the current phase Φ, then step the phase
    /// to Φ + ω.
    ///
    /// The returned pair is the state as it was at the call — the rotation
    /// happens after it is read — and the new phase pair is exactly one
    /// application of the angle-addition recurrence, in the carrier's own
    /// (rounding) arithmetic. No trigonometric function runs here.
    pub fn next(&mut self) -> (sample: (T, T))
        ensures
            sample == old(self).phase_pair(),
            *final(self) == old(self).advanced(1),
            final(self).phase_pair() == rotate(old(self).phase_pair(), old(self).step_pair()),
            final(self).step_pair() == old(self).step_pair(),
    {
        proof {
            reveal_with_fuel(rotate_n, 2);
        }
        let cur = self.phase;

        self.phase = (
            // sin Φ · cos ω + cos Φ · sin ω
            self.phase.0.times(self.step.1).plus(self.phase.1.times(self.step.0)),
            // cos Φ · cos ω − sin Φ · sin ω
            self.phase.1.times(self.step.1).minus(self.phase.0.times(self.step.0)),
        );

        cur
    }
}

/// Rotations compose: rotating `m + n` times is rotating `m` times, then `n`
/// times from there. This is the additivity of phase advancement in the
/// carrier's own arithmetic — stepping from θ₀ through `m + n` advances lands
/// exactly where `n` further advances from the `m`-th state land, across the
/// whole phase range, negative starting phases and wraparound included.
pub proof fn lemma_rotate_n_compose<T: Float>(phase: (T, T), step: (T, T), m: nat, n: nat)
    ensures
        rotate_n(phase, step, m + n) == rotate_n(rotate_n(phase, step, m), step, n),
    decreases n,
{
    if n > 0 {
        lemma_rotate_n_compose(phase, step, m, (n - 1) as nat);
    }
}

/// What `advanced(n)` means over the two observable pairs: the phase pair is
/// the old one rotated `n` times by the step pair, and the step pair is kept.
pub proof fn lemma_advanced_unfold<T: Float>(osc: QuadOsc<T>, n: nat)
    ensures
        osc.advanced(n).phase_pair() == rotate_n(osc.phase_pair(), osc.step_pair(), n),
        osc.advanced(n).step_pair() == osc.step_pair(),
{
}

/// Advances compose: `n` advances after `m` advances are `m + n` advances.
/// Chained with [`QuadOsc::next`]'s guarantee that one call takes the state
/// to `advanced(1)`, this gives the state — and so the sample — after any
/// number of calls.
pub proof fn lemma_advanced_compose<T: Float>(osc: QuadOsc<T>, m: nat, n: nat)
    ensures
        osc.advanced(m).advanced(n) == osc.advanced(m + n),
{
    lemma_rotate_n_compose(osc.phase_pair(), osc.step_pair(), m, n);
}

/// First-sample identity: the sample of rank zero — what the first advance
/// after construction from θ₀ and ω returns, since `new` stores the carrier's
/// (sin θ₀, cos θ₀) as the phase pair and an advance returns the phase pair
/// before rotating it — is exactly the carrier's (sin θ₀, cos θ₀), whatever
/// the step.
pub proof fn lemma_first_sample<T: Float>(theta0: T, omega: T)
    ensures
        nth_sample(theta0, omega, 0) == sin_cos_of(theta0),
{
}

/// Recurrence correctness: the samples of an oscillator constructed from θ₀
/// and ω walk the rotation recurrence — each sample is the previous one
/// rotated once by the step pair, starting from the carrier's (sin θ₀, cos θ₀).
pub proof fn lemma_sample_recurrence<T: Float>(theta0: T, omega: T, n: nat)
    ensures
        nth_sample(theta0, omega, n + 1) == rotate(nth_sample(theta0, omega, n), sin_cos_of(omega)),
{
}

/// Closed-form placement of every sample: an oscillator in the state `new`
/// establishes for θ₀ and ω holds, after `n` advances, the constructed phase
/// pair rotated `n` times — so its `n`-th advance (counting from zero)
/// returns `nth_sample(theta0, omega, n)`.
pub proof fn lemma_nth_sample<T: Float>(osc: QuadOsc<T>, theta0: T, omega: T, n: nat)
    requires
        osc.phase_pair() == sin_cos_of(theta0),
        osc.step_pair() == sin_cos_of(omega),
    ensures
        osc.advanced(n).phase_pair() == nth_sample(theta0, omega, n),
{
}

/// A step update takes effect only going forward: the state it leaves behind
/// keeps the phase pair, so the advance already pending returns the very
/// sample it would have returned anyway; the new step enters only through the
/// rotation that advance performs on its way out.
pub proof fn lemma_set_step_only_forward<T: Float>(osc: QuadOsc<T>, omega: T)
    ensures
        osc.with_step(omega).phase_pair() == osc.phase_pair(),
        osc.with_step(omega).step_pair() == sin_cos_of(omega),
        rotate_n(osc.with_step(omega).phase_pair(), osc.with_step(omega).step_pair(), 1)
            == rotate(osc.phase_pair(), sin_cos_of(omega)),
{
    reveal_with_fuel(rotate_n, 2);
}

} // verus!
