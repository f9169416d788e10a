//! A quadrature oscillator: successive `(sin Φ, cos Φ)` samples of a phase Φ
//! advancing by a fixed step ω, produced without a trigonometric function call
//! per sample.
//!
//! Writing Φ(t) = θ₀ + ωt, the angle-addition identities
//!
//! > sin(Φ + ω) = sin Φ · cos ω + cos Φ · sin ω
//! >
//! > cos(Φ + ω) = cos Φ · cos ω − sin Φ · sin ω
//!
//! let each sample pair be derived from the previous one with four
//! multiplications, one addition and one subtraction, once `(sin ω, cos ω)`
//! and `(sin θ₀, cos θ₀)` have been computed at construction time. The
//! oscillator in [`osc`] is that recurrence; [`float::Float`] is the
//! arithmetic it runs on, kept abstract so one verified algorithm serves
//! single precision, double precision, or any other rounding carrier the
//! embedding supplies.
//!
//! Because every sample is built from the previous one by rounded arithmetic
//! rather than recomputed from t·ω, round-off compounds across advances and
//! the sample pair drifts slowly off the unit circle. That trade of long-run
//! accuracy for per-sample speed is deliberate and is preserved here: the
//! contracts pin each advance to exactly one application of the recurrence in
//! the carrier's own arithmetic, and no renormalization is ever inserted.

pub mod float;
pub mod osc;

pub use float::Float;
pub use osc::QuadOsc;
