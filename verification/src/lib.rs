//! Relativistic motion of a charged point particle through electric and
//! magnetic fields, in units where the speed of light is one.
//!
//! The kernel is written once, over any [`scalar::Scalar`]: a number type with
//! the four arithmetic operations and a square root. Every function states
//! which composition of scalar operations it returns. The laws of the kernel
//! (the identities of vector algebra, the rest mass that survives a round
//! trip and a step, the Lorentz factor that is at least one, the energy that
//! a magnetic field leaves alone) are proved for the inputs on which no
//! operation rounds.
//!
//! [`fixed::Fixed`] is a scalar that comes with the library: numbers in steps
//! of 2^-32, whose operations are verified against integer arithmetic. Double
//! precision is a scalar too; its implementation lives with the program that
//! uses it.

pub mod charged_particle;
pub mod fixed;
pub mod four_momentum;
pub mod real_vector;
pub mod reals;
pub mod scalar;
pub mod three_vector;
