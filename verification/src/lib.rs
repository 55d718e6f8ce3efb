//! Numerical methods for initial value problems of ordinary differential
//! equations: one-step and multistep drivers with pluggable step rules,
//! explicit Runge-Kutta methods given by a tableau, an embedded pair with
//! step size control, quadrature and Newton's method.
//!
//! Every routine is generic over the arithmetic it computes with, see
//! [`scalar::Scalar`], and is stated over the operations of that arithmetic.

/// The explicit methods of Adams and Bashforth.
pub mod adams_bashforth;
/// The tableaus of the named Runge-Kutta methods, as exact fractions.
pub mod butcher;
/// Functions to sample, problems, and operations on vectors.
pub mod definitions;
/// Embedded pairs of Runge-Kutta methods with control of the step size.
pub mod embedded_rk;
/// The explicit Euler method.
pub mod euler_explicit;
/// Explicit Runge-Kutta methods.
pub mod explicit_runge_kutta;
/// The linear system of the finite differences method.
pub mod finite_differences_method;
/// Fixed-point numbers as an arithmetic with proofs.
pub mod fixed;
/// The driver of the multistep methods.
pub mod generalized_explicit_k_step_method;
/// The driver of the one-step methods.
pub mod generalized_explicit_one_step_method;
/// Implicit multistep methods, solved by hand for single equations.
pub mod hack;
/// The implicit Euler method.
pub mod implicit_euler;
/// The predictor-corrector method of Milne and Simpson.
pub mod milne_simpson;
/// The explicit Euler method with the derivative of the right-hand side.
pub mod modified_explicit_euler;
/// Newton's method.
pub mod newton_method;
/// The explicit method of Nyström.
pub mod nystroem;
mod parallel;
/// Quadrature with several formulas.
pub mod quadrature;
/// The arithmetic that the methods compute with.
pub mod scalar;
/// Stability areas, sampled from stability functions.
pub mod stability_area;
/// Helpers for common computations.
pub mod util;
