//! Discrete-time simulation of a planar single integrator that is steered
//! toward a goal by proportional feedback with a fixed gain of two.
//!
//! A run starts in a state `x[0]` and repeats two rules: the control law
//! `u[k] = 2 * (goal - x[k])` and the forward-Euler update
//! `x[k + 1] = x[k] + dt * u[k]`. [`simulate`] records every state of a run
//! in a [`Trajectory`], and [`archive_entries`] lays a trajectory out as the
//! three named arrays of its archive.
//!
//! Every real quantity is carried as a 64-bit word, the bit pattern of a
//! binary64 number. The library never looks inside a word. Floating-point
//! arithmetic is not modelled by the proofs, so the three scalar operations
//! are handed in by the caller as an [`Arithmetic`], and every contract is
//! stated relative to the operations it holds: which operation is applied to
//! which words, in which order, and where each result is stored.

pub mod arithmetic;
pub mod dynamics;
pub mod export;
mod grid;
pub mod laws;
pub mod simulation;
pub mod trajectory;
pub mod vector;

pub use arithmetic::Arithmetic;
pub use dynamics::{compute_control, update_state, GAIN};
pub use export::{archive_entries, ArchiveEntry, ArrayName};
pub use simulation::simulate;
pub use trajectory::{step_limit, Trajectory};
pub use vector::Vector2;
