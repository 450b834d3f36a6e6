//! Discrete core of a simulator for a periodically forced impact oscillator.
//!
//! The continuous side of the model (closed-form motion between collisions,
//! phase arithmetic, root finding) lives in floating point and is carried out
//! by the host program.  What is verified here is everything the model
//! decides rather than measures: which configuration constraints are
//! violated, when a zero-velocity impact is pinned by the obstacle, how the
//! bisection search reacts to each probe, when a run of low-velocity impacts
//! counts as chatter, and the bookkeeping around parameter metadata.

pub mod chatter;
pub mod greetings;
pub mod indexing;
pub mod motion;
pub mod parameters;
pub mod properties;
pub mod sticking;
