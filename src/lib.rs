//! An exclusive-ownership smart pointer with a pluggable destruction strategy.
//!
//! A [`UniquePtr`] owns at most one boxed value. The value it holds is handed to
//! its [`Destroyer`] exactly once: when the owner is reset, or when the owner is
//! disposed of. Releasing the value (or converting the owner into its raw box)
//! moves the responsibility to the caller instead. An owner that simply goes
//! out of scope frees its box the way the default strategy does.
//!
//! Each destroyer reports, as a specification, the sequence of values it has
//! destroyed so far. Every contract of the owner is phrased over that sequence
//! and over the value currently held, which makes "destroyed exactly once"
//! something Verus can check.

mod destroyer;
mod laws;
mod owner;

pub use destroyer::{DefaultDelete, Destroyer};
pub use laws::{
    lemma_empty_is_inert, lemma_raw_round_trip, lemma_release_suppresses_destruction,
    lemma_reset_destroys_old, lemma_single_destruction, lemma_swap_preserves_exclusivity,
};
pub use owner::{held_seq, UniquePtr};
