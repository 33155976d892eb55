//! Structure and bookkeeping of a segmented soft-bodied worm driven by a
//! small recurrent neural oscillator.
//!
//! The crate holds everything about the worm that is exact: which nodes and
//! springs a body has and how they are wired, where a fresh body rests, which
//! neuron drives which muscle, in which order the stages of a tick run, how
//! growth is asked for, the figures that seed the oscillator, and the rolling
//! histories from which the adaptation reward is taken. All lengths are whole
//! numbers of quarter units. The host does the real-valued arithmetic
//! (forces, integration, neuron dynamics) on top of these answers.
use vstd::prelude::*;

pub mod brain;
pub mod config;
pub mod growth;
pub mod history;
pub mod mapping;
pub mod schedule;
pub mod topology;
pub mod tracker;
pub mod worm;

verus! {

/// Number of entries that every rolling history keeps at most.
pub const HISTORY_LENGTH: usize = 500;

} // verus!
