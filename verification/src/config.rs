//! Choices made once, when a worm is built, and the ways they can be wrong.
use vstd::prelude::*;

verus! {

/// How neuron outputs reach the muscle springs. Exactly one policy is active
/// per worm.
#[derive(Clone, Copy, Debug, PartialEq, Eq, Structural)]
pub enum MappingPolicy {
    /// Consecutive segments walk through the neurons one by one and wrap.
    Cyclical,
    /// The body is cut into contiguous regions, one per neuron in order.
    Regional,
    /// An analytic travelling wave drives the muscles; no neuron is read.
    Frequency,
}

/// A configuration that no worm can be built from.
#[derive(Clone, Copy, Debug, PartialEq, Eq, Structural)]
pub enum ConfigError {
    /// The body would have no actuated segment.
    NoSegments,
    /// The controller would have no neuron.
    NoNeurons,
    /// The handles of the body would not fit the machine's index type.
    TooManySegments,
    /// The neurons could not be counted by the machine's index type.
    TooManyNeurons,
    /// A worm that starts out under regional mapping must split evenly
    /// among its neurons.
    UnevenRegions,
}

} // verus!
