//! The hand-tuned oscillator from which every controller starts.
//!
//! Two neurons are seeded with biases and weights that are known to swing in
//! a stable cycle; every further neuron starts neutral, so that growth never
//! disturbs what is already there. All figures are whole numbers of quarter
//! units.
use vstd::prelude::*;

verus! {

/// Neurons that carry hand-tuned figures.
pub const SEED_NEURONS: usize = 2;

/// Neurons of a freshly trained controller: the seed and one neutral neuron.
pub const TRAINED_NEURONS: usize = 3;

/// Shortest oscillation period of a seeded weight or bias, in quarter units.
pub const PERIOD_MIN: i32 = 24;

/// Longest oscillation period of a seeded weight or bias, in quarter units.
pub const PERIOD_MAX: i32 = 48;

/// Centre of the bias of neuron `i`, in quarter units.
pub open spec fn bias_of(i: int) -> int {
    if i == 0 {
        -11
    } else if i == 1 {
        -7
    } else {
        0
    }
}

/// Centre of the weight at place `(i, j)` of the weight table, in quarter
/// units: both seed neurons excite themselves, and the two cross weights
/// have opposite signs.
pub open spec fn weight_of(i: int, j: int) -> int {
    if i == j && 0 <= i < SEED_NEURONS {
        18
    } else if i == 0 && j == 1 {
        -4
    } else if i == 1 && j == 0 {
        4
    } else {
        0
    }
}

/// Centre of the bias with which neuron `i` starts.
pub fn seed_bias(i: usize) -> (q: i32)
    ensures
        q == bias_of(i as int),
{
    if i == 0 {
        -11
    } else if i == 1 {
        -7
    } else {
        0
    }
}

/// Centre with which the weight at place `(i, j)` of the weight table
/// starts.
pub fn seed_weight(i: usize, j: usize) -> (q: i32)
    ensures
        q == weight_of(i as int, j as int),
{
    if i == j && i < SEED_NEURONS {
        18
    } else if i == 0 && j == 1 {
        -4
    } else if i == 1 && j == 0 {
        4
    } else {
        0
    }
}

/// Whatever is not between two seed neurons starts neutral.
pub proof fn lemma_growth_is_neutral(i: int, j: int)
    requires
        i >= SEED_NEURONS || j >= SEED_NEURONS,
        0 <= i,
        0 <= j,
    ensures
        weight_of(i, j) == 0,
        i >= SEED_NEURONS ==> bias_of(i) == 0,
{
}

} // verus!
