//! Which neuron drives which muscle.
//!
//! Actuated segments are numbered from 1. A policy picks, for each of them,
//! the neuron whose output sets the rest length of its two muscles.
use crate::config::{ConfigError, MappingPolicy};
use crate::topology::{
    fits, lemma_muscle_of_segment, muscle_slot, wiring, Body, Control, Side, SpringKind,
    HEAD_SPRINGS, LINK_SPRINGS,
};
use vstd::arithmetic::div_mod::{
    lemma_div_by_multiple,
    lemma_div_denominator,
    lemma_div_is_ordered,
    lemma_fundamental_div_mod,
    lemma_fundamental_div_mod_converse,
    lemma_mod_add_multiples_vanish,
    lemma_mod_bound,
    lemma_small_mod,
};
use vstd::prelude::*;

verus! {

/// Cyclical choice: neighbouring segments take neighbouring neurons, and the
/// walk wraps round after the last neuron.
pub open spec fn cyclical_neuron(segment: int, neurons: int) -> int {
    (segment - 1) % neurons
}

/// Regional choice: the body is cut into contiguous regions of as equal a
/// length as the counts allow, one per neuron in order; a segment listens to
/// the neuron at the same share of the way through the neurons as the
/// segment is through the body.
pub open spec fn regional_neuron(segment: int, segments: int, neurons: int) -> int {
    ((segment - 1) * neurons) / segments
}

/// Whether a body of `segments` actuated segments can listen to `neurons`
/// neurons at all.
pub open spec fn routable(segments: int, neurons: int) -> bool {
    segments >= 1 && neurons >= 1
}

/// Whether `segments` segments split into `neurons` regions of one length.
pub open spec fn even_split(segments: int, neurons: int) -> bool {
    routable(segments, neurons) && segments % neurons == 0
}

/// Segments that share one neuron under an even split.
pub open spec fn block_length(segments: int, neurons: int) -> int {
    segments / neurons
}

/// The neuron that `policy` gives to `segment`; the analytic wave reads none.
pub open spec fn neuron_for(
    policy: MappingPolicy,
    segment: int,
    segments: int,
    neurons: int,
) -> Option<int> {
    match policy {
        MappingPolicy::Cyclical => Some(cyclical_neuron(segment, neurons)),
        MappingPolicy::Regional => Some(regional_neuron(segment, segments, neurons)),
        MappingPolicy::Frequency => None,
    }
}

/// The first reason, if any, for which no worm is built with `policy`,
/// `segments` segments and `neurons` neurons: a worm that starts out under
/// the regional policy must split evenly.
pub open spec fn routing_fault(policy: MappingPolicy, segments: int, neurons: int) -> Option<
    ConfigError,
> {
    if segments == 0 {
        Some(ConfigError::NoSegments)
    } else if neurons == 0 {
        Some(ConfigError::NoNeurons)
    } else if policy == MappingPolicy::Regional && segments % neurons != 0 {
        Some(ConfigError::UnevenRegions)
    } else {
        None
    }
}

/// Validates a pairing of body and controller before anything is built.
/// Later growth is not held to the even split: the regional choice is
/// defined for every body and every number of neurons.
pub fn validate_routing(policy: MappingPolicy, segments: usize, neurons: usize) -> (r: Result<
    (),
    ConfigError,
>)
    ensures
        r == match routing_fault(policy, segments as int, neurons as int) {
            Some(e) => Err::<(), ConfigError>(e),
            None => Ok::<(), ConfigError>(()),
        },
        r.is_ok() <==> routable(segments as int, neurons as int) && (policy
            == MappingPolicy::Regional ==> even_split(segments as int, neurons as int)),
{
    if segments == 0 {
        return Err(ConfigError::NoSegments);
    }
    if neurons == 0 {
        return Err(ConfigError::NoNeurons);
    }
    match policy {
        MappingPolicy::Regional => {
            if segments % neurons != 0 {
                return Err(ConfigError::UnevenRegions);
            }
        },
        _ => {},
    }
    Ok(())
}

/// The regional choice is always a neuron that exists.
pub proof fn lemma_regional_in_range(segment: int, segments: int, neurons: int)
    requires
        routable(segments, neurons),
        1 <= segment <= segments,
    ensures
        0 <= regional_neuron(segment, segments, neurons) < neurons,
{
    let x = (segment - 1) * neurons;
    let q = x / segments;
    lemma_fundamental_div_mod(x, segments);
    lemma_mod_bound(x, segments);
    assert(0 <= x < segments * neurons) by (nonlinear_arith)
        requires
            1 <= segment <= segments,
            neurons >= 1,
            x == (segment - 1) * neurons,
    ;
    assert(0 <= q < neurons) by (nonlinear_arith)
        requires
            x == segments * q + (x % segments),
            0 <= x % segments < segments,
            0 <= x < segments * neurons,
    ;
}

/// Regions are contiguous and follow the order of the neurons: further down
/// the body the chosen neuron never comes earlier.
pub proof fn lemma_regional_in_order(first: int, second: int, segments: int, neurons: int)
    requires
        routable(segments, neurons),
        1 <= first <= second,
    ensures
        regional_neuron(first, segments, neurons) <= regional_neuron(second, segments, neurons),
{
    assert((first - 1) * neurons <= (second - 1) * neurons) by (nonlinear_arith)
        requires
            first <= second,
            neurons >= 1,
    ;
    lemma_div_is_ordered((first - 1) * neurons, (second - 1) * neurons, segments);
}

/// Under an even split every block holds at least one segment, and the
/// blocks together hold all of them.
pub proof fn lemma_block_length(segments: int, neurons: int)
    requires
        even_split(segments, neurons),
    ensures
        block_length(segments, neurons) >= 1,
        block_length(segments, neurons) * neurons == segments,
{
    let b = segments / neurons;
    lemma_fundamental_div_mod(segments, neurons);
    assert(neurons * b == segments);
    assert(b >= 1) by (nonlinear_arith)
        requires
            neurons * b == segments,
            segments >= 1,
            neurons >= 1,
    ;
    assert(b * neurons == segments) by (nonlinear_arith)
        requires
            neurons * b == segments,
    ;
}

/// Under an even split the regional choice is the number of the block in
/// which the segment lies.
pub proof fn lemma_regional_is_blockwise(segment: int, segments: int, neurons: int)
    requires
        even_split(segments, neurons),
        1 <= segment <= segments,
    ensures
        regional_neuron(segment, segments, neurons) == (segment - 1) / block_length(
            segments,
            neurons,
        ),
{
    let b = block_length(segments, neurons);
    lemma_block_length(segments, neurons);
    lemma_div_by_multiple(segment - 1, neurons);
    assert((segment - 1) * neurons >= 0) by (nonlinear_arith)
        requires
            segment >= 1,
            neurons >= 1,
    ;
    lemma_div_denominator((segment - 1) * neurons, neurons, b);
    assert(neurons * b == segments) by (nonlinear_arith)
        requires
            b * neurons == segments,
    ;
}

/// Under an even split the body is cut into blocks of one length: a segment
/// listens to neuron `k` exactly when it lies in block `k`.
pub proof fn lemma_regional_blocks(segment: int, segments: int, neurons: int, k: int)
    requires
        even_split(segments, neurons),
        1 <= segment <= segments,
    ensures
        regional_neuron(segment, segments, neurons) == k <==> k * block_length(segments, neurons)
            < segment <= (k + 1) * block_length(segments, neurons),
{
    let b = block_length(segments, neurons);
    lemma_block_length(segments, neurons);
    lemma_regional_is_blockwise(segment, segments, neurons);
    let q = (segment - 1) / b;
    let r = (segment - 1) % b;
    lemma_fundamental_div_mod(segment - 1, b);
    lemma_mod_bound(segment - 1, b);
    assert(b * q == q * b) by (nonlinear_arith);
    if k * b < segment <= (k + 1) * b {
        assert((k + 1) * b == k * b + b) by (nonlinear_arith);
        lemma_fundamental_div_mod_converse(segment - 1, b, k, segment - 1 - k * b);
    }
    if q == k {
        assert((k + 1) * b == k * b + b) by (nonlinear_arith);
    }
}

/// Whether some actuated segment of a body of `segments` segments listens to
/// neuron `k` under the cyclical policy.
pub open spec fn cyclical_reaches(k: int, neurons: int, segments: int) -> bool {
    exists|segment: int|
        1 <= segment <= segments && #[trigger] cyclical_neuron(segment, neurons) == k
}

/// With at least as many segments as neurons, the cyclical policy leaves no
/// neuron unused.
pub proof fn lemma_cyclical_covers(neurons: int, segments: int)
    requires
        neurons >= 1,
        segments >= neurons,
    ensures
        forall|k: int| 0 <= k < neurons ==> #[trigger] cyclical_reaches(k, neurons, segments),
{
    assert forall|k: int| 0 <= k < neurons implies #[trigger] cyclical_reaches(
        k,
        neurons,
        segments,
    ) by {
        lemma_small_mod(k as nat, neurons as nat);
        assert(cyclical_neuron(k + 1, neurons) == k);
    }
}

/// The cyclical walk repeats after one round through the neurons.
pub proof fn lemma_cyclical_wraps(segment: int, neurons: int)
    requires
        segment >= 1,
        neurons >= 1,
    ensures
        cyclical_neuron(segment + neurons, neurons) == cyclical_neuron(segment, neurons),
{
    lemma_mod_add_multiples_vanish(segment - 1, neurons);
}

/// Whether some actuated segment of a body of `segments` segments listens to
/// neuron `k` under the regional policy.
pub open spec fn regional_reaches(k: int, neurons: int, segments: int) -> bool {
    exists|segment: int|
        1 <= segment <= segments && #[trigger] regional_neuron(segment, segments, neurons) == k
}

/// With at least as many segments as neurons, the regional policy leaves no
/// neuron unused, whether the split is even or not.
pub proof fn lemma_regional_covers(neurons: int, segments: int)
    requires
        neurons >= 1,
        segments >= neurons,
    ensures
        forall|k: int| 0 <= k < neurons ==> #[trigger] regional_reaches(k, neurons, segments),
{
    assert forall|k: int| 0 <= k < neurons implies #[trigger] regional_reaches(
        k,
        neurons,
        segments,
    ) by {
        // The first segment whose share of the body reaches neuron `k`.
        let top = k * segments + neurons - 1;
        let x = top / neurons;
        lemma_fundamental_div_mod(top, neurons);
        lemma_mod_bound(top, neurons);
        assert(k * segments >= 0) by (nonlinear_arith)
            requires
                k >= 0,
                segments >= 1,
        ;
        assert(k * segments <= x * neurons < k * segments + neurons) by (nonlinear_arith)
            requires
                top == neurons * x + (top % neurons),
                0 <= top % neurons < neurons,
                top == k * segments + neurons - 1,
        ;
        assert(0 <= x < segments) by (nonlinear_arith)
            requires
                0 <= k * segments <= x * neurons,
                x * neurons < k * segments + neurons,
                0 <= k < neurons,
                1 <= neurons <= segments,
        ;
        let q = (x * neurons) / segments;
        lemma_fundamental_div_mod(x * neurons, segments);
        lemma_mod_bound(x * neurons, segments);
        assert(q == k) by (nonlinear_arith)
            requires
                x * neurons == segments * q + ((x * neurons) % segments),
                0 <= (x * neurons) % segments < segments,
                k * segments <= x * neurons,
                x * neurons < k * segments + neurons,
                1 <= neurons <= segments,
        ;
        assert(regional_neuron(x + 1, segments, neurons) == k);
    }
}

/// The cyclical choice is always a neuron that exists.
pub proof fn lemma_cyclical_in_range(segment: int, neurons: int)
    requires
        segment >= 1,
        neurons >= 1,
    ensures
        0 <= cyclical_neuron(segment, neurons) < neurons,
{
    lemma_mod_bound(segment - 1, neurons);
}

/// Picks the neuron that drives `segment`, if the policy reads neurons.
pub fn select_neuron(policy: MappingPolicy, segment: usize, segments: usize, neurons: usize) -> (k:
    Option<usize>)
    requires
        routable(segments as int, neurons as int),
        1 <= segment,
        policy == MappingPolicy::Regional ==> segment <= segments,
    ensures
        k.is_some() ==> k.unwrap() < neurons,
        match neuron_for(policy, segment as int, segments as int, neurons as int) {
            Some(n) => k == Some(n as usize),
            None => k.is_none(),
        },
{
    match policy {
        MappingPolicy::Cyclical => {
            proof {
                lemma_cyclical_in_range(segment as int, neurons as int);
            }
            Some((segment - 1) % neurons)
        },
        MappingPolicy::Regional => {
            let along: u128 = (segment - 1) as u128;
            let count: u128 = neurons as u128;
            proof {
                lemma_regional_in_range(segment as int, segments as int, neurons as int);
                assert(along * count <= 0xffff_ffff_ffff_ffff * 0xffff_ffff_ffff_ffff)
                    by (nonlinear_arith)
                    requires
                        0 <= along <= 0xffff_ffff_ffff_ffff,
                        0 <= count <= 0xffff_ffff_ffff_ffff,
                ;
            }
            let share: u128 = along * count / (segments as u128);
            Some(share as usize)
        },
        MappingPolicy::Frequency => None,
    }
}

/// One muscle with the neuron that sets its rest length.
#[derive(Clone, Copy, Debug, PartialEq, Eq, Structural)]
pub struct MuscleRoute {
    /// Position of the muscle among the springs of the body.
    pub spring: usize,
    /// The tag of the muscle.
    pub control: Control,
    /// The neuron to read, unless the policy reads none.
    pub neuron: Option<usize>,
}

/// Route number `j` of a body: the muscles come segment by segment, the left
/// one before the right one.
pub open spec fn route_at(policy: MappingPolicy, segments: int, neurons: int, j: int) -> MuscleRoute {
    let segment = j / 2 + 1;
    let side = if j % 2 == 0 {
        Side::Left
    } else {
        Side::Right
    };
    MuscleRoute {
        spring: muscle_slot(segment, side) as usize,
        control: Control { index: segment as usize, side },
        neuron: match neuron_for(policy, segment, segments, neurons) {
            Some(n) => Some(n as usize),
            None => None,
        },
    }
}

/// All routes of a body of `segments` actuated segments.
pub open spec fn routes(policy: MappingPolicy, segments: int, neurons: int) -> Seq<MuscleRoute> {
    Seq::new((2 * segments) as nat, |j: int| route_at(policy, segments, neurons, j))
}

/// Every route points at a muscle of the body, and at the one whose tag it
/// carries; a route that names a neuron names one that exists.
pub proof fn lemma_route_names_muscle(policy: MappingPolicy, segments: int, neurons: int, j: int)
    requires
        routable(segments, neurons),
        fits(segments as nat),
        0 <= j < 2 * segments,
    ensures
        0 <= route_at(policy, segments, neurons, j).spring < wiring(segments as nat).len(),
        wiring(segments as nat)[route_at(policy, segments, neurons, j).spring as int].kind
            == SpringKind::Muscle(route_at(policy, segments, neurons, j).control),
        route_at(policy, segments, neurons, j).neuron matches Some(k) ==> k < neurons,
{
    let segment = j / 2 + 1;
    let side = if j % 2 == 0 {
        Side::Left
    } else {
        Side::Right
    };
    lemma_muscle_of_segment(segments as nat, segment, side);
    match policy {
        MappingPolicy::Cyclical => {
            lemma_cyclical_in_range(segment, neurons);
        },
        MappingPolicy::Regional => {
            lemma_regional_in_range(segment, segments, neurons);
        },
        MappingPolicy::Frequency => {},
    }
}

/// Lists every muscle of `body` with the neuron that `policy` gives it.
pub fn muscle_routes(body: &Body, policy: MappingPolicy, neurons: usize) -> (r: Vec<MuscleRoute>)
    requires
        body.wf(),
        routable(body.links() as int, neurons as int),
    ensures
        r@ == routes(policy, body.links() as int, neurons as int),
{
    let segments: usize = body.segment_count();
    let mut out: Vec<MuscleRoute> = Vec::new();
    let mut segment: usize = 1;
    while segment <= segments
        invariant
            1 <= segment <= segments + 1,
            segments == body.links(),
            body.wf(),
            routable(segments as int, neurons as int),
            out@.len() == 2 * (segment - 1),
            forall|j: int|
                0 <= j < out@.len() ==> out@[j] == route_at(
                    policy,
                    segments as int,
                    neurons as int,
                    j,
                ),
        decreases segments + 1 - segment,
    {
        let neuron: Option<usize> = select_neuron(policy, segment, segments, neurons);
        let base: usize = HEAD_SPRINGS + LINK_SPRINGS * (segment - 1);
        out.push(
            MuscleRoute {
                spring: base + 6,
                control: Control { index: segment, side: Side::Left },
                neuron,
            },
        );
        out.push(
            MuscleRoute {
                spring: base + 7,
                control: Control { index: segment, side: Side::Right },
                neuron,
            },
        );
        segment += 1;
    }
    assert(out@ =~= routes(policy, segments as int, neurons as int));
    out
}

} // verus!
