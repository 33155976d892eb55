//! A worm: a body and the policy that routes its controller to its muscles.
use crate::config::{ConfigError, MappingPolicy};
use crate::mapping::{
    muscle_routes, routable, routes, routing_fault, validate_routing, MuscleRoute,
};
use crate::topology::{fits, link, triplet, triplets, wiring, Body, BodyView, Segment};
use vstd::prelude::*;

verus! {

/// One worm instance. Body, policy and neuron count change only through
/// the methods below, which keep them fit for each other.
pub struct WormController {
    body: Body,
    policy: MappingPolicy,
    neurons: usize,
}

/// The first reason, if any, for which no worm can be built from a
/// configuration.
pub open spec fn build_fault(policy: MappingPolicy, segments: nat, neurons: nat) -> Option<
    ConfigError,
> {
    match routing_fault(policy, segments as int, neurons as int) {
        Some(e) => Some(e),
        None => if fits(segments) {
            None
        } else {
            Some(ConfigError::TooManySegments)
        },
    }
}

impl WormController {
    /// The body of the worm.
    pub closed spec fn body_view(&self) -> BodyView {
        self.body@
    }

    /// Number of actuated segments.
    pub closed spec fn segment_total(&self) -> nat {
        self.body.links()
    }

    /// The policy chosen when the worm was built.
    pub closed spec fn mapping(&self) -> MappingPolicy {
        self.policy
    }

    /// Number of neurons that the muscles listen to.
    pub closed spec fn neuron_total(&self) -> nat {
        self.neurons as nat
    }

    /// The body is well formed and there is at least one neuron to listen
    /// to.
    pub closed spec fn wf(&self) -> bool {
        &&& self.body.wf()
        &&& routable(self.body.links() as int, self.neurons as int)
    }

    /// What `wf` promises, in terms of what callers can see.
    pub proof fn lemma_wf(&self)
        requires
            self.wf(),
        ensures
            fits(self.segment_total()),
            routable(self.segment_total() as int, self.neuron_total() as int),
            self.body_view().segments == triplets(self.segment_total() + 1),
            self.body_view().springs == wiring(self.segment_total()),
    {
    }

    /// Grows the body by one segment, wired as a built segment is. Nothing
    /// that exists changes, whatever the policy; growth fails only where the
    /// handles would no longer fit the machine's index type, and then the
    /// worm stays as it was.
    pub fn append_segment(&mut self) -> (r: Result<Segment<usize>, ConfigError>)
        requires
            old(self).wf(),
        ensures
            final(self).wf(),
            final(self).mapping() == old(self).mapping(),
            final(self).neuron_total() == old(self).neuron_total(),
            !fits(old(self).segment_total() + 1) ==> {
                &&& r == Err::<Segment<usize>, ConfigError>(ConfigError::TooManySegments)
                &&& final(self).body_view() == old(self).body_view()
                &&& final(self).segment_total() == old(self).segment_total()
            },
            fits(old(self).segment_total() + 1) ==> {
                &&& r == Ok::<Segment<usize>, ConfigError>(
                    triplet(old(self).segment_total() as int + 1),
                )
                &&& final(self).segment_total() == old(self).segment_total() + 1
                &&& final(self).body_view().segments == old(self).body_view().segments.push(
                    r.unwrap(),
                )
                &&& final(self).body_view().springs == old(self).body_view().springs + link(
                    r.unwrap(),
                    old(self).body_view().segments.last(),
                )
            },
    {
        self.body.append_segment()
    }

    /// Adds one neuron to those that the muscles listen to. Growth fails
    /// only where the neurons could no longer be counted, and then the worm
    /// stays as it was.
    pub fn grow_brain(&mut self) -> (r: Result<usize, ConfigError>)
        requires
            old(self).wf(),
        ensures
            final(self).wf(),
            final(self).mapping() == old(self).mapping(),
            final(self).body_view() == old(self).body_view(),
            final(self).segment_total() == old(self).segment_total(),
            old(self).neuron_total() + 1 > usize::MAX ==> r == Err::<usize, ConfigError>(
                ConfigError::TooManyNeurons,
            ) && final(self).neuron_total() == old(self).neuron_total(),
            old(self).neuron_total() + 1 <= usize::MAX ==> r == Ok::<usize, ConfigError>(
                (old(self).neuron_total() + 1) as usize,
            ) && final(self).neuron_total() == old(self).neuron_total() + 1,
    {
        if self.neurons == usize::MAX {
            return Err(ConfigError::TooManyNeurons);
        }
        self.neurons = self.neurons + 1;
        Ok(self.neurons)
    }

    /// Every muscle of the worm with the neuron that sets its rest length.
    pub fn muscle_routes(&self) -> (r: Vec<MuscleRoute>)
        requires
            self.wf(),
        ensures
            r@ == routes(self.mapping(), self.segment_total() as int, self.neuron_total() as int),
    {
        muscle_routes(&self.body, self.policy, self.neurons)
    }

    /// The body of the worm.
    pub fn body(&self) -> (b: &Body)
        ensures
            b@ == self.body_view(),
            self.wf() ==> b.wf() && b.links() == self.segment_total(),
    {
        &self.body
    }

    /// The policy chosen when the worm was built.
    pub fn policy(&self) -> (p: MappingPolicy)
        ensures
            p == self.mapping(),
    {
        self.policy
    }

    /// Number of neurons that the muscles listen to.
    pub fn neuron_count(&self) -> (n: usize)
        ensures
            n == self.neuron_total(),
    {
        self.neurons
    }
}

/// Builds a worm of `num_segments` actuated segments whose muscles listen to
/// `neurons` neurons under `policy`. A configuration that cannot work is
/// refused here, never during a tick.
pub fn worm_builder(num_segments: usize, neurons: usize, policy: MappingPolicy) -> (r: Result<
    WormController,
    ConfigError,
>)
    ensures
        match build_fault(policy, num_segments as nat, neurons as nat) {
            Some(e) => r matches Err(x) && x == e,
            None => {
                &&& r matches Ok(w) && w.wf() && w.segment_total() == num_segments
                    && w.neuron_total() == neurons && w.mapping() == policy
            },
        },
{
    match validate_routing(policy, num_segments, neurons) {
        Err(e) => Err(e),
        Ok(_) => match Body::build(num_segments) {
            Err(e) => Err(e),
            Ok(body) => Ok(WormController { body, policy, neurons }),
        },
    }
}

} // verus!
