//! Requests to grow a worm, and the clock that files them while a worm
//! develops. The counts only rise: who carries growth out is the host's
//! affair.
use vstd::prelude::*;

verus! {

/// Ticks of the development clock between two rounds of growth.
pub const DEVO_PERIOD: i32 = 60;

/// Count of the growth that has been asked for.
#[derive(Clone, Copy, Debug, PartialEq, Eq, Structural)]
pub struct Adder {
    /// Segments asked for.
    pub segment: usize,
    /// Neurons asked for.
    pub neuron: usize,
}

/// One more, unless the count is at the top of its range.
pub open spec fn one_more(count: usize) -> usize {
    if count < usize::MAX {
        (count + 1) as usize
    } else {
        count
    }
}

/// Whether a round of growth is due at `now` when the last one was filed at
/// `last`.
pub open spec fn devo_due(last: int, now: int) -> bool {
    now > last + DEVO_PERIOD
}

impl Adder {
    /// Nothing asked for.
    pub fn new() -> (a: Adder)
        ensures
            a == (Adder { segment: 0, neuron: 0 }),
    {
        Adder { segment: 0, neuron: 0 }
    }

    /// Asks for one more segment.
    pub fn request_segment(&mut self)
        ensures
            *final(self) == (Adder { segment: one_more(old(self).segment), ..*old(self) }),
    {
        if self.segment < usize::MAX {
            self.segment = self.segment + 1;
        }
    }

    /// Asks for one more neuron.
    pub fn request_neuron(&mut self)
        ensures
            *final(self) == (Adder { neuron: one_more(old(self).neuron), ..*old(self) }),
    {
        if self.neuron < usize::MAX {
            self.neuron = self.neuron + 1;
        }
    }
}

/// Files the growth that development asks for. Once more than `DEVO_PERIOD`
/// ticks have passed since `last`, one neuron is asked for if the brain
/// develops and one segment if the body does, and the clock moves on by one
/// period; otherwise nothing changes. Returns the time of the last round.
pub fn devo_timer(adder: &mut Adder, last: i32, now: i32, brain: bool, body: bool) -> (next: i32)
    ensures
        !devo_due(last as int, now as int) ==> next == last && *final(adder) == *old(adder),
        devo_due(last as int, now as int) ==> next == last + DEVO_PERIOD && *final(adder) == (
        Adder {
            segment: if body {
                one_more(old(adder).segment)
            } else {
                old(adder).segment
            },
            neuron: if brain {
                one_more(old(adder).neuron)
            } else {
                old(adder).neuron
            },
        }),
{
    if last <= i32::MAX - DEVO_PERIOD && now > last + DEVO_PERIOD {
        if brain {
            adder.request_neuron();
        }
        if body {
            adder.request_segment();
        }
        last + DEVO_PERIOD
    } else {
        last
    }
}

} // verus!
