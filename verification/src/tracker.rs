//! Rolling record of what the controller did, from which the reward for
//! weight adaptation is taken.
//!
//! The tracker stores samples and decides what enters and what leaves; the
//! samples themselves are computed by the host, whose number type `T` the
//! tracker never inspects.
use crate::history::{pushed, History};
use crate::HISTORY_LENGTH;
use vstd::prelude::*;

verus! {

/// Figures of one neuron for one tick.
#[derive(Clone, Copy, Debug, PartialEq)]
pub struct NeuronSample<T> {
    /// Change of the output since the tick before.
    pub activity: T,
    /// Running sum of the activity.
    pub fitness_sum: T,
    /// Fitness of this tick.
    pub fitness: T,
    /// Running sum of the fitness.
    pub avg_fitness_sum: T,
}

/// What one neuron reports for one tick: its own figures, and centre and
/// value of every synapse that feeds it, the pair at place `j` coming from
/// neuron `j`.
#[derive(Clone, Debug, PartialEq)]
pub struct NeuronTick<T> {
    pub sample: NeuronSample<T>,
    pub flux: Vec<(T, T)>,
}

/// What a tracker holds, oldest entries first.
pub struct TrackerView<T> {
    /// Output vectors of the last ticks.
    pub outputs: Seq<Vec<T>>,
    /// Per synapse `[to][from]`, the last pairs of centre and value.
    pub flux: Seq<Seq<Seq<(T, T)>>>,
    /// Per neuron, the last activities.
    pub activity: Seq<Seq<T>>,
    /// Per neuron, the last fitness values.
    pub fitness: Seq<Seq<T>>,
    /// Per neuron, the running sum of activity.
    pub fitness_sum: Seq<T>,
    /// Per neuron, the running sum of fitness.
    pub avg_fitness_sum: Seq<T>,
}

impl<T> TrackerView<T> {
    /// Number of neurons that have a record.
    pub open spec fn neurons(self) -> nat {
        self.activity.len()
    }

    /// Every per-neuron table has one row per neuron, and no window holds
    /// more than `HISTORY_LENGTH` entries.
    pub open spec fn wf(self) -> bool {
        &&& self.outputs.len() <= HISTORY_LENGTH
        &&& self.flux.len() == self.neurons()
        &&& self.fitness.len() == self.neurons()
        &&& self.fitness_sum.len() == self.neurons()
        &&& self.avg_fitness_sum.len() == self.neurons()
        &&& forall|i: int|
            0 <= i < self.activity.len() ==> (#[trigger] self.activity[i]).len() <= HISTORY_LENGTH
        &&& forall|i: int|
            0 <= i < self.fitness.len() ==> (#[trigger] self.fitness[i]).len() <= HISTORY_LENGTH
        &&& forall|i: int, j: int|
            0 <= i < self.flux.len() && 0 <= j < self.flux[i].len() ==> (
            #[trigger] self.flux[i][j]).len() <= HISTORY_LENGTH
    }

    /// The record after the outputs of a tick arrive.
    pub open spec fn with_outputs(self, outputs: Vec<T>) -> Self {
        TrackerView { outputs: pushed(self.outputs, outputs), ..self }
    }

    /// The record after neuron `to` reports a tick. A neuron one past the
    /// last known one gets fresh, empty windows first.
    pub open spec fn with_neuron(self, to: int, sample: NeuronSample<T>) -> Self {
        let fresh = to == self.neurons();
        let activity = if fresh {
            self.activity.push(Seq::empty())
        } else {
            self.activity
        };
        let fitness = if fresh {
            self.fitness.push(Seq::empty())
        } else {
            self.fitness
        };
        TrackerView {
            outputs: self.outputs,
            flux: if fresh {
                self.flux.push(Seq::empty())
            } else {
                self.flux
            },
            activity: activity.update(to, pushed(activity[to], sample.activity)),
            fitness: fitness.update(to, pushed(fitness[to], sample.fitness)),
            fitness_sum: if fresh {
                self.fitness_sum.push(sample.fitness_sum)
            } else {
                self.fitness_sum.update(to, sample.fitness_sum)
            },
            avg_fitness_sum: if fresh {
                self.avg_fitness_sum.push(sample.avg_fitness_sum)
            } else {
                self.avg_fitness_sum.update(to, sample.avg_fitness_sum)
            },
        }
    }

    /// The record after the synapse from `from` to `to` reports its centre
    /// and value. A synapse one past the last known one of its row gets a
    /// fresh, empty window first.
    pub open spec fn with_flux(self, to: int, from: int, pair: (T, T)) -> Self {
        let row = if from == self.flux[to].len() {
            self.flux[to].push(Seq::empty())
        } else {
            self.flux[to]
        };
        TrackerView { flux: self.flux.update(to, row.update(from, pushed(row[from], pair))), ..self }
    }

    /// The two figures from which the reward of neuron `to` is taken: its
    /// latest fitness and the running sum of its fitness. A figure that is
    /// not on record is missing.
    pub open spec fn reward_operands(self, to: int) -> (Option<T>, Option<T>) {
        (
            if 0 <= to < self.fitness.len() && self.fitness[to].len() > 0 {
                Some(self.fitness[to].last())
            } else {
                None
            },
            if 0 <= to < self.avg_fitness_sum.len() {
                Some(self.avg_fitness_sum[to])
            } else {
                None
            },
        )
    }

    /// Window `i` of `windows`, or an empty window where there is none yet.
    pub open spec fn window_or_empty<A>(windows: Seq<Seq<A>>, i: int) -> Seq<A> {
        if 0 <= i < windows.len() {
            windows[i]
        } else {
            Seq::empty()
        }
    }

    /// The synapse windows of one neuron after the synapses report `pairs`,
    /// the pair at place `j` coming from neuron `j`. Synapses that are new
    /// get fresh windows; synapses that did not report keep theirs.
    pub open spec fn flux_row(row: Seq<Seq<(T, T)>>, pairs: Seq<(T, T)>) -> Seq<Seq<(T, T)>> {
        Seq::new(
            if pairs.len() > row.len() {
                pairs.len()
            } else {
                row.len()
            },
            |j: int|
                if j < pairs.len() {
                    pushed(Self::window_or_empty(row, j), pairs[j])
                } else {
                    row[j]
                },
        )
    }

    /// Number of neurons on record after `reports` neurons have reported.
    pub open spec fn neurons_after(self, reports: nat) -> nat {
        if reports > self.neurons() {
            reports
        } else {
            self.neurons()
        }
    }

    /// The record after the neurons `0 .. ticks.len()` report a tick, each
    /// with the synapses that feed it. Neurons that are new get fresh
    /// windows; neurons that did not report keep theirs.
    pub open spec fn with_tick(self, ticks: Seq<NeuronTick<T>>) -> Self {
        let n = self.neurons_after(ticks.len());
        TrackerView {
            outputs: self.outputs,
            flux: Seq::new(
                n,
                |i: int|
                    if i < ticks.len() {
                        Self::flux_row(
                            if i < self.flux.len() {
                                self.flux[i]
                            } else {
                                Seq::empty()
                            },
                            ticks[i].flux@,
                        )
                    } else {
                        self.flux[i]
                    },
            ),
            activity: Seq::new(
                n,
                |i: int|
                    if i < ticks.len() {
                        pushed(Self::window_or_empty(self.activity, i), ticks[i].sample.activity)
                    } else {
                        self.activity[i]
                    },
            ),
            fitness: Seq::new(
                n,
                |i: int|
                    if i < ticks.len() {
                        pushed(Self::window_or_empty(self.fitness, i), ticks[i].sample.fitness)
                    } else {
                        self.fitness[i]
                    },
            ),
            fitness_sum: Seq::new(
                n,
                |i: int|
                    if i < ticks.len() {
                        ticks[i].sample.fitness_sum
                    } else {
                        self.fitness_sum[i]
                    },
            ),
            avg_fitness_sum: Seq::new(
                n,
                |i: int|
                    if i < ticks.len() {
                        ticks[i].sample.avg_fitness_sum
                    } else {
                        self.avg_fitness_sum[i]
                    },
            ),
        }
    }

    /// The two latest outputs of neuron `to`, newest first: nothing while
    /// fewer than two ticks are on record, and within the pair nothing for a
    /// tick in which the neuron did not exist yet.
    pub open spec fn latest_pair(self, to: int) -> Option<(Option<T>, Option<T>)> {
        if self.outputs.len() < 2 {
            None
        } else {
            let now = self.outputs[self.outputs.len() - 1]@;
            let before = self.outputs[self.outputs.len() - 2]@;
            Some(
                (
                    if to < now.len() {
                        Some(now[to])
                    } else {
                        None
                    },
                    if to < before.len() {
                        Some(before[to])
                    } else {
                        None
                    },
                ),
            )
        }
    }
}

/// The rolling histories of one worm.
pub struct Tracker<T> {
    output_history: History<Vec<T>>,
    flux_history: Vec<Vec<History<(T, T)>>>,
    activity_history: Vec<History<T>>,
    fitness_history: Vec<History<T>>,
    fitness_sum: Vec<T>,
    avg_fitness_sum: Vec<T>,
}

impl<T> View for Tracker<T> {
    type V = TrackerView<T>;

    closed spec fn view(&self) -> TrackerView<T> {
        TrackerView {
            outputs: self.output_history@,
            flux: Seq::new(
                self.flux_history@.len(),
                |i: int|
                    Seq::new(
                        self.flux_history@[i]@.len(),
                        |j: int| self.flux_history@[i]@[j]@,
                    ),
            ),
            activity: Seq::new(self.activity_history@.len(), |i: int| self.activity_history@[i]@),
            fitness: Seq::new(self.fitness_history@.len(), |i: int| self.fitness_history@[i]@),
            fitness_sum: self.fitness_sum@,
            avg_fitness_sum: self.avg_fitness_sum@,
        }
    }
}

impl<T: Copy> Tracker<T> {
    /// A tracker with nothing on record.
    pub fn new() -> (t: Self)
        ensures
            t@.wf(),
            t@.outputs == Seq::<Vec<T>>::empty(),
            t@.neurons() == 0,
    {
        Tracker {
            output_history: History::new(),
            flux_history: Vec::new(),
            activity_history: Vec::new(),
            fitness_history: Vec::new(),
            fitness_sum: Vec::new(),
            avg_fitness_sum: Vec::new(),
        }
    }

    /// Records the outputs of a tick.
    pub fn push_outputs(&mut self, outputs: Vec<T>)
        requires
            old(self)@.wf(),
        ensures
            final(self)@ == old(self)@.with_outputs(outputs),
            final(self)@.wf(),
    {
        self.output_history.push(outputs);
    }

    /// The two latest outputs of neuron `to`, from which its activity is
    /// taken.
    pub fn latest_pair(&self, to: usize) -> (r: Option<(Option<T>, Option<T>)>)
        ensures
            r == self@.latest_pair(to as int),
    {
        let n: usize = self.output_history.len();
        if n < 2 {
            return None;
        }
        let now: Option<T> = match self.output_history.get(n - 1) {
            Some(v) => if to < v.len() {
                Some(v[to])
            } else {
                None
            },
            None => None,
        };
        let before: Option<T> = match self.output_history.get(n - 2) {
            Some(v) => if to < v.len() {
                Some(v[to])
            } else {
                None
            },
            None => None,
        };
        Some((now, before))
    }

    /// Records the figures of neuron `to` for a tick.
    pub fn record_neuron(&mut self, to: usize, sample: NeuronSample<T>)
        requires
            old(self)@.wf(),
            to <= old(self)@.neurons(),
        ensures
            final(self)@ == old(self)@.with_neuron(to as int, sample),
            final(self)@.wf(),
    {
        if to >= self.activity_history.len() {
            self.flux_history.push(Vec::new());
            self.activity_history.push(History::new());
            self.fitness_history.push(History::new());
            self.fitness_sum.push(sample.fitness_sum);
            self.avg_fitness_sum.push(sample.avg_fitness_sum);
        }
        proof {
            if to < old(self)@.neurons() {
                assert(old(self)@.activity[to as int].len() <= HISTORY_LENGTH);
                assert(old(self)@.fitness[to as int].len() <= HISTORY_LENGTH);
            }
        }
        self.activity_history[to].push(sample.activity);
        self.fitness_history[to].push(sample.fitness);
        self.fitness_sum[to] = sample.fitness_sum;
        self.avg_fitness_sum[to] = sample.avg_fitness_sum;
        proof {
            let want = old(self)@.with_neuron(to as int, sample);
            assert(self@.activity =~= want.activity);
            assert(self@.fitness =~= want.fitness);
            assert(self@.fitness_sum =~= want.fitness_sum);
            assert(self@.avg_fitness_sum =~= want.avg_fitness_sum);
            assert(self@.flux =~~= want.flux);
        }
    }

    /// Records centre and value of the synapse from `from` to `to` for a
    /// tick.
    pub fn record_flux(&mut self, to: usize, from: usize, center: T, value: T)
        requires
            old(self)@.wf(),
            to < old(self)@.neurons(),
            from <= old(self)@.flux[to as int].len(),
        ensures
            final(self)@ == old(self)@.with_flux(to as int, from as int, (center, value)),
            final(self)@.wf(),
    {
        if from >= self.flux_history[to].len() {
            self.flux_history[to].push(History::new());
        }
        proof {
            if from < old(self)@.flux[to as int].len() {
                assert(old(self)@.flux[to as int][from as int].len() <= HISTORY_LENGTH);
            }
        }
        self.flux_history[to][from].push((center, value));
        proof {
            let want = old(self)@.with_flux(to as int, from as int, (center, value));
            assert(self@.activity =~= want.activity);
            assert(self@.fitness =~= want.fitness);
            assert(self@.flux =~~= want.flux);
        }
    }

    /// Records a whole tick: the figures of the neurons `0 .. ticks.len()`
    /// and of the synapses that feed them, in that order.
    pub fn record_tick(&mut self, ticks: &Vec<NeuronTick<T>>)
        requires
            old(self)@.wf(),
        ensures
            final(self)@ == old(self)@.with_tick(ticks@),
            final(self)@.wf(),
    {
        let ghost start = self@;
        let ghost want = start.with_tick(ticks@);
        let mut to: usize = 0;
        while to < ticks.len()
            invariant
                to <= ticks.len(),
                start.wf(),
                want == start.with_tick(ticks@),
                self@.wf(),
                self@.outputs == start.outputs,
                self@.neurons() == start.neurons_after(to as nat),
                forall|i: int| 0 <= i < to ==> #[trigger] self@.activity[i] == want.activity[i],
                forall|i: int| 0 <= i < to ==> #[trigger] self@.fitness[i] == want.fitness[i],
                forall|i: int|
                    0 <= i < to ==> #[trigger] self@.fitness_sum[i] == want.fitness_sum[i],
                forall|i: int|
                    0 <= i < to ==> #[trigger] self@.avg_fitness_sum[i] == want.avg_fitness_sum[i],
                forall|i: int| 0 <= i < to ==> #[trigger] self@.flux[i] == want.flux[i],
                forall|i: int|
                    to <= i < self@.neurons() ==> #[trigger] self@.activity[i] == start.activity[i],
                forall|i: int|
                    to <= i < self@.neurons() ==> #[trigger] self@.fitness[i] == start.fitness[i],
                forall|i: int|
                    to <= i < self@.neurons() ==> #[trigger] self@.fitness_sum[i]
                        == start.fitness_sum[i],
                forall|i: int|
                    to <= i < self@.neurons() ==> #[trigger] self@.avg_fitness_sum[i]
                        == start.avg_fitness_sum[i],
                forall|i: int|
                    to <= i < self@.neurons() ==> #[trigger] self@.flux[i] == start.flux[i],
            decreases ticks.len() - to,
        {
            let ghost row = if to < start.flux.len() {
                start.flux[to as int]
            } else {
                Seq::<Seq<(T, T)>>::empty()
            };
            let ghost pairs = ticks@[to as int].flux@;
            self.record_neuron(to, ticks[to].sample);
            let ghost reported = self@;
            assert(reported.flux[to as int] == row);
            let mut from: usize = 0;
            while from < ticks[to].flux.len()
                invariant
                    to < ticks.len(),
                    pairs == ticks@[to as int].flux@,
                    from <= pairs.len(),
                    reported.wf(),
                    to < reported.neurons(),
                    reported.flux[to as int] == row,
                    self@.wf(),
                    self@.outputs == reported.outputs,
                    self@.activity == reported.activity,
                    self@.fitness == reported.fitness,
                    self@.fitness_sum == reported.fitness_sum,
                    self@.avg_fitness_sum == reported.avg_fitness_sum,
                    self@.flux.len() == reported.flux.len(),
                    forall|i: int|
                        0 <= i < reported.flux.len() && i != to ==> #[trigger] self@.flux[i]
                            == reported.flux[i],
                    self@.flux[to as int].len() == if from > row.len() {
                        from as nat
                    } else {
                        row.len()
                    },
                    forall|j: int|
                        0 <= j < from ==> #[trigger] self@.flux[to as int][j] == pushed(
                            TrackerView::<T>::window_or_empty(row, j),
                            pairs[j],
                        ),
                    forall|j: int|
                        from <= j < self@.flux[to as int].len() ==> #[trigger] self@.flux[to as int][j]
                            == row[j],
                decreases pairs.len() - from,
            {
                let pair: (T, T) = ticks[to].flux[from];
                self.record_flux(to, from, pair.0, pair.1);
                from += 1;
            }
            assert(self@.flux[to as int] =~= TrackerView::<T>::flux_row(row, pairs));
            to += 1;
        }
        assert(self@.activity =~= want.activity);
        assert(self@.fitness =~= want.fitness);
        assert(self@.fitness_sum =~= want.fitness_sum);
        assert(self@.avg_fitness_sum =~= want.avg_fitness_sum);
        assert(self@.flux =~= want.flux);
    }

    /// The two figures from which the reward of neuron `to` is taken.
    pub fn reward_operands(&self, to: usize) -> (r: (Option<T>, Option<T>))
        ensures
            r == self@.reward_operands(to as int),
    {
        let recent: Option<T> = if to < self.fitness_history.len() {
            match self.fitness_history[to].latest() {
                Some(x) => Some(*x),
                None => None,
            }
        } else {
            None
        };
        let average: Option<T> = if to < self.avg_fitness_sum.len() {
            Some(self.avg_fitness_sum[to])
        } else {
            None
        };
        (recent, average)
    }

    /// Number of neurons that have a record.
    pub fn neurons(&self) -> (n: usize)
        ensures
            n == self@.neurons(),
    {
        self.activity_history.len()
    }

    /// Number of synapses into neuron `to` that have a record.
    pub fn synapses(&self, to: usize) -> (n: usize)
        requires
            self@.wf(),
            to < self@.neurons(),
        ensures
            n == self@.flux[to as int].len(),
    {
        self.flux_history[to].len()
    }

    /// Running sum of the activity of neuron `to`, if it has a record.
    pub fn fitness_sum(&self, to: usize) -> (r: Option<T>)
        ensures
            r == if to < self@.fitness_sum.len() {
                Some(self@.fitness_sum[to as int])
            } else {
                None
            },
    {
        if to < self.fitness_sum.len() {
            Some(self.fitness_sum[to])
        } else {
            None
        }
    }

    /// Running sum of the fitness of neuron `to`, if it has a record.
    pub fn avg_fitness_sum(&self, to: usize) -> (r: Option<T>)
        ensures
            r == if to < self@.avg_fitness_sum.len() {
                Some(self@.avg_fitness_sum[to as int])
            } else {
                None
            },
    {
        if to < self.avg_fitness_sum.len() {
            Some(self.avg_fitness_sum[to])
        } else {
            None
        }
    }

    /// The window of output vectors.
    pub fn output_history(&self) -> (h: &History<Vec<T>>)
        ensures
            h@ == self@.outputs,
    {
        &self.output_history
    }

    /// The window of activities of neuron `to`.
    pub fn activity_history(&self, to: usize) -> (h: &History<T>)
        requires
            to < self@.neurons(),
        ensures
            h@ == self@.activity[to as int],
    {
        &self.activity_history[to]
    }

    /// The window of fitness values of neuron `to`.
    pub fn fitness_history(&self, to: usize) -> (h: &History<T>)
        requires
            self@.wf(),
            to < self@.neurons(),
        ensures
            h@ == self@.fitness[to as int],
    {
        &self.fitness_history[to]
    }

    /// The window of centre and value of the synapse from `from` to `to`.
    pub fn flux_history(&self, to: usize, from: usize) -> (h: &History<(T, T)>)
        requires
            self@.wf(),
            to < self@.neurons(),
            from < self@.flux[to as int].len(),
        ensures
            h@ == self@.flux[to as int][from as int],
    {
        &self.flux_history[to][from]
    }
}

/// No window of a well-formed record ever holds more than `HISTORY_LENGTH`
/// entries, and recording keeps a record well formed, whatever is recorded.
pub proof fn lemma_windows_bounded<T>(
    v: TrackerView<T>,
    outputs: Vec<T>,
    to: int,
    from: int,
    sample: NeuronSample<T>,
    pair: (T, T),
    ticks: Seq<NeuronTick<T>>,
)
    requires
        v.wf(),
    ensures
        v.outputs.len() <= HISTORY_LENGTH,
        forall|i: int| 0 <= i < v.neurons() ==> (#[trigger] v.activity[i]).len() <= HISTORY_LENGTH,
        forall|i: int| 0 <= i < v.neurons() ==> (#[trigger] v.fitness[i]).len() <= HISTORY_LENGTH,
        forall|i: int, j: int|
            0 <= i < v.neurons() && 0 <= j < v.flux[i].len() ==> (#[trigger] v.flux[i][j]).len()
                <= HISTORY_LENGTH,
        v.with_outputs(outputs).wf(),
        0 <= to <= v.neurons() ==> v.with_neuron(to, sample).wf(),
        0 <= to < v.neurons() && 0 <= from <= v.flux[to].len() ==> v.with_flux(to, from, pair).wf(),
        v.with_tick(ticks).wf(),
{
    if 0 <= to <= v.neurons() {
        let w = v.with_neuron(to, sample);
        assert forall|i: int, j: int| 0 <= i < w.flux.len() && 0 <= j < w.flux[i].len() implies (
        #[trigger] w.flux[i][j]).len() <= HISTORY_LENGTH by {
            if i < v.flux.len() {
                assert(w.flux[i] == v.flux[i]);
            }
        }
    }
    if 0 <= to < v.neurons() && 0 <= from <= v.flux[to].len() {
        let w = v.with_flux(to, from, pair);
        assert forall|i: int, j: int| 0 <= i < w.flux.len() && 0 <= j < w.flux[i].len() implies (
        #[trigger] w.flux[i][j]).len() <= HISTORY_LENGTH by {
            if i != to {
                assert(w.flux[i] == v.flux[i]);
            } else if j != from {
                assert(w.flux[i][j] == v.flux[i][j]);
            }
        }
    }
    let w = v.with_tick(ticks);
    assert forall|i: int| 0 <= i < w.activity.len() implies (#[trigger] w.activity[i]).len()
        <= HISTORY_LENGTH by {
        if i < v.activity.len() {
            assert(v.activity[i].len() <= HISTORY_LENGTH);
        }
    }
    assert forall|i: int| 0 <= i < w.fitness.len() implies (#[trigger] w.fitness[i]).len()
        <= HISTORY_LENGTH by {
        if i < v.fitness.len() {
            assert(v.fitness[i].len() <= HISTORY_LENGTH);
        }
    }
    assert forall|i: int, j: int| 0 <= i < w.flux.len() && 0 <= j < w.flux[i].len() implies (
    #[trigger] w.flux[i][j]).len() <= HISTORY_LENGTH by {
        if i < v.flux.len() && j < v.flux[i].len() {
            assert(v.flux[i][j].len() <= HISTORY_LENGTH);
        }
    }
}

} // verus!
