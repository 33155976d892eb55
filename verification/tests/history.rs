use worm_core::history::History;
use worm_core::tracker::{NeuronSample, Tracker};
use worm_core::HISTORY_LENGTH;

#[test]
fn history_length_is_five_hundred() {
    assert_eq!(HISTORY_LENGTH, 500);
}

#[test]
fn history_keeps_order_below_capacity() {
    let mut h: History<f64> = History::new();
    assert!(h.is_empty());
    assert_eq!(h.latest(), None);
    h.push(0.25);
    h.push(0.5);
    h.push(0.75);
    assert_eq!(h.len(), 3);
    assert_eq!(h.get(0), Some(&0.25));
    assert_eq!(h.get(1), Some(&0.5));
    assert_eq!(h.get(2), Some(&0.75));
    assert_eq!(h.get(3), None);
    assert_eq!(h.latest(), Some(&0.75));
}

#[test]
fn history_evicts_the_oldest_entry_when_full() {
    let mut h: History<usize> = History::new();
    for i in 0..HISTORY_LENGTH {
        h.push(i);
    }
    assert_eq!(h.len(), HISTORY_LENGTH);
    assert_eq!(h.get(0), Some(&0));
    h.push(HISTORY_LENGTH);
    assert_eq!(h.len(), HISTORY_LENGTH);
    assert_eq!(h.get(0), Some(&1));
    assert_eq!(h.get(HISTORY_LENGTH - 1), Some(&HISTORY_LENGTH));
    for i in 0..HISTORY_LENGTH {
        assert_eq!(h.get(i), Some(&(i + 1)));
    }
}

#[test]
fn history_never_exceeds_its_bound() {
    let mut h: History<u32> = History::new();
    for i in 0..(3 * HISTORY_LENGTH as u32 + 7) {
        h.push(i);
        assert!(h.len() <= HISTORY_LENGTH);
    }
    assert_eq!(h.get(0), Some(&(2 * HISTORY_LENGTH as u32 + 7)));
}

#[test]
fn activity_needs_two_ticks() {
    let mut t: Tracker<f64> = Tracker::new();
    assert_eq!(t.latest_pair(0), None);
    t.push_outputs(vec![0.25, 0.5]);
    assert_eq!(t.latest_pair(0), None);
    assert_eq!(t.latest_pair(1), None);
    t.push_outputs(vec![0.75, 0.125]);
    assert_eq!(t.latest_pair(0), Some((Some(0.75), Some(0.25))));
    assert_eq!(t.latest_pair(1), Some((Some(0.125), Some(0.5))));
}

#[test]
fn activity_of_a_new_neuron_has_no_earlier_output() {
    let mut t: Tracker<f64> = Tracker::new();
    t.push_outputs(vec![0.25, 0.5]);
    t.push_outputs(vec![0.75, 0.125, 0.5]);
    assert_eq!(t.latest_pair(2), Some((Some(0.5), None)));
    assert_eq!(t.latest_pair(3), Some((None, None)));
}

#[test]
fn neuron_records_grow_one_by_one() {
    let mut t: Tracker<f64> = Tracker::new();
    assert_eq!(t.neurons(), 0);
    assert_eq!(t.fitness_sum(0), None);
    t.record_neuron(
        0,
        NeuronSample { activity: 0.5, fitness_sum: 0.5, fitness: 0.001, avg_fitness_sum: 0.001 },
    );
    assert_eq!(t.neurons(), 1);
    assert_eq!(t.synapses(0), 0);
    t.record_neuron(
        1,
        NeuronSample { activity: -0.25, fitness_sum: -0.25, fitness: -0.0005, avg_fitness_sum: -0.0005 },
    );
    t.record_neuron(
        0,
        NeuronSample { activity: 0.125, fitness_sum: 0.625, fitness: 0.00125, avg_fitness_sum: 0.00225 },
    );
    assert_eq!(t.neurons(), 2);
    assert_eq!(t.activity_history(0).len(), 2);
    assert_eq!(t.activity_history(0).get(0), Some(&0.5));
    assert_eq!(t.activity_history(0).get(1), Some(&0.125));
    assert_eq!(t.activity_history(1).len(), 1);
    assert_eq!(t.fitness_history(0).latest(), Some(&0.00125));
    assert_eq!(t.fitness_history(1).latest(), Some(&-0.0005));
    assert_eq!(t.fitness_sum(0), Some(0.625));
    assert_eq!(t.fitness_sum(1), Some(-0.25));
    assert_eq!(t.avg_fitness_sum(0), Some(0.00225));
    assert_eq!(t.avg_fitness_sum(1), Some(-0.0005));
    assert_eq!(t.avg_fitness_sum(2), None);
}

#[test]
fn flux_records_grow_one_by_one() {
    let mut t: Tracker<f64> = Tracker::new();
    let zero = NeuronSample { activity: 0.0, fitness_sum: 0.0, fitness: 0.0, avg_fitness_sum: 0.0 };
    t.record_neuron(0, zero);
    t.record_neuron(1, zero);
    t.record_flux(1, 0, 1.0, 1.125);
    t.record_flux(1, 1, 4.5, 4.25);
    t.record_flux(1, 0, 1.0, 0.875);
    assert_eq!(t.synapses(0), 0);
    assert_eq!(t.synapses(1), 2);
    assert_eq!(t.flux_history(1, 0).len(), 2);
    assert_eq!(t.flux_history(1, 0).get(0), Some(&(1.0, 1.125)));
    assert_eq!(t.flux_history(1, 0).get(1), Some(&(1.0, 0.875)));
    assert_eq!(t.flux_history(1, 1).latest(), Some(&(4.5, 4.25)));
}

#[test]
fn every_window_stays_within_its_bound_over_many_ticks() {
    let mut t: Tracker<f64> = Tracker::new();
    for tick in 0..(HISTORY_LENGTH + 120) {
        let x = tick as f64;
        t.push_outputs(vec![x, -x, 0.5]);
        for to in 0..3 {
            t.record_neuron(
                to,
                NeuronSample { activity: x, fitness_sum: x, fitness: x, avg_fitness_sum: x },
            );
            for from in 0..3 {
                t.record_flux(to, from, x, x + 1.0);
            }
        }
        assert!(t.output_history().len() <= HISTORY_LENGTH);
        for to in 0..3 {
            assert!(t.activity_history(to).len() <= HISTORY_LENGTH);
            assert!(t.fitness_history(to).len() <= HISTORY_LENGTH);
            for from in 0..3 {
                assert!(t.flux_history(to, from).len() <= HISTORY_LENGTH);
            }
        }
    }
    assert_eq!(t.output_history().len(), HISTORY_LENGTH);
    assert_eq!(t.output_history().get(0), Some(&vec![120.0, -120.0, 0.5]));
    assert_eq!(t.activity_history(2).get(0), Some(&120.0));
    assert_eq!(t.flux_history(2, 1).get(0), Some(&(120.0, 121.0)));
    assert_eq!(t.flux_history(2, 1).latest(), Some(&(619.0, 620.0)));
}

fn tick(x: f64, flux: Vec<(f64, f64)>) -> worm_core::tracker::NeuronTick<f64> {
    worm_core::tracker::NeuronTick {
        sample: NeuronSample { activity: x, fitness_sum: 2.0 * x, fitness: 3.0 * x, avg_fitness_sum: 4.0 * x },
        flux,
    }
}

#[test]
fn a_whole_tick_is_recorded_neuron_by_neuron() {
    let mut t: Tracker<f64> = Tracker::new();
    t.record_tick(&vec![tick(1.0, vec![(0.5, 0.25), (1.5, 1.25)]), tick(2.0, vec![(2.5, 2.25)])]);
    assert_eq!(t.neurons(), 2);
    assert_eq!(t.synapses(0), 2);
    assert_eq!(t.synapses(1), 1);
    assert_eq!(t.activity_history(1).latest(), Some(&2.0));
    assert_eq!(t.fitness_history(1).latest(), Some(&6.0));
    assert_eq!(t.fitness_sum(0), Some(2.0));
    assert_eq!(t.avg_fitness_sum(1), Some(8.0));
    assert_eq!(t.flux_history(0, 1).latest(), Some(&(1.5, 1.25)));
    t.record_tick(&vec![
        tick(10.0, vec![(0.75, 0.5)]),
        tick(20.0, vec![(2.75, 2.5), (3.0, 3.5)]),
        tick(30.0, vec![]),
    ]);
    assert_eq!(t.neurons(), 3);
    assert_eq!(t.synapses(0), 2);
    assert_eq!(t.synapses(1), 2);
    assert_eq!(t.synapses(2), 0);
    assert_eq!(t.activity_history(0).len(), 2);
    assert_eq!(t.activity_history(0).get(0), Some(&1.0));
    assert_eq!(t.activity_history(0).get(1), Some(&10.0));
    assert_eq!(t.activity_history(2).len(), 1);
    assert_eq!(t.flux_history(0, 0).len(), 2);
    assert_eq!(t.flux_history(0, 0).latest(), Some(&(0.75, 0.5)));
    assert_eq!(t.flux_history(0, 1).len(), 1);
    assert_eq!(t.flux_history(1, 1).len(), 1);
    assert_eq!(t.flux_history(1, 1).latest(), Some(&(3.0, 3.5)));
    assert_eq!(t.fitness_sum(2), Some(60.0));
    t.record_tick(&vec![tick(100.0, vec![])]);
    assert_eq!(t.neurons(), 3);
    assert_eq!(t.activity_history(0).len(), 3);
    assert_eq!(t.activity_history(1).len(), 2);
    assert_eq!(t.fitness_sum(0), Some(200.0));
    assert_eq!(t.fitness_sum(1), Some(40.0));
    assert_eq!(t.flux_history(0, 0).len(), 2);
}

#[test]
fn whole_ticks_respect_the_bound() {
    let mut t: Tracker<f64> = Tracker::new();
    for n in 0..(HISTORY_LENGTH + 3) {
        let x = n as f64;
        t.push_outputs(vec![x, x]);
        t.record_tick(&vec![tick(x, vec![(x, x), (x, -x)]), tick(-x, vec![(x, x), (x, -x)])]);
    }
    assert_eq!(t.output_history().len(), HISTORY_LENGTH);
    for to in 0..2 {
        assert_eq!(t.activity_history(to).len(), HISTORY_LENGTH);
        assert_eq!(t.fitness_history(to).len(), HISTORY_LENGTH);
        for from in 0..2 {
            assert_eq!(t.flux_history(to, from).len(), HISTORY_LENGTH);
        }
    }
    assert_eq!(t.activity_history(0).get(0), Some(&3.0));
    assert_eq!(t.flux_history(1, 1).get(0), Some(&(3.0, -3.0)));
}

#[test]
fn history_tracks_the_fitness_of_a_steady_swing() {
    let mut t: Tracker<f64> = Tracker::new();
    let outputs = [0.25f64, 0.75, 0.5];
    let mut want_sum = 0.0f64;
    let mut want_avg = 0.0f64;
    for (n, out) in outputs.iter().enumerate() {
        t.push_outputs(vec![*out]);
        let activity = match t.latest_pair(0) {
            Some((now, before)) => now.unwrap_or(0.0) - before.unwrap_or(0.0),
            None => 0.0,
        };
        let fitness_sum = t.fitness_sum(0).unwrap_or(0.0) + activity;
        let fitness = fitness_sum / HISTORY_LENGTH as f64;
        let avg_fitness_sum = t.avg_fitness_sum(0).unwrap_or(0.0) + fitness;
        t.record_neuron(0, NeuronSample { activity, fitness_sum, fitness, avg_fitness_sum });
        let want_activity = if n == 0 { 0.0 } else { outputs[n] - outputs[n - 1] };
        want_sum += want_activity;
        want_avg += want_sum / 500.0;
        assert_eq!(t.activity_history(0).latest(), Some(&want_activity));
        assert_eq!(t.fitness_sum(0), Some(want_sum));
        assert_eq!(t.avg_fitness_sum(0), Some(want_avg));
    }
    assert_eq!(t.activity_history(0).get(0), Some(&0.0));
    assert_eq!(t.activity_history(0).get(1), Some(&0.5));
    assert_eq!(t.activity_history(0).get(2), Some(&-0.25));
    assert_eq!(t.fitness_history(0).get(1), Some(&0.001));
    assert_eq!(t.fitness_history(0).get(2), Some(&0.0005));
}

#[test]
fn reward_is_taken_from_latest_fitness_and_running_sum() {
    let mut t: Tracker<f64> = Tracker::new();
    assert_eq!(t.reward_operands(0), (None, None));
    t.record_neuron(
        0,
        NeuronSample { activity: 0.5, fitness_sum: 0.5, fitness: 0.001, avg_fitness_sum: 0.001 },
    );
    t.record_neuron(
        0,
        NeuronSample { activity: 0.25, fitness_sum: 0.75, fitness: 0.0015, avg_fitness_sum: 0.0025 },
    );
    assert_eq!(t.reward_operands(0), (Some(0.0015), Some(0.0025)));
    assert_eq!(t.reward_operands(1), (None, None));
}
