use worm_core::brain::{seed_bias, seed_weight, PERIOD_MAX, PERIOD_MIN, SEED_NEURONS, TRAINED_NEURONS};
use worm_core::config::{ConfigError, MappingPolicy};
use worm_core::topology::Segment;
use worm_core::worm::{worm_builder, WormController};

fn built(segments: usize, neurons: usize, policy: MappingPolicy) -> WormController {
    match worm_builder(segments, neurons, policy) {
        Ok(w) => w,
        Err(e) => panic!("worm_builder failed: {:?}", e),
    }
}

#[test]
fn builder_refuses_what_cannot_work() {
    assert!(matches!(worm_builder(0, 6, MappingPolicy::Cyclical), Err(ConfigError::NoSegments)));
    assert!(matches!(worm_builder(12, 0, MappingPolicy::Cyclical), Err(ConfigError::NoNeurons)));
    assert!(matches!(
        worm_builder(12, 5, MappingPolicy::Regional),
        Err(ConfigError::UnevenRegions)
    ));
    assert!(matches!(
        worm_builder(usize::MAX, 1, MappingPolicy::Cyclical),
        Err(ConfigError::TooManySegments)
    ));
}

#[test]
fn builder_makes_the_default_worm() {
    let worm = built(12, 6, MappingPolicy::Cyclical);
    assert_eq!(worm.policy(), MappingPolicy::Cyclical);
    assert_eq!(worm.neuron_count(), 6);
    assert_eq!(worm.body().segment_count(), 12);
    assert_eq!(worm.body().node_count(), 40);
    assert_eq!(worm.body().springs().len(), 101);
    let routes = worm.muscle_routes();
    assert_eq!(routes.len(), 24);
    assert_eq!(routes[0].neuron, Some(0));
    assert_eq!(routes[11].control.index, 6);
    assert_eq!(routes[11].neuron, Some(5));
    assert_eq!(routes[12].neuron, Some(0));
}

#[test]
fn cyclical_worm_grows_segment_by_segment() {
    let mut worm = built(2, 3, MappingPolicy::Cyclical);
    assert_eq!(worm.append_segment(), Ok(Segment { index: 3, center: 10, left: 11, right: 12 }));
    assert_eq!(worm.append_segment(), Ok(Segment { index: 4, center: 13, left: 14, right: 15 }));
    assert_eq!(worm.body().segment_count(), 4);
    assert_eq!(worm.muscle_routes().len(), 8);
    assert_eq!(worm.muscle_routes()[7].neuron, Some(0));
}

#[test]
fn regional_worm_grows_like_any_other() {
    let mut worm = built(12, 3, MappingPolicy::Regional);
    let springs = worm.body().springs().clone();
    assert_eq!(worm.append_segment(), Ok(Segment { index: 13, center: 40, left: 41, right: 42 }));
    assert_eq!(worm.body().segment_count(), 13);
    assert_eq!(worm.body().segments().len(), 14);
    assert_eq!(worm.body().node_count(), 43);
    assert_eq!(worm.body().springs().len(), springs.len() + 8);
    assert_eq!(&worm.body().springs()[..springs.len()], &springs[..]);
    assert_eq!(worm.policy(), MappingPolicy::Regional);
    assert_eq!(worm.neuron_count(), 3);
    let routes = worm.muscle_routes();
    assert_eq!(routes.len(), 26);
    let picked: Vec<Option<usize>> = (0..13).map(|s| routes[2 * s].neuron).collect();
    assert_eq!(
        picked,
        vec![
            Some(0), Some(0), Some(0), Some(0), Some(0),
            Some(1), Some(1), Some(1), Some(1),
            Some(2), Some(2), Some(2), Some(2),
        ]
    );
}

#[test]
fn grown_regional_worm_equals_built_body() {
    let mut grown = built(12, 3, MappingPolicy::Regional);
    assert!(grown.append_segment().is_ok());
    let fresh = built(13, 3, MappingPolicy::Cyclical);
    assert_eq!(grown.body().segments(), fresh.body().segments());
    assert_eq!(grown.body().springs(), fresh.body().springs());
}

#[test]
fn regional_brain_grows_like_any_other() {
    let mut worm = built(12, 3, MappingPolicy::Regional);
    assert_eq!(worm.grow_brain(), Ok(4));
    assert_eq!(worm.grow_brain(), Ok(5));
    assert_eq!(worm.neuron_count(), 5);
    assert_eq!(worm.body().segment_count(), 12);
    let routes = worm.muscle_routes();
    let picked: Vec<Option<usize>> = (0..12).map(|s| routes[2 * s].neuron).collect();
    assert_eq!(
        picked,
        vec![
            Some(0), Some(0), Some(0),
            Some(1), Some(1),
            Some(2), Some(2), Some(2),
            Some(3), Some(3),
            Some(4), Some(4),
        ]
    );
}

#[test]
fn brain_grows_neuron_by_neuron() {
    let mut worm = built(2, 3, MappingPolicy::Cyclical);
    assert_eq!(worm.grow_brain(), Ok(4));
    assert_eq!(worm.grow_brain(), Ok(5));
    assert_eq!(worm.neuron_count(), 5);
    assert_eq!(worm.muscle_routes()[2].neuron, Some(1));
}

#[test]
fn seed_is_the_hand_tuned_oscillator() {
    assert_eq!(SEED_NEURONS, 2);
    assert_eq!(TRAINED_NEURONS, 3);
    assert_eq!(seed_bias(0) as f64 * 0.25, -2.75);
    assert_eq!(seed_bias(1) as f64 * 0.25, -1.75);
    assert_eq!(seed_weight(0, 0) as f64 * 0.25, 4.5);
    assert_eq!(seed_weight(0, 1) as f64 * 0.25, -1.0);
    assert_eq!(seed_weight(1, 0) as f64 * 0.25, 1.0);
    assert_eq!(seed_weight(1, 1) as f64 * 0.25, 4.5);
    assert_eq!(PERIOD_MIN as f64 * 0.25, 6.0);
    assert_eq!(PERIOD_MAX as f64 * 0.25, 12.0);
}

#[test]
fn grown_neurons_start_neutral() {
    assert_eq!(seed_bias(2), 0);
    assert_eq!(seed_bias(17), 0);
    for k in 0..4 {
        assert_eq!(seed_weight(2, k), 0);
        assert_eq!(seed_weight(k, 2), 0);
        assert_eq!(seed_weight(3, k), 0);
    }
    assert_eq!(seed_weight(2, 2), 0);
}

#[test]
fn brain_cannot_outgrow_the_index_type() {
    let mut worm = built(2, usize::MAX, MappingPolicy::Cyclical);
    assert_eq!(worm.grow_brain(), Err(ConfigError::TooManyNeurons));
    assert_eq!(worm.neuron_count(), usize::MAX);
    let mut frequency = built(2, usize::MAX - 1, MappingPolicy::Frequency);
    assert_eq!(frequency.grow_brain(), Ok(usize::MAX));
    assert_eq!(frequency.grow_brain(), Err(ConfigError::TooManyNeurons));
}
