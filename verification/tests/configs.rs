use rand::rngs::Xoshiro256PlusPlus;
use rand::{Rng, SeedableRng};
use spyrrow::config::{
    split_times, total_or_default, DEFAULT_EARLY_TERMINATION, DEFAULT_QUADTREE_DEPTH, DEFAULT_TOTAL_COMPUTATION_TIME,
};
use spyrrow::solve::EarlyTermination;
use spyrrow::{StripPackingConfig, TimeSpan, ValueError};

#[test]
fn default_total_is_split_four_to_one() {
    let config = StripPackingConfig::<f32>::new(
        DEFAULT_EARLY_TERMINATION,
        DEFAULT_QUADTREE_DEPTH,
        None,
        Some(DEFAULT_TOTAL_COMPUTATION_TIME),
        None,
        None,
        Some(3),
        Some(42),
    )
    .unwrap();
    assert!(config.early_termination);
    assert_eq!(config.quadtree_depth, 4);
    assert_eq!(config.min_items_separation, None);
    assert_eq!(config.exploration_time, TimeSpan { secs: 480, nanos: 0 });
    assert_eq!(config.compression_time, TimeSpan { secs: 120, nanos: 0 });
    assert_eq!(config.num_workers, 3);
    assert_eq!(config.seed, 42);
}

#[test]
fn total_is_spent_exactly() {
    let (explore, compress) = split_times(Some(7), None, None).unwrap();
    assert_eq!(explore, TimeSpan { secs: 5, nanos: 600_000_000 });
    assert_eq!(compress, TimeSpan { secs: 1, nanos: 400_000_000 });
    let (explore, compress) = split_times(Some(1), None, None).unwrap();
    assert_eq!(explore, TimeSpan { secs: 0, nanos: 800_000_000 });
    assert_eq!(compress, TimeSpan { secs: 0, nanos: 200_000_000 });
    let (explore, compress) = split_times(Some(0), None, None).unwrap();
    assert_eq!(explore, TimeSpan { secs: 0, nanos: 0 });
    assert_eq!(compress, TimeSpan { secs: 0, nanos: 0 });
    for total in [2, 3, 4, 5, 9, 600, 86_399, u64::MAX - 1, u64::MAX] {
        let (explore, compress) = split_times(Some(total), None, None).unwrap();
        let nanos = |s: TimeSpan| s.secs as u128 * 1_000_000_000 + s.nanos as u128;
        assert_eq!(nanos(explore) + nanos(compress), total as u128 * 1_000_000_000);
        assert_eq!(nanos(explore), 4 * nanos(compress));
    }
}

#[test]
fn both_parts_are_taken_as_given() {
    let (explore, compress) = split_times(None, Some(30), Some(11)).unwrap();
    assert_eq!(explore, TimeSpan { secs: 30, nanos: 0 });
    assert_eq!(compress, TimeSpan { secs: 11, nanos: 0 });
}

#[test]
fn other_time_arguments_are_refused() {
    let refused = [
        (None, None, None),
        (None, Some(1), None),
        (None, None, Some(1)),
        (Some(1), Some(1), None),
        (Some(1), None, Some(1)),
        (Some(1), Some(1), Some(1)),
    ];
    for (total, explore, compress) in refused {
        assert!(matches!(split_times(total, explore, compress), Err(ValueError::TimeArguments)));
        let error = StripPackingConfig::<f32>::new(
            true, 4, None, total, explore, compress, None, None,
        )
        .err()
        .unwrap();
        assert_eq!(
            error.message(),
            "Either total_computation_time or both exploration_time and compression_time should be provided, not all 3 or some other combination"
        );
    }
}

#[test]
fn fallbacks_fill_in_only_what_is_missing() {
    let config = StripPackingConfig::<f32>::with_fallbacks(
        false, 5, Some(0.25), None, Some(2), Some(3), None, None, 99, 16,
    )
    .unwrap();
    assert!(!config.early_termination);
    assert_eq!(config.quadtree_depth, 5);
    assert_eq!(config.min_items_separation, Some(0.25));
    assert_eq!(config.seed, 99);
    assert_eq!(config.num_workers, 16);
    let config = StripPackingConfig::<f32>::with_fallbacks(
        false, 5, None, None, Some(2), Some(3), Some(0), Some(0), 99, 16,
    )
    .unwrap();
    assert_eq!(config.seed, 0);
    assert_eq!(config.num_workers, 0);
}

#[test]
fn missing_seed_and_workers_come_from_outside() {
    let mut seeds = Vec::new();
    for _ in 0..8 {
        let config =
            StripPackingConfig::<f32>::new(true, 4, None, Some(10), None, None, None, None)
                .unwrap();
        assert!(config.num_workers >= 1);
        assert_eq!(config.num_workers, num_cpus::get());
        seeds.push(config.seed);
    }
    assert!(seeds.iter().any(|s| *s != seeds[0]));
}

#[test]
fn settings_follow_the_configuration() {
    let limits = EarlyTermination { max_conseq_fails: 10, fail_decay_ratio: 0.5f32 };
    let config = StripPackingConfig::with_fallbacks(
        true, 3, Some(1.5), None, Some(20), Some(5), Some(6), Some(1234), 0, 1,
    )
    .unwrap();
    let settings = config.settings(limits);
    assert_eq!(settings.rng_seed, Some(1234));
    assert_eq!(settings.exploration_time_limit, TimeSpan { secs: 20, nanos: 0 });
    assert_eq!(settings.compression_time_limit, TimeSpan { secs: 5, nanos: 0 });
    assert_eq!(settings.exploration_workers, 6);
    assert_eq!(settings.compression_workers, 6);
    assert_eq!(settings.quadtree_depth, 3);
    assert_eq!(settings.min_item_separation, Some(1.5));
    let early = settings.early_termination.unwrap();
    assert_eq!(early.max_conseq_fails, 10);
    assert_eq!(early.fail_decay_ratio, 0.5);
    let mut patient = config.clone();
    patient.early_termination = false;
    assert!(patient.settings(limits).early_termination.is_none());
    assert_eq!(patient.seed, config.seed);
}

#[test]
fn seed_decides_the_generator() {
    let config = |seed: u64| {
        StripPackingConfig::<f32>::new(true, 4, None, Some(10), None, None, Some(1), Some(seed))
            .unwrap()
    };
    assert_eq!(config(7).generator(), Xoshiro256PlusPlus::seed_from_u64(7));
    assert_eq!(config(7).generator(), config(7).generator());
    assert_ne!(config(7).generator(), config(8).generator());
    let mut rng = config(0).generator();
    assert_eq!(rng.next_u64(), 5987356902031041503);
    assert_eq!(rng.next_u64(), 7051070477665621255);
}

#[test]
fn default_total_stands_in_for_times_left_out() {
    assert_eq!(total_or_default(None, None, None), Some(600));
    assert_eq!(total_or_default(None, Some(30), Some(11)), None);
    assert_eq!(total_or_default(None, Some(30), None), None);
    assert_eq!(total_or_default(None, None, Some(11)), None);
    let parts = split_times(total_or_default(None, Some(30), Some(11)), Some(30), Some(11));
    assert_eq!(parts.unwrap().0, TimeSpan { secs: 30, nanos: 0 });
    assert!(split_times(total_or_default(None, Some(30), None), Some(30), None).is_err());
}

#[test]
fn passed_total_stands() {
    assert_eq!(total_or_default(Some(Some(7)), None, None), Some(7));
    assert_eq!(total_or_default(Some(Some(7)), Some(30), Some(11)), Some(7));
    assert_eq!(total_or_default(Some(None), None, None), None);
    assert_eq!(total_or_default(Some(None), Some(30), Some(11)), None);
    assert!(matches!(
        split_times(total_or_default(Some(None), None, None), None, None),
        Err(ValueError::TimeArguments)
    ));
}

#[test]
fn seeded_configuration_is_determined() {
    let make = || {
        StripPackingConfig::new(true, 4, Some(0.5f32), Some(9), None, None, Some(3), Some(5))
            .unwrap()
    };
    let (a, b) = (make(), make());
    assert_eq!(format!("{:?}", a), format!("{:?}", b));
}
