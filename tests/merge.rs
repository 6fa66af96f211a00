use robot_face::bridge::{apply_updates, process_noise_generator_update_messages, settings_channel, CHANNEL_CAPACITY};
use robot_face::message::decode_settings;
use robot_face::noise_engine::{NoiseEngine, MAX_OCTAVES};
use robot_face::settings::{NoiseGeneratorSettings, NoiseGeneratorSettingsUpdate, Real};
use tokio::sync::mpsc::error::TrySendError;

fn bits_of(x: f64) -> Real {
    Real(x.to_bits())
}

fn value(r: Real) -> f64 {
    f64::from_bits(r.0)
}

fn empty_update() -> NoiseGeneratorSettingsUpdate {
    NoiseGeneratorSettingsUpdate {
        width_divider: None,
        height_multiplier: None,
        segment_width: None,
        frame_time_divider: None,
        perlin_noise_octaves: None,
    }
}

fn fresh() -> (NoiseGeneratorSettings, NoiseEngine) {
    let settings = NoiseGeneratorSettings::default();
    let engine = NoiseEngine::new(settings.perlin_noise_octaves);
    (settings, engine)
}

#[test]
fn default_settings_values() {
    let s = NoiseGeneratorSettings::default();
    assert_eq!(value(s.width_divider), 60.0);
    assert_eq!(value(s.height_multiplier), 400.0);
    assert_eq!(value(s.segment_width), 5.0);
    assert_eq!(value(s.frame_time_divider), 8.0);
    assert_eq!(s.perlin_noise_octaves, 2);
}

#[test]
fn apply_overwrites_only_populated_fields() {
    let mut s = NoiseGeneratorSettings::default();
    s.apply(&NoiseGeneratorSettingsUpdate { height_multiplier: Some(bits_of(10.0)), ..empty_update() });
    let mut expected = NoiseGeneratorSettings::default();
    expected.height_multiplier = bits_of(10.0);
    assert_eq!(s, expected);
}

#[test]
fn last_populated_value_wins_per_field() {
    let (mut s, mut engine) = fresh();
    let updates = vec![
        NoiseGeneratorSettingsUpdate { width_divider: Some(bits_of(1.0)), segment_width: Some(bits_of(2.0)), ..empty_update() },
        NoiseGeneratorSettingsUpdate { width_divider: Some(bits_of(3.0)), ..empty_update() },
        NoiseGeneratorSettingsUpdate { frame_time_divider: Some(bits_of(4.0)), ..empty_update() },
    ];
    apply_updates(&mut s, &mut engine, &updates);
    assert_eq!(value(s.width_divider), 3.0);
    assert_eq!(value(s.segment_width), 2.0);
    assert_eq!(value(s.frame_time_divider), 4.0);
    assert_eq!(value(s.height_multiplier), 400.0);
    assert_eq!(s.perlin_noise_octaves, 2);
    assert_eq!(engine.octaves(), 2);
}

#[test]
fn two_messages_in_one_tick() {
    let (tx, mut rx) = settings_channel();
    let (mut s, mut engine) = fresh();
    tx.try_send(decode_settings("{\"perlin_noise_octaves\": 4}").unwrap()).unwrap();
    tx.try_send(decode_settings("{\"width_divider\": 30.0}").unwrap()).unwrap();
    let drained = process_noise_generator_update_messages(&mut rx, &mut engine, &mut s);
    assert_eq!(drained.len(), 2);
    assert_eq!(s.perlin_noise_octaves, 4);
    assert_eq!(engine.octaves(), 4);
    assert_eq!(engine.generator().octaves, 4);
    assert_eq!(drained.iter().filter(|u| u.perlin_noise_octaves.is_some()).count(), 1);
    assert_eq!(value(s.width_divider), 30.0);
    assert_eq!(value(s.height_multiplier), 400.0);
    assert_eq!(value(s.segment_width), 5.0);
    assert_eq!(value(s.frame_time_divider), 8.0);
}

#[test]
fn tick_on_empty_channel_changes_nothing() {
    let (_tx, mut rx) = settings_channel();
    let (mut s, mut engine) = fresh();
    let drained = process_noise_generator_update_messages(&mut rx, &mut engine, &mut s);
    assert!(drained.is_empty());
    assert_eq!(s, NoiseGeneratorSettings::default());
}

#[test]
fn tick_after_sender_dropped_takes_what_is_left() {
    let (tx, mut rx) = settings_channel();
    let (mut s, mut engine) = fresh();
    tx.try_send(NoiseGeneratorSettingsUpdate { segment_width: Some(bits_of(9.0)), ..empty_update() }).unwrap();
    drop(tx);
    let drained = process_noise_generator_update_messages(&mut rx, &mut engine, &mut s);
    assert_eq!(drained.len(), 1);
    assert_eq!(value(s.segment_width), 9.0);
    assert!(process_noise_generator_update_messages(&mut rx, &mut engine, &mut s).is_empty());
}

#[test]
fn channel_keeps_order_up_to_capacity() {
    let (tx, mut rx) = settings_channel();
    for i in 0..CHANNEL_CAPACITY {
        tx.try_send(NoiseGeneratorSettingsUpdate { perlin_noise_octaves: Some(i + 1), ..empty_update() }).unwrap();
    }
    let drained = rx.drain();
    let got: Vec<usize> = drained.iter().map(|u| u.perlin_noise_octaves.unwrap()).collect();
    assert_eq!(got, (1..=CHANNEL_CAPACITY).collect::<Vec<usize>>());
}

#[test]
fn fifteen_messages_through_a_full_channel() {
    let (tx, mut rx) = settings_channel();
    let (mut s, mut engine) = fresh();
    let message = |i: usize| NoiseGeneratorSettingsUpdate {
        width_divider: Some(bits_of(i as f64)),
        perlin_noise_octaves: Some(i),
        ..empty_update()
    };
    let mut pending: Vec<usize> = Vec::new();
    for i in 1..=15 {
        match tx.try_send(message(i)) {
            Ok(()) => assert!(i <= 10),
            Err(TrySendError::Full(_)) => {
                assert!(i > 10);
                pending.push(i);
            }
            Err(TrySendError::Closed(_)) => panic!("channel closed"),
        }
    }
    assert_eq!(pending, vec![11, 12, 13, 14, 15]);
    let mut seen: Vec<usize> = Vec::new();
    let first = process_noise_generator_update_messages(&mut rx, &mut engine, &mut s);
    seen.extend(first.iter().map(|u| u.perlin_noise_octaves.unwrap()));
    assert_eq!(value(s.width_divider), 10.0);
    for i in pending {
        tx.try_send(message(i)).unwrap();
    }
    let second = process_noise_generator_update_messages(&mut rx, &mut engine, &mut s);
    seen.extend(second.iter().map(|u| u.perlin_noise_octaves.unwrap()));
    assert_eq!(seen, (1..=15).collect::<Vec<usize>>());
    assert_eq!(value(s.width_divider), 15.0);
    assert_eq!(s.perlin_noise_octaves, 15);
    assert_eq!(engine.octaves(), 15);
}

#[test]
fn engine_clamps_octaves() {
    let mut engine = NoiseEngine::new(2);
    assert_eq!(engine.octaves(), 2);
    engine.set_octaves(0);
    assert_eq!(engine.octaves(), 1);
    engine.set_octaves(100);
    assert_eq!(engine.octaves(), MAX_OCTAVES);
    assert_eq!(engine.generator().octaves, MAX_OCTAVES);
    engine.set_octaves(7);
    assert_eq!(engine.generator().octaves, 7);
}

#[test]
fn channel_capacity_is_ten() {
    let (tx, rx) = settings_channel();
    assert_eq!(rx.max_capacity(), 10);
    assert_eq!(tx.max_capacity(), CHANNEL_CAPACITY);
}

#[test]
fn engine_is_seeded_and_keeps_its_seed() {
    let mut engine = NoiseEngine::new(2);
    assert_eq!(engine.seed(), 100);
    engine.set_octaves(5);
    assert_eq!(engine.seed(), 100);
    assert_eq!(engine.octaves(), 5);
}

#[test]
fn updates_without_octaves_leave_the_engine_alone() {
    let (tx, mut rx) = settings_channel();
    let (mut s, mut engine) = fresh();
    engine.set_octaves(6);
    tx.try_send(empty_update()).unwrap();
    tx.try_send(NoiseGeneratorSettingsUpdate { segment_width: Some(bits_of(1.5)), ..empty_update() }).unwrap();
    let drained = process_noise_generator_update_messages(&mut rx, &mut engine, &mut s);
    assert_eq!(drained.len(), 2);
    assert_eq!(engine.octaves(), 6);
    assert_eq!(engine.generator().octaves, 6);
    assert_eq!(s.perlin_noise_octaves, 2);
    assert_eq!(value(s.segment_width), 1.5);
}

#[test]
fn last_octave_request_decides_the_count() {
    let (mut s, mut engine) = fresh();
    let updates = vec![
        NoiseGeneratorSettingsUpdate { perlin_noise_octaves: Some(9), ..empty_update() },
        NoiseGeneratorSettingsUpdate { perlin_noise_octaves: Some(40), ..empty_update() },
    ];
    apply_updates(&mut s, &mut engine, &updates);
    assert_eq!(engine.octaves(), MAX_OCTAVES);
    assert_eq!(s.perlin_noise_octaves, 40);
}
