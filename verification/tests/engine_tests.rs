use basic_plugin::engine::Basic;
use basic_plugin::fixed::apply_gain;
use basic_plugin::fixed::ONE;
use basic_plugin::meter::decay_weight_for_rate;

// Full-range ramp step at the default 2205-sample window.
const STEP: u64 = 1947831;

fn stereo_block(value: i64, frames: usize) -> Vec<Vec<i64>> {
    vec![vec![value; frames], vec![value; frames]]
}

#[test]
fn identity_gain_leaves_samples_unchanged() {
    // Converged at unit gain, processing is the identity on the block.
    let mut b = Basic::default();
    let mut block = vec![vec![5, -7, 123456, -987654, i64::MAX, i64::MIN]];
    let before = block.clone();
    b.process(&mut block, false);
    assert_eq!(block, before);
    // Long enough for any ramp to have converged: still the identity.
    let mut b = Basic::default();
    b.initialize(44100);
    let mut block = stereo_block(1_000_000, 64);
    let before = block.clone();
    b.process(&mut block, true);
    assert_eq!(block, before);
}

#[test]
fn closed_display_never_touches_the_meter() {
    let mut b = Basic::default();
    b.initialize(44100);
    b.peak_meter = 777;
    let mut block = stereo_block(i64::MAX / 2, 128);
    b.process(&mut block, false);
    assert_eq!(b.peak_meter, 777);
}

#[test]
fn open_display_attack_takes_the_mean_amplitude_exactly() {
    let mut b = Basic::default();
    b.initialize(44100);
    let mut block = vec![vec![1000, 2000, 3000, 4000]];
    b.process(&mut block, true);
    // Mean of the post-gain (identity) samples: 10000 / 4.
    assert_eq!(b.peak_meter, 2500);
}

#[test]
fn amplitude_is_absolute() {
    let mut b = Basic::default();
    b.initialize(44100);
    let mut block = vec![vec![-1000, -1000]];
    b.process(&mut block, true);
    assert_eq!(b.peak_meter, 1000);
}

#[test]
fn silent_block_decays_the_meter_by_the_weight() {
    // Sample rate 44100 Hz; starting level one half; one silent block of any
    // length gives exactly one release step per channel.
    let mut b = Basic::default();
    b.initialize(44100);
    b.peak_meter = ONE / 2;
    let mut block = vec![vec![0i64; 64]];
    b.process(&mut block, true);
    assert_eq!(b.peak_meter, 2147033650);
}

#[test]
fn stereo_silence_updates_the_meter_once_per_channel() {
    let mut b = Basic::default();
    b.initialize(44100);
    b.peak_meter = ONE / 2;
    let mut block = stereo_block(0, 64);
    b.process(&mut block, true);
    // Two release steps: floor(floor(p * w / ONE) * w / ONE).
    assert_eq!(b.peak_meter, 2146583746);
}

#[test]
fn gain_drop_fades_across_the_block() {
    // Target jumps from one to zero; a 2-channel, 128-sample block of
    // constant full-scale samples fades monotonically, never below zero.
    let mut b = Basic::default();
    b.initialize(44100);
    b.parameters.gain.set_target(0);
    let mut block = stereo_block(ONE as i64, 128);
    b.process(&mut block, false);
    for ch in block.iter() {
        let mut prev = ONE as i64;
        for (i, &s) in ch.iter().enumerate() {
            assert!(s >= 0);
            assert!(s <= prev, "fade must be monotone");
            assert_eq!(s as u64, ONE - (i as u64 + 1) * STEP);
            prev = s;
        }
    }
    // Both channels saw the same gain per sample index.
    assert_eq!(block[0], block[1]);
}

#[test]
fn initialize_recomputes_decay_weight_and_window() {
    let mut b = Basic::default();
    assert_eq!(b.peak_meter_decay_weight, 0);
    let ok = b.initialize(1000);
    assert!(ok);
    assert_eq!(b.peak_meter_decay_weight, decay_weight_for_rate(1000));
    assert_eq!(b.params().gain.window, 50);
    // A rate too low for even one sample of ramp still gets a window.
    b.initialize(5);
    assert_eq!(b.params().gain.window, 1);
    assert_eq!(b.peak_meter_decay_weight, decay_weight_for_rate(5));
}

#[test]
fn reset_keeps_the_render_state() {
    let mut b = Basic::default();
    b.initialize(48000);
    b.peak_meter = 42;
    let before = b;
    b.reset();
    assert_eq!(b, before);
}

#[test]
fn degenerate_blocks_are_left_alone() {
    let mut b = Basic::default();
    b.initialize(44100);
    b.peak_meter = 99;
    let mut empty: Vec<Vec<i64>> = Vec::new();
    b.process(&mut empty, true);
    assert_eq!(b.peak_meter, 99);
    let mut zero_len: Vec<Vec<i64>> = vec![Vec::new(), Vec::new()];
    b.process(&mut zero_len, true);
    assert_eq!(b.peak_meter, 99);
}

#[test]
fn apply_gain_rounds_magnitude_toward_zero() {
    assert_eq!(apply_gain(-3, ONE / 2), -1);
    assert_eq!(apply_gain(3, ONE / 2), 1);
    assert_eq!(apply_gain(100, 0), 0);
    assert_eq!(apply_gain(7, ONE), 7);
    assert_eq!(apply_gain(i64::MAX, ONE), i64::MAX);
    assert_eq!(apply_gain(i64::MIN, ONE), i64::MIN);
}
