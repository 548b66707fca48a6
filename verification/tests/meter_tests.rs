use basic_plugin::fixed::ONE;
use basic_plugin::meter::decay_weight_for_rate;
use basic_plugin::meter::meter_step;

// The decay weight the library derives for 44.1 kHz.
const W44100: u64 = 4294067301;

#[test]
fn decay_weight_at_44100_matches_the_decay_law() {
    let w = decay_weight_for_rate(44100);
    assert_eq!(w, W44100);
    // 0.25 ^ (1 / (44100 * 0.15)), the 12 dB per 150 ms law.
    let exact = 0.25f64.powf((44100.0f64 * 0.15).recip());
    let got = w as f64 / ONE as f64;
    assert!((got - exact).abs() < 1e-9);
}

#[test]
fn decay_weight_is_below_one_for_common_rates() {
    for &rate in [8000u32, 22050, 44100, 48000, 96000, 192000].iter() {
        let w = decay_weight_for_rate(rate);
        assert!(w < ONE);
        assert!(w > ONE / 2, "weight at {} Hz should be close to one", rate);
    }
}

#[test]
fn decay_weight_at_absurdly_low_rate_decays_instantly() {
    assert_eq!(decay_weight_for_rate(1), 0);
}

#[test]
fn attack_is_instant_and_exact() {
    // An amplitude above the current level becomes the level, unsmoothed.
    let w = decay_weight_for_rate(44100);
    assert_eq!(meter_step(100, 200, w), 200);
    assert_eq!(meter_step(0, 123456789, w), 123456789);
}

#[test]
fn release_of_silence_is_level_times_weight() {
    let cur = ONE / 2;
    let next = meter_step(cur, 0, W44100);
    // floor(cur * w / ONE), computed independently.
    let expected = ((cur as u128 * W44100 as u128) >> 32) as u64;
    assert_eq!(next, expected);
    assert_eq!(next, 2147033650);
    assert!(next < cur);
}

#[test]
fn release_with_equal_amplitude_holds_the_level() {
    let w = decay_weight_for_rate(48000);
    assert_eq!(meter_step(5000, 5000, w), 5000);
}

#[test]
fn meter_at_zero_stays_at_zero_in_silence() {
    assert_eq!(meter_step(0, 0, W44100), 0);
}

#[test]
fn repeated_silence_strictly_decreases_a_positive_meter() {
    let w = decay_weight_for_rate(44100);
    let mut level: u64 = 1 << 30;
    for _ in 0..50 {
        let next = meter_step(level, 0, w);
        assert!(next < level);
        level = next;
    }
}
