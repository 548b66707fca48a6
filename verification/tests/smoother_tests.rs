use basic_plugin::fixed::ONE;
use basic_plugin::smoother::GainParam;

// Full-range ramp step at the default 2205-sample window: ceil(ONE / 2205).
const STEP: u64 = 1947831;

#[test]
fn fresh_param_is_converged_at_unit_gain() {
    let mut p = GainParam::new();
    assert_eq!(p.value(), ONE);
    assert_eq!(p.current_value(), ONE);
    for _ in 0..8 {
        assert_eq!(p.next(), ONE);
    }
}

#[test]
fn first_pull_after_target_change_ramps_from_default() {
    // A target set before the first pull must smooth from the declared
    // default, not jump.
    let mut p = GainParam::new();
    p.set_target(0);
    let g = p.next();
    assert_eq!(g, ONE - STEP);
    assert_eq!(g, 4293019465);
}

#[test]
fn ramp_reaches_target_within_window() {
    let mut p = GainParam::new();
    p.set_target(0);
    let mut prev = p.current_value();
    for _ in 0..2205 {
        let g = p.next();
        assert!(g <= prev, "ramp must be monotone");
        assert!(prev - g <= STEP, "jump exceeds the slew bound");
        prev = g;
    }
    assert_eq!(p.current_value(), 0);
    assert_eq!(p.next(), 0);
}

#[test]
fn no_jump_exceeds_slew_bound_across_target_changes() {
    let mut p = GainParam::new();
    let targets: [u64; 5] = [0, ONE, ONE / 3, ONE, 0];
    for &t in targets.iter() {
        p.set_target(t);
        for _ in 0..100 {
            let before = p.current_value();
            let g = p.next();
            let jump = if g >= before { g - before } else { before - g };
            assert!(jump <= STEP);
        }
    }
}

#[test]
fn retarget_mid_ramp_restarts_from_current_value() {
    let mut p = GainParam::new();
    p.set_target(0);
    for _ in 0..10 {
        p.next();
    }
    assert_eq!(p.current_value(), 4275488986);
    // The upward ramp starts from the value being emitted right now.
    p.set_target(ONE);
    let g = p.next();
    assert_eq!(g, 4275488986 + 8834);
}

#[test]
fn setting_current_target_ends_the_ramp() {
    let mut p = GainParam::new();
    p.set_target(ONE);
    assert_eq!(p.steps_left, 0);
    assert_eq!(p.next(), ONE);
}

#[test]
fn ramp_never_overshoots() {
    let mut p = GainParam::new();
    p.set_target(ONE / 2);
    for _ in 0..5000 {
        let g = p.next();
        assert!(g >= ONE / 2);
    }
    assert_eq!(p.current_value(), ONE / 2);
}

#[test]
fn window_change_restarts_ramp_with_new_length() {
    let mut p = GainParam::new();
    p.set_target(0);
    p.next();
    p.set_window(10);
    assert_eq!(p.window, 10);
    // The remaining distance must now be covered in ten samples.
    for _ in 0..10 {
        p.next();
    }
    assert_eq!(p.current_value(), 0);
}
