use thermostat_eem::datapath::Datapath;

// Q16.16 helpers for readable test values.
const ONE: i32 = 65536;

fn q(x: f64) -> i32 {
    (x * 65536.0) as i32
}

#[test]
fn end_to_end_scenario_converges_to_setpoint() {
    // Weight only channel 0, unity gain, output bounds [-10, 10], zero state;
    // feed 5.0 on channel 0 for three ticks and expect the output to move
    // monotonically toward 5.0 without passing the clamp at 10.
    let mut dp = Datapath::new(ONE, q(-10.0), q(10.0), [ONE, 0, 0, 0, 0, 0, 0, 0]);
    let mut state = [0i32; 5];
    let temps = [q(5.0), 0, 0, 0, 0, 0, 0, 0];

    let mut last = 0i32;
    for _ in 0..3 {
        let y = dp.update(&temps, &mut state, false);
        assert!(y >= last, "output must approach the setpoint monotonically");
        assert!(y <= q(10.0));
        assert_eq!(y, q(5.0));
        last = y;
    }
    assert_eq!(state[2], q(5.0));
}

#[test]
fn update_applies_weights_in_channel_order() {
    // 4.0 * 0.5 + 1.0 * 1.0 = 3.0
    let mut dp = Datapath::new(ONE, q(-100.0), q(100.0), [q(0.5), ONE, 0, 0, 0, 0, 0, 0]);
    let mut state = [0i32; 5];
    let temps = [q(4.0), q(1.0), q(7.0), 0, 0, 0, 0, 0];
    let y = dp.update(&temps, &mut state, false);
    assert_eq!(y, q(3.0));
    assert_eq!(state[0], q(3.0), "the weighted input is committed to the history");
}

#[test]
fn update_clamps_output_to_bounds() {
    let mut dp = Datapath::new(q(3.0), q(-10.0), q(10.0), [ONE, 0, 0, 0, 0, 0, 0, 0]);
    let mut state = [0i32; 5];
    let y = dp.update(&[q(5.0), 0, 0, 0, 0, 0, 0, 0], &mut state, false);
    assert_eq!(y, q(10.0), "3 * 5 = 15 saturates at the upper bound 10");

    let y = dp.update(&[q(-5.0), 0, 0, 0, 0, 0, 0, 0], &mut state, false);
    assert_eq!(y, q(-10.0), "3 * -5 = -15 saturates at the lower bound -10");
}

#[test]
fn update_propagates_negative_temperatures() {
    let mut dp = Datapath::new(ONE, q(-10.0), q(10.0), [ONE, 0, 0, 0, 0, 0, 0, 0]);
    let mut state = [0i32; 5];
    let y = dp.update(&[q(-5.0), 0, 0, 0, 0, 0, 0, 0], &mut state, false);
    assert_eq!(y, q(-5.0));
}

#[test]
fn hold_freezes_state_and_repeats_last_output() {
    let mut dp = Datapath::new(ONE, q(-10.0), q(10.0), [ONE, 0, 0, 0, 0, 0, 0, 0]);
    let mut state = [0i32; 5];
    let committed = dp.update(&[q(2.5), 0, 0, 0, 0, 0, 0, 0], &mut state, false);
    let saved = state;

    // A held update sees entirely different temperatures and must ignore them.
    let held = dp.update(&[q(9.0), q(9.0), 0, 0, 0, 0, 0, 0], &mut state, true);
    assert_eq!(held, committed);
    assert_eq!(state, saved, "hold leaves the filter history exactly as it was");
}

#[test]
fn update_is_deterministic_for_equal_inputs() {
    let temps = [q(1.25), q(-2.0), q(3.5), 0, 0, q(0.75), 0, q(-1.0)];
    let weights = [q(0.5), q(0.25), ONE, 0, 0, q(-1.0), 0, ONE];

    let mut dp1 = Datapath::new(q(1.5), q(-20.0), q(20.0), weights);
    let mut s1 = [q(1.0), q(2.0), q(3.0), q(4.0), q(5.0)];
    let mut dp2 = Datapath::new(q(1.5), q(-20.0), q(20.0), weights);
    let mut s2 = s1;

    let y1 = dp1.update(&temps, &mut s1, false);
    let y2 = dp2.update(&temps, &mut s2, false);
    assert_eq!(y1, y2);
    assert_eq!(s1, s2);
}

#[test]
fn temperatures_enter_only_through_their_weighted_sum() {
    // Both vectors have weighted sum 3.0 under these weights.
    let weights = [ONE, q(0.5), 0, 0, 0, 0, 0, 0];
    let t1 = [q(3.0), 0, q(8.0), 0, 0, 0, 0, 0];
    let t2 = [q(2.0), q(2.0), q(-4.0), 0, 0, 0, 0, 0];

    let mut dp1 = Datapath::new(q(2.0), q(-10.0), q(10.0), weights);
    let mut dp2 = Datapath::new(q(2.0), q(-10.0), q(10.0), weights);
    let mut s1 = [0i32; 5];
    let mut s2 = [0i32; 5];
    assert_eq!(dp1.update(&t1, &mut s1, false), dp2.update(&t2, &mut s2, false));
    assert_eq!(s1, s2);
}
