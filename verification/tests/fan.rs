use thermostat_eem::fan::Error;
use thermostat_eem::fan::Fan;
use thermostat_eem::fan::FanPins;

fn pins() -> FanPins {
    FanPins { tacho: 10, pwm: 7 }
}

#[test]
fn overrange_duty_is_rejected_and_output_unchanged() {
    let mut fan = Fan::new(pins(), 1000);
    // duty 1.5 in Q16.16
    let r = fan.set_duty(98304);
    assert_eq!(r, Err(Error::Bounds));
    assert_eq!(fan.current_code(), 0, "a rejected command leaves the output untouched");
}

#[test]
fn half_duty_commits_half_the_code_range() {
    let mut fan = Fan::new(pins(), 1000);
    // duty 0.5 in Q16.16
    let r = fan.set_duty(32768);
    assert_eq!(r, Ok(500));
    assert_eq!(fan.current_code(), 500);
}

#[test]
fn full_scale_duty_is_out_of_the_half_open_range() {
    let mut fan = Fan::new(pins(), 1000);
    // duty 1.0 rounds to code 1000, which is outside [0, 1000).
    assert_eq!(fan.set_duty(65536), Err(Error::Bounds));
    assert_eq!(fan.current_code(), 0);
}

#[test]
fn zero_duty_commits_code_zero() {
    let mut fan = Fan::new(pins(), 1000);
    fan.set_duty(32768).unwrap();
    assert_eq!(fan.set_duty(0), Ok(0));
    assert_eq!(fan.current_code(), 0);
}

#[test]
fn duty_code_rounds_half_up() {
    let mut fan = Fan::new(pins(), 3);
    // duty 0.5 over 3 codes: 1.5 rounds to 2.
    assert_eq!(fan.set_duty(32768), Ok(2));
    assert_eq!(fan.current_code(), 2);
    assert_eq!(fan.max_duty_code(), 3);
}

#[test]
fn failed_command_keeps_previous_commitment() {
    let mut fan = Fan::new(pins(), 1000);
    assert_eq!(fan.set_duty(16384), Ok(250));
    assert_eq!(fan.set_duty(131072), Err(Error::Bounds));
    assert_eq!(fan.current_code(), 250, "the last successful code stays committed");
}
