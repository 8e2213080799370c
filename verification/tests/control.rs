use byeefree_quad::blink::{
    blink_pattern, gamma_lut, gamma_lut_entry, switch_mode, BlinkMode, BlinkPhase,
    BreatheContext, MAX_DUTY, STEP,
};
use byeefree_quad::dshot::{cal_clock_div, ShotType};
use byeefree_quad::flight::{
    hovering_admitted, hovering_continues, landing_admitted, landing_done, landing_timed_out,
    move_duration_ms, moving_admitted, take_off_admitted, take_off_climbing, take_off_done,
    FlightModeEnum, FlightType,
};
use byeefree_quad::motors::{
    motor_idle_request, motor_stop_request, motor_test_request, resolve_directions,
    resolve_speeds,
};
use byeefree_quad::variables::{
    init_variables, FlightModeEditor, MotorDirectionEditor, MotorSpeedEditor,
};

#[test]
fn clock_divider_values() {
    assert_eq!(cal_clock_div(120_000_000, ShotType::DSHOT600), (25, 0));
    assert_eq!(cal_clock_div(120_000_000, ShotType::DSHOT150), (100, 0));
    assert_eq!(cal_clock_div(120_000_000, ShotType::DSHOT1200), (12, 128));
    assert_eq!(cal_clock_div(125_000_000, ShotType::DSHOT300), (52, 21));
    assert_eq!(cal_clock_div(120_000_000, ShotType::MultiShot), (25, 0));
    assert_eq!(cal_clock_div(u32::MAX, ShotType::DSHOT1200), (447, 100));
}

#[test]
fn clock_divider_is_truncated_ratio() {
    for clk in [1u32, 1_000_000, 120_000_000, 133_000_000, u32::MAX] {
        for t in [ShotType::DSHOT150, ShotType::DSHOT300, ShotType::DSHOT600, ShotType::DSHOT1200] {
            let (q, f) = cal_clock_div(clk, t);
            let rate: u64 = match t {
                ShotType::DSHOT150 => 150_000,
                ShotType::DSHOT300 => 300_000,
                ShotType::DSHOT600 => 600_000,
                _ => 1_200_000,
            };
            assert_eq!(q as u64 * 256 + f as u64, clk as u64 * 256 / (8 * rate));
        }
    }
}

#[test]
fn blink_patterns() {
    let p = blink_pattern(BlinkMode::TwoFast);
    assert_eq!(p.len(), 4);
    assert_eq!(p[0], BlinkPhase { high: true, millis: 50 });
    assert_eq!(p[3], BlinkPhase { high: false, millis: 800 });
    let total: u64 = blink_pattern(BlinkMode::ThreeFast).iter().map(|x| x.millis).sum();
    assert_eq!(total, 1000);
    assert!(blink_pattern(BlinkMode::Off).is_empty());
    assert!(blink_pattern(BlinkMode::Breathe).is_empty());
    assert_eq!(blink_pattern(BlinkMode::OnOffSlow)[1], BlinkPhase { high: false, millis: 150 });
}

#[test]
fn gamma_table_values() {
    assert_eq!(gamma_lut_entry(0), 0);
    assert_eq!(gamma_lut_entry(50), 2);
    assert_eq!(gamma_lut_entry(100), 22);
    assert_eq!(gamma_lut_entry(150), 74);
    assert_eq!(gamma_lut_entry(199), 174);
    let t = gamma_lut();
    assert_eq!(t.len(), STEP);
    assert!(t.windows(2).all(|w| w[0] <= w[1]));
    assert!(t.iter().all(|&d| d <= MAX_DUTY));
    assert_eq!(t.iter().map(|&d| d as u64).sum::<u64>(), 8688);
}

#[test]
fn breathe_sweeps_with_period_400() {
    let mut ctx = BreatheContext::new();
    let mut seen = Vec::new();
    for _ in 0..400 {
        seen.push((ctx.index(), ctx.direction()));
        ctx.step();
    }
    assert_eq!((ctx.index(), ctx.direction()), (0, 1));
    assert_eq!(seen[199], (199, 1));
    assert_eq!(seen[200], (199, -1));
    assert_eq!(seen[399], (0, -1));
    assert_eq!(ctx.duty(), 0);
}

#[test]
fn blink_mode_switch() {
    let mut ctx = BreatheContext::new();
    for _ in 0..10 {
        ctx.step();
    }
    assert_eq!(switch_mode(&mut ctx, BlinkMode::Breathe), BlinkMode::Breathe);
    assert_eq!(ctx.index(), 10);
    assert_eq!(switch_mode(&mut ctx, BlinkMode::OneFast), BlinkMode::OneFast);
    assert_eq!((ctx.index(), ctx.direction()), (0, 1));
    ctx.step();
    ctx.reset();
    assert_eq!(ctx.index(), 0);
}

#[test]
fn flight_admission_rules() {
    assert!(take_off_admitted(FlightModeEnum::Ready, FlightModeEnum::TakeOff));
    assert!(!take_off_admitted(FlightModeEnum::Hovering, FlightModeEnum::TakeOff));
    assert!(!take_off_admitted(FlightModeEnum::Ready, FlightModeEnum::Landing));
    assert!(hovering_admitted(FlightModeEnum::Ready, FlightModeEnum::Hovering));
    assert!(!hovering_admitted(FlightModeEnum::Forward, FlightModeEnum::Hovering));
    assert!(landing_admitted(FlightModeEnum::Hovering, FlightModeEnum::Landing));
    assert!(!landing_admitted(FlightModeEnum::Ready, FlightModeEnum::Landing));
    assert!(moving_admitted(FlightModeEnum::Hovering, FlightModeEnum::Left, FlightModeEnum::Left));
    assert!(!moving_admitted(FlightModeEnum::Ready, FlightModeEnum::Left, FlightModeEnum::Left));
    assert!(!moving_admitted(FlightModeEnum::Hovering, FlightModeEnum::Right, FlightModeEnum::Left));
    assert!(hovering_continues(FlightModeEnum::Hovering));
    assert!(!hovering_continues(FlightModeEnum::Landing));
}

#[test]
fn flight_progress() {
    assert!(take_off_climbing(10, 100));
    assert!(!take_off_climbing(100, 100));
    let wanted = FlightType { mode: FlightModeEnum::TakeOff, time: 0, altitude: 100, angle: 0, radius: 0 };
    assert_eq!(take_off_done(wanted), FlightType { mode: FlightModeEnum::Hovering, ..wanted });
    assert_eq!(landing_done(wanted), FlightType { mode: FlightModeEnum::Ready, ..wanted });
    assert!(!landing_timed_out(20_000, 0));
    assert!(landing_timed_out(20_001, 0));
    assert!(!landing_timed_out(5, 5));
    assert_eq!(move_duration_ms(1000), 1000);
    assert_eq!(move_duration_ms(-1), u64::MAX);
    assert_eq!(move_duration_ms(i16::MIN), u64::MAX - 32767);
}

#[test]
fn motor_requests() {
    assert_eq!(resolve_speeds([1, 2, 3, 4], (Some(5), None, Some(7), None)), [5, 2, 7, 4]);
    assert_eq!(resolve_speeds([1, 2, 3, 4], (None, None, None, None)), [1, 2, 3, 4]);
    assert_eq!(
        resolve_directions([true, true, false, false], (None, Some(false), None, Some(true))),
        [true, false, false, true]
    );
    assert_eq!(motor_test_request(0), (Some(30), Some(0), Some(0), Some(0)));
    assert_eq!(motor_test_request(3), (Some(0), Some(0), Some(0), Some(30)));
    assert_eq!(motor_idle_request(), (Some(10), Some(10), Some(10), Some(10)));
    assert_eq!(motor_stop_request(), (Some(0), Some(0), Some(0), Some(0)));
}

#[test]
fn shared_state_holders() {
    init_variables();
    let mut s = MotorSpeedEditor::new();
    assert_eq!(s.get_speeds(), [0; 4]);
    s.write_speeds([1, 2, 3, 4]);
    s.set_speed(2, 9);
    assert_eq!(s.get_speeds(), [1, 2, 9, 4]);
    let mut d = MotorDirectionEditor::new();
    assert_eq!(d.get_directions(), [true; 4]);
    d.set_direction(0, false);
    assert_eq!(d.get_directions(), [false, true, true, true]);
    d.write_directions([false; 4]);
    assert_eq!(d.get_directions(), [false; 4]);
    let mut f = FlightModeEditor::new();
    assert_eq!(f.get_data(), FlightType::ready());
    let t = FlightType { mode: FlightModeEnum::Landing, time: 1, altitude: 2, angle: 3, radius: 4 };
    f.write_data(t);
    assert_eq!(f.get_data(), t);
}
