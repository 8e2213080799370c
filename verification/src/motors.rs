//! Motor identifiers, motor task states and the resolution of motor
//! commands into the values sent to the ESCs.

use vstd::prelude::*;

verus! {

/// Motor number.
#[derive(Debug, Clone, Copy, PartialEq, Eq, Structural)]
pub enum Motors {
    /// Motor 1.
    One,
    /// Motor 2.
    Two,
    /// Motor 3.
    Three,
    /// Motor 4.
    Four,
}

/// State of the motor task.
#[allow(non_camel_case_types)]
#[derive(Debug, Clone, Copy, PartialEq, Eq, Structural)]
pub enum MotorState {
    /// Motors initialised and armed.
    READY,
    /// Motors disarmed.
    DISARMED,
    /// Keep the current speeds.
    KEEP,
    /// Running under control.
    RUNNING,
    /// Speeds set by hand from the command line.
    MANUAL,
}

/// A speed request: a speed for each motor, or none.
pub type MotorSpeedType = (Option<u16>, Option<u16>, Option<u16>, Option<u16>);

/// A direction request: a direction for each motor, or none.
pub type MotorDirType = (Option<bool>, Option<bool>, Option<bool>, Option<bool>);

/// A requested value, or `default` when none is given.
pub open spec fn or_default<T>(o: Option<T>, default: T) -> T {
    match o {
        Some(v) => v,
        None => default,
    }
}

/// The speeds the motor task sends for a speed request: each motor gets
/// its requested speed, and a motor without one keeps its current speed.
pub fn resolve_speeds(current: [u16; 4], request: MotorSpeedType) -> (r: [u16; 4])
    ensures
        r@ == seq![
            or_default(request.0, current[0]),
            or_default(request.1, current[1]),
            or_default(request.2, current[2]),
            or_default(request.3, current[3]),
        ],
{
    let r = [
        request.0.unwrap_or(current[0]),
        request.1.unwrap_or(current[1]),
        request.2.unwrap_or(current[2]),
        request.3.unwrap_or(current[3]),
    ];
    assert(r@ =~= seq![
        or_default(request.0, current[0]),
        or_default(request.1, current[1]),
        or_default(request.2, current[2]),
        or_default(request.3, current[3]),
    ]);
    r
}

/// The directions the motor task sends for a direction request: each motor
/// gets its requested direction, and a motor without one keeps its current
/// direction.
pub fn resolve_directions(current: [bool; 4], request: MotorDirType) -> (r: [bool; 4])
    ensures
        r@ == seq![
            or_default(request.0, current[0]),
            or_default(request.1, current[1]),
            or_default(request.2, current[2]),
            or_default(request.3, current[3]),
        ],
{
    let r = [
        request.0.unwrap_or(current[0]),
        request.1.unwrap_or(current[1]),
        request.2.unwrap_or(current[2]),
        request.3.unwrap_or(current[3]),
    ];
    assert(r@ =~= seq![
        or_default(request.0, current[0]),
        or_default(request.1, current[1]),
        or_default(request.2, current[2]),
        or_default(request.3, current[3]),
    ]);
    r
}

/// Speed of the motor under test during the motor test.
pub const MOTOR_TEST_SPEED: u16 = 30;

/// Speed of every motor once the motor test is over.
pub const MOTOR_IDLE_SPEED: u16 = 10;

/// Request of step `k` of the motor test: motor `k + 1` alone at the test
/// speed, the others stopped.
pub fn motor_test_request(k: usize) -> (r: MotorSpeedType)
    requires
        k < 4,
    ensures
        r.0 == Some(if k == 0 { MOTOR_TEST_SPEED } else { 0u16 }),
        r.1 == Some(if k == 1 { MOTOR_TEST_SPEED } else { 0u16 }),
        r.2 == Some(if k == 2 { MOTOR_TEST_SPEED } else { 0u16 }),
        r.3 == Some(if k == 3 { MOTOR_TEST_SPEED } else { 0u16 }),
{
    (
        Some(if k == 0 { MOTOR_TEST_SPEED } else { 0 }),
        Some(if k == 1 { MOTOR_TEST_SPEED } else { 0 }),
        Some(if k == 2 { MOTOR_TEST_SPEED } else { 0 }),
        Some(if k == 3 { MOTOR_TEST_SPEED } else { 0 }),
    )
}

/// Request after the motor test: every motor at the idle speed.
pub fn motor_idle_request() -> (r: MotorSpeedType)
    ensures
        r == (Some(MOTOR_IDLE_SPEED), Some(MOTOR_IDLE_SPEED), Some(MOTOR_IDLE_SPEED), Some(
            MOTOR_IDLE_SPEED,
        )),
{
    (Some(MOTOR_IDLE_SPEED), Some(MOTOR_IDLE_SPEED), Some(MOTOR_IDLE_SPEED), Some(MOTOR_IDLE_SPEED))
}

/// Request that stops every motor.
pub fn motor_stop_request() -> (r: MotorSpeedType)
    ensures
        r == (Some(0u16), Some(0u16), Some(0u16), Some(0u16)),
{
    (Some(0), Some(0), Some(0), Some(0))
}

/// Request that runs every motor at `thrust`.
pub fn uniform_request(thrust: u16) -> (r: MotorSpeedType)
    ensures
        r == (Some(thrust), Some(thrust), Some(thrust), Some(thrust)),
{
    (Some(thrust), Some(thrust), Some(thrust), Some(thrust))
}

} // verus!
