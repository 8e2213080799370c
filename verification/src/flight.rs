//! Flight modes and the rules by which the flight tasks accept a
//! requested mode.

use vstd::prelude::*;

verus! {

/// Flight mode.
#[derive(Debug, Clone, Copy, PartialEq, Eq, Structural)]
pub enum FlightModeEnum {
    /// On the ground, ready.
    Ready,
    /// Taking off.
    TakeOff,
    /// Hovering.
    Hovering,
    /// Landing.
    Landing,
    /// Moving forward.
    Forward,
    /// Moving backward.
    Backward,
    /// Moving left.
    Left,
    /// Moving right.
    Right,
    /// Circling.
    Circling,
}

/// A flight mode with its parameters.
#[derive(Debug, Clone, Copy, PartialEq, Eq, Structural)]
pub struct FlightType {
    /// Flight mode.
    pub mode: FlightModeEnum,
    /// Duration of a move (ms).
    pub time: i16,
    /// Target altitude (cm).
    pub altitude: i16,
    /// Rotation angle.
    pub angle: i16,
    /// Circling radius (cm).
    pub radius: i16,
}

impl FlightType {
    /// The flight state at power-up: ready, all parameters zero.
    pub open spec fn spec_ready() -> FlightType {
        FlightType { mode: FlightModeEnum::Ready, time: 0, altitude: 0, angle: 0, radius: 0 }
    }

    /// The flight state at power-up: ready, all parameters zero.
    pub fn ready() -> (r: FlightType)
        ensures
            r == FlightType::spec_ready(),
    {
        FlightType { mode: FlightModeEnum::Ready, altitude: 0, angle: 0, time: 0, radius: 0 }
    }
}

/// Stage of a take-off.
#[derive(Debug, Clone, Copy, PartialEq, Eq, Structural)]
pub enum TakeoffState {
    /// Checks before starting the motors.
    PreCheck,
    /// Building up thrust.
    ThrustBuildUp,
    /// Leaving the ground.
    LiftOff,
    /// Climbing.
    Ascending,
}

/// Duration of a landing after which it is given up (ms).
pub const LANDING_TIMEOUT: u64 = 20000;

/// The take-off task starts a take-off only when on the ground and asked
/// to take off.
pub fn take_off_admitted(now: FlightModeEnum, wanted: FlightModeEnum) -> (r: bool)
    ensures
        r <==> now == FlightModeEnum::Ready && wanted == FlightModeEnum::TakeOff,
{
    now == FlightModeEnum::Ready && wanted == FlightModeEnum::TakeOff
}

/// The hovering task starts hovering only when ready and asked to hover.
pub fn hovering_admitted(now: FlightModeEnum, wanted: FlightModeEnum) -> (r: bool)
    ensures
        r <==> now == FlightModeEnum::Ready && wanted == FlightModeEnum::Hovering,
{
    now == FlightModeEnum::Ready && wanted == FlightModeEnum::Hovering
}

/// The landing task lands only when not on the ground and asked to land.
pub fn landing_admitted(now: FlightModeEnum, wanted: FlightModeEnum) -> (r: bool)
    ensures
        r <==> now != FlightModeEnum::Ready && wanted == FlightModeEnum::Landing,
{
    now != FlightModeEnum::Ready && wanted == FlightModeEnum::Landing
}

/// A moving task (one per `direction`) moves only when not on the ground
/// and asked to move in its direction.
pub fn moving_admitted(
    now: FlightModeEnum,
    wanted: FlightModeEnum,
    direction: FlightModeEnum,
) -> (r: bool)
    ensures
        r <==> now != FlightModeEnum::Ready && wanted == direction,
{
    now != FlightModeEnum::Ready && wanted == direction
}

/// The take-off keeps climbing while below the target altitude.
pub fn take_off_climbing(altitude_now: i16, altitude_wanted: i16) -> (r: bool)
    ensures
        r <==> altitude_now < altitude_wanted,
{
    altitude_now < altitude_wanted
}

/// What the take-off task publishes once the target altitude is reached:
/// the request it served, switched to hovering.
pub fn take_off_done(wanted: FlightType) -> (r: FlightType)
    ensures
        r == (FlightType { mode: FlightModeEnum::Hovering, ..wanted }),
{
    FlightType { mode: FlightModeEnum::Hovering, ..wanted }
}

/// What the landing task publishes on touchdown: the request it served,
/// switched to ready.
pub fn landing_done(wanted: FlightType) -> (r: FlightType)
    ensures
        r == (FlightType { mode: FlightModeEnum::Ready, ..wanted }),
{
    FlightType { mode: FlightModeEnum::Ready, ..wanted }
}

/// Whether a landing started at `start_ms` is given up at `now_ms`.
pub fn landing_timed_out(now_ms: u64, start_ms: u64) -> (r: bool)
    requires
        start_ms <= now_ms,
    ensures
        r <==> now_ms - start_ms > LANDING_TIMEOUT,
{
    now_ms - start_ms > LANDING_TIMEOUT
}

/// Hovering goes on while the current mode is still hovering.
pub fn hovering_continues(current: FlightModeEnum) -> (r: bool)
    ensures
        r <==> current == FlightModeEnum::Hovering,
{
    current == FlightModeEnum::Hovering
}

/// Length of a move in milliseconds: the requested duration converted to
/// `u64` as the cast does, so that a negative duration wraps around to a
/// very long one.
pub fn move_duration_ms(time: i16) -> (r: u64)
    ensures
        time >= 0 ==> r == time,
        time < 0 ==> r == time + 0x1_0000_0000_0000_0000,
{
    let r = #[verifier::truncate] (time as u64);
    assert(time < 0 ==> r == time + 0x1_0000_0000_0000_0000) by (bit_vector)
        requires
            r == #[verifier::truncate] (time as u64),
    ;
    r
}

} // verus!
