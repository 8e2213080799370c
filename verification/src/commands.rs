//! Commands of the command line and what each handler decides: the flight
//! request to publish, the motor values to set and the reply text.
#![allow(non_camel_case_types)]

use vstd::prelude::*;
use vstd::string::StringSliceAdditionalSpecFns;
use crate::blink::{blink_phases, high_count, lemma_blink_patterns, round_ms, BlinkMode};
use crate::flight::{FlightModeEnum, FlightType};
use crate::text::{
    bool_text, decimal, join_bool, join_decimal, lemma_decimal_len, pow10, push_joined_bool,
    push_joined_decimal, SPACE,
};
use crate::ubuffer::{UBuffer, UBufferError};

verus! {

/// `blink` subcommands: the LED mode to switch to.
#[derive(Debug, Clone, Copy, PartialEq, Eq, Structural)]
pub enum BlinkCommand {
    /// LED off (`none`).
    Off,
    /// `one_fast`.
    One_Fast,
    /// `two_fast`.
    Two_Fast,
    /// `three_fast`.
    Three_Fast,
    /// `on_off_fast`.
    On_Off_Fast,
    /// `on_off_slow`.
    On_Off_Slow,
    /// `breathe`.
    Breathe,
}

impl BlinkCommand {
    /// The LED mode this command selects.
    pub open spec fn spec_mode(self) -> BlinkMode {
        match self {
            BlinkCommand::Off => BlinkMode::Off,
            BlinkCommand::One_Fast => BlinkMode::OneFast,
            BlinkCommand::Two_Fast => BlinkMode::TwoFast,
            BlinkCommand::Three_Fast => BlinkMode::ThreeFast,
            BlinkCommand::On_Off_Fast => BlinkMode::OnOffFast,
            BlinkCommand::On_Off_Slow => BlinkMode::OnOffSlow,
            BlinkCommand::Breathe => BlinkMode::Breathe,
        }
    }

    /// The name of the mode in the reply.
    pub open spec fn spec_name(self) -> &'static str {
        match self {
            BlinkCommand::Off => "none",
            BlinkCommand::One_Fast => "one_fast",
            BlinkCommand::Two_Fast => "two_fast",
            BlinkCommand::Three_Fast => "three_fast",
            BlinkCommand::On_Off_Fast => "on_off_fast",
            BlinkCommand::On_Off_Slow => "on_off_slow",
            BlinkCommand::Breathe => "breathe",
        }
    }

    /// The LED mode this command selects.
    pub fn mode(&self) -> (r: BlinkMode)
        ensures
            r == self.spec_mode(),
    {
        match self {
            BlinkCommand::Off => BlinkMode::Off,
            BlinkCommand::One_Fast => BlinkMode::OneFast,
            BlinkCommand::Two_Fast => BlinkMode::TwoFast,
            BlinkCommand::Three_Fast => BlinkMode::ThreeFast,
            BlinkCommand::On_Off_Fast => BlinkMode::OnOffFast,
            BlinkCommand::On_Off_Slow => BlinkMode::OnOffSlow,
            BlinkCommand::Breathe => BlinkMode::Breathe,
        }
    }

    /// The name of the mode in the reply.
    pub fn name(&self) -> (r: &'static str)
        ensures
            r == self.spec_name(),
    {
        match self {
            BlinkCommand::Off => "none",
            BlinkCommand::One_Fast => "one_fast",
            BlinkCommand::Two_Fast => "two_fast",
            BlinkCommand::Three_Fast => "three_fast",
            BlinkCommand::On_Off_Fast => "on_off_fast",
            BlinkCommand::On_Off_Slow => "on_off_slow",
            BlinkCommand::Breathe => "breathe",
        }
    }

    /// The reply text: `Blink mode set to: <name>` followed by `\n\r`, in a
    /// buffer of 32 bytes; `OutOfMemory` when it does not fit.
    pub fn reply(&self) -> (r: Result<UBuffer<32>, UBufferError>)
        ensures
            ({
                let text = "Blink mode set to: ".spec_bytes() + self.spec_name().spec_bytes()
                    + "\n\r".spec_bytes();
                &&& text.len() <= 32 ==> (r matches Ok(b) && b@ == text)
                &&& text.len() > 32 ==> r == Err::<UBuffer<32>, UBufferError>(
                    UBufferError::OutOfMemory,
                )
            }),
    {
        let mut v: Vec<u8> = Vec::new();
        let a = "Blink mode set to: ".as_bytes();
        let b = self.name().as_bytes();
        let c = "\n\r".as_bytes();
        let mut i: usize = 0;
        while i < a.len()
            invariant
                i <= a@.len(),
                v@ == a@.subrange(0, i as int),
            decreases a@.len() - i,
        {
            v.push(a[i]);
            i = i + 1;
            assert(v@ =~= a@.subrange(0, i as int));
        }
        let mut j: usize = 0;
        while j < b.len()
            invariant
                i == a@.len(),
                j <= b@.len(),
                v@ == a@ + b@.subrange(0, j as int),
            decreases b@.len() - j,
        {
            v.push(b[j]);
            j = j + 1;
            assert(v@ =~= a@ + b@.subrange(0, j as int));
        }
        let mut k: usize = 0;
        while k < c.len()
            invariant
                j == b@.len(),
                i == a@.len(),
                k <= c@.len(),
                v@ == a@ + b@ + c@.subrange(0, k as int),
            decreases c@.len() - k,
        {
            v.push(c[k]);
            k = k + 1;
            assert(v@ =~= a@ + b@ + c@.subrange(0, k as int));
        }
        assert(a@.subrange(0, a@.len() as int) =~= a@);
        assert(b@.subrange(0, b@.len() as int) =~= b@);
        assert(c@.subrange(0, c@.len() as int) =~= c@);
        UBuffer::<32>::from_bytes(v.as_slice())
    }
}

/// Each `blink` subcommand is replied to under its own name and selects the
/// LED mode of that name: `none` turns
/// the LED off, `one_fast`, `two_fast` and `three_fast` select the patterns
/// of one, two and three pulses per second, `on_off_fast` and `on_off_slow`
/// the square waves of 200 ms and 300 ms, `breathe` the breathing sweep; no
/// two subcommands select the same mode.
pub proof fn lemma_blink_command_modes(c: BlinkCommand, d: BlinkCommand)
    ensures
        BlinkCommand::Off.spec_mode() == BlinkMode::Off,
        BlinkCommand::One_Fast.spec_mode() == BlinkMode::OneFast,
        BlinkCommand::Two_Fast.spec_mode() == BlinkMode::TwoFast,
        BlinkCommand::Three_Fast.spec_mode() == BlinkMode::ThreeFast,
        BlinkCommand::On_Off_Fast.spec_mode() == BlinkMode::OnOffFast,
        BlinkCommand::On_Off_Slow.spec_mode() == BlinkMode::OnOffSlow,
        BlinkCommand::Breathe.spec_mode() == BlinkMode::Breathe,
        c.spec_mode() == d.spec_mode() ==> c == d,
        BlinkCommand::Off.spec_name()@ == "none"@,
        BlinkCommand::One_Fast.spec_name()@ == "one_fast"@,
        BlinkCommand::Two_Fast.spec_name()@ == "two_fast"@,
        BlinkCommand::Three_Fast.spec_name()@ == "three_fast"@,
        BlinkCommand::On_Off_Fast.spec_name()@ == "on_off_fast"@,
        BlinkCommand::On_Off_Slow.spec_name()@ == "on_off_slow"@,
        BlinkCommand::Breathe.spec_name()@ == "breathe"@,
        c == BlinkCommand::One_Fast ==> high_count(blink_phases(c.spec_mode())) == 1 && round_ms(
            blink_phases(c.spec_mode()),
        ) == 1000,
        c == BlinkCommand::Two_Fast ==> high_count(blink_phases(c.spec_mode())) == 2 && round_ms(
            blink_phases(c.spec_mode()),
        ) == 1000,
        c == BlinkCommand::Three_Fast ==> high_count(blink_phases(c.spec_mode())) == 3
            && round_ms(blink_phases(c.spec_mode())) == 1000,
        c == BlinkCommand::On_Off_Fast ==> round_ms(blink_phases(c.spec_mode())) == 200,
        c == BlinkCommand::On_Off_Slow ==> round_ms(blink_phases(c.spec_mode())) == 300,
{
    lemma_blink_patterns(c.spec_mode());
}

/// `go` commands: flight requests.
#[derive(Debug, Clone, Copy, PartialEq, Eq, Structural)]
pub enum GoCommand {
    /// Take off to `altitude` cm.
    Take_Off {
        /// Target altitude (cm).
        altitude: i16,
    },
    /// Land.
    Landing,
    /// Circle in the air.
    Circling {
        /// Radius (cm).
        radius: i16,
        /// Horizontal rotation angle.
        angle: i16,
    },
    /// Move in the air.
    Moving {
        /// Direction and duration.
        cmd: GoMovingCommand,
    },
    /// Hover.
    Hovering,
}

/// `go moving` subcommands: a direction and a duration in milliseconds.
#[derive(Debug, Clone, Copy, PartialEq, Eq, Structural)]
pub enum GoMovingCommand {
    /// Move forward.
    Forward {
        /// Duration (ms).
        time: i16,
    },
    /// Move backward.
    Backward {
        /// Duration (ms).
        time: i16,
    },
    /// Move left.
    Left {
        /// Duration (ms).
        time: i16,
    },
    /// Move right.
    Right {
        /// Duration (ms).
        time: i16,
    },
}

impl GoMovingCommand {
    /// The flight request published for this move, built from the current
    /// flight state: the mode is the direction and the time is the duration.
    pub open spec fn spec_request(self, current: FlightType) -> FlightType {
        match self {
            GoMovingCommand::Forward { time } => FlightType {
                mode: FlightModeEnum::Forward,
                time,
                ..current
            },
            GoMovingCommand::Backward { time } => FlightType {
                mode: FlightModeEnum::Backward,
                time,
                ..current
            },
            GoMovingCommand::Left { time } => FlightType {
                mode: FlightModeEnum::Left,
                time,
                ..current
            },
            GoMovingCommand::Right { time } => FlightType {
                mode: FlightModeEnum::Right,
                time,
                ..current
            },
        }
    }

    /// The flight request published for this move.
    pub fn flight_request(&self, current: FlightType) -> (r: FlightType)
        ensures
            r == self.spec_request(current),
    {
        match self {
            GoMovingCommand::Forward { time } => FlightType {
                mode: FlightModeEnum::Forward,
                time: *time,
                ..current
            },
            GoMovingCommand::Backward { time } => FlightType {
                mode: FlightModeEnum::Backward,
                time: *time,
                ..current
            },
            GoMovingCommand::Left { time } => FlightType {
                mode: FlightModeEnum::Left,
                time: *time,
                ..current
            },
            GoMovingCommand::Right { time } => FlightType {
                mode: FlightModeEnum::Right,
                time: *time,
                ..current
            },
        }
    }
}

impl GoCommand {
    /// The flight request published for this command, built from the
    /// current flight state: the requested mode with the parameters the
    /// command carries, the other parameters kept.
    pub open spec fn spec_request(self, current: FlightType) -> FlightType {
        match self {
            GoCommand::Take_Off { altitude } => FlightType {
                mode: FlightModeEnum::TakeOff,
                altitude,
                ..current
            },
            GoCommand::Landing => FlightType { mode: FlightModeEnum::Landing, ..current },
            GoCommand::Circling { radius, angle } => FlightType {
                mode: FlightModeEnum::Circling,
                radius,
                angle,
                ..current
            },
            GoCommand::Moving { cmd } => cmd.spec_request(current),
            GoCommand::Hovering => FlightType { mode: FlightModeEnum::Hovering, ..current },
        }
    }

    /// The flight request published for this command.
    pub fn flight_request(&self, current: FlightType) -> (r: FlightType)
        ensures
            r == self.spec_request(current),
    {
        match self {
            GoCommand::Take_Off { altitude } => FlightType {
                mode: FlightModeEnum::TakeOff,
                altitude: *altitude,
                ..current
            },
            GoCommand::Landing => FlightType { mode: FlightModeEnum::Landing, ..current },
            GoCommand::Circling { radius, angle } => FlightType {
                mode: FlightModeEnum::Circling,
                radius: *radius,
                angle: *angle,
                ..current
            },
            GoCommand::Moving { cmd } => cmd.flight_request(current),
            GoCommand::Hovering => FlightType { mode: FlightModeEnum::Hovering, ..current },
        }
    }
}

/// What a `go` command requests: the requested mode is set by the command
/// alone, whatever the current state, and is never `Ready`; commands of
/// different kinds request different modes (`take_off`, `landing`,
/// `circling`, `hovering`, and the direction of a move); and the request
/// keeps every parameter of the current state except those the command
/// carries: the altitude of a take-off, the radius and angle of a circling,
/// the duration of a move.
pub proof fn lemma_go_requests(c: GoCommand, x: FlightType, y: FlightType)
    ensures
        c.spec_request(x).mode == c.spec_request(y).mode,
        c.spec_request(x).mode != FlightModeEnum::Ready,
        c is Take_Off <==> c.spec_request(x).mode == FlightModeEnum::TakeOff,
        c is Landing <==> c.spec_request(x).mode == FlightModeEnum::Landing,
        c is Circling <==> c.spec_request(x).mode == FlightModeEnum::Circling,
        c is Hovering <==> c.spec_request(x).mode == FlightModeEnum::Hovering,
        c matches GoCommand::Moving { cmd } ==> c.spec_request(x).mode == match cmd {
            GoMovingCommand::Forward { .. } => FlightModeEnum::Forward,
            GoMovingCommand::Backward { .. } => FlightModeEnum::Backward,
            GoMovingCommand::Left { .. } => FlightModeEnum::Left,
            GoMovingCommand::Right { .. } => FlightModeEnum::Right,
        },
        c matches GoCommand::Take_Off { altitude } ==> c.spec_request(x).altitude == altitude,
        !(c is Take_Off) ==> c.spec_request(x).altitude == x.altitude,
        c matches GoCommand::Circling { radius, angle } ==> c.spec_request(x).radius == radius
            && c.spec_request(x).angle == angle,
        !(c is Circling) ==> c.spec_request(x).radius == x.radius && c.spec_request(x).angle
            == x.angle,
        c matches GoCommand::Moving { cmd } ==> c.spec_request(x).time == match cmd {
            GoMovingCommand::Forward { time } => time,
            GoMovingCommand::Backward { time } => time,
            GoMovingCommand::Left { time } => time,
            GoMovingCommand::Right { time } => time,
        },
        !(c is Moving) ==> c.spec_request(x).time == x.time,
{
}

/// `motor` commands.
#[derive(Debug, Clone, Copy, PartialEq, Eq, Structural)]
pub enum MotorCommand {
    /// Set a speed or a direction (`set`).
    Configure {
        /// What to set.
        cmd: MotorSetEnum,
    },
    /// Report the speeds and directions.
    Get,
}

/// `motor set` subcommands; motors are numbered from 1 to 4.
#[derive(Debug, Clone, Copy, PartialEq, Eq, Structural)]
pub enum MotorSetEnum {
    /// Set the speed of one motor.
    Speed {
        /// Motor number, 1 to 4.
        motor: usize,
        /// Speed.
        speed: u16,
    },
    /// Set the direction of one motor.
    Dir {
        /// Motor number, 1 to 4.
        motor: usize,
        /// Direction.
        direction: bool,
    },
}

/// The speeds after setting motor `motor` (numbered from 1) to `speed`.
pub fn set_motor_speed(speeds: [u16; 4], motor: usize, speed: u16) -> (r: [u16; 4])
    requires
        1 <= motor <= 4,
    ensures
        r@ == speeds@.update(motor - 1, speed),
{
    let mut r = speeds;
    r[motor - 1] = speed;
    r
}

/// The directions after setting motor `motor` (numbered from 1) to
/// `direction`.
pub fn set_motor_direction(directions: [bool; 4], motor: usize, direction: bool) -> (r: [bool; 4])
    requires
        1 <= motor <= 4,
    ensures
        r@ == directions@.update(motor - 1, direction),
{
    let mut r = directions;
    r[motor - 1] = direction;
    r
}

/// Text of the speed report: the four speeds in decimal, each followed by a
/// space.
pub open spec fn speeds_text(speeds: Seq<u16>) -> Seq<u8> {
    join_decimal(speeds.map_values(|s: u16| s as u64)).push(SPACE)
}

/// The speed report of `motor get`; it always fits in its 32 bytes.
pub fn motor_speeds_reply(speeds: [u16; 4]) -> (r: Result<UBuffer<32>, UBufferError>)
    ensures
        r matches Ok(b) && b@ == speeds_text(speeds@),
{
    let wide: [u64; 4] = [speeds[0] as u64, speeds[1] as u64, speeds[2] as u64, speeds[3] as u64];
    let mut v: Vec<u8> = Vec::new();
    push_joined_decimal(&mut v, &wide);
    v.push(SPACE);
    proof {
        let xs = speeds@.map_values(|s: u16| s as u64);
        assert(wide@ =~= xs);
        reveal_with_fuel(join_decimal, 5);
        assert(xs.drop_last().drop_last().drop_last() =~= seq![xs[0]]);
        assert(xs.drop_last().drop_last() =~= seq![xs[0], xs[1]]);
        assert(xs.drop_last() =~= seq![xs[0], xs[1], xs[2]]);
        assert forall|k: int| 0 <= k < 4 implies decimal(xs[k] as nat).len() <= 5 by {
            reveal_with_fuel(pow10, 6);
            assert(pow10(5) == 100000);
            lemma_decimal_len(xs[k] as nat, 5);
        }
        assert(v@.len() <= 24);
    }
    UBuffer::<32>::from_bytes(v.as_slice())
}

/// The direction report of `motor get`: the four directions as `true` or
/// `false`, separated by spaces; it always fits in its 32 bytes.
pub fn motor_directions_reply(directions: [bool; 4]) -> (r: Result<UBuffer<32>, UBufferError>)
    ensures
        r matches Ok(b) && b@ == join_bool(directions@),
{
    let mut v: Vec<u8> = Vec::new();
    push_joined_bool(&mut v, &directions);
    proof {
        let xs = directions@;
        reveal_with_fuel(join_bool, 5);
        assert(xs.drop_last().drop_last().drop_last() =~= seq![xs[0]]);
        assert(xs.drop_last().drop_last() =~= seq![xs[0], xs[1]]);
        assert(xs.drop_last() =~= seq![xs[0], xs[1], xs[2]]);
        assert(forall|k: int| 0 <= k < 4 ==> bool_text(#[trigger] xs[k]).len() <= 5);
        assert(v@.len() <= 23);
    }
    UBuffer::<32>::from_bytes(v.as_slice())
}

/// `sensor` commands.
#[derive(Debug, Clone, Copy, PartialEq, Eq, Structural)]
pub enum SensorCommand {
    /// Read a sensor.
    Get {
        /// Which sensor.
        cmd: SensorGetEnum,
    },
    /// Configure a sensor (`set`).
    Configure {
        /// Which sensor and what.
        cmd: SensorSetEnum,
    },
}

/// `sensor get` subcommands.
#[derive(Debug, Clone, Copy, PartialEq, Eq, Structural)]
pub enum SensorGetEnum {
    /// The ten-axis IMU.
    Imu,
    /// The optical flow sensor.
    Optical_Flow,
    /// The distance sensor.
    Tof,
}

/// `sensor set` subcommands.
#[derive(Debug, Clone, Copy, PartialEq, Eq, Structural)]
pub enum SensorSetEnum {
    /// Configure the IMU.
    Imu {
        /// What to configure.
        cmd: SensorSetImuEnum,
    },
    /// Configure the optical flow sensor.
    Optical_Flow {
        /// What to configure.
        cmd: SensorSetOpticalFlowEnum,
    },
    /// Configure the distance sensor.
    Tof {
        /// What to configure.
        cmd: SensorSetTofEnum,
    },
}

/// `sensor set imu` subcommands.
#[derive(Debug, Clone, Copy, PartialEq, Eq, Structural)]
pub enum SensorSetImuEnum {
    /// Set parameters.
    Flags {
        /// Update frequency.
        frequency: Option<u8>,
        /// UART baud rate.
        baudrate: Option<u32>,
    },
    /// Restart the sensor.
    Restart,
    /// Calibrate the sensor.
    Calibrate,
}

/// `sensor set optical_flow` subcommands.
#[derive(Debug, Clone, Copy, PartialEq, Eq, Structural)]
pub enum SensorSetOpticalFlowEnum {
    /// Set parameters.
    Flags {
        /// Update frequency.
        frequency: Option<u8>,
        /// UART baud rate.
        baudrate: Option<u32>,
    },
    /// Restart the sensor.
    Restart,
    /// Calibrate the sensor.
    Calibrate,
}

/// `sensor set tof` subcommands.
#[derive(Debug, Clone, Copy, PartialEq, Eq, Structural)]
pub enum SensorSetTofEnum {
    /// Set parameters.
    Flags {
        /// Update frequency.
        frequency: Option<u8>,
        /// UART baud rate.
        baudrate: Option<u32>,
    },
    /// Restart the sensor.
    Restart,
    /// Calibrate the sensor.
    Calibrate,
}

/// `imu: ` as bytes.
pub open spec fn imu_prefix() -> Seq<u8> {
    seq![105u8, 109u8, 117u8, 58u8, 32u8]
}

/// Text of the IMU report: `imu: `, then the gyroscope, accelerometer and
/// magnetometer axes and the pressure in decimal, separated by spaces.
pub open spec fn imu_text(gyr: Seq<u64>, acc: Seq<u64>, mag: Seq<u64>, pressure: u64) -> Seq<u8> {
    imu_prefix() + join_decimal(gyr).push(SPACE) + join_decimal(acc).push(SPACE) + join_decimal(
        mag,
    ).push(SPACE) + decimal(pressure as nat)
}

/// The IMU report of `sensor get imu`, in a buffer of 128 bytes, from the
/// readings already converted to integers; `OutOfMemory` when the text
/// does not fit.
pub fn imu_reply(gyr: [u64; 3], acc: [u64; 3], mag: [u64; 3], pressure: u64) -> (r: Result<
    UBuffer<128>,
    UBufferError,
>)
    ensures
        imu_text(gyr@, acc@, mag@, pressure).len() <= 128 ==> (r matches Ok(b) && b@ == imu_text(
            gyr@,
            acc@,
            mag@,
            pressure,
        )),
        imu_text(gyr@, acc@, mag@, pressure).len() > 128 ==> r == Err::<
            UBuffer<128>,
            UBufferError,
        >(UBufferError::OutOfMemory),
{
    let mut v: Vec<u8> = Vec::new();
    v.push(105);
    v.push(109);
    v.push(117);
    v.push(58);
    v.push(32);
    push_joined_decimal(&mut v, &gyr);
    v.push(SPACE);
    push_joined_decimal(&mut v, &acc);
    v.push(SPACE);
    push_joined_decimal(&mut v, &mag);
    v.push(SPACE);
    let p: [u64; 1] = [pressure];
    push_joined_decimal(&mut v, &p);
    proof {
        assert(p@ =~= seq![pressure]);
        assert(v@ =~= imu_text(gyr@, acc@, mag@, pressure));
    }
    UBuffer::<128>::from_bytes(v.as_slice())
}

} // verus!
