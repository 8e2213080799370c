//! State shared between the tasks: motor speeds, motor directions and the
//! current flight mode. Each value is held here; the firmware keeps one of
//! each behind a lock.

use vstd::prelude::*;
use crate::flight::FlightType;

verus! {

/// Prepares the shared state; there is nothing to do beyond the initial
/// values of the holders.
pub fn init_variables() {
}

/// Current speeds of the four motors.
pub struct MotorSpeedEditor {
    speeds: [u16; 4],
}

impl View for MotorSpeedEditor {
    type V = Seq<u16>;

    closed spec fn view(&self) -> Seq<u16> {
        self.speeds@
    }
}

impl MotorSpeedEditor {
    /// All motors stopped.
    pub fn new() -> (r: Self)
        ensures
            r@ == seq![0u16, 0u16, 0u16, 0u16],
    {
        let r = MotorSpeedEditor { speeds: [0u16; 4] };
        assert(r@ =~= seq![0u16, 0u16, 0u16, 0u16]);
        r
    }

    /// The current speeds.
    pub fn get_speeds(&self) -> (r: [u16; 4])
        ensures
            r@ == self@,
    {
        self.speeds
    }

    /// Replaces all four speeds.
    pub fn write_speeds(&mut self, speeds: [u16; 4])
        ensures
            final(self)@ == speeds@,
    {
        self.speeds = speeds;
    }

    /// Sets the speed of motor `index` (counted from 0).
    pub fn set_speed(&mut self, index: usize, value: u16)
        requires
            index < 4,
        ensures
            final(self)@ == old(self)@.update(index as int, value),
    {
        self.speeds[index] = value;
    }
}

/// Current spin directions of the four motors (`true`: clockwise).
pub struct MotorDirectionEditor {
    directions: [bool; 4],
}

impl View for MotorDirectionEditor {
    type V = Seq<bool>;

    closed spec fn view(&self) -> Seq<bool> {
        self.directions@
    }
}

impl MotorDirectionEditor {
    /// All motors clockwise.
    pub fn new() -> (r: Self)
        ensures
            r@ == seq![true, true, true, true],
    {
        let r = MotorDirectionEditor { directions: [true; 4] };
        assert(r@ =~= seq![true, true, true, true]);
        r
    }

    /// The current directions.
    pub fn get_directions(&self) -> (r: [bool; 4])
        ensures
            r@ == self@,
    {
        self.directions
    }

    /// Replaces all four directions.
    pub fn write_directions(&mut self, directions: [bool; 4])
        ensures
            final(self)@ == directions@,
    {
        self.directions = directions;
    }

    /// Sets the direction of motor `index` (counted from 0).
    pub fn set_direction(&mut self, index: usize, value: bool)
        requires
            index < 4,
        ensures
            final(self)@ == old(self)@.update(index as int, value),
    {
        self.directions[index] = value;
    }
}

/// Current flight mode and its parameters.
pub struct FlightModeEditor {
    data: FlightType,
}

impl View for FlightModeEditor {
    type V = FlightType;

    closed spec fn view(&self) -> FlightType {
        self.data
    }
}

impl FlightModeEditor {
    /// Ready, all parameters zero.
    pub fn new() -> (r: Self)
        ensures
            r@ == FlightType::spec_ready(),
    {
        FlightModeEditor { data: FlightType::ready() }
    }

    /// The current flight state.
    pub fn get_data(&self) -> (r: FlightType)
        ensures
            r == self@,
    {
        self.data
    }

    /// Replaces the flight state.
    pub fn write_data(&mut self, data: FlightType)
        ensures
            final(self)@ == data,
    {
        self.data = data;
    }
}

} // verus!
