//! Constants, identifiers and plain data types of the ATK-MS901M
//! ten-axis IMU serial protocol.

use vstd::prelude::*;
use vstd::std_specs::convert::FromSpecImpl;
use vstd::std_specs::convert::TryFromSpecImpl;

verus! {

/// Size of the UART receive FIFO buffer.
pub const ATK_MS901M_UART_RX_FIFO_BUF_SIZE: usize = 128;

/// Largest number of data bytes a frame may carry.
pub const ATK_MS901M_FRAME_DAT_MAX_SIZE: usize = 28;

/// Frame type: frame uploaded by the module on its own.
pub const ATK_MS901M_FRAME_ID_TYPE_UPLOAD: u8 = 0;

/// Frame type: answer to a register request.
pub const ATK_MS901M_FRAME_ID_TYPE_ACK: u8 = 1;

/// Low header byte, common to every frame.
pub const ATK_MS901M_FRAME_HEAD_L: u8 = 0x55;

/// High header byte of an uploaded frame.
pub const ATK_MS901M_FRAME_HEAD_UPLOAD_H: u8 = 0x55;

/// High header byte of an answer frame.
pub const ATK_MS901M_FRAME_HEAD_ACK_H: u8 = 0xAF;

/// Register id as sent in a read request: the id with its top bit set.
#[allow(non_snake_case)]
pub fn ATK_MS901M_READ_REG_ID(id: u8) -> (r: u8)
    ensures
        r == (id | 0x80u8),
        r == (if id < 0x80 { id + 0x80 } else { id as int }),
{
    let r = id | 0x80u8;
    assert(r == (if id < 0x80 { id + 0x80 } else { id as int })) by (bit_vector)
        requires
            r == id | 0x80u8,
    ;
    r
}

/// Register id as sent in a write request: the id itself.
#[allow(non_snake_case)]
pub fn ATK_MS901M_WRITE_REG_ID(id: u8) -> (r: u8)
    ensures
        r == id,
{
    id
}

/// Full-scale range of the gyroscope (degrees per second), by
/// configuration index.
pub open spec fn gyro_fsr_table(index: int) -> int {
    if index == 0 {
        250
    } else if index == 1 {
        500
    } else if index == 2 {
        1000
    } else {
        2000
    }
}

/// Full-scale range of the accelerometer (g), by configuration index.
pub open spec fn accelerometer_fsr_table(index: int) -> int {
    if index == 0 {
        2
    } else if index == 1 {
        4
    } else if index == 2 {
        8
    } else {
        16
    }
}

/// The full-scale ranges of the ATK-MS901M: the gyroscope at 250, 500,
/// 1000 and 2000 °/s and the accelerometer at 2, 4, 8 and 16 g for the
/// configuration indexes 0 to 3; each index doubles the range of the one
/// before.
pub proof fn lemma_fsr_tables(i: int)
    requires
        1 <= i < 4,
    ensures
        gyro_fsr_table(0) == 250,
        accelerometer_fsr_table(0) == 2,
        gyro_fsr_table(i) == 2 * gyro_fsr_table(i - 1),
        accelerometer_fsr_table(i) == 2 * accelerometer_fsr_table(i - 1),
{
}

/// Entry `index` of the gyroscope full-scale table.
pub fn gyro_fsr(index: u8) -> (r: u16)
    requires
        index < 4,
    ensures
        r == gyro_fsr_table(index as int),
{
    match index {
        0 => 250,
        1 => 500,
        2 => 1000,
        _ => 2000,
    }
}

/// Entry `index` of the accelerometer full-scale table.
pub fn accelerometer_fsr(index: u8) -> (r: u8)
    requires
        index < 4,
    ensures
        r == accelerometer_fsr_table(index as int),
{
    match index {
        0 => 2,
        1 => 4,
        2 => 8,
        _ => 16,
    }
}

/// Identifier of a frame the module uploads on its own.
#[derive(Debug, Clone, Copy, PartialEq, Eq, Structural)]
pub enum AtkMs901mFrameUploadId {
    /// Attitude angles.
    Attitude,
    /// Quaternion.
    Quat,
    /// Gyroscope and accelerometer.
    GyroAcce,
    /// Magnetometer.
    Mag,
    /// Barometer.
    Baro,
    /// Programmable ports.
    Port,
}

impl AtkMs901mFrameUploadId {
    /// The identifier byte of this frame kind on the wire.
    pub open spec fn spec_code(self) -> u8 {
        match self {
            AtkMs901mFrameUploadId::Attitude => 0x01,
            AtkMs901mFrameUploadId::Quat => 0x02,
            AtkMs901mFrameUploadId::GyroAcce => 0x03,
            AtkMs901mFrameUploadId::Mag => 0x04,
            AtkMs901mFrameUploadId::Baro => 0x05,
            AtkMs901mFrameUploadId::Port => 0x06,
        }
    }

    /// The frame kind whose identifier byte is `value`, if any.
    pub open spec fn spec_from_code(value: u8) -> Option<AtkMs901mFrameUploadId> {
        if value == 0x01 {
            Some(AtkMs901mFrameUploadId::Attitude)
        } else if value == 0x02 {
            Some(AtkMs901mFrameUploadId::Quat)
        } else if value == 0x03 {
            Some(AtkMs901mFrameUploadId::GyroAcce)
        } else if value == 0x04 {
            Some(AtkMs901mFrameUploadId::Mag)
        } else if value == 0x05 {
            Some(AtkMs901mFrameUploadId::Baro)
        } else if value == 0x06 {
            Some(AtkMs901mFrameUploadId::Port)
        } else {
            None
        }
    }

    /// The identifier byte of this frame kind.
    pub fn code(self) -> (r: u8)
        ensures
            r == self.spec_code(),
    {
        match self {
            AtkMs901mFrameUploadId::Attitude => 0x01,
            AtkMs901mFrameUploadId::Quat => 0x02,
            AtkMs901mFrameUploadId::GyroAcce => 0x03,
            AtkMs901mFrameUploadId::Mag => 0x04,
            AtkMs901mFrameUploadId::Baro => 0x05,
            AtkMs901mFrameUploadId::Port => 0x06,
        }
    }
}

impl From<AtkMs901mFrameUploadId> for u8 {
    fn from(val: AtkMs901mFrameUploadId) -> (r: u8) {
        val.code()
    }
}

impl FromSpecImpl<AtkMs901mFrameUploadId> for u8 {
    open spec fn obeys_from_spec() -> bool {
        true
    }

    open spec fn from_spec(v: AtkMs901mFrameUploadId) -> u8 {
        v.spec_code()
    }
}

impl TryFrom<u8> for AtkMs901mFrameUploadId {
    type Error = ();

    fn try_from(value: u8) -> (r: Result<Self, Self::Error>) {
        match value {
            0x01 => Ok(AtkMs901mFrameUploadId::Attitude),
            0x02 => Ok(AtkMs901mFrameUploadId::Quat),
            0x03 => Ok(AtkMs901mFrameUploadId::GyroAcce),
            0x04 => Ok(AtkMs901mFrameUploadId::Mag),
            0x05 => Ok(AtkMs901mFrameUploadId::Baro),
            0x06 => Ok(AtkMs901mFrameUploadId::Port),
            _ => Err(()),
        }
    }
}

impl TryFromSpecImpl<u8> for AtkMs901mFrameUploadId {
    open spec fn obeys_try_from_spec() -> bool {
        true
    }

    open spec fn try_from_spec(v: u8) -> Result<Self, ()> {
        match Self::spec_from_code(v) {
            Some(id) => Ok(id),
            None => Err(()),
        }
    }
}

/// The identifier bytes of the uploaded frames are those of the ATK-MS901M
/// protocol: attitude 1, quaternion 2, gyroscope and accelerometer 3,
/// magnetometer 4, barometer 5, ports 6. Distinct kinds have distinct
/// bytes, every byte from 1 to 6 names exactly one kind, no other byte
/// names one, and reading a kind's byte back gives that kind.
pub proof fn lemma_upload_id_codes(k: AtkMs901mFrameUploadId, j: AtkMs901mFrameUploadId, b: u8)
    ensures
        AtkMs901mFrameUploadId::Attitude.spec_code() == 1,
        AtkMs901mFrameUploadId::Quat.spec_code() == 2,
        AtkMs901mFrameUploadId::GyroAcce.spec_code() == 3,
        AtkMs901mFrameUploadId::Mag.spec_code() == 4,
        AtkMs901mFrameUploadId::Baro.spec_code() == 5,
        AtkMs901mFrameUploadId::Port.spec_code() == 6,
        is_upload_id(k.spec_code()),
        k.spec_code() == j.spec_code() ==> k == j,
        AtkMs901mFrameUploadId::spec_from_code(k.spec_code()) == Some(k),
        AtkMs901mFrameUploadId::spec_from_code(b) is Some <==> is_upload_id(b),
        AtkMs901mFrameUploadId::spec_from_code(b) matches Some(m) ==> m.spec_code() == b,
{
}

/// Identifier of an answer frame, that is of the register it reports on.
#[derive(Debug, Clone, Copy, PartialEq, Eq, Structural)]
pub enum AtkMs901mFrameAckId {
    /// Save the current configuration to flash.
    RegSave,
    /// Start a sensor calibration.
    RegSenCal,
    /// Read the calibration status.
    RegSenSta,
    /// Gyroscope full-scale range.
    RegGyroFsr,
    /// Accelerometer full-scale range.
    RegAccFsr,
    /// Gyroscope bandwidth.
    RegGyroBw,
    /// Accelerometer bandwidth.
    RegAccBw,
    /// UART baud rate.
    RegBaud,
    /// Content of the uploaded frames.
    RegReturnSet,
    /// Content of the uploaded frames, second register (reserved).
    RegReturnSet2,
    /// Upload rate.
    RegReturnRate,
    /// Fusion algorithm.
    RegAlg,
    /// Mounting direction.
    RegAsm,
    /// Gyroscope self calibration switch.
    RegGauCal,
    /// Barometer self calibration switch.
    RegBauCal,
    /// LED switch.
    RegLedOff,
    /// Mode of port D0.
    RegD0Mode,
    /// Mode of port D1.
    RegD1Mode,
    /// Mode of port D2.
    RegD2Mode,
    /// Mode of port D3.
    RegD3Mode,
    /// PWM high pulse width of port D1.
    RegD1Pulse,
    /// PWM high pulse width of port D3.
    RegD3Pulse,
    /// PWM period of port D1.
    RegD1Period,
    /// PWM period of port D3.
    RegD3Period,
    /// Restore the factory configuration.
    RegReset,
}

impl AtkMs901mFrameAckId {
    /// The register id byte.
    pub open spec fn spec_code(self) -> u8 {
        match self {
            AtkMs901mFrameAckId::RegSave => 0x00,
            AtkMs901mFrameAckId::RegSenCal => 0x01,
            AtkMs901mFrameAckId::RegSenSta => 0x02,
            AtkMs901mFrameAckId::RegGyroFsr => 0x03,
            AtkMs901mFrameAckId::RegAccFsr => 0x04,
            AtkMs901mFrameAckId::RegGyroBw => 0x05,
            AtkMs901mFrameAckId::RegAccBw => 0x06,
            AtkMs901mFrameAckId::RegBaud => 0x07,
            AtkMs901mFrameAckId::RegReturnSet => 0x08,
            AtkMs901mFrameAckId::RegReturnSet2 => 0x09,
            AtkMs901mFrameAckId::RegReturnRate => 0x0A,
            AtkMs901mFrameAckId::RegAlg => 0x0B,
            AtkMs901mFrameAckId::RegAsm => 0x0C,
            AtkMs901mFrameAckId::RegGauCal => 0x0D,
            AtkMs901mFrameAckId::RegBauCal => 0x0E,
            AtkMs901mFrameAckId::RegLedOff => 0x0F,
            AtkMs901mFrameAckId::RegD0Mode => 0x10,
            AtkMs901mFrameAckId::RegD1Mode => 0x11,
            AtkMs901mFrameAckId::RegD2Mode => 0x12,
            AtkMs901mFrameAckId::RegD3Mode => 0x13,
            AtkMs901mFrameAckId::RegD1Pulse => 0x16,
            AtkMs901mFrameAckId::RegD3Pulse => 0x1A,
            AtkMs901mFrameAckId::RegD1Period => 0x1F,
            AtkMs901mFrameAckId::RegD3Period => 0x23,
            AtkMs901mFrameAckId::RegReset => 0x7F,
        }
    }

    /// The register id byte.
    pub fn code(self) -> (r: u8)
        ensures
            r == self.spec_code(),
    {
        match self {
            AtkMs901mFrameAckId::RegSave => 0x00,
            AtkMs901mFrameAckId::RegSenCal => 0x01,
            AtkMs901mFrameAckId::RegSenSta => 0x02,
            AtkMs901mFrameAckId::RegGyroFsr => 0x03,
            AtkMs901mFrameAckId::RegAccFsr => 0x04,
            AtkMs901mFrameAckId::RegGyroBw => 0x05,
            AtkMs901mFrameAckId::RegAccBw => 0x06,
            AtkMs901mFrameAckId::RegBaud => 0x07,
            AtkMs901mFrameAckId::RegReturnSet => 0x08,
            AtkMs901mFrameAckId::RegReturnSet2 => 0x09,
            AtkMs901mFrameAckId::RegReturnRate => 0x0A,
            AtkMs901mFrameAckId::RegAlg => 0x0B,
            AtkMs901mFrameAckId::RegAsm => 0x0C,
            AtkMs901mFrameAckId::RegGauCal => 0x0D,
            AtkMs901mFrameAckId::RegBauCal => 0x0E,
            AtkMs901mFrameAckId::RegLedOff => 0x0F,
            AtkMs901mFrameAckId::RegD0Mode => 0x10,
            AtkMs901mFrameAckId::RegD1Mode => 0x11,
            AtkMs901mFrameAckId::RegD2Mode => 0x12,
            AtkMs901mFrameAckId::RegD3Mode => 0x13,
            AtkMs901mFrameAckId::RegD1Pulse => 0x16,
            AtkMs901mFrameAckId::RegD3Pulse => 0x1A,
            AtkMs901mFrameAckId::RegD1Period => 0x1F,
            AtkMs901mFrameAckId::RegD3Period => 0x23,
            AtkMs901mFrameAckId::RegReset => 0x7F,
        }
    }
}

/// High header byte of a frame.
/// The register ids are those of the ATK-MS901M register map, from 0x00
/// (save) to 0x13 (mode of D3) in order, then 0x16 and 0x1A (pulse width of
/// D1 and D3), 0x1F and 0x23 (period of D1 and D3) and 0x7F (reset);
/// distinct registers have distinct ids, all below 0x80, so that the read
/// flag 0x80 never clashes with an id.
pub proof fn lemma_register_codes(r: AtkMs901mFrameAckId, q: AtkMs901mFrameAckId)
    ensures
        AtkMs901mFrameAckId::RegSave.spec_code() == 0x00,
        AtkMs901mFrameAckId::RegSenCal.spec_code() == 0x01,
        AtkMs901mFrameAckId::RegSenSta.spec_code() == 0x02,
        AtkMs901mFrameAckId::RegGyroFsr.spec_code() == 0x03,
        AtkMs901mFrameAckId::RegAccFsr.spec_code() == 0x04,
        AtkMs901mFrameAckId::RegGyroBw.spec_code() == 0x05,
        AtkMs901mFrameAckId::RegAccBw.spec_code() == 0x06,
        AtkMs901mFrameAckId::RegBaud.spec_code() == 0x07,
        AtkMs901mFrameAckId::RegReturnSet.spec_code() == 0x08,
        AtkMs901mFrameAckId::RegReturnSet2.spec_code() == 0x09,
        AtkMs901mFrameAckId::RegReturnRate.spec_code() == 0x0A,
        AtkMs901mFrameAckId::RegAlg.spec_code() == 0x0B,
        AtkMs901mFrameAckId::RegAsm.spec_code() == 0x0C,
        AtkMs901mFrameAckId::RegGauCal.spec_code() == 0x0D,
        AtkMs901mFrameAckId::RegBauCal.spec_code() == 0x0E,
        AtkMs901mFrameAckId::RegLedOff.spec_code() == 0x0F,
        AtkMs901mFrameAckId::RegD0Mode.spec_code() == 0x10,
        AtkMs901mFrameAckId::RegD1Mode.spec_code() == 0x11,
        AtkMs901mFrameAckId::RegD2Mode.spec_code() == 0x12,
        AtkMs901mFrameAckId::RegD3Mode.spec_code() == 0x13,
        AtkMs901mFrameAckId::RegD1Pulse.spec_code() == 0x16,
        AtkMs901mFrameAckId::RegD3Pulse.spec_code() == 0x1A,
        AtkMs901mFrameAckId::RegD1Period.spec_code() == 0x1F,
        AtkMs901mFrameAckId::RegD3Period.spec_code() == 0x23,
        AtkMs901mFrameAckId::RegReset.spec_code() == 0x7F,
        r.spec_code() < 0x80,
        r.spec_code() == q.spec_code() ==> r == q,
{
}

#[derive(Debug, Clone, Copy, PartialEq, Eq, Structural)]
pub enum AtkMs901mFrameHeader {
    /// High header byte of an uploaded frame.
    UploadH,
    /// High header byte of an answer frame.
    AckH,
}

impl AtkMs901mFrameHeader {
    /// The header byte.
    pub fn code(self) -> (r: u8)
        ensures
            r == (match self {
                AtkMs901mFrameHeader::UploadH => ATK_MS901M_FRAME_HEAD_UPLOAD_H,
                AtkMs901mFrameHeader::AckH => ATK_MS901M_FRAME_HEAD_ACK_H,
            }),
    {
        match self {
            AtkMs901mFrameHeader::UploadH => ATK_MS901M_FRAME_HEAD_UPLOAD_H,
            AtkMs901mFrameHeader::AckH => ATK_MS901M_FRAME_HEAD_ACK_H,
        }
    }
}

/// State of the module's LED; the register holds 0 for `On`, 1 for `Off`.
#[derive(Debug, Clone, Copy, PartialEq, Eq, Structural)]
pub enum AtkMs901mLedState {
    /// Register value 0.
    On,
    /// Register value 1.
    Off,
}

impl AtkMs901mLedState {
    /// The register value of this state.
    pub open spec fn spec_code(self) -> u8 {
        match self {
            AtkMs901mLedState::On => 0,
            AtkMs901mLedState::Off => 1,
        }
    }

    /// The register value of this state.
    pub fn code(self) -> (r: u8)
        ensures
            r == self.spec_code(),
    {
        match self {
            AtkMs901mLedState::On => 0,
            AtkMs901mLedState::Off => 1,
        }
    }

    /// The state a register value stands for; any other value is
    /// `Invalid`.
    pub fn from_byte(b: u8) -> (r: Result<AtkMs901mLedState, AtkMs901mError>)
        ensures
            b == 0 ==> r == Ok::<AtkMs901mLedState, AtkMs901mError>(AtkMs901mLedState::On),
            b == 1 ==> r == Ok::<AtkMs901mLedState, AtkMs901mError>(AtkMs901mLedState::Off),
            b > 1 ==> r == Err::<AtkMs901mLedState, AtkMs901mError>(AtkMs901mError::Invalid),
    {
        match b {
            0 => Ok(AtkMs901mLedState::On),
            1 => Ok(AtkMs901mLedState::Off),
            _ => Err(AtkMs901mError::Invalid),
        }
    }
}

/// Programmable port of the module.
#[derive(Debug, Clone, Copy, PartialEq, Eq, Structural)]
pub enum AtkMs901mPort {
    /// Port D0.
    D0,
    /// Port D1.
    D1,
    /// Port D2.
    D2,
    /// Port D3.
    D3,
}

impl AtkMs901mPort {
    /// The port number.
    pub fn code(self) -> (r: u8)
        ensures
            r == (match self {
                AtkMs901mPort::D0 => 0u8,
                AtkMs901mPort::D1 => 1u8,
                AtkMs901mPort::D2 => 2u8,
                AtkMs901mPort::D3 => 3u8,
            }),
    {
        match self {
            AtkMs901mPort::D0 => 0,
            AtkMs901mPort::D1 => 1,
            AtkMs901mPort::D2 => 2,
            AtkMs901mPort::D3 => 3,
        }
    }
}

/// Mode of a programmable port.
#[derive(Debug, Clone, Copy, PartialEq, Eq, Structural)]
pub enum AtkMs901mPortMode {
    /// Analog input (register value 0).
    AnalogInput,
    /// Digital input (1).
    Input,
    /// Digital output, high (2).
    OutputHigh,
    /// Digital output, low (3).
    OutputLow,
    /// PWM output (4).
    OutputPwm,
}

impl AtkMs901mPortMode {
    /// The register value of this mode.
    pub open spec fn spec_code(self) -> u8 {
        match self {
            AtkMs901mPortMode::AnalogInput => 0,
            AtkMs901mPortMode::Input => 1,
            AtkMs901mPortMode::OutputHigh => 2,
            AtkMs901mPortMode::OutputLow => 3,
            AtkMs901mPortMode::OutputPwm => 4,
        }
    }

    /// The register value of this mode.
    pub fn code(self) -> (r: u8)
        ensures
            r == self.spec_code(),
    {
        match self {
            AtkMs901mPortMode::AnalogInput => 0,
            AtkMs901mPortMode::Input => 1,
            AtkMs901mPortMode::OutputHigh => 2,
            AtkMs901mPortMode::OutputLow => 3,
            AtkMs901mPortMode::OutputPwm => 4,
        }
    }

    /// The mode a register value stands for; a value above 4 is `Invalid`.
    pub fn from_byte(b: u8) -> (r: Result<AtkMs901mPortMode, AtkMs901mError>)
        ensures
            b <= 4 ==> (r matches Ok(m) && m.spec_code() == b),
            b > 4 ==> r == Err::<AtkMs901mPortMode, AtkMs901mError>(AtkMs901mError::Invalid),
    {
        match b {
            0 => Ok(AtkMs901mPortMode::AnalogInput),
            1 => Ok(AtkMs901mPortMode::Input),
            2 => Ok(AtkMs901mPortMode::OutputHigh),
            3 => Ok(AtkMs901mPortMode::OutputLow),
            4 => Ok(AtkMs901mPortMode::OutputPwm),
            _ => Err(AtkMs901mError::Invalid),
        }
    }
}

/// Error of a driver operation.
/// The register values of the port modes are those of the ATK-MS901M
/// register map: analog input 0, digital input 1, output high 2, output low
/// 3, PWM output 4. Distinct modes have distinct values, all at most 4.
pub proof fn lemma_port_mode_codes(m: AtkMs901mPortMode, n: AtkMs901mPortMode)
    ensures
        AtkMs901mPortMode::AnalogInput.spec_code() == 0,
        AtkMs901mPortMode::Input.spec_code() == 1,
        AtkMs901mPortMode::OutputHigh.spec_code() == 2,
        AtkMs901mPortMode::OutputLow.spec_code() == 3,
        AtkMs901mPortMode::OutputPwm.spec_code() == 4,
        m.spec_code() <= 4,
        m.spec_code() == n.spec_code() ==> m == n,
{
}

/// The register values of the LED switch: 0 for on, 1 for off.
pub proof fn lemma_led_state_codes(s: AtkMs901mLedState, t: AtkMs901mLedState)
    ensures
        AtkMs901mLedState::On.spec_code() == 0,
        AtkMs901mLedState::Off.spec_code() == 1,
        s.spec_code() == t.spec_code() ==> s == t,
{
}

#[derive(Debug, Clone, Copy, PartialEq, Eq, Structural)]
pub enum AtkMs901mError {
    /// No error (code 0).
    NoError,
    /// Generic error (1).
    Error,
    /// Invalid argument or register value (2).
    Invalid,
    /// Timed out (3).
    Timeout,
    /// Checksum mismatch (4).
    Checksum,
    /// UART error (5).
    UartError,
}

impl AtkMs901mError {
    /// The numeric error code.
    pub fn code(self) -> (r: u8)
        ensures
            r == (match self {
                AtkMs901mError::NoError => 0u8,
                AtkMs901mError::Error => 1u8,
                AtkMs901mError::Invalid => 2u8,
                AtkMs901mError::Timeout => 3u8,
                AtkMs901mError::Checksum => 4u8,
                AtkMs901mError::UartError => 5u8,
            }),
    {
        match self {
            AtkMs901mError::NoError => 0,
            AtkMs901mError::Error => 1,
            AtkMs901mError::Invalid => 2,
            AtkMs901mError::Timeout => 3,
            AtkMs901mError::Checksum => 4,
            AtkMs901mError::UartError => 5,
        }
    }
}

/// Values of the four programmable ports.
#[derive(Debug, Clone, Copy, PartialEq, Eq, Structural)]
pub struct AtkMs901mPortData {
    /// Port D0.
    pub d0: u16,
    /// Port D1.
    pub d1: u16,
    /// Port D2.
    pub d2: u16,
    /// Port D3.
    pub d3: u16,
}

/// Raw three-axis sample.
#[derive(Debug, Clone, Copy, PartialEq, Eq, Structural)]
pub struct AtkMs901mRawData {
    /// X axis.
    pub x: i16,
    /// Y axis.
    pub y: i16,
    /// Z axis.
    pub z: i16,
}

impl Default for AtkMs901mRawData {
    fn default() -> (r: Self)
        ensures
            r == (AtkMs901mRawData { x: 0, y: 0, z: 0 }),
    {
        AtkMs901mRawData { x: 0, y: 0, z: 0 }
    }
}

/// Full-scale configuration indices of the gyroscope and accelerometer.
#[derive(Debug, Clone, Copy, PartialEq, Eq, Structural)]
pub struct AtkMs901mFsr {
    /// Gyroscope full-scale index.
    pub gyro: u8,
    /// Accelerometer full-scale index.
    pub accelerometer: u8,
}

impl Default for AtkMs901mFsr {
    fn default() -> (r: Self)
        ensures
            r == (AtkMs901mFsr { gyro: 0, accelerometer: 0 }),
    {
        AtkMs901mFsr { gyro: 0, accelerometer: 0 }
    }
}

/// A frame of the serial protocol.
#[derive(Debug, Clone, Copy)]
pub struct AtkMs901mFrame {
    /// Low header byte.
    pub head_l: u8,
    /// High header byte.
    pub head_h: u8,
    /// Frame identifier.
    pub id: u8,
    /// Announced number of data bytes.
    pub len: u8,
    /// Data bytes.
    pub dat: [u8; ATK_MS901M_FRAME_DAT_MAX_SIZE],
    /// Checksum.
    pub check_sum: u8,
}

impl AtkMs901mFrame {
    /// The all-zero frame.
    pub open spec fn spec_zero() -> AtkMs901mFrame {
        AtkMs901mFrame {
            head_l: 0,
            head_h: 0,
            id: 0,
            len: 0,
            dat: [0u8; ATK_MS901M_FRAME_DAT_MAX_SIZE],
            check_sum: 0,
        }
    }

    /// Whether every field of the frame is zero.
    pub open spec fn is_zero(self) -> bool {
        &&& self.head_l == 0
        &&& self.head_h == 0
        &&& self.id == 0
        &&& self.len == 0
        &&& self.check_sum == 0
        &&& forall|i: int| 0 <= i < ATK_MS901M_FRAME_DAT_MAX_SIZE ==> #[trigger] self.dat[i] == 0
    }
}

impl Default for AtkMs901mFrame {
    fn default() -> (r: Self)
        ensures
            r.is_zero(),
    {
        AtkMs901mFrame {
            head_l: 0,
            head_h: 0,
            id: 0,
            len: 0,
            dat: [0u8; 28],
            check_sum: 0,
        }
    }
}

/// State of the frame parser.
#[derive(Debug, Clone, Copy, PartialEq, Eq, Structural)]
pub enum AtkMs901mHandleState {
    /// Waiting for the low header byte.
    WaitForHeadL,
    /// Waiting for the high header byte.
    WaitForHeadH,
    /// Waiting for the frame identifier.
    WaitForId,
    /// Waiting for the data length.
    WaitForLen,
    /// Receiving data bytes.
    WaitForDat,
    /// Waiting for the checksum.
    WaitForSum,
}

impl AtkMs901mHandleState {
    /// The numeric code of the state.
    pub fn code(self) -> (r: u8)
        ensures
            r == (match self {
                AtkMs901mHandleState::WaitForHeadL => 0x00u8,
                AtkMs901mHandleState::WaitForHeadH => 0x01u8,
                AtkMs901mHandleState::WaitForId => 0x02u8,
                AtkMs901mHandleState::WaitForLen => 0x04u8,
                AtkMs901mHandleState::WaitForDat => 0x08u8,
                AtkMs901mHandleState::WaitForSum => 0x16u8,
            }),
    {
        match self {
            AtkMs901mHandleState::WaitForHeadL => 0x00,
            AtkMs901mHandleState::WaitForHeadH => 0x01,
            AtkMs901mHandleState::WaitForId => 0x02,
            AtkMs901mHandleState::WaitForLen => 0x04,
            AtkMs901mHandleState::WaitForDat => 0x08,
            AtkMs901mHandleState::WaitForSum => 0x16,
        }
    }
}

/// Mathematical model of a frame: the data field as a sequence.
#[verifier::ext_equal]
pub struct FrameModel {
    /// Low header byte.
    pub head_l: u8,
    /// High header byte.
    pub head_h: u8,
    /// Frame identifier.
    pub id: u8,
    /// Announced number of data bytes.
    pub len: u8,
    /// The data field (28 bytes).
    pub dat: Seq<u8>,
    /// Checksum.
    pub check_sum: u8,
}

impl View for AtkMs901mFrame {
    type V = FrameModel;

    open spec fn view(&self) -> FrameModel {
        FrameModel {
            head_l: self.head_l,
            head_h: self.head_h,
            id: self.id,
            len: self.len,
            dat: self.dat@,
            check_sum: self.check_sum,
        }
    }
}

/// The all-zero data field.
pub open spec fn zero_data() -> Seq<u8> {
    Seq::new(ATK_MS901M_FRAME_DAT_MAX_SIZE as nat, |i: int| 0u8)
}

/// The all-zero frame.
pub open spec fn zero_frame() -> FrameModel {
    FrameModel { head_l: 0, head_h: 0, id: 0, len: 0, dat: zero_data(), check_sum: 0 }
}

/// Sum of a sequence of bytes, as an integer.
pub open spec fn byte_sum(s: Seq<u8>) -> int
    decreases s.len(),
{
    if s.len() == 0 {
        0
    } else {
        byte_sum(s.drop_last()) + s.last()
    }
}

/// Addition modulo 256.
pub open spec fn wrap_add(a: u8, b: u8) -> u8 {
    ((a + b) % 256) as u8
}

/// Checksum of a frame: the sum, modulo 256, of both header bytes, the
/// identifier, the length and all bytes of the data field.
pub open spec fn frame_checksum(f: FrameModel) -> u8 {
    ((f.head_l + f.head_h + f.id + f.len + byte_sum(f.dat)) % 256) as u8
}

/// Whether `b` is the identifier of an uploaded frame.
pub open spec fn is_upload_id(b: u8) -> bool {
    1 <= b <= 6
}

} // verus!
