//! Register requests to the ATK-MS901M and decoding of its frames: the
//! computing part of the driver, between the UART transfers.

use vstd::prelude::*;
use crate::frame_state_machine::{
    lemma_scan_keeps_wf, outcome_model, parser_wf, scan, scan_outcome, valid_frame, FrameStateMachine,
};
use crate::atk_defines::{
    AtkMs901mError, AtkMs901mFrame, AtkMs901mFrameAckId, AtkMs901mLedState, AtkMs901mPort,
    AtkMs901mPortData, AtkMs901mPortMode, AtkMs901mRawData, ATK_MS901M_FRAME_DAT_MAX_SIZE,
    ATK_MS901M_FRAME_HEAD_ACK_H, ATK_MS901M_FRAME_HEAD_L, ATK_MS901M_READ_REG_ID,
    ATK_MS901M_WRITE_REG_ID,
};

verus! {

/// The sum of some bytes modulo 256.
pub open spec fn sum_mod_256(s: Seq<u8>) -> u8
    decreases s.len(),
{
    if s.len() == 0 {
        0
    } else {
        ((sum_mod_256(s.drop_last()) + s.last()) % 256) as u8
    }
}

/// A request with header `0x55 0xAF`, register byte `reg`, and payload
/// `payload` announced by its length, closed by the checksum of all
/// preceding bytes.
pub open spec fn request_bytes(reg: u8, payload: Seq<u8>) -> Seq<u8> {
    let body = seq![ATK_MS901M_FRAME_HEAD_L, ATK_MS901M_FRAME_HEAD_ACK_H, reg, payload.len() as u8]
        + payload;
    body.push(sum_mod_256(body))
}

/// The bytes sent to read register `id`: the read form of the id, a
/// one-byte payload 0.
pub open spec fn read_request_spec(id: u8) -> Seq<u8> {
    request_bytes(id | 0x80u8, seq![0u8])
}

/// The six bytes sent to read register `id`.
pub fn read_reg_request(id: u8) -> (r: Vec<u8>)
    ensures
        r@ == read_request_spec(id),
{
    let reg = ATK_MS901M_READ_REG_ID(id);
    request_one(reg, 0)
}

/// Appending a byte adds it to the sum modulo 256.
proof fn lemma_sum_push(s: Seq<u8>, b: u8)
    ensures
        sum_mod_256(s.push(b)) == ((sum_mod_256(s) + b) % 256) as u8,
{
    assert(s.push(b).drop_last() =~= s);
}

/// The request bytes for a register byte and a payload of one or two bytes,
/// with the checksum computed as a running wrapping sum.
proof fn lemma_request_bytes(reg: u8, payload: Seq<u8>)
    requires
        1 <= payload.len() <= 2,
    ensures
        ({
            let h = ((((0x55u8 + 0xAFu8) % 256 + reg) % 256 + payload.len()) % 256) as u8;
            let s1 = ((h + payload[0]) % 256) as u8;
            if payload.len() == 1 {
                request_bytes(reg, payload) == seq![0x55u8, 0xAFu8, reg, 1u8, payload[0], s1]
            } else {
                request_bytes(reg, payload) == seq![
                    0x55u8,
                    0xAFu8,
                    reg,
                    2u8,
                    payload[0],
                    payload[1],
                    ((s1 + payload[1]) % 256) as u8,
                ]
            }
        }),
{
    let b0 = Seq::<u8>::empty().push(0x55u8);
    let b1 = b0.push(0xAFu8);
    let b2 = b1.push(reg);
    let b3 = b2.push(payload.len() as u8);
    let b4 = b3.push(payload[0]);
    assert(b0.drop_last() =~= Seq::<u8>::empty());
    lemma_sum_push(Seq::<u8>::empty(), 0x55u8);
    lemma_sum_push(b0, 0xAFu8);
    lemma_sum_push(b1, reg);
    lemma_sum_push(b2, payload.len() as u8);
    lemma_sum_push(b3, payload[0]);
    if payload.len() == 1 {
        assert(seq![0x55u8, 0xAFu8, reg, payload.len() as u8] + payload =~= b4);
    } else {
        let b5 = b4.push(payload[1]);
        lemma_sum_push(b4, payload[1]);
        assert(seq![0x55u8, 0xAFu8, reg, payload.len() as u8] + payload =~= b5);
    }
}

/// A request carrying the one payload byte `d0`.
fn request_one(reg: u8, d0: u8) -> (r: Vec<u8>)
    ensures
        r@ == request_bytes(reg, seq![d0]),
{
    let sum = ATK_MS901M_FRAME_HEAD_L.wrapping_add(ATK_MS901M_FRAME_HEAD_ACK_H).wrapping_add(
        reg,
    ).wrapping_add(1).wrapping_add(d0);
    let r = vec![ATK_MS901M_FRAME_HEAD_L, ATK_MS901M_FRAME_HEAD_ACK_H, reg, 1, d0, sum];
    proof {
        lemma_request_bytes(reg, seq![d0]);
        assert(r@ =~= request_bytes(reg, seq![d0]));
    }
    r
}

/// A request carrying the two payload bytes `d0`, `d1`.
fn request_two(reg: u8, d0: u8, d1: u8) -> (r: Vec<u8>)
    ensures
        r@ == request_bytes(reg, seq![d0, d1]),
{
    let h = ATK_MS901M_FRAME_HEAD_L.wrapping_add(ATK_MS901M_FRAME_HEAD_ACK_H).wrapping_add(
        reg,
    ).wrapping_add(2);
    assert(h == ((((0x55u8 + 0xAFu8) % 256 + reg) % 256 + 2) % 256) as u8);
    let s1 = h.wrapping_add(d0);
    assert(s1 == ((h + d0) % 256) as u8);
    let sum = s1.wrapping_add(d1);
    assert(sum == ((s1 + d1) % 256) as u8);
    let r = vec![ATK_MS901M_FRAME_HEAD_L, ATK_MS901M_FRAME_HEAD_ACK_H, reg, 2, d0, d1, sum];
    proof {
        lemma_request_bytes(reg, seq![d0, d1]);
        assert(r@ =~= request_bytes(reg, seq![d0, d1]));
    }
    r
}

/// The bytes sent to write `len` payload bytes taken from `dat` to register
/// `id`; only payloads of one or two bytes are supported, any other length
/// is `Invalid`.
pub fn write_reg_request(id: u8, len: u8, dat: &[u8]) -> (r: Result<Vec<u8>, AtkMs901mError>)
    requires
        len == 1 ==> dat@.len() >= 1,
        len == 2 ==> dat@.len() >= 2,
    ensures
        len == 1 ==> (r matches Ok(v) && v@ == request_bytes(id, seq![dat@[0]])),
        len == 2 ==> (r matches Ok(v) && v@ == request_bytes(id, seq![dat@[0], dat@[1]])),
        len != 1 && len != 2 ==> r == Err::<Vec<u8>, AtkMs901mError>(AtkMs901mError::Invalid),
{
    let reg = ATK_MS901M_WRITE_REG_ID(id);
    if len == 1 {
        Ok(request_one(reg, dat[0]))
    } else if len == 2 {
        Ok(request_two(reg, dat[0], dat[1]))
    } else {
        Err(AtkMs901mError::Invalid)
    }
}

/// Number of data bytes of `f` that a register read hands out: the
/// announced length, at most the 28 bytes of the data field.
pub open spec fn copied_len(f: AtkMs901mFrame) -> int {
    if f.len <= ATK_MS901M_FRAME_DAT_MAX_SIZE {
        f.len as int
    } else {
        ATK_MS901M_FRAME_DAT_MAX_SIZE as int
    }
}

/// Answer to a register read: when an answer frame arrived, its first
/// data bytes (as many as it announces, at most 28) are copied to the
/// front of `dat` and the announced length is returned; otherwise the read
/// is `Invalid` and `dat` is left alone.
pub fn read_reg_response(received: bool, frame: &AtkMs901mFrame, dat: &mut [u8]) -> (r: Result<
    usize,
    AtkMs901mError,
>)
    requires
        received ==> old(dat)@.len() >= copied_len(*frame),
    ensures
        final(dat)@.len() == old(dat)@.len(),
        received ==> r == Ok::<usize, AtkMs901mError>(frame.len as usize),
        received ==> final(dat)@ =~= frame.dat@.subrange(0, copied_len(*frame)) + old(
            dat,
        )@.subrange(copied_len(*frame), old(dat)@.len() as int),
        !received ==> r == Err::<usize, AtkMs901mError>(AtkMs901mError::Invalid),
        !received ==> final(dat)@ == old(dat)@,
{
    if received {
        let n: usize = if (frame.len as usize) <= ATK_MS901M_FRAME_DAT_MAX_SIZE {
            frame.len as usize
        } else {
            ATK_MS901M_FRAME_DAT_MAX_SIZE
        };
        let mut i: usize = 0;
        while i < n
            invariant
                n == copied_len(*frame),
                i <= n,
                n <= dat@.len(),
                dat@.len() == old(dat)@.len(),
                forall|j: int| 0 <= j < i ==> dat@[j] == frame.dat@[j],
                forall|j: int| i <= j < dat@.len() ==> dat@[j] == old(dat)@[j],
            decreases n - i,
        {
            dat[i] = frame.dat[i];
            i = i + 1;
        }
        Ok(frame.len as usize)
    } else {
        Err(AtkMs901mError::Invalid)
    }
}

/// The unsigned value of two little-endian bytes.
pub open spec fn le_u16(lo: u8, hi: u8) -> int {
    hi * 256 + lo
}

/// The value of a 16-bit two's complement pattern `v`.
pub open spec fn as_i16(v: int) -> int {
    if v >= 0x8000 {
        v - 0x10000
    } else {
        v
    }
}

/// The value of four little-endian bytes read as a two's complement
/// 32-bit integer.
pub open spec fn le_i32(b0: u8, b1: u8, b2: u8, b3: u8) -> int {
    let v = b3 * 0x1000000 + b2 * 0x10000 + b1 * 0x100 + b0;
    if v >= 0x80000000 {
        v - 0x100000000
    } else {
        v
    }
}

/// The signed 16-bit value of data bytes `k` (low) and `k + 1` (high).
pub open spec fn frame_i16(f: AtkMs901mFrame, k: int) -> int {
    as_i16(le_u16(f.dat@[k], f.dat@[k + 1]))
}

/// The unsigned 16-bit value of data bytes `k` (low) and `k + 1` (high).
pub open spec fn frame_u16(f: AtkMs901mFrame, k: int) -> int {
    le_u16(f.dat@[k], f.dat@[k + 1])
}

/// The signed 32-bit value of data bytes `k` to `k + 3`, lowest first.
pub open spec fn frame_i32(f: AtkMs901mFrame, k: int) -> int {
    le_i32(f.dat@[k], f.dat@[k + 1], f.dat@[k + 2], f.dat@[k + 3])
}

/// Two little-endian bytes read as a signed 16-bit integer.
pub fn i16_from_le(lo: u8, hi: u8) -> (r: i16)
    ensures
        r == as_i16(le_u16(lo, hi)),
{
    let r = (hi as i16) << 8u32 | lo as i16;
    assert(r == (if hi >= 128 { hi * 256 + lo - 0x10000 } else { hi * 256 + lo })) by (bit_vector)
        requires
            r == (hi as i16) << 8u32 | lo as i16,
    ;
    r
}

/// Two little-endian bytes read as an unsigned 16-bit integer.
pub fn u16_from_le(lo: u8, hi: u8) -> (r: u16)
    ensures
        r == le_u16(lo, hi),
{
    let r = (hi as u16) << 8u32 | lo as u16;
    assert(r == hi * 256 + lo) by (bit_vector)
        requires
            r == (hi as u16) << 8u32 | lo as u16,
    ;
    r
}

/// A 16-bit value as two little-endian bytes.
pub fn u16_to_le(v: u16) -> (r: [u8; 2])
    ensures
        r@ == seq![(v % 256) as u8, (v / 256) as u8],
{
    let lo = (v & 0xFF) as u8;
    let hi = (v >> 8u32) as u8;
    assert(lo == v % 256 && hi == v / 256) by (bit_vector)
        requires
            lo == (v & 0xFF) as u8,
            hi == (v >> 8u32) as u8,
    ;
    let r = [lo, hi];
    assert(r@ =~= seq![(v % 256) as u8, (v / 256) as u8]);
    r
}

/// Four little-endian bytes read as a signed 32-bit integer.
pub fn i32_from_le(b0: u8, b1: u8, b2: u8, b3: u8) -> (r: i32)
    ensures
        r == le_i32(b0, b1, b2, b3),
{
    let r = (b3 as i32) << 24u32 | (b2 as i32) << 16u32 | (b1 as i32) << 8u32 | b0 as i32;
    assert(r == (if b3 >= 128 {
        b3 * 0x1000000 + b2 * 0x10000 + b1 * 0x100 + b0 - 0x100000000
    } else {
        b3 * 0x1000000 + b2 * 0x10000 + b1 * 0x100 + b0
    })) by (bit_vector)
        requires
            r == (b3 as i32) << 24u32 | (b2 as i32) << 16u32 | (b1 as i32) << 8u32 | b0 as i32,
    ;
    r
}

/// Decoding the little-endian bytes of a 16-bit value gives the value back.
pub proof fn lemma_u16_le_roundtrip(v: u16)
    ensures
        le_u16((v % 256) as u8, (v / 256) as u8) == v,
{
}

/// Encoding a decoded pair of bytes gives the bytes back.
pub proof fn lemma_le_u16_bytes_roundtrip(lo: u8, hi: u8)
    ensures
        (le_u16(lo, hi) % 256) as u8 == lo,
        (le_u16(lo, hi) / 256) as u8 == hi,
{
}

impl AtkMs901mFrame {
    /// Raw roll, pitch and yaw of an attitude frame (data bytes 0 to 5).
    pub fn attitude_raw(&self) -> (r: [i16; 3])
        ensures
            r@[0] == frame_i16(*self, 0),
            r@[1] == frame_i16(*self, 2),
            r@[2] == frame_i16(*self, 4),
    {
        [
            i16_from_le(self.dat[0], self.dat[1]),
            i16_from_le(self.dat[2], self.dat[3]),
            i16_from_le(self.dat[4], self.dat[5]),
        ]
    }

    /// Raw q0 to q3 of a quaternion frame (data bytes 0 to 7).
    pub fn quaternion_raw(&self) -> (r: [i16; 4])
        ensures
            r@[0] == frame_i16(*self, 0),
            r@[1] == frame_i16(*self, 2),
            r@[2] == frame_i16(*self, 4),
            r@[3] == frame_i16(*self, 6),
    {
        [
            i16_from_le(self.dat[0], self.dat[1]),
            i16_from_le(self.dat[2], self.dat[3]),
            i16_from_le(self.dat[4], self.dat[5]),
            i16_from_le(self.dat[6], self.dat[7]),
        ]
    }

    /// Raw accelerometer sample of a gyroscope-accelerometer frame (data
    /// bytes 0 to 5).
    pub fn accelerometer_raw(&self) -> (r: AtkMs901mRawData)
        ensures
            r.x == frame_i16(*self, 0),
            r.y == frame_i16(*self, 2),
            r.z == frame_i16(*self, 4),
    {
        AtkMs901mRawData {
            x: i16_from_le(self.dat[0], self.dat[1]),
            y: i16_from_le(self.dat[2], self.dat[3]),
            z: i16_from_le(self.dat[4], self.dat[5]),
        }
    }

    /// Raw gyroscope sample of a gyroscope-accelerometer frame (data bytes
    /// 6 to 11).
    pub fn gyro_raw(&self) -> (r: AtkMs901mRawData)
        ensures
            r.x == frame_i16(*self, 6),
            r.y == frame_i16(*self, 8),
            r.z == frame_i16(*self, 10),
    {
        AtkMs901mRawData {
            x: i16_from_le(self.dat[6], self.dat[7]),
            y: i16_from_le(self.dat[8], self.dat[9]),
            z: i16_from_le(self.dat[10], self.dat[11]),
        }
    }

    /// Magnetic field (data bytes 0 to 5) and raw temperature, in
    /// hundredths of a degree (bytes 6 and 7), of a magnetometer frame.
    pub fn magnetometer_raw(&self) -> (r: (AtkMs901mRawData, i16))
        ensures
            r.0.x == frame_i16(*self, 0),
            r.0.y == frame_i16(*self, 2),
            r.0.z == frame_i16(*self, 4),
            r.1 == frame_i16(*self, 6),
    {
        (
            AtkMs901mRawData {
                x: i16_from_le(self.dat[0], self.dat[1]),
                y: i16_from_le(self.dat[2], self.dat[3]),
                z: i16_from_le(self.dat[4], self.dat[5]),
            },
            i16_from_le(self.dat[6], self.dat[7]),
        )
    }

    /// Pressure in Pa (data bytes 0 to 3), altitude in cm (bytes 4 to 7) and
    /// raw temperature in hundredths of a degree (bytes 8 and 9) of a
    /// barometer frame.
    pub fn barometer_raw(&self) -> (r: (i32, i32, i16))
        ensures
            r.0 == frame_i32(*self, 0),
            r.1 == frame_i32(*self, 4),
            r.2 == frame_i16(*self, 8),
    {
        (
            i32_from_le(self.dat[0], self.dat[1], self.dat[2], self.dat[3]),
            i32_from_le(self.dat[4], self.dat[5], self.dat[6], self.dat[7]),
            i16_from_le(self.dat[8], self.dat[9]),
        )
    }

    /// Values of the four ports of a port frame (data bytes 0 to 7).
    pub fn port_data(&self) -> (r: AtkMs901mPortData)
        ensures
            r.d0 == frame_u16(*self, 0),
            r.d1 == frame_u16(*self, 2),
            r.d2 == frame_u16(*self, 4),
            r.d3 == frame_u16(*self, 6),
    {
        AtkMs901mPortData {
            d0: u16_from_le(self.dat[0], self.dat[1]),
            d1: u16_from_le(self.dat[2], self.dat[3]),
            d2: u16_from_le(self.dat[4], self.dat[5]),
            d3: u16_from_le(self.dat[6], self.dat[7]),
        }
    }
}

impl AtkMs901mPort {
    /// The register holding the mode of this port.
    pub fn mode_register(self) -> (r: AtkMs901mFrameAckId)
        ensures
            r == (match self {
                AtkMs901mPort::D0 => AtkMs901mFrameAckId::RegD0Mode,
                AtkMs901mPort::D1 => AtkMs901mFrameAckId::RegD1Mode,
                AtkMs901mPort::D2 => AtkMs901mFrameAckId::RegD2Mode,
                AtkMs901mPort::D3 => AtkMs901mFrameAckId::RegD3Mode,
            }),
    {
        match self {
            AtkMs901mPort::D0 => AtkMs901mFrameAckId::RegD0Mode,
            AtkMs901mPort::D1 => AtkMs901mFrameAckId::RegD1Mode,
            AtkMs901mPort::D2 => AtkMs901mFrameAckId::RegD2Mode,
            AtkMs901mPort::D3 => AtkMs901mFrameAckId::RegD3Mode,
        }
    }

    /// The register holding the PWM pulse width of this port; only D1 and
    /// D3 have one, the others are `Invalid`.
    pub fn pulse_register(self) -> (r: Result<AtkMs901mFrameAckId, AtkMs901mError>)
        ensures
            r == (match self {
                AtkMs901mPort::D1 => Ok(AtkMs901mFrameAckId::RegD1Pulse),
                AtkMs901mPort::D3 => Ok(AtkMs901mFrameAckId::RegD3Pulse),
                _ => Err(AtkMs901mError::Invalid),
            }),
    {
        match self {
            AtkMs901mPort::D1 => Ok(AtkMs901mFrameAckId::RegD1Pulse),
            AtkMs901mPort::D3 => Ok(AtkMs901mFrameAckId::RegD3Pulse),
            _ => Err(AtkMs901mError::Invalid),
        }
    }

    /// The register holding the PWM period of this port; only D1 and D3
    /// have one, the others are `Invalid`.
    pub fn period_register(self) -> (r: Result<AtkMs901mFrameAckId, AtkMs901mError>)
        ensures
            r == (match self {
                AtkMs901mPort::D1 => Ok(AtkMs901mFrameAckId::RegD1Period),
                AtkMs901mPort::D3 => Ok(AtkMs901mFrameAckId::RegD3Period),
                _ => Err(AtkMs901mError::Invalid),
            }),
    {
        match self {
            AtkMs901mPort::D1 => Ok(AtkMs901mFrameAckId::RegD1Period),
            AtkMs901mPort::D3 => Ok(AtkMs901mFrameAckId::RegD3Period),
            _ => Err(AtkMs901mError::Invalid),
        }
    }
}

/// Outcome of reading the LED register: a failed read is `Error`,
/// otherwise the state is decoded from `state_byte` (0 on, 1 off, any
/// other value `Invalid`).
pub fn led_state_reply(read: Result<usize, AtkMs901mError>, state_byte: u8) -> (r: Result<
    AtkMs901mLedState,
    AtkMs901mError,
>)
    ensures
        read is Err ==> r == Err::<AtkMs901mLedState, AtkMs901mError>(AtkMs901mError::Error),
        read is Ok && state_byte == 0 ==> r == Ok::<AtkMs901mLedState, AtkMs901mError>(
            AtkMs901mLedState::On,
        ),
        read is Ok && state_byte == 1 ==> r == Ok::<AtkMs901mLedState, AtkMs901mError>(
            AtkMs901mLedState::Off,
        ),
        read is Ok && state_byte > 1 ==> r == Err::<AtkMs901mLedState, AtkMs901mError>(
            AtkMs901mError::Invalid,
        ),
{
    if read.is_err() {
        return Err(AtkMs901mError::Error);
    }
    AtkMs901mLedState::from_byte(state_byte)
}

/// Outcome of reading a port mode register: a failed read is `Error`,
/// otherwise the mode is decoded from `mode_byte`.
pub fn port_mode_reply(read: Result<usize, AtkMs901mError>, mode_byte: u8) -> (r: Result<
    AtkMs901mPortMode,
    AtkMs901mError,
>)
    ensures
        read is Err ==> r == Err::<AtkMs901mPortMode, AtkMs901mError>(AtkMs901mError::Error),
        read is Ok && mode_byte <= 4 ==> (r matches Ok(m) && m.spec_code() == mode_byte),
        read is Ok && mode_byte > 4 ==> r == Err::<AtkMs901mPortMode, AtkMs901mError>(
            AtkMs901mError::Invalid,
        ),
{
    if read.is_err() {
        return Err(AtkMs901mError::Error);
    }
    AtkMs901mPortMode::from_byte(mode_byte)
}

/// Outcome of reading a two-byte register: a failed read is `Error`,
/// otherwise the little-endian value of `bytes`.
pub fn u16_register_reply(read: Result<usize, AtkMs901mError>, bytes: [u8; 2]) -> (r: Result<
    u16,
    AtkMs901mError,
>)
    ensures
        read is Err ==> r == Err::<u16, AtkMs901mError>(AtkMs901mError::Error),
        read is Ok ==> (r matches Ok(v) && v == le_u16(bytes@[0], bytes@[1])),
{
    if read.is_err() {
        return Err(AtkMs901mError::Error);
    }
    Ok(u16_from_le(bytes[0], bytes[1]))
}

/// Outcome of writing a register and reading it back: `Error` unless the
/// value read back is the value written.
pub fn readback_result(written: u16, read_back: u16) -> (r: Result<(), AtkMs901mError>)
    ensures
        written == read_back ==> r == Ok::<(), AtkMs901mError>(()),
        written != read_back ==> r == Err::<(), AtkMs901mError>(AtkMs901mError::Error),
{
    if read_back != written {
        return Err(AtkMs901mError::Error);
    }
    Ok(())
}

/// What waiting for a frame does after one UART read.
#[derive(Debug, Clone, Copy)]
pub enum FrameWaitStep {
    /// The wait is over: the frame received, or why there is none.
    Finished(Result<AtkMs901mFrame, AtkMs901mError>),
    /// No frame yet and the deadline has not passed: read again.
    KeepWaiting,
}

/// One round of waiting for the frame of identifier `id` and type
/// `id_type`: a failed read ends the wait with its error; otherwise the
/// whole buffer is fed to the parser asked for that identifier and type,
/// and a frame of them ended in it ends the wait with that frame (or with
/// `Checksum` when its checksum byte does not match); frames of other
/// identifiers or types are skipped. Without a frame the wait ends with
/// `Timeout` once `now` is past `deadline`. From a parser reached from its
/// initial state by the same request, a frame handed out always has the
/// requested identifier and the header of the requested type.
pub fn frame_wait_step(
    parser: &mut FrameStateMachine,
    read: Result<(), AtkMs901mError>,
    buffer: &[u8],
    id: u8,
    id_type: u8,
    now: u64,
    deadline: u64,
) -> (r: FrameWaitStep)
    ensures
        read matches Err(e) ==> (r matches FrameWaitStep::Finished(Err(x)) && x == e)
            && final(parser)@ == old(parser)@,
        read is Ok ==> final(parser)@ == scan(old(parser)@, buffer@, id, id_type).0,
        read is Ok && scan_outcome(scan(old(parser)@, buffer@, id, id_type)) is Some ==> (r matches FrameWaitStep::Finished(
            res,
        ) && outcome_model(Some(res)) == scan_outcome(scan(old(parser)@, buffer@, id, id_type))),
        read is Ok && scan_outcome(scan(old(parser)@, buffer@, id, id_type)) is None && now > deadline ==> (
        r matches FrameWaitStep::Finished(Err(x)) && x == AtkMs901mError::Timeout),
        read is Ok && scan_outcome(scan(old(parser)@, buffer@, id, id_type)) is None && now <= deadline ==> (
        r is KeepWaiting),
        parser_wf(old(parser)@, id, id_type) ==> parser_wf(final(parser)@, id, id_type),
        parser_wf(old(parser)@, id, id_type) ==> (r matches FrameWaitStep::Finished(Ok(f))
            ==> valid_frame(f@, id, id_type)),
{
    proof {
        if parser_wf(parser@, id, id_type) {
            lemma_scan_keeps_wf(parser@, buffer@, id, id_type);
        }
    }
    match read {
        Err(e) => FrameWaitStep::Finished(Err(e)),
        Ok(()) => {
            match parser.process_bytes(buffer, id, id_type) {
                Some(res) => FrameWaitStep::Finished(res),
                None => {
                    if now > deadline {
                        FrameWaitStep::Finished(Err(AtkMs901mError::Timeout))
                    } else {
                        FrameWaitStep::KeepWaiting
                    }
                },
            }
        },
    }
}

} // verus!
