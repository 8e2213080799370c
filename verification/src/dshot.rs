//! DShot motor protocol: the PIO clock divider and the driver interface.

use vstd::prelude::*;

verus! {

/// Interface of a DShot driver for `N` motors.
pub trait DshotPioTrait<const N: usize> {
    /// Sends a DShot command to each motor.
    fn command(&mut self, command: [u16; N]);

    /// Sets the spin direction of each motor.
    fn reverse(&mut self, reverse: [bool; N]);

    /// Sends a throttle value to each motor, clamped to the valid range.
    fn throttle_clamp(&mut self, throttle: [u16; N]);

    /// Sends the minimum throttle to every motor.
    fn throttle_minimum(&mut self);
}

/// Kinds of ESC protocol.
#[derive(Debug, Clone, Copy, PartialEq, Eq, Structural)]
pub enum ShotType {
    /// DShot at 150 kbit/s.
    DSHOT150,
    /// DShot at 300 kbit/s.
    DSHOT300,
    /// DShot at 600 kbit/s.
    DSHOT600,
    /// DShot at 1200 kbit/s.
    DSHOT1200,
    /// OneShot42.
    OneSHOT42,
    /// OneShot125.
    OneShot125,
    /// MultiShot.
    MultiShot,
}

/// Bit rate used for a protocol; the protocols other than DShot fall back
/// to the DShot600 rate.
pub open spec fn shot_bit_rate(shot_type: ShotType) -> int {
    match shot_type {
        ShotType::DSHOT150 => 150_000,
        ShotType::DSHOT300 => 300_000,
        ShotType::DSHOT600 => 600_000,
        ShotType::DSHOT1200 => 1_200_000,
        _ => 600_000,
    }
}

/// The bit rates of the DShot protocols are their names in kbit/s:
/// DShot150 sends 150 000 bits a second, DShot300 300 000, DShot600
/// 600 000 and DShot1200 1 200 000; the other protocols use the DShot600
/// rate.
pub proof fn lemma_shot_bit_rates(t: ShotType)
    ensures
        shot_bit_rate(ShotType::DSHOT150) == 150_000,
        shot_bit_rate(ShotType::DSHOT300) == 2 * shot_bit_rate(ShotType::DSHOT150),
        shot_bit_rate(ShotType::DSHOT600) == 4 * shot_bit_rate(ShotType::DSHOT150),
        shot_bit_rate(ShotType::DSHOT1200) == 8 * shot_bit_rate(ShotType::DSHOT150),
        !(t == ShotType::DSHOT150 || t == ShotType::DSHOT300 || t == ShotType::DSHOT1200)
            ==> shot_bit_rate(t) == 600_000,
{
}

/// PIO clock divider for sending `shot_type` from a system clock of
/// `sys_clk_hz`: the integer part and the 8-bit fractional part of
/// `sys_clk_hz / (8 * bit_rate)`, each truncated.
pub fn cal_clock_div(sys_clk_hz: u32, shot_type: ShotType) -> (r: (u16, u8))
    ensures
        r.0 == sys_clk_hz as int / (8 * shot_bit_rate(shot_type)),
        r.1 == (sys_clk_hz as int % (8 * shot_bit_rate(shot_type))) * 256 / (8 * shot_bit_rate(
            shot_type,
        )),
        r.0 * 256 + r.1 == sys_clk_hz as int * 256 / (8 * shot_bit_rate(shot_type)),
{
    let bit_rate: u32 = match shot_type {
        ShotType::DSHOT150 => 150_000,
        ShotType::DSHOT300 => 300_000,
        ShotType::DSHOT600 => 600_000,
        ShotType::DSHOT1200 => 1_200_000,
        _ => 600_000,
    };
    let denominator: u64 = 8u64 * bit_rate as u64;
    let sys_clk: u64 = sys_clk_hz as u64;
    let q: u64 = sys_clk / denominator;
    assert(q <= 3580) by (nonlinear_arith)
        requires
            q == sys_clk / denominator,
            denominator >= 1_200_000,
            sys_clk <= 0xFFFF_FFFF,
    ;
    let divider = q as u16;
    let remainder: u64 = sys_clk % denominator;
    let shifted: u64 = remainder << 8u64;
    assert(shifted == remainder * 256) by (bit_vector)
        requires
            shifted == remainder << 8u64,
            remainder < 0x1_0000_0000,
    ;
    let f: u64 = shifted / denominator;
    assert(f < 256) by (nonlinear_arith)
        requires
            f == shifted / denominator,
            shifted == remainder * 256,
            remainder < denominator,
            denominator > 0,
    ;
    let fraction = f as u8;
    proof {
        let d = denominator as int;
        let s = sys_clk as int;
        vstd::arithmetic::div_mod::lemma_fundamental_div_mod(s, d);
        assert(s * 256 == (q * 256) * d + remainder * 256) by (nonlinear_arith)
            requires
                s == d * q + remainder,
        ;
        vstd::arithmetic::div_mod::lemma_hoist_over_denominator(
            remainder * 256,
            q * 256,
            d as nat,
        );
        assert(remainder * 256 + (q * 256) * d == s * 256);
    }
    (divider, fraction)
}

} // verus!
