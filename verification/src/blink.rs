//! Blink patterns of the status LED and the breathing effect.

use vstd::prelude::*;

verus! {

/// LED blink mode.
#[derive(Debug, Clone, Copy, PartialEq, Eq, Structural)]
pub enum BlinkMode {
    /// LED off, waiting for another mode.
    Off,
    /// One short blink per second.
    OneFast,
    /// Two short blinks per second.
    TwoFast,
    /// Three short blinks per second.
    ThreeFast,
    /// Fast on/off.
    OnOffFast,
    /// Slow on/off.
    OnOffSlow,
    /// Breathing.
    Breathe,
}

/// One phase of a blink pattern: the pin level and how long it is held.
#[derive(Debug, Clone, Copy, PartialEq, Eq, Structural)]
pub struct BlinkPhase {
    /// Whether the pin is driven high.
    pub high: bool,
    /// Duration in milliseconds.
    pub millis: u64,
}

/// The phases played for one round of `mode`; `Off` and `Breathe` have
/// none (the first waits for a new mode, the second drives the PWM).
pub open spec fn blink_phases(mode: BlinkMode) -> Seq<BlinkPhase> {
    let h = |ms: u64| BlinkPhase { high: true, millis: ms };
    let l = |ms: u64| BlinkPhase { high: false, millis: ms };
    match mode {
        BlinkMode::OneFast => seq![h(50), l(950)],
        BlinkMode::TwoFast => seq![h(50), l(100), h(50), l(800)],
        BlinkMode::ThreeFast => seq![h(50), l(100), h(50), l(100), h(50), l(650)],
        BlinkMode::OnOffFast => seq![h(100), l(100)],
        BlinkMode::OnOffSlow => seq![h(150), l(150)],
        _ => Seq::empty(),
    }
}

/// Number of phases of `p` with the pin high: the blinks of one round.
pub open spec fn high_count(p: Seq<BlinkPhase>) -> nat
    decreases p.len(),
{
    if p.len() == 0 {
        0
    } else {
        high_count(p.drop_last()) + if p.last().high {
            1nat
        } else {
            0nat
        }
    }
}

/// Total duration of the phases of `p`, in milliseconds.
pub open spec fn round_ms(p: Seq<BlinkPhase>) -> nat
    decreases p.len(),
{
    if p.len() == 0 {
        0
    } else {
        (round_ms(p.drop_last()) + p.last().millis) as nat
    }
}

/// Whether `mode` blinks a number of short pulses per second.
pub open spec fn counted_blinks(mode: BlinkMode) -> bool {
    mode == BlinkMode::OneFast || mode == BlinkMode::TwoFast || mode == BlinkMode::ThreeFast
}

/// What the blink patterns are: a round alternates high and low, starting
/// high and ending low. `OneFast`, `TwoFast` and `ThreeFast` give one, two
/// and three 50 ms pulses per one-second round, 100 ms apart; `OnOffFast`
/// and `OnOffSlow` are square waves of period 200 ms and 300 ms; `Off` and
/// `Breathe` have no pattern.
pub proof fn lemma_blink_patterns(mode: BlinkMode)
    ensures
        ({
            let p = blink_phases(mode);
            &&& p.len() % 2 == 0
            &&& forall|i: int| 0 <= i < p.len() ==> (#[trigger] p[i]).high == (i % 2 == 0)
            &&& high_count(p) == match mode {
                BlinkMode::OneFast => 1nat,
                BlinkMode::TwoFast => 2nat,
                BlinkMode::ThreeFast => 3nat,
                BlinkMode::OnOffFast => 1nat,
                BlinkMode::OnOffSlow => 1nat,
                _ => 0nat,
            }
            &&& round_ms(p) == match mode {
                BlinkMode::OnOffFast => 200nat,
                BlinkMode::OnOffSlow => 300nat,
                BlinkMode::Off => 0nat,
                BlinkMode::Breathe => 0nat,
                _ => 1000nat,
            }
            &&& counted_blinks(mode) ==> forall|i: int|
                0 <= i < p.len() ==> (#[trigger] p[i]).high ==> p[i].millis == 50
            &&& counted_blinks(mode) ==> forall|i: int|
                0 <= i < p.len() - 1 ==> !(#[trigger] p[i]).high ==> p[i].millis == 100
            &&& !counted_blinks(mode) ==> forall|i: int|
                0 <= i < p.len() ==> (#[trigger] p[i]).millis == p[0].millis
        }),
{
    reveal_with_fuel(high_count, 7);
    reveal_with_fuel(round_ms, 7);
    let p = blink_phases(mode);
    assert forall|i: int| 0 <= i < p.len() implies (#[trigger] p[i]).high == (i % 2 == 0) by {
        assert(i == 0 || i == 1 || i == 2 || i == 3 || i == 4 || i == 5);
    }
    match mode {
        BlinkMode::ThreeFast => {
            assert(p.drop_last().drop_last().drop_last() =~= seq![p[0], p[1], p[2]]);
        },
        _ => {},
    }
}

/// The phases played for one round of `mode`.
pub fn blink_pattern(mode: BlinkMode) -> (r: Vec<BlinkPhase>)
    ensures
        r@ == blink_phases(mode),
{
    let r = match mode {
        BlinkMode::OneFast => vec![
            BlinkPhase { high: true, millis: 50 },
            BlinkPhase { high: false, millis: 950 },
        ],
        BlinkMode::TwoFast => vec![
            BlinkPhase { high: true, millis: 50 },
            BlinkPhase { high: false, millis: 100 },
            BlinkPhase { high: true, millis: 50 },
            BlinkPhase { high: false, millis: 800 },
        ],
        BlinkMode::ThreeFast => vec![
            BlinkPhase { high: true, millis: 50 },
            BlinkPhase { high: false, millis: 100 },
            BlinkPhase { high: true, millis: 50 },
            BlinkPhase { high: false, millis: 100 },
            BlinkPhase { high: true, millis: 50 },
            BlinkPhase { high: false, millis: 650 },
        ],
        BlinkMode::OnOffFast => vec![
            BlinkPhase { high: true, millis: 100 },
            BlinkPhase { high: false, millis: 100 },
        ],
        BlinkMode::OnOffSlow => vec![
            BlinkPhase { high: true, millis: 150 },
            BlinkPhase { high: false, millis: 150 },
        ],
        _ => Vec::new(),
    };
    assert(r@ =~= blink_phases(mode));
    r
}

/// Number of brightness steps of the breathing effect.
pub const STEP: usize = 200;

/// Top of the PWM counter, the full duty cycle.
pub const MAX_DUTY: u32 = 32768;

/// Position of the breathing effect: the brightness step and the sweep
/// direction (1 brighter, -1 dimmer).
pub struct BreatheContext {
    direction: i8,
    index: usize,
}

impl BreatheContext {
    #[verifier::type_invariant]
    spec fn valid(self) -> bool {
        &&& self.index < STEP
        &&& (self.direction == 1 || self.direction == -1)
    }

    /// The brightness step.
    pub closed spec fn spec_index(self) -> int {
        self.index as int
    }

    /// The sweep direction.
    pub closed spec fn spec_direction(self) -> int {
        self.direction as int
    }

    /// Start of a sweep: step 0, getting brighter.
    pub fn new() -> (r: Self)
        ensures
            r.spec_index() == 0,
            r.spec_direction() == 1,
    {
        BreatheContext { direction: 1, index: 0 }
    }

    /// The brightness step, below `STEP`.
    pub fn index(&self) -> (r: usize)
        ensures
            r == self.spec_index(),
            r < STEP,
    {
        proof {
            use_type_invariant(self);
        }
        self.index
    }

    /// The sweep direction, 1 or -1.
    pub fn direction(&self) -> (r: i8)
        ensures
            r == self.spec_direction(),
            r == 1 || r == -1,
    {
        proof {
            use_type_invariant(self);
        }
        self.direction
    }

    /// Back to the start of a sweep.
    pub fn reset(&mut self)
        ensures
            final(self).spec_index() == 0,
            final(self).spec_direction() == 1,
    {
        *self = BreatheContext::new();
    }

    /// Moves one step: up while getting brighter, down while getting
    /// dimmer; at either end the step is held once and the direction turns.
    pub fn step(&mut self)
        ensures
            breathe_next(old(self).spec_index(), old(self).spec_direction()) == (
                final(self).spec_index(),
                final(self).spec_direction(),
            ),
    {
        proof {
            use_type_invariant(&*self);
        }
        let index = self.index;
        let direction = self.direction;
        if direction == 1 {
            if index >= STEP - 1 {
                *self = BreatheContext { direction: -1, index: STEP - 1 };
            } else {
                *self = BreatheContext { direction: 1, index: index + 1 };
            }
        } else {
            if index == 0 {
                *self = BreatheContext { direction: 1, index: 0 };
            } else {
                *self = BreatheContext { direction: -1, index: index - 1 };
            }
        }
    }
}

/// The step after `(index, direction)`.
pub open spec fn breathe_next(index: int, direction: int) -> (int, int) {
    if direction == 1 {
        if index >= STEP - 1 {
            (STEP - 1, -1)
        } else {
            (index + 1, 1)
        }
    } else {
        if index == 0 {
            (0, 1)
        } else {
            (index - 1, -1)
        }
    }
}

/// Position of the sweep `t` steps after its start, for `0 <= t < 400`:
/// up from 0 to 199, then down from 199 to 0.
pub open spec fn breathe_phase(t: int) -> (int, int) {
    if t < STEP {
        (t, 1)
    } else {
        (2 * STEP - 1 - t, -1)
    }
}

/// The breathing effect is periodic: from any position of the sweep, one
/// step leads to the next position, and after 400 steps (200 up, 200 down)
/// the sweep is back at its start.
pub proof fn lemma_breathe_cycle(t: int)
    requires
        0 <= t < 2 * STEP,
    ensures
        breathe_next(breathe_phase(t).0, breathe_phase(t).1) == breathe_phase((t + 1) % 400),
{
    if t + 1 < 400 {
        vstd::arithmetic::div_mod::lemma_small_mod((t + 1) as nat, 400);
    } else {
        vstd::arithmetic::div_mod::lemma_mod_self_0(400);
    }
}

/// The brightness position `i` of `STEP - 1` as a 32-bit fraction of one.
pub open spec fn gamma_x(i: int) -> int {
    (i * 1000) * 0xFFFF_FFFF / ((STEP - 1) * 1000)
}

/// PWM duty of brightness step `i`: the position `x` (a 32-bit fraction)
/// is raised to about 2.2 as `x^2 * x^0.2`, with `x^0.2` approximated by
/// `x * 22900669 / 2^32`, in 32-bit fixed point, then scaled to the PWM
/// range `MAX_DUTY`.
pub open spec fn gamma_duty(i: int) -> int {
    let x = gamma_x(i);
    let x_sq = (x * x) / 0x1_0000_0000;
    let x_02 = (x * 2290_0669) / 0x1_0000_0000;
    let g = (x_sq * x_02) / 0x1_0000_0000;
    g * MAX_DUTY / 0xFFFF_FFFF
}

/// PWM duty of brightness step `i`.
pub fn gamma_lut_entry(i: usize) -> (r: u32)
    requires
        i < STEP,
    ensures
        r == gamma_duty(i as int),
        r <= MAX_DUTY,
{
    let t = (i * 1000) as u32;
    assert(t as u64 * 0xFFFF_FFFFu64 <= 199000 * 0xFFFF_FFFFu64) by (nonlinear_arith)
        requires
            t <= 199000,
    ;
    let normalized: u64 = t as u64 * 0xFFFF_FFFFu64 / ((STEP - 1) * 1000) as u64;
    assert(normalized <= 0xFFFF_FFFFu64) by (nonlinear_arith)
        requires
            normalized == t as u64 * 0xFFFF_FFFFu64 / 199000,
            t <= 199000,
    ;
    let x = normalized as u32;
    assert((x as u64) * (x as u64) <= 0xFFFF_FFFFu64 * 0xFFFF_FFFFu64) by (nonlinear_arith)
        requires
            x <= 0xFFFF_FFFFu64,
    ;
    let x_sq: u64 = (x as u64 * x as u64) >> 32u64;
    assert((x as u64) * 2290_0669u64 <= 0xFFFF_FFFFu64 * 2290_0669u64) by (nonlinear_arith)
        requires
            x <= 0xFFFF_FFFFu64,
    ;
    let x_02: u64 = (x as u64 * 2290_0669u64) >> 32u64;
    let p: u64 = x as u64 * x as u64;
    let q: u64 = x as u64 * 2290_0669u64;
    assert(x_sq == p / 0x1_0000_0000 && x_02 == q / 0x1_0000_0000) by (bit_vector)
        requires
            x_sq == p >> 32u64,
            x_02 == q >> 32u64,
    ;
    assert(x_sq < 0x1_0000_0000) by (nonlinear_arith)
        requires
            x_sq == p / 0x1_0000_0000,
            p <= 0xFFFF_FFFFu64 * 0xFFFF_FFFFu64,
    ;
    assert(x_02 < 2290_0669) by (nonlinear_arith)
        requires
            x_02 == q / 0x1_0000_0000,
            q <= 0xFFFF_FFFFu64 * 2290_0669u64,
    ;
    assert(x_sq * x_02 <= 0xFFFF_FFFFu64 * 2290_0669u64) by (nonlinear_arith)
        requires
            x_sq < 0x1_0000_0000,
            x_02 < 2290_0669,
    ;
    let pr: u64 = x_sq * x_02;
    let gamma_val: u64 = pr >> 32u64;
    assert(gamma_val == pr / 0x1_0000_0000) by (bit_vector)
        requires
            gamma_val == pr >> 32u64,
    ;
    assert(gamma_val < 2290_0669) by (nonlinear_arith)
        requires
            gamma_val == pr / 0x1_0000_0000,
            pr <= 0xFFFF_FFFFu64 * 2290_0669u64,
    ;
    let scaled: u64 = gamma_val * MAX_DUTY as u64 / 0xFFFF_FFFFu64;
    assert(scaled <= MAX_DUTY) by (nonlinear_arith)
        requires
            scaled == gamma_val * 32768 / 0xFFFF_FFFF,
            gamma_val < 2290_0669,
    ;
    scaled as u32
}

/// The whole gamma table, one duty per brightness step.
pub fn gamma_lut() -> (r: Vec<u32>)
    ensures
        r@.len() == STEP,
        forall|i: int| 0 <= i < STEP ==> r@[i] == gamma_duty(i),
{
    let mut table: Vec<u32> = Vec::new();
    let mut i: usize = 0;
    while i < STEP
        invariant
            i <= STEP,
            table@.len() == i,
            forall|j: int| 0 <= j < i ==> table@[j] == gamma_duty(j),
        decreases STEP - i,
    {
        table.push(gamma_lut_entry(i));
        i = i + 1;
    }
    table
}

/// The gamma table never asks for more than the full duty cycle.
pub proof fn lemma_gamma_duty_bounded(i: int)
    requires
        0 <= i < STEP,
    ensures
        0 <= gamma_duty(i) <= MAX_DUTY,
{
    let x = gamma_x(i);
    assert(0 <= x <= 0xFFFF_FFFF) by (nonlinear_arith)
        requires
            x == (i * 1000) * 0xFFFF_FFFF / 199000,
            0 <= i < 200,
    ;
    let x_sq = (x * x) / 0x1_0000_0000;
    let x_02 = (x * 2290_0669) / 0x1_0000_0000;
    assert(0 <= x_sq < 0x1_0000_0000 && 0 <= x_02 < 2290_0669) by (nonlinear_arith)
        requires
            x_sq == (x * x) / 0x1_0000_0000,
            x_02 == (x * 2290_0669) / 0x1_0000_0000,
            0 <= x <= 0xFFFF_FFFF,
    ;
    let g = (x_sq * x_02) / 0x1_0000_0000;
    assert(0 <= g < 2290_0669) by (nonlinear_arith)
        requires
            g == (x_sq * x_02) / 0x1_0000_0000,
            0 <= x_sq < 0x1_0000_0000,
            0 <= x_02 < 2290_0669,
    ;
    assert(0 <= g * 32768 / 0xFFFF_FFFF <= 32768) by (nonlinear_arith)
        requires
            0 <= g < 2290_0669,
    ;
}

/// Brightness never decreases along the table: a higher step has at least
/// the duty of a lower one.
pub proof fn lemma_gamma_duty_monotone(i: int, j: int)
    requires
        0 <= i <= j < STEP,
    ensures
        gamma_duty(i) <= gamma_duty(j),
{
    let xi = gamma_x(i);
    let xj = gamma_x(j);
    assert(0 <= xi <= xj <= 0xFFFF_FFFF) by (nonlinear_arith)
        requires
            xi == (i * 1000) * 0xFFFF_FFFF / 199000,
            xj == (j * 1000) * 0xFFFF_FFFF / 199000,
            0 <= i <= j < 200,
    {
        vstd::arithmetic::div_mod::lemma_div_is_ordered(
            (i * 1000) * 0xFFFF_FFFF,
            (j * 1000) * 0xFFFF_FFFF,
            199000,
        );
    }
    let si = (xi * xi) / 0x1_0000_0000;
    let sj = (xj * xj) / 0x1_0000_0000;
    let ti = (xi * 2290_0669) / 0x1_0000_0000;
    let tj = (xj * 2290_0669) / 0x1_0000_0000;
    assert(0 <= si <= sj && 0 <= ti <= tj) by (nonlinear_arith)
        requires
            0 <= xi <= xj,
            si == (xi * xi) / 0x1_0000_0000,
            sj == (xj * xj) / 0x1_0000_0000,
            ti == (xi * 2290_0669) / 0x1_0000_0000,
            tj == (xj * 2290_0669) / 0x1_0000_0000,
    {
        vstd::arithmetic::mul::lemma_mul_upper_bound(xi, xj, xi, xj);
        vstd::arithmetic::div_mod::lemma_div_is_ordered(xi * xi, xj * xj, 0x1_0000_0000);
        vstd::arithmetic::div_mod::lemma_div_is_ordered(
            xi * 2290_0669,
            xj * 2290_0669,
            0x1_0000_0000,
        );
    }
    let gi = (si * ti) / 0x1_0000_0000;
    let gj = (sj * tj) / 0x1_0000_0000;
    assert(0 <= gi <= gj) by (nonlinear_arith)
        requires
            0 <= si <= sj,
            0 <= ti <= tj,
            gi == (si * ti) / 0x1_0000_0000,
            gj == (sj * tj) / 0x1_0000_0000,
    {
        vstd::arithmetic::mul::lemma_mul_upper_bound(si, sj, ti, tj);
        vstd::arithmetic::div_mod::lemma_div_is_ordered(si * ti, sj * tj, 0x1_0000_0000);
    }
    assert(gi * 32768 / 0xFFFF_FFFF <= gj * 32768 / 0xFFFF_FFFF) by (nonlinear_arith)
        requires
            0 <= gi <= gj,
    {
        vstd::arithmetic::div_mod::lemma_div_is_ordered(gi * 32768, gj * 32768, 0xFFFF_FFFF);
    }
}

impl BreatheContext {
    /// PWM duty for the current brightness step.
    pub fn duty(&self) -> (r: u16)
        ensures
            r == gamma_duty(self.spec_index()),
    {
        proof {
            use_type_invariant(self);
        }
        gamma_lut_entry(self.index) as u16
    }
}

/// Mode change received by the blink task: the new mode is taken, and
/// unless it is breathing the breathing sweep restarts from the beginning.
pub fn switch_mode(ctx: &mut BreatheContext, new_mode: BlinkMode) -> (r: BlinkMode)
    ensures
        r == new_mode,
        new_mode != BlinkMode::Breathe ==> final(ctx).spec_index() == 0
            && final(ctx).spec_direction() == 1,
        new_mode == BlinkMode::Breathe ==> final(ctx).spec_index() == old(ctx).spec_index()
            && final(ctx).spec_direction() == old(ctx).spec_direction(),
{
    if new_mode != BlinkMode::Breathe {
        ctx.reset();
    }
    new_mode
}

} // verus!
