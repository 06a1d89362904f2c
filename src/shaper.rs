//! Pressure shaping: from a raw pad pressure to a 7-bit MIDI value.
//!
//! A pressure is the pad's 12-bit sample, `0` (released) to
//! `PRESSURE_MAX` (full), standing for the fraction `p / PRESSURE_MAX`.
//! Every curve rounds half up to the nearest integer.
use vstd::prelude::*;

verus! {

/// The pressure of a fully pressed pad.
pub const PRESSURE_MAX: u16 = 4095;

/// The largest numerator or denominator of an exponent.
pub const MAX_EXPONENT: u32 = 6;

/// The curve that turns a pad pressure into a MIDI velocity.
#[derive(Clone, Copy, PartialEq, Eq, Structural, Debug)]
pub enum PressureShape {
    /// `round(x * 127)`.
    Linear,
    /// `round(x^(num/den) * 127)`.
    Exponential { num: u32, den: u32 },
    /// `round(c * 127)` for a fixed pressure `c`, whatever the pad reads.
    Constant(u16),
}

impl PressureShape {
    /// The exponent's parts stay small enough that the powers fit in `u128`,
    /// and a constant pressure is a pressure.
    pub open spec fn wf(&self) -> bool {
        match *self {
            PressureShape::Linear => true,
            PressureShape::Exponential { num, den } => num <= MAX_EXPONENT && 1 <= den
                <= MAX_EXPONENT,
            PressureShape::Constant(c) => c <= PRESSURE_MAX,
        }
    }
}

pub open spec fn pow(b: int, e: nat) -> int
    decreases e,
{
    if e == 0 {
        1
    } else {
        b * pow(b, (e - 1) as nat)
    }
}

/// `round(p * 127 / PRESSURE_MAX)`, halves rounded up.
pub open spec fn scale_round(p: int) -> int {
    (254 * p + PRESSURE_MAX) / (2 * PRESSURE_MAX)
}

/// `v - 1/2 <= 127 * (p / PRESSURE_MAX)^(num/den)`, cleared of fractions.
pub open spec fn exp_reaches(v: int, p: int, num: nat, den: nat) -> bool {
    pow(2 * v - 1, den) * pow(PRESSURE_MAX as int, num) <= pow(p, num) * pow(254, den)
}

/// The largest level `w <= v` that `exp_reaches`, or `0`.
pub open spec fn exp_level_from(v: int, p: int, num: nat, den: nat) -> int
    decreases v,
{
    if v <= 0 {
        0
    } else if exp_reaches(v, p, num, den) {
        v
    } else {
        exp_level_from(v - 1, p, num, den)
    }
}

/// The 7-bit value that `shape` gives to pressure `p`.
pub open spec fn shaped_value(shape: PressureShape, p: int) -> int {
    match shape {
        PressureShape::Linear => scale_round(p),
        PressureShape::Exponential { num, den } => exp_level_from(127, p, num as nat, den as nat),
        PressureShape::Constant(c) => scale_round(c as int),
    }
}

proof fn lemma_level_search(v: int, p: int, num: nat, den: nat)
    requires
        v >= 0,
    ensures
        0 <= exp_level_from(v, p, num, den) <= v,
        exp_level_from(v, p, num, den) > 0 ==> exp_reaches(
            exp_level_from(v, p, num, den),
            p,
            num,
            den,
        ),
        forall|w: int|
            exp_level_from(v, p, num, den) < w <= v ==> !#[trigger] exp_reaches(w, p, num, den),
    decreases v,
{
    if v > 0 && !exp_reaches(v, p, num, den) {
        lemma_level_search(v - 1, p, num, den);
    }
}

/// The exponential curve rounds half up: its level `r` is the largest that
/// `exp_reaches`, so that `r - 1/2 <= 127 * x^k` and, below the top,
/// `127 * x^k < r + 1/2`.
pub proof fn lemma_exponential_rounds(p: int, num: nat, den: nat)
    ensures
        0 <= exp_level_from(127, p, num, den) <= 127,
        exp_level_from(127, p, num, den) > 0 ==> exp_reaches(
            exp_level_from(127, p, num, den),
            p,
            num,
            den,
        ),
        exp_level_from(127, p, num, den) < 127 ==> !exp_reaches(
            exp_level_from(127, p, num, den) + 1,
            p,
            num,
            den,
        ),
{
    lemma_level_search(127, p, num, den);
}

proof fn lemma_pow_bound(b: int, c: int, e: nat, m: nat)
    requires
        0 <= b <= c,
        1 <= c,
        e <= m,
    ensures
        0 <= pow(b, e) <= pow(c, m),
    decreases m,
{
    if m == 0 {
    } else if e == m {
        lemma_pow_bound(b, c, (e - 1) as nat, (m - 1) as nat);
        let x = pow(b, (e - 1) as nat);
        let y = pow(c, (m - 1) as nat);
        assert(b * x <= c * y) by (nonlinear_arith)
            requires
                0 <= b <= c,
                0 <= x <= y,
        ;
    } else {
        lemma_pow_bound(b, c, e, (m - 1) as nat);
        let y = pow(c, (m - 1) as nat);
        assert(y <= c * y) by (nonlinear_arith)
            requires
                1 <= c,
                0 <= y,
        ;
    }
}

proof fn lemma_pow_values()
    ensures
        pow(253, 6) == 262254607552729,
        pow(254, 6) == 268535866540096,
        pow(4095, 6) == 4715453174592516890625,
{
    reveal_with_fuel(pow, 7);
}

fn pow_u128(b: u128, e: u32) -> (r: u128)
    requires
        b <= PRESSURE_MAX,
        e <= MAX_EXPONENT,
    ensures
        r == pow(b as int, e as nat),
{
    let mut r: u128 = 1;
    let mut i: u32 = 0;
    while i < e
        invariant
            i <= e <= MAX_EXPONENT,
            b <= PRESSURE_MAX,
            r == pow(b as int, i as nat),
        decreases e - i,
    {
        proof {
            lemma_pow_bound(b as int, PRESSURE_MAX as int, (i + 1) as nat, 6);
            lemma_pow_values();
            assert(pow(b as int, (i + 1) as nat) == b * pow(b as int, i as nat));
            assert(r * b == b * r) by (nonlinear_arith);
        }
        r = r * b;
        i = i + 1;
    }
    r
}

/// Whether level `v` is reached, with `exp_reaches`'s meaning.
fn exp_reaches_exec(v: u32, p: u16, num: u32, den: u32) -> (r: bool)
    requires
        1 <= v <= 127,
        p <= PRESSURE_MAX,
        num <= MAX_EXPONENT,
        den <= MAX_EXPONENT,
    ensures
        r == exp_reaches(v as int, p as int, num as nat, den as nat),
{
    let a = pow_u128((2 * v - 1) as u128, den);
    let b = pow_u128(PRESSURE_MAX as u128, num);
    let c = pow_u128(p as u128, num);
    let d = pow_u128(254, den);
    proof {
        lemma_pow_values();
        lemma_pow_bound((2 * v - 1) as int, 253, den as nat, 6);
        lemma_pow_bound(PRESSURE_MAX as int, PRESSURE_MAX as int, num as nat, 6);
        lemma_pow_bound(p as int, PRESSURE_MAX as int, num as nat, 6);
        lemma_pow_bound(254, 254, den as nat, 6);
        assert(a * b <= 262254607552729 * 4715453174592516890625) by (nonlinear_arith)
            requires
                0 <= a <= 262254607552729,
                0 <= b <= 4715453174592516890625,
        ;
        assert(c * d <= 4715453174592516890625 * 268535866540096) by (nonlinear_arith)
            requires
                0 <= c <= 4715453174592516890625,
                0 <= d <= 268535866540096,
        ;
    }
    a * b <= c * d
}

/// The 7-bit value that `shape` gives to `pressure`.
pub fn shape_pressure(shape: &PressureShape, pressure: u16) -> (r: u8)
    requires
        shape.wf(),
        pressure <= PRESSURE_MAX,
    ensures
        r as int == shaped_value(*shape, pressure as int),
        r <= 127,
{
    match *shape {
        PressureShape::Linear => scale_round_exec(pressure),
        PressureShape::Constant(c) => scale_round_exec(c),
        PressureShape::Exponential { num, den } => {
            assert(shaped_value(*shape, pressure as int) == exp_level_from(
                127,
                pressure as int,
                num as nat,
                den as nat,
            ));
            let mut v: u32 = 127;
            while v > 0
                invariant
                    v <= 127,
                    num <= MAX_EXPONENT,
                    den <= MAX_EXPONENT,
                    pressure <= PRESSURE_MAX,
                    shaped_value(*shape, pressure as int) == exp_level_from(
                        127,
                        pressure as int,
                        num as nat,
                        den as nat,
                    ),
                    exp_level_from(127, pressure as int, num as nat, den as nat) == exp_level_from(
                        v as int,
                        pressure as int,
                        num as nat,
                        den as nat,
                    ),
                decreases v,
            {
                if exp_reaches_exec(v, pressure, num, den) {
                    assert(exp_level_from(v as int, pressure as int, num as nat, den as nat)
                        == v as int);
                    return v as u8;
                }
                v = v - 1;
            }
            0
        },
    }
}

fn scale_round_exec(p: u16) -> (r: u8)
    requires
        p <= PRESSURE_MAX,
    ensures
        r as int == scale_round(p as int),
        r <= 127,
{
    let r = (254 * (p as u32) + PRESSURE_MAX as u32) / (2 * PRESSURE_MAX as u32);
    r as u8
}

} // verus!
