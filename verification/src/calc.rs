//! Conversions between physical quantities and register codes.
//!
//! Currents are in milliamperes, the sense resistor in milliohms, voltages in
//! millivolts and ratios in thousandths, so that every formula is exact
//! integer arithmetic.
use vstd::prelude::*;

verus! {

/// The MRES code that selects `microsteps` microsteps per full step.
///
/// The chip knows nine resolutions; any other count selects the code of 16.
pub open spec fn mres_code(microsteps: u32) -> u32 {
    if microsteps == 256 {
        0
    } else if microsteps == 128 {
        1
    } else if microsteps == 64 {
        2
    } else if microsteps == 32 {
        3
    } else if microsteps == 16 {
        4
    } else if microsteps == 8 {
        5
    } else if microsteps == 4 {
        6
    } else if microsteps == 2 {
        7
    } else if microsteps == 0 {
        8
    } else {
        4
    }
}

/// The microsteps per full step that MRES code `mres` selects (0 is full
/// stepping); a code the chip does not know counts as the code of 16.
pub open spec fn microsteps_of_code(mres: u32) -> u32 {
    if mres == 0 {
        256
    } else if mres == 1 {
        128
    } else if mres == 2 {
        64
    } else if mres == 3 {
        32
    } else if mres == 4 {
        16
    } else if mres == 5 {
        8
    } else if mres == 6 {
        4
    } else if mres == 7 {
        2
    } else if mres == 8 {
        0
    } else {
        16
    }
}

/// Whether `microsteps` is one of the nine resolutions of the chip.
pub open spec fn is_resolution(microsteps: u32) -> bool {
    microsteps == 256 || microsteps == 128 || microsteps == 64 || microsteps == 32
        || microsteps == 16 || microsteps == 8 || microsteps == 4 || microsteps == 2
        || microsteps == 0
}

pub fn microsteps_to_mres(microsteps: u32) -> (mres: u32)
    ensures
        mres == mres_code(microsteps),
        mres <= 8,
        !is_resolution(microsteps) ==> mres == mres_code(16),
{
    match microsteps {
        256 => 0,
        128 => 1,
        64 => 2,
        32 => 3,
        16 => 4,
        8 => 5,
        4 => 6,
        2 => 7,
        0 => 8,
        _ => 4,
    }
}

pub fn mres_to_microsteps(mres: u32) -> (microsteps: u32)
    ensures
        microsteps == microsteps_of_code(mres),
        is_resolution(microsteps),
{
    match mres {
        0 => 256,
        1 => 128,
        2 => 64,
        3 => 32,
        4 => 16,
        5 => 8,
        6 => 4,
        7 => 2,
        8 => 0,
        _ => 16,
    }
}

/// Each of the nine codes comes back from the resolution it selects.
pub proof fn lemma_mres_round_trip(mres: u32)
    requires
        mres <= 8,
    ensures
        mres_code(microsteps_of_code(mres)) == mres,
{
}

/// Each of the nine resolutions comes back from its code.
pub proof fn lemma_microsteps_round_trip(microsteps: u32)
    requires
        is_resolution(microsteps),
    ensures
        microsteps_of_code(mres_code(microsteps)) == microsteps,
{
}

/// A count that is no resolution of the chip gets the code of 16 microsteps.
pub proof fn lemma_unknown_microsteps_fall_back(microsteps: u32)
    requires
        !is_resolution(microsteps),
    ensures
        mres_code(microsteps) == mres_code(16),
        microsteps_of_code(mres_code(microsteps)) == 16,
{
}

/// The largest current scale that the five bits of IRUN and IHOLD can hold.
pub const MAX_CURRENT_SCALE: u8 = 31;

/// Below this scale in the low-sensitivity range the chip is switched to the
/// high-sensitivity range.
pub const LOW_SCALE_LIMIT: u8 = 16;

/// Full-scale sense voltage in millivolts: 180 in the high-sensitivity
/// range, 325 otherwise.
pub open spec fn sense_voltage(high_sensitivity: bool) -> nat {
    if high_sensitivity {
        180
    } else {
        325
    }
}

/// The current scale for an RMS current in one sensitivity range:
/// `32 * 1.41421 * I / 1000 * (R / 1000 + 0.02) / (V / 1000) - 1`, truncated
/// toward zero, with `I` in milliamperes, `R` in milliohms and `V` in
/// millivolts. A negative scale counts as zero.
pub open spec fn current_scale(rms_current: nat, r_sense: nat, high_sensitivity: bool) -> nat {
    let numerator = 32 * 141421 * rms_current * (r_sense + 20);
    let denominator = 100000 * 1000 * sense_voltage(high_sensitivity);
    if numerator >= denominator {
        (numerator / denominator - 1) as nat
    } else {
        0
    }
}

/// Whether the current is so low that the high-sensitivity range is used.
pub open spec fn needs_high_sensitivity(rms_current: nat, r_sense: nat) -> bool {
    current_scale(rms_current, r_sense, false) < LOW_SCALE_LIMIT
}

/// The IRUN code for an RMS current: the scale of the range that
/// [`needs_high_sensitivity`] picks, at most 31.
pub open spec fn run_code(rms_current: nat, r_sense: nat) -> nat {
    let scale = current_scale(rms_current, r_sense, needs_high_sensitivity(rms_current, r_sense));
    if scale > MAX_CURRENT_SCALE {
        MAX_CURRENT_SCALE as nat
    } else {
        scale
    }
}

/// The IHOLD code: `hold_multiplier` thousandths of the run code, truncated,
/// and at most 255.
pub open spec fn hold_code(run_code: nat, hold_multiplier: nat) -> nat {
    let scaled = run_code * hold_multiplier / 1000;
    if scaled > 255 {
        255
    } else {
        scaled
    }
}

/// The RMS current in milliamperes that a run code stands for:
/// `(irun + 1) / 32 * (V / 1000) / (R / 1000 + 0.02) / 1.41421 * 1000`,
/// truncated.
pub open spec fn current_of_run_code(irun: nat, high_sensitivity: bool, r_sense: nat) -> nat {
    ((irun + 1) * sense_voltage(high_sensitivity) * 100000 * 1000) / (32 * 141421 * (r_sense + 20))
}

/// The codes that set an RMS current.
#[derive(Clone, Copy, Debug, PartialEq, Eq)]
pub struct RmsCurrentToIholdIrunVsenseOutput {
    pub ihold: u8,
    pub irun: u8,
    pub vsense: bool,
}

/// The codes that [`rms_current_to_ihold_irun_vsense`] returns.
pub open spec fn current_codes(rms_current: u16, r_sense: u32, hold_multiplier: u16)
    -> RmsCurrentToIholdIrunVsenseOutput {
    let irun = run_code(rms_current as nat, r_sense as nat);
    RmsCurrentToIholdIrunVsenseOutput {
        ihold: hold_code(irun, hold_multiplier as nat) as u8,
        irun: irun as u8,
        vsense: needs_high_sensitivity(rms_current as nat, r_sense as nat),
    }
}

/// The current that [`irun_to_rms_current`] returns: what the run code
/// stands for, at most 65535.
pub open spec fn read_back_current(irun: u8, vsense: bool, r_sense: u32) -> u16 {
    let current = current_of_run_code(irun as nat, vsense, r_sense as nat);
    if current > 0xFFFF {
        0xFFFFu16
    } else {
        current as u16
    }
}

/// The current scale in one range, at most 255.
fn current_scale_code(rms_current: u16, r_sense: u32, high_sensitivity: bool) -> (scale: u8)
    ensures
        current_scale(rms_current as nat, r_sense as nat, high_sensitivity) <= 255 ==> scale
            == current_scale(rms_current as nat, r_sense as nat, high_sensitivity),
        current_scale(rms_current as nat, r_sense as nat, high_sensitivity) > 255 ==> scale == 255,
{
    let current: u128 = rms_current as u128;
    let ohms: u128 = r_sense as u128 + 20;
    assert(current * ohms <= 0xFFFF * 0x1_0000_0013) by (nonlinear_arith)
        requires
            current <= 0xFFFF,
            ohms <= 0x1_0000_0013,
    ;
    let area: u128 = current * ohms;
    assert(32 * 141421 * current * ohms == 4525472 * area) by (nonlinear_arith)
        requires
            area == current * ohms,
    ;
    let numerator: u128 = 4525472 * area;
    let quotient: u128 = if high_sensitivity {
        numerator / 18_000_000_000
    } else {
        numerator / 32_500_000_000
    };
    if quotient >= 1 {
        let scale: u128 = quotient - 1;
        if scale > 255 {
            255
        } else {
            scale as u8
        }
    } else {
        0
    }
}

/// Run code, hold code and sensitivity range for an RMS current of
/// `rms_current_mA` milliamperes, with a sense resistor of `rsense` milliohms
/// and a hold current of `hold_multiplier` thousandths of the run current.
///
/// The scale is computed for the low-sensitivity range first. If it comes out
/// below 16, the high-sensitivity range is chosen and the scale computed once
/// more for that range; it is not tried again after that.
pub fn rms_current_to_ihold_irun_vsense(
    rms_current_mA: u16,
    rsense: u32,
    hold_multiplier: u16,
) -> (output: RmsCurrentToIholdIrunVsenseOutput)
    ensures
        output == current_codes(rms_current_mA, rsense, hold_multiplier),
        output.vsense == needs_high_sensitivity(rms_current_mA as nat, rsense as nat),
        output.irun == run_code(rms_current_mA as nat, rsense as nat),
        output.ihold == hold_code(output.irun as nat, hold_multiplier as nat),
        output.irun <= MAX_CURRENT_SCALE,
{
    let low = current_scale_code(rms_current_mA, rsense, false);
    let vsense = low < LOW_SCALE_LIMIT;
    let mut cs = if vsense {
        current_scale_code(rms_current_mA, rsense, true)
    } else {
        low
    };
    if cs > MAX_CURRENT_SCALE {
        cs = MAX_CURRENT_SCALE;
    }
    assert(cs * hold_multiplier <= 31 * 0xFFFF) by (nonlinear_arith)
        requires
            cs <= 31,
            hold_multiplier <= 0xFFFF,
    ;
    let scaled: u32 = cs as u32 * hold_multiplier as u32 / 1000;
    let ihold: u8 = if scaled > 255 { 255 } else { scaled as u8 };
    RmsCurrentToIholdIrunVsenseOutput { ihold, irun: cs, vsense }
}

/// The RMS current in milliamperes that run code `irun` stands for, with a
/// sense resistor of `r_sense` milliohms; at most 65535.
///
/// This is the inverse of the run code of
/// [`rms_current_to_ihold_irun_vsense`] up to truncation. It cannot give back
/// a current that was cut down to code 31.
pub fn irun_to_rms_current(irun: u8, vsense: bool, r_sense: u32) -> (rms_current: u16)
    ensures
        rms_current == read_back_current(irun, vsense, r_sense),
{
    let millivolts: u64 = if vsense { 180 } else { 325 };
    let steps: u64 = irun as u64 + 1;
    let numerator: u64 = steps * millivolts * 100_000_000;
    let denominator: u64 = 4525472 * (r_sense as u64 + 20);
    let current: u64 = numerator / denominator;
    if current > 0xFFFF {
        0xFFFF
    } else {
        current as u16
    }
}

/// Whether the run code for a current is the very scale of the formula:
/// neither a negative scale counted as zero nor a scale cut down to 31.
pub open spec fn is_exact_scale(rms_current: u16, r_sense: u32) -> bool {
    let high_sensitivity = needs_high_sensitivity(rms_current as nat, r_sense as nat);
    &&& 32 * 141421 * rms_current * (r_sense + 20) >= 100000 * 1000 * sense_voltage(
        high_sensitivity,
    )
    &&& current_scale(rms_current as nat, r_sense as nat, high_sensitivity) <= MAX_CURRENT_SCALE
}

/// `floor(a / m) <= i` when `a <= m * i`, and `floor(b / m) >= i` when
/// `b >= m * i`.
proof fn lemma_quotient_bounds(a: int, b: int, m: int, i: int)
    by (nonlinear_arith)
    requires
        m > 0,
        0 <= a <= m * i,
        b >= m * i,
    ensures
        a / m <= i,
        b / m >= i,
{
}

/// `d * (n / d) <= n < d * (n / d + 1)`.
proof fn lemma_quotient_brackets(n: int, d: int)
    by (nonlinear_arith)
    requires
        n >= 0,
        d > 0,
    ensures
        d * (n / d) <= n,
        n < d * (n / d + 1),
        n >= d ==> n / d >= 1,
{
}

/// Where the run code is the very scale of the formula, the requested
/// current lies within one step of what the run code reads back as: at or
/// above the current of the run code and at or below that of the next code.
pub proof fn lemma_read_back_within_one_step(rms_current: u16, r_sense: u32, hold_multiplier: u16)
    requires
        is_exact_scale(rms_current, r_sense),
    ensures
        ({
            let codes = current_codes(rms_current, r_sense, hold_multiplier);
            &&& read_back_current(codes.irun, codes.vsense, r_sense) <= rms_current
            &&& rms_current <= read_back_current((codes.irun + 1) as u8, codes.vsense, r_sense)
        }),
{
    let high_sensitivity = needs_high_sensitivity(rms_current as nat, r_sense as nat);
    let millivolts: int = sense_voltage(high_sensitivity) as int;
    let numerator: int = 32 * 141421 * rms_current * (r_sense + 20);
    let denominator: int = 100000 * 1000 * millivolts;
    let per_step: int = 32 * 141421 * (r_sense + 20);
    let quotient: int = numerator / denominator;
    lemma_quotient_brackets(numerator, denominator);
    let scale = current_scale(rms_current as nat, r_sense as nat, high_sensitivity);
    assert(scale == quotient - 1);
    assert(numerator == per_step * rms_current) by (nonlinear_arith)
        requires
            numerator == 32 * 141421 * rms_current * (r_sense + 20),
            per_step == 32 * 141421 * (r_sense + 20),
    ;
    let below: int = (scale + 1) * millivolts * 100000 * 1000;
    let above: int = (scale + 2) * millivolts * 100000 * 1000;
    assert(below == denominator * quotient && above == denominator * (quotient + 1))
        by (nonlinear_arith)
        requires
            below == (scale + 1) * millivolts * 100000 * 1000,
            above == (scale + 2) * millivolts * 100000 * 1000,
            denominator == 100000 * 1000 * millivolts,
            scale == quotient - 1,
    ;
    lemma_quotient_bounds(below, above, per_step, rms_current as int);
    let codes = current_codes(rms_current, r_sense, hold_multiplier);
    assert(codes.irun == scale);
    assert(current_of_run_code(scale, high_sensitivity, r_sense as nat) == below / per_step);
    assert(current_of_run_code(scale + 1, high_sensitivity, r_sense as nat) == above / per_step);
}

} // verus!
