use vstd::prelude::*;

use crate::config::Configuration;

verus! {

/// Length of one raw interrupt sample.
pub const SAMPLE_LEN: usize = 64;

/// Upper end of the X and Y axes, and the reference for inversion.
pub const AXIS_MAX: i32 = 4096;

/// Upper end of the pressure axis.
pub const PRESSURE_MAX: i32 = 2048;

/// One decoded sample.
#[derive(Clone, Copy, Debug, PartialEq, Eq, Structural)]
pub struct Sample {
    pub x: i32,
    pub y: i32,
    pub pressure: i32,
    pub touching: bool,
    pub bank_a: u8,
    pub bank_b: u8,
    pub bank_c: u8,
}

/// A coordinate from its two raw bytes.
pub open spec fn raw_coord(hi: u8, lo: u8) -> int {
    hi as int * 255 + lo as int
}

/// A coordinate after optional inversion.
pub open spec fn oriented(c: int, invert: bool) -> int {
    if invert {
        4096 - c
    } else {
        c
    }
}

/// Pressure from the depth and value bytes, less the sensitivity, never below zero.
pub open spec fn spec_pressure(deep: u8, value: u8, sensitivity: i16) -> int {
    let real_deep = if deep >= 6 {
        deep as int - 6
    } else {
        6 - deep as int
    };
    let raw = (real_deep * 255 + value as int) * 2048 / 1024 - sensitivity as int;
    if raw < 0 {
        0
    } else {
        raw
    }
}

/// The sample that buffer `b` decodes to under `cfg`: each axis is inverted first,
/// and the two are swapped afterwards.
pub open spec fn spec_decode(b: Seq<u8>, cfg: Configuration) -> Sample {
    let x = oriented(raw_coord(b[1], b[2]), cfg.invert_x);
    let y = oriented(raw_coord(b[3], b[4]), cfg.invert_y);
    Sample {
        x: (if cfg.swap {
            y
        } else {
            x
        }) as i32,
        y: (if cfg.swap {
            x
        } else {
            y
        }) as i32,
        pressure: spec_pressure(b[5], b[6], cfg.sensitivity) as i32,
        touching: b[5] != 6,
        bank_a: b[11],
        bank_b: b[12],
        bank_c: b[9],
    }
}

/// Pressure is never negative.
pub proof fn lemma_pressure_nonnegative(deep: u8, value: u8, sensitivity: i16)
    ensures
        spec_pressure(deep, value, sensitivity) >= 0,
{
}

/// The touch flag follows the depth byte alone: it is clear exactly when that byte
/// is 6, whatever the pressure comes to.
pub proof fn lemma_touch_from_depth_byte(b: Seq<u8>, cfg: Configuration)
    requires
        b.len() == 64,
    ensures
        spec_decode(b, cfg).touching == (b[5] != 6),
{
}

/// Inversion comes before the swap: with the X axis inverted and the axes swapped,
/// the reported Y is the inverted raw X and the reported X the raw Y.
pub proof fn lemma_invert_before_swap(b: Seq<u8>, cfg: Configuration)
    requires
        b.len() == 64,
        cfg.invert_x,
        !cfg.invert_y,
        cfg.swap,
    ensures
        spec_decode(b, cfg).y == 4096 - raw_coord(b[1], b[2]),
        spec_decode(b, cfg).x == raw_coord(b[3], b[4]),
{
}

/// Pressure of a sample: `(|deep - 6| * 255 + value) * 2048 / 1024 - sensitivity`,
/// clamped to zero.
pub fn calc_pressure(deep: u8, value: u8, sensitivity: i16) -> (r: i32)
    ensures
        r as int == spec_pressure(deep, value, sensitivity),
        r >= 0,
{
    let real_deep: i32 = if deep >= 6 {
        deep as i32 - 6
    } else {
        6 - deep as i32
    };
    assert(0 <= real_deep <= 249);
    let scaled: i32 = (real_deep * 255 + value as i32) * 2;
    assert((real_deep * 255 + value as i32) * 2048 / 1024 == scaled) by (nonlinear_arith)
        requires
            scaled == (real_deep * 255 + value as i32) * 2,
    ;
    let raw: i32 = scaled - sensitivity as i32;
    if raw < 0 {
        0
    } else {
        raw
    }
}

fn oriented_coord(hi: u8, lo: u8, invert: bool) -> (r: i32)
    ensures
        r as int == oriented(raw_coord(hi, lo), invert),
{
    let c: i32 = hi as i32 * 255 + lo as i32;
    if invert {
        AXIS_MAX - c
    } else {
        c
    }
}

/// Decodes one raw sample under `cfg`.
pub fn decode(buf: &[u8], cfg: &Configuration) -> (r: Sample)
    requires
        buf@.len() == SAMPLE_LEN,
    ensures
        r == spec_decode(buf@, *cfg),
{
    let x = oriented_coord(buf[1], buf[2], cfg.invert_x);
    let y = oriented_coord(buf[3], buf[4], cfg.invert_y);
    let (x, y) = if cfg.swap {
        (y, x)
    } else {
        (x, y)
    };
    Sample {
        x,
        y,
        pressure: calc_pressure(buf[5], buf[6], cfg.sensitivity),
        touching: buf[5] != 6,
        bank_a: buf[11],
        bank_b: buf[12],
        bank_c: buf[9],
    }
}

} // verus!
