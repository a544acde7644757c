//! Bus prescaler selection: from a frequency ratio to the hardware divider code.
use vstd::prelude::*;

verus! {

/// HPRE code for "not divided".
pub const HPRE_DIV1: u8 = 0b0111;

/// PPRE code for "not divided".
pub const PPRE_DIV1: u8 = 0b011;

/// HPRE code that the high-speed bus table selects for `ratio`
/// (the first bucket whose upper bound the ratio does not exceed).
pub open spec fn ahb_code(ratio: int) -> u8 {
    if ratio <= 1 {
        0b0111
    } else if ratio == 2 {
        0b1000
    } else if ratio <= 5 {
        0b1001
    } else if ratio <= 11 {
        0b1010
    } else if ratio <= 39 {
        0b1011
    } else if ratio <= 95 {
        0b1100
    } else if ratio <= 191 {
        0b1101
    } else if ratio <= 383 {
        0b1110
    } else {
        0b1111
    }
}

/// Division factor that an HPRE code stands for.
pub open spec fn ahb_divisor(code: u8) -> int {
    if code == 0b1000 {
        2
    } else if code == 0b1001 {
        4
    } else if code == 0b1010 {
        8
    } else if code == 0b1011 {
        16
    } else if code == 0b1100 {
        64
    } else if code == 0b1101 {
        128
    } else if code == 0b1110 {
        256
    } else if code == 0b1111 {
        512
    } else {
        1
    }
}

/// PPRE code that the peripheral bus table selects for `ratio`.
pub open spec fn apb_code(ratio: int) -> u8 {
    if ratio <= 1 {
        0b011
    } else if ratio == 2 {
        0b100
    } else if ratio <= 5 {
        0b101
    } else if ratio <= 11 {
        0b110
    } else {
        0b111
    }
}

/// Division factor that a PPRE code stands for.
pub open spec fn apb_divisor(code: u8) -> int {
    if code == 0b100 {
        2
    } else if code == 0b101 {
        4
    } else if code == 0b110 {
        8
    } else if code == 0b111 {
        16
    } else {
        1
    }
}

/// Selects the HPRE code for a ratio of system clock to requested bus clock.
pub fn hpre_bits(ratio: u32) -> (r: u8)
    ensures
        r == ahb_code(ratio as int),
{
    if ratio <= 1 {
        0b0111
    } else if ratio == 2 {
        0b1000
    } else if ratio <= 5 {
        0b1001
    } else if ratio <= 11 {
        0b1010
    } else if ratio <= 39 {
        0b1011
    } else if ratio <= 95 {
        0b1100
    } else if ratio <= 191 {
        0b1101
    } else if ratio <= 383 {
        0b1110
    } else {
        0b1111
    }
}

/// Division factor of an HPRE code.
pub fn hpre_divisor(code: u8) -> (r: u32)
    ensures
        r as int == ahb_divisor(code),
        1 <= r <= 512,
{
    match code {
        0b1000 => 2,
        0b1001 => 4,
        0b1010 => 8,
        0b1011 => 16,
        0b1100 => 64,
        0b1101 => 128,
        0b1110 => 256,
        0b1111 => 512,
        _ => 1,
    }
}

/// Selects the PPRE code for a ratio of bus clock to requested peripheral clock.
pub fn ppre_bits(ratio: u32) -> (r: u8)
    ensures
        r == apb_code(ratio as int),
{
    if ratio <= 1 {
        0b011
    } else if ratio == 2 {
        0b100
    } else if ratio <= 5 {
        0b101
    } else if ratio <= 11 {
        0b110
    } else {
        0b111
    }
}

/// Division factor of a PPRE code.
pub fn ppre_divisor(code: u8) -> (r: u32)
    ensures
        r as int == apb_divisor(code),
        1 <= r <= 16,
{
    match code {
        0b100 => 2,
        0b101 => 4,
        0b110 => 8,
        0b111 => 16,
        _ => 1,
    }
}

} // verus!
