//! # LCD segments
//!
//! The display has three common lines. Its segment buffer is a 96 bit integer,
//! 32 bits for each common line:
//!
//! ```txt
//!       ----------
//! 0x60 | u32 COM2 |
//!      | u32 COM1 |
//! 0x00 | u32 COM0 |
//!       ----------
//! ```
//!
//! The six 7-segment digits are numbered left (hours) to right (seconds), 0 to 5.

use vstd::prelude::*;

verus! {

/// A segment buffer: bit `32 * com + pin` lights MCU segment `pin` on common line `com`.
pub type Segments = u128;

/// Turn off all segments
pub const BLANK: Segments = 0;

/// Number of common lines.
pub const COMMONS: usize = 3;

/// Whether `seg` is an LCD segment pin that is wired to the MCU.
pub open spec fn is_lcd_pin(seg: int) -> bool {
    (0 <= seg <= 7) || seg == 13 || (17 <= seg <= 23)
}

/// The MCU segment line wired to an LCD segment pin.
pub open spec fn mcu_line(seg: int) -> int {
    if seg == 0 {
        16
    } else if seg == 1 {
        9
    } else if seg == 2 {
        8
    } else if seg == 3 {
        7
    } else if seg == 4 {
        17
    } else if seg == 5 {
        2
    } else if seg == 6 {
        15
    } else if seg == 7 {
        14
    } else if seg == 13 {
        13
    } else if seg == 17 {
        12
    } else if seg == 18 {
        11
    } else if seg == 19 {
        10
    } else if seg == 20 {
        6
    } else if seg == 21 {
        5
    } else if seg == 22 {
        4
    } else {
        3
    }
}

/// The bit of the segment buffer for a common line and an LCD segment pin.
pub open spec fn segment_bit(com: int, seg: int) -> int {
    mcu_line(seg) + com * 32
}

/// Convert an LCD segment pin number to an MCU LCD segment number
pub fn lcd_to_mcu(seg: usize) -> (r: usize)
    requires
        is_lcd_pin(seg as int),
    ensures
        r == mcu_line(seg as int),
        r <= 17,
{
    match seg {
        0 => 16,
        1 => 9,
        2 => 8,
        3 => 7,
        4 => 17,
        5 => 2,
        6 => 15,
        7 => 14,
        13 => 13,
        17 => 12,
        18 => 11,
        19 => 10,
        20 => 6,
        21 => 5,
        22 => 4,
        _ => 3,
    }
}

/// Create a segment from an LCD common and segment line
pub fn build_segment(com: usize, seg: usize) -> (r: Segments)
    requires
        com < COMMONS,
        is_lcd_pin(seg as int),
    ensures
        r == 1u128 << (segment_bit(com as int, seg as int) as u128),
{
    let bit: usize = lcd_to_mcu(seg) + com * 32;
    1u128 << (bit as u128)
}

/// The segments of a 7-segment digit.
#[derive(Clone, Copy, Debug, PartialEq, Eq, Structural)]
pub enum Seg {
    A,
    B,
    C,
    D,
    E,
    F,
    G,
}

/// Whether a numeral lights a segment, in the usual 7-segment shapes.
pub open spec fn lit(value: int, s: Seg) -> bool {
    match s {
        Seg::A => value != 1 && value != 4,
        Seg::B => value != 5 && value != 6,
        Seg::C => value != 2,
        Seg::D => value != 1 && value != 4 && value != 7,
        Seg::E => value == 0 || value == 2 || value == 6 || value == 8,
        Seg::F => value != 1 && value != 2 && value != 3 && value != 7,
        Seg::G => value != 0 && value != 1 && value != 7,
    }
}

/// Whether a numeral lights a segment.
pub fn is_lit(value: u32, s: Seg) -> (r: bool)
    ensures
        r == lit(value as int, s),
{
    match s {
        Seg::A => value != 1 && value != 4,
        Seg::B => value != 5 && value != 6,
        Seg::C => value != 2,
        Seg::D => value != 1 && value != 4 && value != 7,
        Seg::E => value == 0 || value == 2 || value == 6 || value == 8,
        Seg::F => value != 1 && value != 2 && value != 3 && value != 7,
        Seg::G => value != 0 && value != 1 && value != 7,
    }
}

/// The (common line, LCD pin) of a segment of a digit.
pub open spec fn pin_of(position: int, s: Seg) -> (int, int) {
    if position == 0 {
        match s {
            Seg::A => (1, 5),
            Seg::B => (0, 4),
            Seg::C => (2, 4),
            Seg::D => (1, 5),
            Seg::E => (2, 5),
            Seg::F => (0, 5),
            Seg::G => (1, 4),
        }
    } else if position == 1 {
        match s {
            Seg::A => (0, 3),
            Seg::B => (0, 2),
            Seg::C => (1, 2),
            Seg::D => (2, 2),
            Seg::E => (2, 3),
            Seg::F => (1, 6),
            Seg::G => (1, 3),
        }
    } else if position == 2 {
        match s {
            Seg::A => (2, 1),
            Seg::B => (0, 0),
            Seg::C => (2, 0),
            Seg::D => (2, 1),
            Seg::E => (1, 1),
            Seg::F => (0, 1),
            Seg::G => (1, 0),
        }
    } else if position == 3 {
        match s {
            Seg::A => (0, 22),
            Seg::B => (0, 13),
            Seg::C => (2, 22),
            Seg::D => (2, 23),
            Seg::E => (1, 23),
            Seg::F => (0, 23),
            Seg::G => (1, 22),
        }
    } else if position == 4 {
        match s {
            Seg::A => (0, 21),
            Seg::B => (0, 20),
            Seg::C => (2, 19),
            Seg::D => (2, 20),
            Seg::E => (2, 21),
            Seg::F => (1, 21),
            Seg::G => (1, 20),
        }
    } else {
        match s {
            Seg::A => (0, 19),
            Seg::B => (0, 18),
            Seg::C => (1, 17),
            Seg::D => (2, 17),
            Seg::E => (2, 18),
            Seg::F => (1, 19),
            Seg::G => (1, 18),
        }
    }
}

/// The (common line, LCD pin) of a segment of a digit.
pub fn segment_pin(position: u32, s: Seg) -> (r: (usize, usize))
    requires
        position < 6,
    ensures
        r.0 as int == pin_of(position as int, s).0,
        r.1 as int == pin_of(position as int, s).1,
        r.0 < COMMONS,
        is_lcd_pin(r.1 as int),
{
    if position == 0 {
        match s {
            Seg::A => (1, 5),
            Seg::B => (0, 4),
            Seg::C => (2, 4),
            Seg::D => (1, 5),
            Seg::E => (2, 5),
            Seg::F => (0, 5),
            Seg::G => (1, 4),
        }
    } else if position == 1 {
        match s {
            Seg::A => (0, 3),
            Seg::B => (0, 2),
            Seg::C => (1, 2),
            Seg::D => (2, 2),
            Seg::E => (2, 3),
            Seg::F => (1, 6),
            Seg::G => (1, 3),
        }
    } else if position == 2 {
        match s {
            Seg::A => (2, 1),
            Seg::B => (0, 0),
            Seg::C => (2, 0),
            Seg::D => (2, 1),
            Seg::E => (1, 1),
            Seg::F => (0, 1),
            Seg::G => (1, 0),
        }
    } else if position == 3 {
        match s {
            Seg::A => (0, 22),
            Seg::B => (0, 13),
            Seg::C => (2, 22),
            Seg::D => (2, 23),
            Seg::E => (1, 23),
            Seg::F => (0, 23),
            Seg::G => (1, 22),
        }
    } else if position == 4 {
        match s {
            Seg::A => (0, 21),
            Seg::B => (0, 20),
            Seg::C => (2, 19),
            Seg::D => (2, 20),
            Seg::E => (2, 21),
            Seg::F => (1, 21),
            Seg::G => (1, 20),
        }
    } else {
        match s {
            Seg::A => (0, 19),
            Seg::B => (0, 18),
            Seg::C => (1, 17),
            Seg::D => (2, 17),
            Seg::E => (2, 18),
            Seg::F => (1, 19),
            Seg::G => (1, 18),
        }
    }
}

/// The buffer bit of one segment of a digit, or nothing when the numeral
/// leaves that segment dark.
pub open spec fn lit_mask(position: int, value: int, s: Seg) -> u128 {
    if lit(value, s) {
        1u128 << (segment_bit(pin_of(position, s).0, pin_of(position, s).1) as u128)
    } else {
        0
    }
}

/// The segments that show numeral `value` on digit `position`.
pub open spec fn digit_mask(position: int, value: int) -> u128 {
    lit_mask(position, value, Seg::A) | lit_mask(position, value, Seg::B) | lit_mask(
        position,
        value,
        Seg::C,
    ) | lit_mask(position, value, Seg::D) | lit_mask(position, value, Seg::E) | lit_mask(
        position,
        value,
        Seg::F,
    ) | lit_mask(position, value, Seg::G)
}

fn lit_segment(position: u32, value: u32, s: Seg) -> (r: Segments)
    requires
        position < 6,
    ensures
        r == lit_mask(position as int, value as int, s),
{
    if is_lit(value, s) {
        let (com, pin) = segment_pin(position, s);
        build_segment(com, pin)
    } else {
        BLANK
    }
}

/// The segments that show numeral `value` (0 to 9) on digit `position` (0 to 5).
pub fn digit(position: u32, value: u32) -> (r: Segments)
    requires
        position < 6,
        value < 10,
    ensures
        r == digit_mask(position as int, value as int),
{
    lit_segment(position, value, Seg::A) | lit_segment(position, value, Seg::B) | lit_segment(
        position,
        value,
        Seg::C,
    ) | lit_segment(position, value, Seg::D) | lit_segment(position, value, Seg::E)
        | lit_segment(position, value, Seg::F) | lit_segment(position, value, Seg::G)
}

/// The display RAM words of the three common lines: bits 0-31, 32-63 and 64-95
/// of the buffer.
pub fn com_words(seg: Segments) -> (r: (u32, u32, u32))
    ensures
        r.0 as int == seg as int % 0x1_0000_0000,
        r.1 as int == (seg as int / 0x1_0000_0000) % 0x1_0000_0000,
        r.2 as int == (seg as int / 0x1_0000_0000_0000_0000) % 0x1_0000_0000,
{
    let w0 = seg & 0xFFFF_FFFF;
    let w1 = (seg >> 32u128) & 0xFFFF_FFFF;
    let w2 = (seg >> 64u128) & 0xFFFF_FFFF;
    assert(w0 == seg % 0x1_0000_0000) by (bit_vector)
        requires
            w0 == seg & 0xFFFF_FFFF,
    ;
    assert(w1 == (seg / 0x1_0000_0000) % 0x1_0000_0000) by (bit_vector)
        requires
            w1 == (seg >> 32u128) & 0xFFFF_FFFF,
    ;
    assert(w2 == (seg / 0x1_0000_0000_0000_0000) % 0x1_0000_0000) by (bit_vector)
        requires
            w2 == (seg >> 64u128) & 0xFFFF_FFFF,
    ;
    (w0 as u32, w1 as u32, w2 as u32)
}

} // verus!
