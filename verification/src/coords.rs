//! Decoding of cursor positions packed into one pointer-sized word.
//!
//! A tray-callback message carries the cursor position as two 16-bit
//! words packed into one parameter: x in the low word, y in the next
//! word. Each word is a signed 16-bit coordinate, so that monitors left
//! of or above the primary one (negative coordinates) are handled.

use vstd::prelude::*;

verus! {

/// The low 16 bits of a packed payload.
pub open spec fn low_word(p: u64) -> u16 {
    (p & 0xffff) as u16
}

/// Bits 16..32 of a packed payload.
pub open spec fn high_word(p: u64) -> u16 {
    ((p >> 16) & 0xffff) as u16
}

/// A 16-bit word reinterpreted as a signed value.
pub open spec fn sign_extend_16(w: u16) -> int {
    if w < 0x8000 {
        w as int
    } else {
        w as int - 0x10000
    }
}

/// The x coordinate carried by a packed cursor-position payload.
pub open spec fn cursor_x(payload: u64) -> int {
    sign_extend_16(low_word(payload))
}

/// The y coordinate carried by a packed cursor-position payload.
pub open spec fn cursor_y(payload: u64) -> int {
    sign_extend_16(high_word(payload))
}

/// A signed coordinate encoded as a 16-bit word (two's complement).
pub open spec fn word_of_coord(c: int) -> u16
    recommends
        -0x8000 <= c < 0x8000,
{
    if c >= 0 {
        c as u16
    } else {
        (c + 0x10000) as u16
    }
}

/// Two signed coordinates packed the way the tray callback packs them.
pub open spec fn pack_cursor_pos(x: int, y: int) -> u64
    recommends
        -0x8000 <= x < 0x8000,
        -0x8000 <= y < 0x8000,
{
    ((word_of_coord(y) as u64) << 16) | (word_of_coord(x) as u64)
}

fn sign_extend(w: u16) -> (r: i32)
    ensures
        r as int == sign_extend_16(w),
{
    if w < 0x8000 {
        w as i32
    } else {
        (w as i32) - 0x10000
    }
}

/// Decodes the cursor position from a packed payload: the low word is x,
/// the next word is y, each read as a signed 16-bit coordinate.
pub fn get_mouse_pos(param: usize) -> (r: (i32, i32))
    ensures
        r.0 as int == cursor_x(param as u64),
        r.1 as int == cursor_y(param as u64),
        -0x8000 <= r.0 < 0x8000,
        -0x8000 <= r.1 < 0x8000,
{
    let p: u64 = param as u64;
    assert(p & 0xffff <= 0xffff) by (bit_vector);
    assert((p >> 16) & 0xffff <= 0xffff) by (bit_vector);
    let lo: u16 = (p & 0xffff) as u16;
    let hi: u16 = ((p >> 16) & 0xffff) as u16;
    (sign_extend(lo), sign_extend(hi))
}

/// Law: decoding reconstructs the signed coordinates from any packed
/// payload built from coordinates in the signed 16-bit range.
pub proof fn lemma_cursor_pos_round_trip(x: int, y: int)
    requires
        -0x8000 <= x < 0x8000,
        -0x8000 <= y < 0x8000,
    ensures
        cursor_x(pack_cursor_pos(x, y)) == x,
        cursor_y(pack_cursor_pos(x, y)) == y,
{
    let xw = word_of_coord(x);
    let yw = word_of_coord(y);
    assert((((yw as u64) << 16) | (xw as u64)) & 0xffff == xw as u64) by (bit_vector);
    assert(((((yw as u64) << 16) | (xw as u64)) >> 16) & 0xffff == yw as u64) by (bit_vector);
    assert(low_word(pack_cursor_pos(x, y)) == xw);
    assert(high_word(pack_cursor_pos(x, y)) == yw);
    assert(sign_extend_16(xw) == x);
    assert(sign_extend_16(yw) == y);
}

} // verus!
