//! Variable-length integers (LEB128) under a bit-width budget.

use vstd::prelude::*;
use vstd::arithmetic::power2::{lemma2_to64, lemma_pow2_adds, lemma_pow2_pos, pow2};
use crate::cursor::{spec_byte, Halt, Parsed};
use crate::error::ErrorKind;

verus! {

/// An unsigned integer of at most `width` bits at `pos`.
///
/// Each byte gives seven bits, low group first. A byte with its high bit set is
/// followed by the rest of the number, which has seven bits less to fill; a byte
/// with its high bit clear ends the number and must itself fit what is left of
/// the width.
pub open spec fn spec_uint(s: Seq<u8>, pos: nat, width: nat) -> Parsed<nat>
    decreases width,
{
    match spec_byte(s, pos) {
        Err(h) => Err(h),
        Ok((b, next)) => if b < 128 && b < pow2(width) {
            Ok((b as nat, next))
        } else if b >= 128 && width > 7 {
            match spec_uint(s, next, (width - 7) as nat) {
                Ok((high, end)) => Ok(((128 * high + (b - 128)) as nat, end)),
                Err(h) => Err(h),
            }
        } else {
            Err(Halt::rejected(ErrorKind::IntegerOverflow, next))
        },
    }
}

/// A signed integer of at most `width` bits at `pos`, for `width >= 1`.
///
/// As [`spec_uint`], but the last byte carries the sign: 0 to 63 stand for
/// themselves and 64 to 127 for -64 to -1, each within what is left of the width.
pub open spec fn spec_int(s: Seq<u8>, pos: nat, width: nat) -> Parsed<int>
    decreases width,
{
    match spec_byte(s, pos) {
        Err(h) => Err(h),
        Ok((b, next)) => if b < 64 && b < pow2((width - 1) as nat) {
            Ok((b as int, next))
        } else if 64 <= b < 128 && b >= 128 - pow2((width - 1) as nat) {
            Ok((b - 128, next))
        } else if b >= 128 && width > 7 {
            match spec_int(s, next, (width - 7) as nat) {
                Ok((high, end)) => Ok((128 * high + (b - 128), end)),
                Err(h) => Err(h),
            }
        } else {
            Err(Halt::rejected(ErrorKind::IntegerOverflow, next))
        },
    }
}

/// An unsigned 32-bit integer at `pos`.
pub open spec fn spec_u32(s: Seq<u8>, pos: nat) -> Parsed<u32> {
    match spec_uint(s, pos, 32) {
        Ok((v, next)) => Ok((v as u32, next)),
        Err(h) => Err(h),
    }
}

/// A signed 32-bit integer at `pos`.
pub open spec fn spec_i32(s: Seq<u8>, pos: nat) -> Parsed<i32> {
    match spec_int(s, pos, 32) {
        Ok((v, next)) => Ok((v as i32, next)),
        Err(h) => Err(h),
    }
}

/// A signed 64-bit integer at `pos`.
pub open spec fn spec_i64(s: Seq<u8>, pos: nat) -> Parsed<i64> {
    match spec_int(s, pos, 64) {
        Ok((v, next)) => Ok((v as i64, next)),
        Err(h) => Err(h),
    }
}

/// Seven more bits multiply the range by 128.
pub proof fn lemma_pow2_step(width: nat)
    requires
        width >= 7,
    ensures
        pow2(width) == 128 * pow2((width - 7) as nat),
        pow2((width - 7) as nat) > 0,
{
    lemma_pow2_adds(7, (width - 7) as nat);
    lemma_pow2_pos((width - 7) as nat);
    lemma2_to64();
}

/// A decoded unsigned integer fits its width, and at least one byte was read,
/// all of them inside the input.
pub proof fn lemma_uint_bounds(s: Seq<u8>, pos: nat, width: nat)
    ensures
        match spec_uint(s, pos, width) {
            Ok((v, next)) => v < pow2(width) && pos < next <= s.len(),
            Err(h) => pos <= h.at && (pos <= s.len() ==> h.at <= s.len()),
        },
    decreases width,
{
    if pos < s.len() {
        let b = s[pos as int];
        if b >= 128 && width > 7 {
            lemma_uint_bounds(s, pos + 1, (width - 7) as nat);
            lemma_pow2_step(width);
        }
    }
}

/// A decoded signed integer fits its width, and at least one byte was read, all
/// of them inside the input.
pub proof fn lemma_int_bounds(s: Seq<u8>, pos: nat, width: nat)
    requires
        width >= 1,
    ensures
        match spec_int(s, pos, width) {
            Ok((v, next)) => -pow2((width - 1) as nat) <= v < pow2((width - 1) as nat) && pos
                < next <= s.len(),
            Err(h) => pos <= h.at && (pos <= s.len() ==> h.at <= s.len()),
        },
    decreases width,
{
    if pos < s.len() {
        let b = s[pos as int];
        if b < 64 && b < pow2((width - 1) as nat) {
        } else if 64 <= b < 128 && b >= 128 - pow2((width - 1) as nat) {
        } else if b >= 128 && width > 7 {
            lemma_int_bounds(s, pos + 1, (width - 7) as nat);
            lemma_pow2_step((width - 1) as nat);
        }
    }
}

} // verus!
