//! Decoding variable-length integers.

use vstd::prelude::*;
use vstd::arithmetic::power2::{pow2, lemma2_to64, lemma2_to64_rest, lemma_pow2_strictly_increases};
use vstd::bits::lemma_u64_shl_is_mul;
use crate::cursor::{obeys, Cursor};
use crate::decoder::Decoder;
use crate::error::{DecodeError, ErrorKind};
use crate::grammar::integers::{
    lemma_int_bounds, lemma_pow2_step, lemma_uint_bounds, spec_i32, spec_i64, spec_int, spec_u32,
    spec_uint,
};

verus! {

broadcast use crate::cursor::lemma_cursor_in_bounds;

/// Whether `n`, a value below 128, is below `2^bits`.
fn below_pow2(n: u64, bits: u32) -> (fits: bool)
    requires
        n < 128,
    ensures
        fits == (n < pow2(bits as nat)),
{
    proof {
        lemma2_to64();
    }
    if bits >= 7 {
        proof {
            if bits > 7 {
                lemma_pow2_strictly_increases(7, bits as nat);
            }
        }
        true
    } else {
        proof {
            lemma_pow2_strictly_increases(bits as nat, 7);
            lemma_u64_shl_is_mul(1, bits as u64);
        }
        n < (1u64 << bits)
    }
}

impl Decoder {
    /// Decodes an unsigned LEB128 integer of at most `size` bits.
    pub fn decode_uint(cursor: &mut Cursor, size: u32) -> (r: Result<u64, DecodeError>)
        requires
            size <= 64,
        ensures
            final(cursor).bytes() == old(cursor).bytes(),
            old(cursor).pos() <= final(cursor).pos() <= final(cursor).bytes().len(),
            match spec_uint(old(cursor).bytes(), old(cursor).pos(), size as nat) {
                Ok((v, next)) => r matches Ok(x) && x == v && final(cursor).pos() == next,
                Err(h) => r matches Err(e) && e@ == h.error && final(cursor).pos() == h.at,
            },
        decreases size,
    {
        let n: u64 = cursor.read_byte()? as u64;
        if n < 128 && below_pow2(n, size) {
            Ok(n)
        } else if n >= 128 && size > 7 {
            proof {
                lemma_uint_bounds(cursor.bytes(), cursor.pos(), (size - 7) as nat);
                lemma_pow2_step(size as nat);
                lemma2_to64();
                if size < 64 {
                    lemma_pow2_strictly_increases(size as nat, 64);
                }
            }
            let high: u64 = Self::decode_uint(cursor, size - 7)?;
            Ok(128 * high + (n - 128))
        } else {
            Err(Self::error_at(cursor, ErrorKind::IntegerOverflow))
        }
    }

    /// Decodes an unsigned 32-bit LEB128 integer.
    pub fn decode_u32(cursor: &mut Cursor) -> (r: Result<u32, DecodeError>)
        ensures
            obeys(
                r,
                *old(cursor),
                *final(cursor),
                spec_u32(old(cursor).bytes(), old(cursor).pos()),
            ),
    {
        proof {
            lemma_uint_bounds(cursor.bytes(), cursor.pos(), 32);
            lemma2_to64();
        }
        let v: u64 = Self::decode_uint(cursor, 32)?;
        Ok(v as u32)
    }

    /// Decodes a signed LEB128 integer of at most `size` bits.
    pub fn decode_int(cursor: &mut Cursor, size: u32) -> (r: Result<i64, DecodeError>)
        requires
            1 <= size <= 64,
        ensures
            final(cursor).bytes() == old(cursor).bytes(),
            old(cursor).pos() <= final(cursor).pos() <= final(cursor).bytes().len(),
            match spec_int(old(cursor).bytes(), old(cursor).pos(), size as nat) {
                Ok((v, next)) => r matches Ok(x) && x == v && final(cursor).pos() == next,
                Err(h) => r matches Err(e) && e@ == h.error && final(cursor).pos() == h.at,
            },
        decreases size,
    {
        let n: u64 = cursor.read_byte()? as u64;
        if n < 64 && below_pow2(n, size - 1) {
            Ok(n as i64)
        } else if 64 <= n && n < 128 && below_pow2(127 - n, size - 1) {
            Ok(n as i64 - 128)
        } else if n >= 128 && size > 7 {
            proof {
                lemma_int_bounds(cursor.bytes(), cursor.pos(), (size - 7) as nat);
                lemma_pow2_step((size - 1) as nat);
                lemma2_to64();
                lemma2_to64_rest();
                if size < 64 {
                    lemma_pow2_strictly_increases((size - 1) as nat, 63);
                }
            }
            let high: i64 = Self::decode_int(cursor, size - 7)?;
            Ok(128 * high + (n as i64 - 128))
        } else {
            Err(Self::error_at(cursor, ErrorKind::IntegerOverflow))
        }
    }

    /// Decodes a signed 32-bit LEB128 integer.
    pub fn decode_i32(cursor: &mut Cursor) -> (r: Result<i32, DecodeError>)
        ensures
            obeys(
                r,
                *old(cursor),
                *final(cursor),
                spec_i32(old(cursor).bytes(), old(cursor).pos()),
            ),
    {
        proof {
            lemma_int_bounds(cursor.bytes(), cursor.pos(), 32);
            lemma2_to64();
            lemma2_to64_rest();
        }
        let v: i64 = Self::decode_int(cursor, 32)?;
        Ok(v as i32)
    }

    /// Decodes a signed 64-bit LEB128 integer.
    pub fn decode_i64(cursor: &mut Cursor) -> (r: Result<i64, DecodeError>)
        ensures
            obeys(
                r,
                *old(cursor),
                *final(cursor),
                spec_i64(old(cursor).bytes(), old(cursor).pos()),
            ),
    {
        Self::decode_int(cursor, 64)
    }
}

} // verus!
