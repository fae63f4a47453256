//! Variable-length integers: how many bytes one takes, and that what the
//! standard LEB128 encoding writes is read back.

use vstd::prelude::*;
use vstd::arithmetic::power2::{lemma2_to64, lemma_pow2_strictly_increases, pow2};
use crate::cursor::Halt;
use crate::grammar::integers::{lemma_pow2_step, spec_int, spec_uint};

verus! {

/// An unsigned integer of at most `width` bits takes at least one byte and at
/// most one byte for every seven bits of its width, the last seven begun
/// included: up to 5 bytes for 32 bits and up to 10 for 64.
pub proof fn lemma_uint_span(s: Seq<u8>, pos: nat, width: nat)
    requires
        width >= 1,
    ensures
        spec_uint(s, pos, width) matches Ok((_, end)) ==> 1 <= end - pos <= (width + 6) / 7,
    decreases width,
{
    if pos < s.len() && s[pos as int] >= 128 && width > 7 {
        lemma_uint_span(s, pos + 1, (width - 7) as nat);
    }
}

/// A signed integer of at most `width` bits takes at least one byte and at
/// most one byte for every seven bits of its width, the last seven begun
/// included.
pub proof fn lemma_int_span(s: Seq<u8>, pos: nat, width: nat)
    requires
        width >= 1,
    ensures
        spec_int(s, pos, width) matches Ok((_, end)) ==> 1 <= end - pos <= (width + 6) / 7,
    decreases width,
{
    if pos < s.len() && s[pos as int] >= 128 && width > 7 {
        lemma_int_span(s, pos + 1, (width - 7) as nat);
    }
}

/// The standard unsigned LEB128 encoding of `v`: seven bits to a byte, low group
/// first, the high bit set on every byte but the last.
pub open spec fn leb128_unsigned(v: nat) -> Seq<u8>
    decreases v,
{
    if v < 128 {
        seq![v as u8]
    } else {
        seq![(v % 128 + 128) as u8] + leb128_unsigned(v / 128)
    }
}

/// The standard signed LEB128 encoding of `v`: seven bits to a byte, low group
/// first, ending with the first byte whose bit 6 gives the sign of what is left.
pub open spec fn leb128_signed(v: int) -> Seq<u8>
    decreases (if v < 0 { -v } else { v }),
{
    if -64 <= v < 64 {
        seq![(v % 128) as u8]
    } else {
        seq![(v % 128 + 128) as u8] + leb128_signed(v / 128)
    }
}

/// Whether `s` holds exactly the bytes `part` from `pos` on.
pub open spec fn holds_at(s: Seq<u8>, pos: nat, part: Seq<u8>) -> bool {
    &&& pos + part.len() <= s.len()
    &&& s.subrange(pos as int, (pos + part.len()) as int) == part
}

/// Unsigned round trip. Wherever the standard encoding of a number below
/// `2^width` stands in the input, decoding with a budget of `width` bits returns
/// that number and stops right behind the encoding.
pub proof fn lemma_unsigned_round_trip(s: Seq<u8>, pos: nat, v: nat, width: nat)
    requires
        v < pow2(width),
        holds_at(s, pos, leb128_unsigned(v)),
    ensures
        spec_uint(s, pos, width) == Ok::<(nat, nat), Halt>((v, pos + leb128_unsigned(v).len())),
    decreases v,
{
    let enc = leb128_unsigned(v);
    assert(s[pos as int] == enc[0]);
    if v >= 128 {
        lemma2_to64();
        if width <= 7 {
            if width < 7 {
                lemma_pow2_strictly_increases(width, 7);
            }
        }
        lemma_pow2_step(width);
        let rest = leb128_unsigned(v / 128);
        assert(s.subrange((pos + 1) as int, (pos + 1 + rest.len()) as int) =~= rest) by {
            assert forall|i: int| 0 <= i < rest.len() implies s[pos + 1 + i] == rest[i] by {
                assert(s[pos + 1 + i] == enc[1 + i]);
            }
        }
        lemma_unsigned_round_trip(s, pos + 1, v / 128, (width - 7) as nat);
    }
}

/// Signed round trip. Wherever the standard encoding of a number of at most
/// `width` bits stands in the input, decoding with a budget of `width` bits
/// returns that number and stops right behind the encoding.
pub proof fn lemma_signed_round_trip(s: Seq<u8>, pos: nat, v: int, width: nat)
    requires
        width >= 1,
        -pow2((width - 1) as nat) <= v < pow2((width - 1) as nat),
        holds_at(s, pos, leb128_signed(v)),
    ensures
        spec_int(s, pos, width) == Ok::<(int, nat), Halt>((v, pos + leb128_signed(v).len())),
    decreases (if v < 0 { -v } else { v }),
{
    let enc = leb128_signed(v);
    assert(s[pos as int] == enc[0]);
    if !(-64 <= v < 64) {
        lemma2_to64();
        if width <= 7 {
            if width < 7 {
                lemma_pow2_strictly_increases((width - 1) as nat, 6);
            }
        }
        lemma_pow2_step((width - 1) as nat);
        let rest = leb128_signed(v / 128);
        assert(s.subrange((pos + 1) as int, (pos + 1 + rest.len()) as int) =~= rest) by {
            assert forall|i: int| 0 <= i < rest.len() implies s[pos + 1 + i] == rest[i] by {
                assert(s[pos + 1 + i] == enc[1 + i]);
            }
        }
        lemma_signed_round_trip(s, pos + 1, v / 128, (width - 7) as nat);
    }
}

/// Unsigned round trip, with the encoding as the whole input.
pub proof fn lemma_unsigned_round_trip_alone(v: nat, width: nat)
    requires
        v < pow2(width),
    ensures
        spec_uint(leb128_unsigned(v), 0, width) == Ok::<(nat, nat), Halt>(
            (v, leb128_unsigned(v).len()),
        ),
{
    let enc = leb128_unsigned(v);
    assert(enc.subrange(0, enc.len() as int) =~= enc);
    lemma_unsigned_round_trip(enc, 0, v, width);
}

/// Signed round trip, with the encoding as the whole input.
pub proof fn lemma_signed_round_trip_alone(v: int, width: nat)
    requires
        width >= 1,
        -pow2((width - 1) as nat) <= v < pow2((width - 1) as nat),
    ensures
        spec_int(leb128_signed(v), 0, width) == Ok::<(int, nat), Halt>(
            (v, leb128_signed(v).len()),
        ),
{
    let enc = leb128_signed(v);
    assert(enc.subrange(0, enc.len() as int) =~= enc);
    lemma_signed_round_trip(enc, 0, v, width);
}

} // verus!
