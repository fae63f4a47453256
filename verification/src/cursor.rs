//! A forward-only reader over a byte buffer.

use vstd::prelude::*;
use vstd::arithmetic::power::{pow, lemma_pow0};
use vstd::slice::{slice_subrange, slice_to_vec};
use crate::error::{DecodeError, ErrorKind, Failure};

verus! {

/// The outcome that the grammar prescribes for a decoder started at some
/// position: the value and the position after it, or the failure and the
/// position at which the cursor comes to rest.
pub type Parsed<T> = Result<(T, nat), Halt>;

/// A failed parse: the failure, and where the cursor stops.
pub struct Halt {
    pub error: Failure,
    pub at: nat,
}

impl Halt {
    /// The input ran out at `pos`; nothing was consumed.
    pub open spec fn starved(pos: nat) -> Halt {
        Halt { error: Failure::at(ErrorKind::MalformedStream, pos), at: pos }
    }

    /// The byte just before `at` is at fault: the cursor rests behind it and the
    /// failure points at it.
    pub open spec fn rejected(kind: ErrorKind, at: nat) -> Halt {
        Halt { error: Failure::at(kind, (at - 1) as nat), at }
    }
}

/// Reading one byte at `pos`.
pub open spec fn spec_byte(s: Seq<u8>, pos: nat) -> Parsed<u8> {
    if pos < s.len() {
        Ok((s[pos as int], pos + 1))
    } else {
        Err(Halt::starved(pos))
    }
}

/// Reading `n` bytes at `pos`.
pub open spec fn spec_bytes(s: Seq<u8>, pos: nat, n: nat) -> Parsed<Seq<u8>> {
    if pos + n <= s.len() {
        Ok((s.subrange(pos as int, (pos + n) as int), pos + n))
    } else {
        Err(Halt::starved(pos))
    }
}

/// The number that `bytes` spell in little-endian order.
pub open spec fn le_value(bytes: Seq<u8>) -> nat
    decreases bytes.len(),
{
    if bytes.len() == 0 {
        0
    } else {
        bytes[0] as nat + 256 * le_value(bytes.drop_first())
    }
}

/// Reading a fixed-width little-endian number of `n` bytes at `pos`.
pub open spec fn spec_le(s: Seq<u8>, pos: nat, n: nat) -> Parsed<nat> {
    match spec_bytes(s, pos, n) {
        Ok((bytes, next)) => Ok((le_value(bytes), next)),
        Err(h) => Err(h),
    }
}

/// Whether an outcome lies at or behind `pos`: the value ends there, or the
/// cursor stops there.
pub open spec fn forward<T>(outcome: Parsed<T>, pos: nat) -> bool {
    match outcome {
        Ok((_, end)) => pos <= end,
        Err(h) => pos <= h.at,
    }
}

/// What a decoder owes its caller. The buffer is untouched; the cursor stays
/// inside it and never moves backward. Where the grammar yields a value, the
/// decoder returns a value with that content and the cursor rests behind it;
/// where the grammar fails, the decoder returns that failure and the cursor
/// rests where the grammar says it stops.
pub open spec fn obeys<T: DeepView>(
    r: Result<T, DecodeError>,
    before: Cursor,
    after: Cursor,
    want: Parsed<T::V>,
) -> bool {
    &&& after.bytes() == before.bytes()
    &&& before.pos() <= after.pos() <= after.bytes().len()
    &&& match want {
        Ok((v, next)) => r matches Ok(x) && x.deep_view() == v && after.pos() == next,
        Err(h) => r matches Err(e) && e@ == h.error && after.pos() == h.at,
    }
}

/// A read position in an immutable byte buffer. The position only moves forward,
/// and never past the end of the buffer.
pub struct Cursor<'a> {
    bytes: &'a [u8],
    pos: usize,
}

impl<'a> Cursor<'a> {
    #[verifier::type_invariant]
    spec fn in_bounds(self) -> bool {
        self.pos <= self.bytes@.len()
    }

    /// The whole buffer.
    pub closed spec fn bytes(self) -> Seq<u8> {
        self.bytes@
    }

    /// The offset of the next byte to be read.
    pub closed spec fn pos(self) -> nat {
        if self.pos <= self.bytes@.len() {
            self.pos as nat
        } else {
            self.bytes@.len()
        }
    }

    /// A cursor at the start of `bytes`.
    pub fn new(bytes: &'a [u8]) -> (c: Self)
        ensures
            c.bytes() == bytes@,
            c.pos() == 0,
    {
        Cursor { bytes, pos: 0 }
    }

    /// The offset of the next byte to be read.
    pub fn position(&self) -> (p: usize)
        ensures
            p == self.pos(),
            p <= self.bytes().len(),
    {
        proof {
            use_type_invariant(self);
        }
        self.pos
    }

    /// Reads the next byte, or fails with a malformed stream if none remains.
    /// A failed read leaves the position where it was.
    pub fn read_byte(&mut self) -> (r: Result<u8, DecodeError>)
        ensures
            obeys(r, *old(self), *final(self), spec_byte(old(self).bytes(), old(self).pos())),
    {
        proof {
            use_type_invariant(&*self);
        }
        if self.pos < self.bytes.len() {
            let b = self.bytes[self.pos];
            self.pos = self.pos + 1;
            Ok(b)
        } else {
            Err(DecodeError::new(ErrorKind::MalformedStream, self.pos))
        }
    }

    /// Reads the next `n` bytes, or fails with a malformed stream if fewer remain.
    /// A failed read leaves the position where it was.
    pub fn read_bytes(&mut self, n: usize) -> (r: Result<Vec<u8>, DecodeError>)
        ensures
            final(self).bytes() == old(self).bytes(),
            old(self).pos() <= final(self).pos() <= final(self).bytes().len(),
            match spec_bytes(old(self).bytes(), old(self).pos(), n as nat) {
                Ok((v, next)) => r matches Ok(x) && x@ == v && final(self).pos() == next,
                Err(h) => r matches Err(e) && e@ == h.error && final(self).pos() == h.at,
            },
    {
        proof {
            use_type_invariant(&*self);
        }
        if n <= self.bytes.len() - self.pos {
            let taken = slice_to_vec(slice_subrange(self.bytes, self.pos, self.pos + n));
            self.pos = self.pos + n;
            Ok(taken)
        } else {
            Err(DecodeError::new(ErrorKind::MalformedStream, self.pos))
        }
    }

    /// Reads four bytes as a little-endian unsigned number.
    pub fn read_le_u32(&mut self) -> (r: Result<u32, DecodeError>)
        ensures
            final(self).bytes() == old(self).bytes(),
            old(self).pos() <= final(self).pos() <= final(self).bytes().len(),
            match spec_le(old(self).bytes(), old(self).pos(), 4) {
                Ok((v, next)) => r matches Ok(x) && x == v && final(self).pos() == next,
                Err(h) => r matches Err(e) && e@ == h.error && final(self).pos() == h.at,
            },
    {
        proof {
            use_type_invariant(&*self);
        }
        if 4 <= self.bytes.len() - self.pos {
            let b0 = self.bytes[self.pos];
            let b1 = self.bytes[self.pos + 1];
            let b2 = self.bytes[self.pos + 2];
            let b3 = self.bytes[self.pos + 3];
            proof {
                lemma_le_value_4(self.bytes@.subrange(self.pos as int, self.pos + 4));
            }
            self.pos = self.pos + 4;
            Ok(b0 as u32 + 0x100 * (b1 as u32) + 0x1_0000 * (b2 as u32) + 0x100_0000 * (b3 as u32))
        } else {
            Err(DecodeError::new(ErrorKind::MalformedStream, self.pos))
        }
    }

    /// Reads the four bytes of a 32-bit float, little-endian, and returns its
    /// IEEE 754 bit pattern.
    pub fn read_le_f32(&mut self) -> (r: Result<u32, DecodeError>)
        ensures
            final(self).bytes() == old(self).bytes(),
            old(self).pos() <= final(self).pos() <= final(self).bytes().len(),
            match spec_le(old(self).bytes(), old(self).pos(), 4) {
                Ok((v, next)) => r matches Ok(x) && x == v && final(self).pos() == next,
                Err(h) => r matches Err(e) && e@ == h.error && final(self).pos() == h.at,
            },
    {
        self.read_le_u32()
    }

    /// Reads the eight bytes of a 64-bit float, little-endian, and returns its
    /// IEEE 754 bit pattern.
    pub fn read_le_f64(&mut self) -> (r: Result<u64, DecodeError>)
        ensures
            final(self).bytes() == old(self).bytes(),
            old(self).pos() <= final(self).pos() <= final(self).bytes().len(),
            match spec_le(old(self).bytes(), old(self).pos(), 8) {
                Ok((v, next)) => r matches Ok(x) && x == v && final(self).pos() == next,
                Err(h) => r matches Err(e) && e@ == h.error && final(self).pos() == h.at,
            },
    {
        proof {
            use_type_invariant(&*self);
        }
        if 8 <= self.bytes.len() - self.pos {
            let ghost field = self.bytes@.subrange(self.pos as int, self.pos + 8);
            let b0 = self.bytes[self.pos];
            let b1 = self.bytes[self.pos + 1];
            let b2 = self.bytes[self.pos + 2];
            let b3 = self.bytes[self.pos + 3];
            let b4 = self.bytes[self.pos + 4];
            let b5 = self.bytes[self.pos + 5];
            let b6 = self.bytes[self.pos + 6];
            let b7 = self.bytes[self.pos + 7];
            proof {
                lemma_le_value_4(field.subrange(0, 4));
                lemma_le_value_4(field.subrange(4, 8));
                lemma_le_value_split(field, 4);
                assert(pow(256, 4) == 0x1_0000_0000) by {
                    reveal_with_fuel(pow, 5);
                }
            }
            self.pos = self.pos + 8;
            let low: u32 = b0 as u32 + 0x100 * (b1 as u32) + 0x1_0000 * (b2 as u32) + 0x100_0000
                * (b3 as u32);
            let high: u32 = b4 as u32 + 0x100 * (b5 as u32) + 0x1_0000 * (b6 as u32) + 0x100_0000
                * (b7 as u32);
            Ok(low as u64 + 0x1_0000_0000 * (high as u64))
        } else {
            Err(DecodeError::new(ErrorKind::MalformedStream, self.pos))
        }
    }
}

/// The position of a cursor is never past the end of its buffer.
pub broadcast proof fn lemma_cursor_in_bounds(c: Cursor)
    ensures
        #[trigger] c.pos() <= c.bytes().len(),
{
}

/// Four little-endian bytes, written out.
pub proof fn lemma_le_value_4(b: Seq<u8>)
    requires
        b.len() == 4,
    ensures
        le_value(b) == b[0] + 0x100 * b[1] + 0x1_0000 * b[2] + 0x100_0000 * b[3],
        le_value(b) <= u32::MAX,
{
    reveal_with_fuel(le_value, 5);
    let b1 = b.drop_first();
    let b2 = b1.drop_first();
    let b3 = b2.drop_first();
    assert(b1[0] == b[1] && b2[0] == b[2] && b3[0] == b[3]);
}

/// A little-endian number is its low `k` bytes plus the rest shifted up by `k` bytes.
pub proof fn lemma_le_value_split(b: Seq<u8>, k: nat)
    requires
        k <= b.len(),
    ensures
        le_value(b) == le_value(b.subrange(0, k as int)) + pow(256, k) * le_value(
            b.subrange(k as int, b.len() as int),
        ),
    decreases k,
{
    if k == 0 {
        assert(b.subrange(0, b.len() as int) =~= b);
        lemma_pow0(256);
    } else {
        let rest = b.drop_first();
        lemma_le_value_split(rest, (k - 1) as nat);
        assert(rest.subrange(0, k - 1) =~= b.subrange(0, k as int).drop_first());
        assert(rest.subrange(k - 1, rest.len() as int) =~= b.subrange(k as int, b.len() as int));
        let high = le_value(b.subrange(k as int, b.len() as int));
        assert(pow(256, k) == 256 * pow(256, (k - 1) as nat)) by {
            reveal(pow);
        }
        assert(256 * (pow(256, (k - 1) as nat) * high) == pow(256, k) * high) by (nonlinear_arith)
            requires
                pow(256, k) == 256 * pow(256, (k - 1) as nat),
        ;
    }
}

} // verus!
