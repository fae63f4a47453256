//! Vectors: a count followed by that many elements.

use vstd::prelude::*;
use crate::cursor::{forward, obeys, Cursor, Halt, Parsed};
use crate::decoder::Decoder;
use crate::error::DecodeError;
use crate::grammar::integers::{lemma_uint_bounds, spec_u32};

verus! {

broadcast use crate::cursor::lemma_cursor_in_bounds;

/// Something that can stand in a vector: it has a grammar, and a decoder that
/// follows it.
pub trait Element: DeepView + Sized {
    /// The grammar of one element at `pos`.
    spec fn spec_decode(s: Seq<u8>, pos: nat) -> Parsed<<Self as DeepView>::V>;

    /// The grammar of an element never goes backward.
    proof fn lemma_forward(s: Seq<u8>, pos: nat)
        ensures
            forward(Self::spec_decode(s, pos), pos),
    ;

    /// Decodes one element.
    fn decode(cursor: &mut Cursor) -> (r: Result<Self, DecodeError>)
        ensures
            obeys(
                r,
                *old(cursor),
                *final(cursor),
                Self::spec_decode(old(cursor).bytes(), old(cursor).pos()),
            ),
    ;
}

/// `n` elements in a row at `pos`. The failure of an element is marked as
/// having happened within this vector, with the offset of the last byte read.
pub open spec fn spec_elements<T: Element>(s: Seq<u8>, pos: nat, n: nat) -> Parsed<
    Seq<<T as DeepView>::V>,
>
    decreases n,
{
    if n == 0 {
        Ok((Seq::empty(), pos))
    } else {
        match T::spec_decode(s, pos) {
            Err(h) => Err(Halt { error: h.error.within((h.at - 1) as nat), at: h.at }),
            Ok((first, next)) => match spec_elements::<T>(s, next, (n - 1) as nat) {
                Err(h) => Err(h),
                Ok((rest, end)) => Ok((seq![first] + rest, end)),
            },
        }
    }
}

/// A vector at `pos`: an unsigned 32-bit count, then that many elements.
pub open spec fn spec_vector<T: Element>(s: Seq<u8>, pos: nat) -> Parsed<Seq<<T as DeepView>::V>> {
    match spec_u32(s, pos) {
        Err(h) => Err(h),
        Ok((n, next)) => spec_elements::<T>(s, next, n as nat),
    }
}

/// Elements in a row never go backward.
pub proof fn lemma_elements_forward<T: Element>(s: Seq<u8>, pos: nat, n: nat)
    ensures
        forward(spec_elements::<T>(s, pos, n), pos),
    decreases n,
{
    if n > 0 {
        T::lemma_forward(s, pos);
        match T::spec_decode(s, pos) {
            Ok((_, next)) => lemma_elements_forward::<T>(s, next, (n - 1) as nat),
            Err(_) => {},
        }
    }
}

/// Elements in a row, once decoded, are as many as were asked for.
pub proof fn lemma_elements_length<T: Element>(s: Seq<u8>, pos: nat, n: nat)
    ensures
        spec_elements::<T>(s, pos, n) matches Ok((elements, _)) ==> elements.len() == n,
    decreases n,
{
    if n > 0 {
        match T::spec_decode(s, pos) {
            Ok((_, next)) => lemma_elements_length::<T>(s, next, (n - 1) as nat),
            Err(_) => {},
        }
    }
}

/// A vector, once decoded, has as many elements as its count says.
pub proof fn lemma_vector_length<T: Element>(s: Seq<u8>, pos: nat)
    ensures
        spec_vector::<T>(s, pos) matches Ok((elements, _)) ==> spec_u32(s, pos) matches Ok(
            (n, _),
        ) && elements.len() == n,
{
    match spec_u32(s, pos) {
        Ok((n, next)) => lemma_elements_length::<T>(s, next, n as nat),
        Err(_) => {},
    }
}

/// A vector ends behind where it begins.
pub proof fn lemma_vector_forward<T: Element>(s: Seq<u8>, pos: nat)
    ensures
        forward(spec_vector::<T>(s, pos), pos),
        spec_vector::<T>(s, pos) matches Ok((_, end)) ==> pos < end,
{
    lemma_uint_bounds(s, pos, 32);
    match spec_u32(s, pos) {
        Ok((n, next)) => lemma_elements_forward::<T>(s, next, n as nat),
        Err(_) => {},
    }
}

impl Decoder {
    /// Decodes a vector: a count, then that many elements, in order. The first
    /// element that fails ends the decoding.
    pub fn process_vector<T: Element>(cursor: &mut Cursor) -> (r: Result<Vec<T>, DecodeError>)
        ensures
            obeys(
                r,
                *old(cursor),
                *final(cursor),
                spec_vector::<T>(old(cursor).bytes(), old(cursor).pos()),
            ),
            r is Ok ==> old(cursor).pos() < final(cursor).pos(),
    {
        let ghost s = cursor.bytes();
        proof {
            lemma_uint_bounds(s, cursor.pos(), 32);
        }
        let length: u32 = Self::decode_u32(cursor)?;
        let ghost start = cursor.pos();
        let mut vec: Vec<T> = Vec::new();
        let mut i: u32 = 0;
        assert(vec.deep_view() =~= Seq::empty());
        while i < length
            invariant
                i <= length,
                old(cursor).bytes() == s,
                spec_u32(s, old(cursor).pos()) == Ok::<_, Halt>((length, start)),
                cursor.bytes() == s,
                old(cursor).pos() < start <= cursor.pos() <= s.len(),
                match spec_elements::<T>(s, cursor.pos(), (length - i) as nat) {
                    Ok((rest, end)) => spec_elements::<T>(s, start, length as nat) == Ok::<
                        _,
                        Halt,
                    >((vec.deep_view() + rest, end)),
                    Err(h) => spec_elements::<T>(s, start, length as nat) == Err::<
                        (Seq<<T as DeepView>::V>, nat),
                        _,
                    >(h),
                },
            decreases length - i,
        {
            let ghost before = vec.deep_view();
            match T::decode(cursor) {
                Ok(element) => {
                    vec.push(element);
                    proof {
                        let next = cursor.pos();
                        assert(vec.deep_view() =~= before + seq![element.deep_view()]);
                        match spec_elements::<T>(s, next, (length - i - 1) as nat) {
                            Ok((rest, end)) => {
                                assert((before + seq![element.deep_view()]) + rest =~= before + (
                                seq![element.deep_view()] + rest));
                            },
                            Err(h) => {},
                        }
                    }
                },
                Err(e) => {
                    return Err(e.within(cursor.position() - 1));
                },
            }
            i = i + 1;
        }
        proof {
            assert(vec.deep_view() + Seq::empty() =~= vec.deep_view());
        }
        Ok(vec)
    }
}

} // verus!
