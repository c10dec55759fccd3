//! A forward-only, bounds-checked cursor over a byte slice.

use crate::big_endian::{be_value, lemma_be_value_2, lemma_be_value_4};
use crate::vlq::{
    lemma_vlq_value_bound, lemma_vlq_value_step, vlq_decode, vlq_failed_len, vlq_value,
};
use vstd::prelude::*;
use vstd::slice::slice_to_vec;

verus! {

/// `<&[u8; N]>::try_from(&[u8])` of std: the slice seen as an array of `N`
/// bytes. It succeeds exactly when the slice has `N` bytes, and the array
/// then holds the bytes of the slice.
#[verifier::external_body]
fn slice_as_array<'a, const N: usize>(slice: &'a [u8]) -> (array: Option<&'a [u8; N]>)
    ensures
        array is Some <==> slice@.len() == N,
        array is Some ==> array.unwrap()@ == slice@,
{
    match <&[u8; N]>::try_from(slice) {
        Ok(array) => Some(array),
        Err(_) => None,
    }
}

/// A byte scanner: a borrowed slice and the number of its bytes already
/// consumed. No read goes past the end of the slice; one that cannot be
/// served reports `None`.
#[derive(Debug)]
pub struct Scanner<'a> {
    bytes: &'a [u8],
    cursor: usize,
}

impl<'a> Scanner<'a> {
    /// The cursor never leaves the slice.
    #[verifier::type_invariant]
    spec fn in_bounds(self) -> bool {
        self.cursor <= self.bytes@.len()
    }

    /// The whole slice that is being scanned.
    pub closed spec fn source(self) -> Seq<u8> {
        self.bytes@
    }

    /// How many bytes have been consumed.
    pub closed spec fn consumed(self) -> nat {
        self.cursor as nat
    }

    /// The bytes not yet consumed.
    pub open spec fn remaining(self) -> Seq<u8> {
        self.source().skip(self.consumed() as int)
    }

    /// Creates a scanner at the start of `bytes`.
    pub fn new(bytes: &'a [u8]) -> (scanner: Self)
        ensures
            scanner.source() == bytes@,
            scanner.consumed() == 0,
    {
        Scanner { bytes, cursor: 0 }
    }

    /// Whether every byte has been consumed.
    pub fn done(&self) -> (done: bool)
        ensures
            done == (self.consumed() == self.source().len()),
            self.consumed() <= self.source().len(),
    {
        proof {
            use_type_invariant(self);
        }
        self.cursor == self.bytes.len()
    }

    /// How many bytes have been consumed.
    pub fn cursor(&self) -> (cursor: usize)
        ensures
            cursor == self.consumed(),
            self.consumed() <= self.source().len(),
    {
        proof {
            use_type_invariant(self);
        }
        self.cursor
    }

    /// The bytes not yet consumed.
    pub fn after(&self) -> (bytes: &'a [u8])
        ensures
            bytes@ == self.remaining(),
    {
        proof {
            use_type_invariant(self);
        }
        let bytes: &'a [u8] = self.bytes;
        let after: &'a [u8] = &bytes[self.cursor..bytes.len()];
        assert(after@ =~= self.remaining());
        after
    }

    /// The next byte, without consuming it; `None` when there is none left.
    pub fn peek(&self) -> (byte: Option<&'a u8>)
        ensures
            self.remaining().len() == 0 ==> byte is None,
            self.remaining().len() > 0 ==> byte == Some(&self.remaining()[0]),
    {
        proof {
            use_type_invariant(self);
        }
        let bytes: &'a [u8] = self.bytes;
        if self.cursor < bytes.len() {
            Some(&bytes[self.cursor])
        } else {
            None
        }
    }

    /// Consumes and returns the next byte; `None`, with nothing consumed,
    /// when there is none left.
    pub fn eat(&mut self) -> (byte: Option<&'a u8>)
        ensures
            final(self).source() == old(self).source(),
            final(self).consumed() <= final(self).source().len(),
            old(self).remaining().len() == 0 ==> byte is None && final(self).consumed() == old(
                self,
            ).consumed(),
            old(self).remaining().len() > 0 ==> byte == Some(&old(self).remaining()[0])
                && final(self).consumed() == old(self).consumed() + 1,
    {
        proof {
            use_type_invariant(&*self);
        }
        let peeked = self.peek()?;
        assert(self.cursor < self.bytes.len());
        self.cursor += 1;
        Some(peeked)
    }

    /// Consumes and returns exactly `n` bytes as a borrowed slice; `None`,
    /// with nothing consumed, when fewer than `n` are left.
    pub fn eat_slice(&mut self, n: usize) -> (slice: Option<&'a [u8]>)
        ensures
            final(self).source() == old(self).source(),
            final(self).consumed() <= final(self).source().len(),
            n > old(self).remaining().len() ==> slice is None && final(self).consumed() == old(
                self,
            ).consumed(),
            n <= old(self).remaining().len() ==> slice is Some && slice.unwrap()@ == old(
                self,
            ).remaining().take(n as int) && final(self).consumed() == old(self).consumed() + n,
    {
        proof {
            use_type_invariant(&*self);
        }
        let bytes: &'a [u8] = self.bytes;
        let start_cursor: usize = self.cursor;
        if n > bytes.len() - start_cursor {
            return None;
        }
        let end_cursor: usize = start_cursor + n;
        let result: &'a [u8] = &bytes[start_cursor..end_cursor];
        self.cursor = end_cursor;
        assert(result@ =~= old(self).remaining().take(n as int));
        Some(result)
    }

    /// Consumes and returns exactly `N` bytes as a borrowed array; `None`,
    /// with nothing consumed, when fewer than `N` are left.
    pub fn eat_bytes<const N: usize>(&mut self) -> (array: Option<&'a [u8; N]>)
        ensures
            final(self).source() == old(self).source(),
            final(self).consumed() <= final(self).source().len(),
            N > old(self).remaining().len() ==> array is None && final(self).consumed() == old(
                self,
            ).consumed(),
            N <= old(self).remaining().len() ==> array is Some && array.unwrap()@ == old(
                self,
            ).remaining().take(N as int) && final(self).consumed() == old(self).consumed() + N,
    {
        proof {
            use_type_invariant(&*self);
        }
        let slice = self.eat_slice(N)?;
        slice_as_array::<N>(slice)
    }

    /// Consumes and returns exactly `n` bytes as a vector of their own;
    /// `None`, with nothing consumed, when fewer than `n` are left.
    pub fn eat_vec(&mut self, n: usize) -> (bytes: Option<Vec<u8>>)
        ensures
            final(self).source() == old(self).source(),
            final(self).consumed() <= final(self).source().len(),
            n > old(self).remaining().len() ==> bytes is None && final(self).consumed() == old(
                self,
            ).consumed(),
            n <= old(self).remaining().len() ==> bytes is Some && bytes.unwrap()@ == old(
                self,
            ).remaining().take(n as int) && final(self).consumed() == old(self).consumed() + n,
    {
        let slice = self.eat_slice(n)?;
        Some(slice_to_vec(slice))
    }

    /// Consumes two bytes and returns them as a big-endian number; `None`,
    /// with nothing consumed, when fewer than two are left.
    pub fn eat_u16_be(&mut self) -> (value: Option<u16>)
        ensures
            final(self).source() == old(self).source(),
            final(self).consumed() <= final(self).source().len(),
            old(self).remaining().len() < 2 ==> value is None && final(self).consumed() == old(
                self,
            ).consumed(),
            old(self).remaining().len() >= 2 ==> value is Some && value.unwrap() == be_value(
                old(self).remaining().take(2),
            ) && final(self).consumed() == old(self).consumed() + 2,
    {
        let bytes = self.eat_bytes::<2>()?;
        proof {
            lemma_be_value_2(bytes@);
        }
        let high: u16 = bytes[0] as u16;
        let low: u16 = bytes[1] as u16;
        Some(high * 256 + low)
    }

    /// Consumes four bytes and returns them as a big-endian number; `None`,
    /// with nothing consumed, when fewer than four are left.
    pub fn eat_u32_be(&mut self) -> (value: Option<u32>)
        ensures
            final(self).source() == old(self).source(),
            final(self).consumed() <= final(self).source().len(),
            old(self).remaining().len() < 4 ==> value is None && final(self).consumed() == old(
                self,
            ).consumed(),
            old(self).remaining().len() >= 4 ==> value is Some && value.unwrap() == be_value(
                old(self).remaining().take(4),
            ) && final(self).consumed() == old(self).consumed() + 4,
    {
        let bytes = self.eat_bytes::<4>()?;
        proof {
            lemma_be_value_4(bytes@);
        }
        let b0: u32 = bytes[0] as u32;
        let b1: u32 = bytes[1] as u32;
        let b2: u32 = bytes[2] as u32;
        let b3: u32 = bytes[3] as u32;
        Some(b0 * 0x100_0000 + b1 * 0x1_0000 + b2 * 0x100 + b3)
    }

    /// Consumes and returns a variable-length quantity.
    ///
    /// Where the first four bytes that are left (or all of them, if there
    /// are fewer) have their high bit set there is no quantity: the result is
    /// `None`, and those bytes have been consumed.
    pub fn eat_variable_length_quantity(&mut self) -> (value: Option<u32>)
        ensures
            final(self).source() == old(self).source(),
            final(self).consumed() <= final(self).source().len(),
            match vlq_decode(old(self).remaining()) {
                Some((quantity, len)) => value == Some(quantity) && final(self).consumed() == old(
                    self,
                ).consumed() + len,
                None => value is None && final(self).consumed() == old(self).consumed()
                    + vlq_failed_len(old(self).remaining()),
            },
    {
        proof {
            use_type_invariant(&*self);
        }
        let ghost left = self.remaining();
        let mut value: u32 = 0;
        let mut i: usize = 0;
        while i < 4
            invariant
                i <= 4,
                left == old(self).remaining(),
                self.source() == old(self).source(),
                self.consumed() == old(self).consumed() + i,
                self.consumed() <= self.source().len(),
                forall|j: int| 0 <= j < i ==> left[j] >= 0x80,
                value == vlq_value(left.take(i as int)),
            decreases 4 - i,
        {
            let byte: u8 = match self.eat() {
                Some(byte) => *byte,
                None => {
                    return None;
                },
            };
            proof {
                lemma_vlq_value_bound(left.take(i as int));
                lemma_vlq_value_step(left, i as int);
                lemma_vlq_value_bound(left.take(i + 1));
                assert(value < 0x20_0000 ==> (value << 7) | ((byte & 0x7F) as u32) == value * 128
                    + byte % 128) by (bit_vector);
                assert((byte & 0x80 == 0) <==> byte < 0x80) by (bit_vector);
            }
            value = (value << 7) | ((byte & 0x7F) as u32);
            if byte & 0x80 == 0 {
                return Some(value);
            }
            i += 1;
        }
        None
    }

    /// Consumes bytes up to the first one with its high bit set, or to the
    /// end, and returns the bytes consumed. The byte with the high bit set
    /// is left in place.
    pub fn eat_data_bytes(&mut self) -> (data: Option<&'a [u8]>)
        ensures
            final(self).source() == old(self).source(),
            final(self).consumed() <= final(self).source().len(),
            data matches Some(run) && {
                &&& run@.len() <= old(self).remaining().len()
                &&& run@ == old(self).remaining().take(run@.len() as int)
                &&& forall|i: int| 0 <= i < run@.len() ==> old(self).remaining()[i] < 0x80
                &&& run@.len() < old(self).remaining().len() ==> old(
                    self,
                ).remaining()[run@.len() as int] >= 0x80
                &&& final(self).consumed() == old(self).consumed() + run@.len()
            },
    {
        proof {
            use_type_invariant(&*self);
        }
        let ghost left = self.remaining();
        let bytes: &'a [u8] = self.bytes;
        let start_cursor: usize = self.cursor;
        while self.cursor < bytes.len()
            invariant
                bytes == self.bytes,
                bytes == old(self).bytes,
                left == old(self).remaining(),
                start_cursor == old(self).cursor,
                start_cursor <= self.cursor <= bytes@.len(),
                forall|i: int| 0 <= i < self.cursor - start_cursor ==> left[i] < 0x80,
            decreases bytes@.len() - self.cursor,
        {
            let byte: u8 = bytes[self.cursor];
            assert((byte & 0x80 != 0) <==> byte >= 0x80) by (bit_vector);
            if byte & 0x80 != 0 {
                let stopped: &'a [u8] = &bytes[start_cursor..self.cursor];
                assert(stopped@ =~= left.take(stopped@.len() as int));
                return Some(stopped);
            }
            self.cursor += 1;
        }
        let all: &'a [u8] = &bytes[start_cursor..self.cursor];
        assert(all@ =~= left.take(all@.len() as int));
        Some(all)
    }
}

} // verus!
