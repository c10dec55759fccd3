//! The variable-length quantity: a big-endian number written seven bits to a
//! byte, in at most four bytes. Every byte but the last has its high bit set.

use vstd::prelude::*;

verus! {

/// The largest number that four bytes of seven bits can hold.
pub const MAX_VARIABLE_LENGTH_QUANTITY: u32 = 0x0FFF_FFFF;

/// How many bytes the quantity at the head of `bytes` takes: the position
/// of the first byte with a clear high bit, if that is among the first four.
pub open spec fn vlq_len(bytes: Seq<u8>) -> Option<nat> {
    if bytes.len() >= 1 && bytes[0] < 0x80 {
        Some(1)
    } else if bytes.len() >= 2 && bytes[1] < 0x80 {
        Some(2)
    } else if bytes.len() >= 3 && bytes[2] < 0x80 {
        Some(3)
    } else if bytes.len() >= 4 && bytes[3] < 0x80 {
        Some(4)
    } else {
        None
    }
}

/// The number that `digits` spell in base 128, most significant first, each
/// byte counted without its high bit.
pub open spec fn vlq_value(digits: Seq<u8>) -> nat
    decreases digits.len(),
{
    if digits.len() == 0 {
        0
    } else {
        vlq_value(digits.drop_last()) * 128 + (digits.last() % 128) as nat
    }
}

/// The quantity at the head of `bytes` and the number of bytes it takes, or
/// `None` where the first four bytes (or all of them, if there are fewer) have
/// their high bit set.
pub open spec fn vlq_decode(bytes: Seq<u8>) -> Option<(u32, nat)> {
    match vlq_len(bytes) {
        Some(n) => Some((vlq_value(bytes.take(n as int)) as u32, n)),
        None => None,
    }
}

/// How many bytes a failed read has walked over: four, or all that were left.
pub open spec fn vlq_failed_len(bytes: Seq<u8>) -> nat {
    if bytes.len() < 4 {
        bytes.len()
    } else {
        4
    }
}

/// The bytes that spell `value`, in the shortest form.
#[verifier::opaque]
pub open spec fn vlq_encode(value: nat) -> Seq<u8>
    recommends
        value <= MAX_VARIABLE_LENGTH_QUANTITY,
{
    if value < 0x80 {
        seq![value as u8]
    } else if value < 0x4000 {
        seq![(0x80 + value / 0x80) as u8, (value % 0x80) as u8]
    } else if value < 0x20_0000 {
        seq![
            (0x80 + value / 0x4000) as u8,
            (0x80 + value / 0x80 % 0x80) as u8,
            (value % 0x80) as u8,
        ]
    } else {
        seq![
            (0x80 + value / 0x20_0000) as u8,
            (0x80 + value / 0x4000 % 0x80) as u8,
            (0x80 + value / 0x80 % 0x80) as u8,
            (value % 0x80) as u8,
        ]
    }
}

/// Writes `value` as a variable-length quantity, in the shortest form;
/// `None` where it is too large for four bytes.
pub fn encode_variable_length_quantity(value: u32) -> (bytes: Option<Vec<u8>>)
    ensures
        value <= MAX_VARIABLE_LENGTH_QUANTITY ==> (bytes matches Some(code) && code@ == vlq_encode(
            value as nat,
        )),
        value > MAX_VARIABLE_LENGTH_QUANTITY ==> bytes is None,
{
    if value > MAX_VARIABLE_LENGTH_QUANTITY {
        return None;
    }
    let mut code: Vec<u8> = Vec::new();
    if value >= 0x20_0000 {
        code.push((0x80 + value / 0x20_0000) as u8);
    }
    if value >= 0x4000 {
        code.push((0x80 + value / 0x4000 % 0x80) as u8);
    }
    if value >= 0x80 {
        code.push((0x80 + value / 0x80 % 0x80) as u8);
    }
    code.push((value % 0x80) as u8);
    proof {
        reveal(vlq_encode);
        assert(code@ =~= vlq_encode(value as nat));
    }
    Some(code)
}

/// A quantity of up to four digits stays below 128 to the power of their
/// number.
pub proof fn lemma_vlq_value_bound(digits: Seq<u8>)
    requires
        digits.len() <= 4,
    ensures
        digits.len() == 0 ==> vlq_value(digits) == 0,
        digits.len() == 1 ==> vlq_value(digits) < 0x80,
        digits.len() == 2 ==> vlq_value(digits) < 0x4000,
        digits.len() == 3 ==> vlq_value(digits) < 0x20_0000,
        digits.len() == 4 ==> vlq_value(digits) <= MAX_VARIABLE_LENGTH_QUANTITY,
    decreases digits.len(),
{
    if digits.len() > 0 {
        lemma_vlq_value_bound(digits.drop_last());
    }
}

/// Reading one more digit multiplies what was read by 128 and adds the digit.
pub proof fn lemma_vlq_value_step(bytes: Seq<u8>, n: int)
    requires
        0 <= n < bytes.len(),
    ensures
        vlq_value(bytes.take(n + 1)) == vlq_value(bytes.take(n)) * 128 + (bytes[n] % 128) as nat,
{
    assert(bytes.take(n + 1).drop_last() =~= bytes.take(n));
}

/// The first `n` bytes, for `n` up to four, spell the sum of their low seven
/// bits, each times its power of 128.
pub proof fn lemma_vlq_value_digits(bytes: Seq<u8>, n: int)
    requires
        0 <= n <= 4,
        n <= bytes.len(),
    ensures
        n == 0 ==> vlq_value(bytes.take(n)) == 0,
        n == 1 ==> vlq_value(bytes.take(n)) == bytes[0] % 128,
        n == 2 ==> vlq_value(bytes.take(n)) == (bytes[0] % 128) * 0x80 + bytes[1] % 128,
        n == 3 ==> vlq_value(bytes.take(n)) == (bytes[0] % 128) * 0x4000 + (bytes[1] % 128) * 0x80
            + bytes[2] % 128,
        n == 4 ==> vlq_value(bytes.take(n)) == (bytes[0] % 128) * 0x20_0000 + (bytes[1] % 128)
            * 0x4000 + (bytes[2] % 128) * 0x80 + bytes[3] % 128,
    decreases n,
{
    if n > 0 {
        lemma_vlq_value_digits(bytes, n - 1);
        lemma_vlq_value_step(bytes, n - 1);
    }
}

/// The bytes written for a number are one to four, all but the last with
/// the high bit set, and spell the number.
pub proof fn lemma_vlq_encode_digits(value: nat)
    requires
        value <= MAX_VARIABLE_LENGTH_QUANTITY,
    ensures
        1 <= vlq_encode(value).len() <= 4,
        vlq_encode(value).last() < 0x80,
        forall|i: int| 0 <= i < vlq_encode(value).len() - 1 ==> vlq_encode(value)[i] >= 0x80,
        vlq_value(vlq_encode(value)) == value,
{
    reveal(vlq_encode);
    let code = vlq_encode(value);
    let n = code.len() as int;
    lemma_vlq_value_digits(code, n);
    assert(code.take(n) =~= code);
    let v = value as int;
    if value < 0x80 {
    } else if value < 0x4000 {
        assert(v == (v / 0x80) * 0x80 + v % 0x80);
    } else if value < 0x20_0000 {
        let d0 = v / 0x4000;
        let d1 = v / 0x80 % 0x80;
        let d2 = v % 0x80;
        assert(v / 0x80 == d0 * 0x80 + d1);
        assert(v == (v / 0x80) * 0x80 + d2);
    } else {
        let d0 = v / 0x20_0000;
        let d1 = v / 0x4000 % 0x80;
        let d2 = v / 0x80 % 0x80;
        let d3 = v % 0x80;
        assert(v / 0x4000 == d0 * 0x80 + d1);
        assert(v / 0x80 == (v / 0x4000) * 0x80 + d2);
        assert(v == (v / 0x80) * 0x80 + d3);
    }
}

/// Encoding then decoding gives the number back, whatever follows the
/// encoding in the buffer, and reads exactly the bytes that were written.
pub proof fn lemma_vlq_round_trip(value: nat, rest: Seq<u8>)
    requires
        value <= MAX_VARIABLE_LENGTH_QUANTITY,
    ensures
        vlq_decode(vlq_encode(value) + rest) == Some((value as u32, vlq_encode(value).len())),
        1 <= vlq_encode(value).len() <= 4,
        (vlq_encode(value) + rest).skip(vlq_encode(value).len() as int) == rest,
{
    let code = vlq_encode(value);
    let bytes = code + rest;
    let n = code.len() as int;
    lemma_vlq_encode_digits(value);
    assert(bytes.skip(n) =~= rest);
    assert(bytes.take(n) =~= code);
    assert(forall|i: int| 0 <= i < n ==> bytes[i] == code[i]);
    assert(vlq_len(bytes) == Some(n as nat));
}

/// Where the first four bytes, or all of them if there are fewer, have their
/// high bit set, there is no quantity to decode. An empty buffer is one such.
pub proof fn lemma_vlq_malformed(bytes: Seq<u8>)
    requires
        forall|i: int| 0 <= i < bytes.len() && i < 4 ==> bytes[i] >= 0x80,
    ensures
        vlq_decode(bytes) is None,
{
}

/// A quantity is decoded exactly when one of the first four bytes has a clear
/// high bit; it then ends at the first such byte, and is at most the largest
/// number that four bytes can hold.
pub proof fn lemma_vlq_decode_bounds(bytes: Seq<u8>)
    ensures
        vlq_decode(bytes) is Some <==> exists|i: int|
            0 <= i < bytes.len() && i < 4 && bytes[i] < 0x80,
        vlq_decode(bytes) matches Some((value, len)) ==> 1 <= len <= 4 && len <= bytes.len()
            && value <= MAX_VARIABLE_LENGTH_QUANTITY && value == vlq_value(bytes.take(len as int))
            && bytes[len - 1] < 0x80 && forall|i: int| 0 <= i < len - 1 ==> bytes[i] >= 0x80,
{
    match vlq_len(bytes) {
        Some(n) => {
            lemma_vlq_value_bound(bytes.take(n as int));
            assert(bytes[n - 1] < 0x80);
        },
        None => {},
    }
}

} // verus!
