//! Numbers written most significant byte first.

use vstd::prelude::*;

verus! {

/// The number that `bytes` spell in base 256, most significant byte first.
pub open spec fn be_value(bytes: Seq<u8>) -> nat
    decreases bytes.len(),
{
    if bytes.len() == 0 {
        0
    } else {
        be_value(bytes.drop_last()) * 256 + bytes.last() as nat
    }
}

/// The four bytes that spell `value`, most significant byte first.
pub open spec fn be_bytes_u32(value: u32) -> Seq<u8> {
    seq![
        (value / 0x100_0000) as u8,
        (value / 0x1_0000 % 0x100) as u8,
        (value / 0x100 % 0x100) as u8,
        (value % 0x100) as u8,
    ]
}

/// Two bytes spell their first times 256 plus their second.
pub proof fn lemma_be_value_2(bytes: Seq<u8>)
    requires
        bytes.len() == 2,
    ensures
        be_value(bytes) == bytes[0] * 0x100 + bytes[1],
{
    reveal_with_fuel(be_value, 3);
    assert(bytes.drop_last().drop_last() =~= Seq::<u8>::empty());
}

/// Three bytes spell their first times 65536, plus their second times 256,
/// plus their third.
pub proof fn lemma_be_value_3(bytes: Seq<u8>)
    requires
        bytes.len() == 3,
    ensures
        be_value(bytes) == bytes[0] * 0x1_0000 + bytes[1] * 0x100 + bytes[2],
{
    lemma_be_value_2(bytes.drop_last());
}

/// Four bytes spell the sum of each byte times its power of 256, which
/// fits 32 bits.
pub proof fn lemma_be_value_4(bytes: Seq<u8>)
    requires
        bytes.len() == 4,
    ensures
        be_value(bytes) == bytes[0] * 0x100_0000 + bytes[1] * 0x1_0000 + bytes[2] * 0x100
            + bytes[3],
{
    lemma_be_value_3(bytes.drop_last());
}

/// Four bytes written for a number spell that number.
pub proof fn lemma_be_bytes_u32_value(value: u32)
    ensures
        be_bytes_u32(value).len() == 4,
        be_value(be_bytes_u32(value)) == value,
{
    lemma_be_value_4(be_bytes_u32(value));
}

/// The four bytes that spell a number are the bytes written for it.
pub proof fn lemma_be_value_bytes_u32(bytes: Seq<u8>)
    requires
        bytes.len() == 4,
    ensures
        be_value(bytes) <= u32::MAX,
        be_bytes_u32(be_value(bytes) as u32) == bytes,
{
    lemma_be_value_4(bytes);
    let value = be_value(bytes) as int;
    let b0 = bytes[0] as int;
    let b1 = bytes[1] as int;
    let b2 = bytes[2] as int;
    let b3 = bytes[3] as int;
    assert(value == b0 * 0x100_0000 + b1 * 0x1_0000 + b2 * 0x100 + b3);
    assert(value / 0x100_0000 == b0);
    assert(value / 0x1_0000 == b0 * 0x100 + b1);
    assert(value / 0x100 == b0 * 0x1_0000 + b1 * 0x100 + b2);
    assert(value % 0x100 == b3);
    assert(be_bytes_u32(value as u32) =~= bytes);
}

} // verus!
