//! Numbers in memory, least significant byte first.

use vstd::arithmetic::power::{lemma_pow0, lemma_pow1, lemma_pow_adds, pow};
use vstd::prelude::*;

verus! {

/// The number that `bytes` hold, least significant byte first.
pub open spec fn le_value(bytes: Seq<u8>) -> nat
    decreases bytes.len(),
{
    if bytes.len() == 0 {
        0
    } else {
        bytes[0] as nat + 256 * le_value(bytes.drop_first())
    }
}

/// A number of `n` bytes is below the `n`th power of 256.
pub proof fn lemma_le_value_bound(bytes: Seq<u8>)
    ensures
        le_value(bytes) < pow(256, bytes.len()),
    decreases bytes.len(),
{
    if bytes.len() == 0 {
        lemma_pow0(256);
    } else {
        let rest = bytes.drop_first();
        lemma_le_value_bound(rest);
        lemma_pow1(256);
        lemma_pow_adds(256, 1, rest.len());
        assert(pow(256, bytes.len()) == 256 * pow(256, rest.len()));
    }
}

/// A number of at most four bytes fits 32 bits, one of at most eight fits 64.
pub proof fn lemma_le_value_fits(bytes: Seq<u8>)
    ensures
        bytes.len() <= 4 ==> le_value(bytes) <= u32::MAX,
        bytes.len() <= 8 ==> le_value(bytes) <= u64::MAX,
{
    lemma_le_value_bound(bytes);
    if bytes.len() <= 8 {
        reveal_with_fuel(pow, 9);
    }
}

/// The bytes of a pointer on this machine.
pub open spec fn pointer_width() -> nat {
    (usize::BITS / 8) as nat
}

/// A pointer has four or eight bytes.
pub fn pointer_bytes() -> (width: usize)
    ensures
        width == pointer_width(),
        width == 4 || width == 8,
{
    (usize::BITS / 8) as usize
}

/// Reads the number in the `width` bytes from `offset` on.
pub fn read_le(data: &Vec<u8>, offset: usize, width: usize) -> (value: u64)
    requires
        width <= 8,
        offset + width <= data.len(),
    ensures
        value == le_value(data@.subrange(offset as int, offset + width)),
{
    let mut value: u64 = 0;
    let mut left: usize = width;
    assert(le_value(data@.subrange(offset + width, offset + width)) == 0);
    while left > 0
        invariant
            left <= width <= 8,
            offset + width <= data.len(),
            value == le_value(data@.subrange(offset + left, offset + width)),
        decreases left,
    {
        left = left - 1;
        proof {
            let read = data@.subrange(offset + left, offset + width);
            assert(read.drop_first() =~= data@.subrange(offset + left + 1, offset + width));
            lemma_le_value_fits(read);
        }
        value = data[offset + left] as u64 + 256 * value;
    }
    value
}

} // verus!
