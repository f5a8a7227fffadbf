//! Fixed-width values that blocks and environments are made of.

use vstd::prelude::*;

verus! {

/// A 32-byte hash or random value.
pub type B256 = [u8; 32];

/// A 20-byte account address.
pub type Address = [u8; 20];

/// A Bloom filter of 2048 bits.
pub type Bloom = [u8; 256];

/// A 256-bit unsigned integer: four 64-bit limbs, the least significant first.
pub type U256 = [u64; 4];

/// The number that the limbs of `x` stand for.
pub open spec fn u256_value(x: U256) -> nat {
    (x[0] + x[1] * 0x1_0000_0000_0000_0000 + x[2]
        * 0x1_0000_0000_0000_0000_0000_0000_0000_0000 + x[3]
        * 0x1_0000_0000_0000_0000_0000_0000_0000_0000_0000_0000_0000_0000) as nat
}

/// The number that `bytes` spells out, the most significant byte first.
pub open spec fn big_endian_value(bytes: Seq<u8>) -> nat
    decreases bytes.len(),
{
    if bytes.len() == 0 {
        0
    } else {
        big_endian_value(bytes.drop_last()) * 256 + bytes.last() as nat
    }
}

/// `U256::from(u64)` of `alloy_primitives`: the same number, 256 bits wide.
#[verifier::external_body]
pub(crate) fn u256_from_u64(value: u64) -> (wide: U256)
    ensures
        u256_value(wide) == value,
{
    *alloy_primitives::U256::from(value).as_limbs()
}

/// `U256::to::<u64>` of `alloy_primitives`: the same number, 64 bits wide. The call panics on a
/// number that does not fit, so only one that fits is admitted.
#[verifier::external_body]
pub(crate) fn u256_to_u64(value: &U256) -> (narrow: u64)
    requires
        u256_value(*value) <= u64::MAX,
    ensures
        narrow == u256_value(*value),
{
    alloy_primitives::U256::from_limbs(*value).to::<u64>()
}

/// The 64-bit number at the eight bytes of `hash` from `start` on, the most significant first.
fn limb(hash: &B256, start: usize) -> (limb: u64)
    requires
        start <= 24,
    ensures
        limb == big_endian_value(hash@.subrange(start as int, start + 8)),
{
    proof {
        reveal_with_fuel(big_endian_value, 9);
    }
    hash[start] as u64 * 0x100_0000_0000_0000 + hash[start + 1] as u64 * 0x1_0000_0000_0000
        + hash[start + 2] as u64 * 0x100_0000_0000 + hash[start + 3] as u64 * 0x1_0000_0000
        + hash[start + 4] as u64 * 0x100_0000 + hash[start + 5] as u64 * 0x1_0000
        + hash[start + 6] as u64 * 0x100 + hash[start + 7] as u64
}

/// One more byte shifts a big-endian number by eight bits.
pub proof fn append_byte(high: Seq<u8>, low: Seq<u8>, k: int)
    requires
        0 <= k < low.len(),
    ensures
        big_endian_value(high + low.take(k + 1)) == big_endian_value(high + low.take(k)) * 256
            + low[k],
        big_endian_value(low.take(k + 1)) == big_endian_value(low.take(k)) * 256 + low[k],
{
    assert((high + low.take(k + 1)).drop_last() =~= high + low.take(k));
    assert(low.take(k + 1).drop_last() =~= low.take(k));
}

/// Eight more bytes shift a big-endian number by 64 bits.
proof fn append_limb(high: Seq<u8>, low: Seq<u8>)
    requires
        low.len() == 8,
    ensures
        big_endian_value(high + low) == big_endian_value(high) * 0x1_0000_0000_0000_0000
            + big_endian_value(low),
{
    append_byte(high, low, 0);
    append_byte(high, low, 1);
    append_byte(high, low, 2);
    append_byte(high, low, 3);
    append_byte(high, low, 4);
    append_byte(high, low, 5);
    append_byte(high, low, 6);
    append_byte(high, low, 7);
    assert(high + low.take(0) =~= high);
    assert(low.take(8) =~= low);
}

/// The number that the 32 bytes of `hash` spell out, the most significant byte first.
pub fn u256_from_b256(hash: &B256) -> (number: U256)
    ensures
        u256_value(number) == big_endian_value(hash@),
        forall|i: int|
            0 <= i < 4 ==> #[trigger] number[i] == big_endian_value(
                hash@.subrange(24 - 8 * i, 32 - 8 * i),
            ),
{
    let number: U256 = [limb(hash, 24), limb(hash, 16), limb(hash, 8), limb(hash, 0)];
    proof {
        let (a, b) = (hash@.subrange(0, 8), hash@.subrange(8, 16));
        let (c, d) = (hash@.subrange(16, 24), hash@.subrange(24, 32));
        append_limb(a, b);
        append_limb(a + b, c);
        append_limb(a + b + c, d);
        assert(a + b + c + d =~= hash@);
    }
    number
}

} // verus!
