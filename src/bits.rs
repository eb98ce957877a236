use vstd::arithmetic::power2::{pow2, lemma_pow2_unfold, lemma2_to64};
use vstd::prelude::*;

verus! {

/// Bit `i` of `buf`, counting from the most significant bit of byte 0.
/// Positions past the end of `buf` read as zero.
pub open spec fn bit_at(buf: Seq<u8>, i: int) -> nat {
    if 0 <= i < buf.len() * 8 {
        ((buf[i / 8] >> ((7 - i % 8) as u8)) & 1u8) as nat
    } else {
        0
    }
}

/// The bits `a..b` of `buf` read as a big-endian unsigned integer.
pub open spec fn bits_value(buf: Seq<u8>, a: int, b: int) -> nat
    decreases b - a,
{
    if b <= a {
        0
    } else {
        2 * bits_value(buf, a, b - 1) + bit_at(buf, b - 1)
    }
}

/// The value of a synchsafe integer: seven bits from each byte, most
/// significant byte first.
pub open spec fn synchsafe_value(s: Seq<u8>) -> nat
    decreases s.len(),
{
    if s.len() == 0 {
        0
    } else {
        128 * synchsafe_value(s.drop_last()) + s.last() as nat
    }
}

proof fn lemma_bit_at_small(buf: Seq<u8>, i: int)
    ensures
        bit_at(buf, i) <= 1,
{
    if 0 <= i < buf.len() * 8 {
        let b = buf[i / 8];
        let s = (7 - i % 8) as u8;
        assert((b >> s) & 1u8 <= 1u8) by (bit_vector);
    }
}

/// The bits `a..b` form a number below `2^(b - a)`.
pub proof fn lemma_bits_value_bound(buf: Seq<u8>, a: int, b: int)
    requires
        a <= b,
    ensures
        bits_value(buf, a, b) < pow2((b - a) as nat),
    decreases b - a,
{
    if b == a {
        lemma2_to64();
    } else {
        lemma_bits_value_bound(buf, a, b - 1);
        lemma_bit_at_small(buf, b - 1);
        lemma_pow2_unfold((b - a) as nat);
    }
}

fn read_bit(buffer: &[u8], i: usize) -> (r: u64)
    ensures
        r == bit_at(buffer@, i as int),
{
    if i / 8 < buffer.len() {
        let byte = buffer[i / 8];
        let shift = (7 - i % 8) as u8;
        ((byte >> shift) & 1u8) as u64
    } else {
        0
    }
}

/// Reads the bits `start_bit..end_bit` of `buffer` as a big-endian number.
/// Bits past the end of `buffer` read as zero.
pub fn get_bits(buffer: &[u8], start_bit: usize, end_bit: usize) -> (r: u32)
    requires
        start_bit <= end_bit,
        end_bit - start_bit <= 32,
    ensures
        r as nat == bits_value(buffer@, start_bit as int, end_bit as int),
{
    let mut result: u64 = 0;
    let mut i: usize = start_bit;
    proof {
        lemma2_to64();
    }
    while i < end_bit
        invariant
            start_bit <= i <= end_bit,
            end_bit - start_bit <= 32,
            result as nat == bits_value(buffer@, start_bit as int, i as int),
            result < pow2((i - start_bit) as nat),
            pow2(32) == 0x1_0000_0000nat,
        decreases end_bit - i,
    {
        let bit = read_bit(buffer, i);
        proof {
            lemma_bit_at_small(buffer@, i as int);
            lemma_pow2_unfold((i + 1 - start_bit) as nat);
            vstd::arithmetic::power2::lemma_pow2_strictly_increases(
                (i - start_bit) as nat,
                32,
            );
        }
        result = result * 2 + bit;
        i = i + 1;
    }
    result as u32
}

/// Reads `count` bits at `*offset` and moves `*offset` past them.
pub fn get_bits_inc(buffer: &[u8], offset: &mut usize, count: usize) -> (r: u32)
    requires
        count <= 32,
        *old(offset) + count <= usize::MAX,
    ensures
        r as nat == bits_value(buffer@, *old(offset) as int, *old(offset) + count),
        *final(offset) == *old(offset) + count,
{
    let result = get_bits(buffer, *offset, *offset + count);
    *offset = *offset + count;
    result
}

spec fn ones_base128(n: nat) -> nat
    decreases n,
{
    if n == 0 {
        0
    } else {
        128 * ones_base128((n - 1) as nat) + 1
    }
}

/// Decodes a synchsafe integer of at most four bytes.
pub fn char_to_int(buffer: &[u8]) -> (r: u32)
    requires
        buffer@.len() <= 4,
    ensures
        r as nat == synchsafe_value(buffer@),
{
    let mut num: u32 = 0;
    let mut i: usize = 0;
    proof {
        reveal_with_fuel(ones_base128, 5);
    }
    while i < buffer.len()
        invariant
            i <= buffer@.len() <= 4,
            num as nat == synchsafe_value(buffer@.subrange(0, i as int)),
            num <= 255 * ones_base128(i as nat),
            ones_base128(3) == 16513,
        decreases buffer@.len() - i,
    {
        proof {
            assert(ones_base128(i as nat) <= 16513) by {
                reveal_with_fuel(ones_base128, 4);
            }
            assert(buffer@.subrange(0, i + 1).drop_last() =~= buffer@.subrange(0, i as int));
        }
        num = num * 128 + buffer[i] as u32;
        i = i + 1;
    }
    proof {
        assert(buffer@.subrange(0, i as int) =~= buffer@);
    }
    num
}

} // verus!
