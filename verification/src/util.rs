//! Bit-field extraction and little-endian word assembly: the primitives that
//! every decoder reads an instruction word through.

use vstd::prelude::*;

verus! {

use vstd::arithmetic::power2::pow2;
use vstd::arithmetic::power2::lemma2_to64;
use vstd::arithmetic::power2::lemma_pow2_pos;
use vstd::arithmetic::power2::lemma_pow2_strictly_increases;
use vstd::bits::low_bits_mask;
use vstd::bits::lemma_u64_shl_is_mul;
use vstd::bits::lemma_u32_shr_is_div;
use vstd::bits::lemma_u32_low_bits_mask_is_mod;

/// The bits of `i` in positions `lsb..=msb`, right-justified: the value
/// `(i >> lsb) & ((1 << (msb - lsb + 1)) - 1)`.
pub open spec fn bits_spec(i: u32, lsb: nat, msb: nat) -> u32
    recommends
        lsb <= msb < 32,
{
    (i >> (lsb as u32)) & (low_bits_mask((msb - lsb + 1) as nat) as u32)
}

/// Returns the inclusive bit range `[lsb, msb]` of `i`, right-justified.
/// The result is the digit string of that range read as an unsigned number:
/// `(i / 2^lsb) mod 2^(msb - lsb + 1)`.
pub fn get_bits(i: u32, lsb: usize, msb: usize) -> (r: u32)
    requires
        lsb <= msb < 32,
    ensures
        r == bits_spec(i, lsb as nat, msb as nat),
        r < pow2((msb - lsb + 1) as nat),
        r == (i as nat / pow2(lsb as nat)) % pow2((msb - lsb + 1) as nat),
{
    let l: u32 = lsb as u32;
    let m: u32 = msb as u32;
    proof {
        lemma2_to64();
        lemma_pow2_pos((m - l + 1) as nat);
        if m - l + 1 < 32 {
            lemma_pow2_strictly_increases((m - l + 1) as nat, 32);
        }
        lemma_u64_shl_is_mul(1u64, (m - l + 1) as u64);
    }
    let num_bits: u32 = m - l + 1;
    let mask64: u64 = (1u64 << (num_bits as u64)) - 1;
    let mask: u32 = mask64 as u32;
    let shifted: u32 = i >> l;
    let r: u32 = shifted & mask;
    proof {
        assert(mask == low_bits_mask(num_bits as nat) as u32);
        lemma_u32_shr_is_div(i, l);
        if num_bits < 32 {
            lemma_u32_low_bits_mask_is_mod(shifted, num_bits as nat);
        } else {
            assert(mask == 0xffff_ffffu32);
            assert(shifted & 0xffff_ffffu32 == shifted) by (bit_vector);
            assert(shifted < pow2(32));
        }
    }
    r
}

/// The word that four little-endian stored bytes assemble to:
/// `b0 | b1 << 8 | b2 << 16 | b3 << 24`.
pub open spec fn word_of_bytes(b0: u8, b1: u8, b2: u8, b3: u8) -> u32 {
    (b0 as u32) | ((b1 as u32) << 8u32) | ((b2 as u32) << 16u32) | ((b3 as u32) << 24u32)
}

/// The assembled word is the positional little-endian value of its four
/// bytes: byte 0 is the least significant, byte 3 the most significant.
pub proof fn lemma_word_of_bytes_arith(b0: u8, b1: u8, b2: u8, b3: u8)
    ensures
        word_of_bytes(b0, b1, b2, b3) == b0 + 0x100 * (b1 as int) + 0x1_0000 * (b2 as int)
            + 0x100_0000 * (b3 as int),
{
    assert((b0 as u32) | ((b1 as u32) << 8u32) | ((b2 as u32) << 16u32) | ((b3 as u32) << 24u32)
        == (b0 as u64) + 0x100u64 * (b1 as u64) + 0x1_0000u64 * (b2 as u64) + 0x100_0000u64 * (
    b3 as u64)) by (bit_vector);
}

/// Assembles each aligned 4-byte group of `v` into a word, little-endian:
/// stored bytes `b0,b1,b2,b3` become the word `b0 | b1<<8 | b2<<16 | b3<<24`.
/// Words correspond positionally 1:1 with the byte groups.
pub fn to_vec_words(v: &[u8]) -> (r: Vec<u32>)
    requires
        v@.len() % 4 == 0,
    ensures
        r@.len() == v@.len() / 4,
        forall|j: int|
            0 <= j < r@.len() ==> r@[j] == word_of_bytes(
                v@[4 * j],
                v@[4 * j + 1],
                v@[4 * j + 2],
                v@[4 * j + 3],
            ),
{
    let n: usize = v.len() / 4;
    let mut r: Vec<u32> = Vec::new();
    let mut j: usize = 0;
    while j < n
        invariant
            j <= n,
            n == v@.len() / 4,
            v@.len() <= usize::MAX,
            v@.len() % 4 == 0,
            r@.len() == j,
            forall|k: int|
                0 <= k < j ==> r@[k] == word_of_bytes(
                    v@[4 * k],
                    v@[4 * k + 1],
                    v@[4 * k + 2],
                    v@[4 * k + 3],
                ),
        decreases n - j,
    {
        proof {
            assert(v@.len() == 4 * (v@.len() / 4));
            assert(4 * (j as int) + 4 <= 4 * (n as int));
        }
        let b0: u8 = v[4 * j];
        let b1: u8 = v[4 * j + 1];
        let b2: u8 = v[4 * j + 2];
        let b3: u8 = v[4 * j + 3];
        let w32: u32 = (b0 as u32) | ((b1 as u32) << 8u32) | ((b2 as u32) << 16u32) | ((b3 as u32)
            << 24u32);
        r.push(w32);
        j += 1;
    }
    r
}

} // verus!
