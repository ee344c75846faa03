//! Primitive integer extraction: interpreting a fixed-width byte buffer as a
//! little-endian unsigned integer.

use vstd::prelude::*;

use crate::error::DecodeError;

verus! {

/// The unsigned integer that a byte sequence spells in little-endian order:
/// the first byte is the least significant.
pub open spec fn le_word(bytes: Seq<u8>) -> nat
    decreases bytes.len(),
{
    if bytes.len() == 0 {
        0
    } else {
        bytes[0] as nat + 256 * le_word(bytes.drop_first())
    }
}

/// 256 raised to the power `n`: the number of distinct values an `n`-byte
/// word can take.
pub open spec fn pow256(n: nat) -> nat
    decreases n,
{
    if n == 0 {
        1
    } else {
        256 * pow256((n - 1) as nat)
    }
}

/// For widths up to four bytes the word fits in 32 bits.
pub proof fn lemma_pow256_at_most_four(n: nat)
    requires
        n <= 4,
    ensures
        pow256(n) <= 0x1_0000_0000,
{
    assert(pow256(0) == 1);
    assert(pow256(1) == 256);
    assert(pow256(2) == 0x1_0000);
    assert(pow256(3) == 0x100_0000);
    assert(pow256(4) == 0x1_0000_0000);
}

/// Reads the little-endian unsigned integer spelt by `data`, which must be
/// exactly `width` bytes long; otherwise the length-mismatch error reports
/// the actual against the expected length. The attribute words this crate
/// decodes are at most 32 bits wide, so `width` is at most four.
pub fn read_le_word(data: &[u8], width: usize) -> (r: Result<usize, DecodeError>)
    requires
        width <= 4,
    ensures
        data@.len() == width ==> (r matches Ok(v) && v == le_word(data@)),
        data@.len() != width ==> r == Err::<usize, DecodeError>(
            DecodeError::LengthMismatch { actual: data@.len() as usize, expected: width },
        ),
{
    if data.len() != width {
        return Err(DecodeError::LengthMismatch { actual: data.len(), expected: width });
    }
    let mut val: usize = 0;
    let mut i: usize = width;
    while i > 0
        invariant
            i <= width,
            width <= 4,
            data@.len() == width,
            val == le_word(data@.subrange(i as int, width as int)),
            val < pow256((width - i) as nat),
        decreases i,
    {
        i = i - 1;
        proof {
            lemma_pow256_at_most_four((width - i) as nat);
            assert(pow256((width - i) as nat) == 256 * pow256((width - i - 1) as nat));
            let s = data@.subrange(i as int, width as int);
            assert(s.drop_first() =~= data@.subrange(i as int + 1, width as int));
            assert(le_word(s) == s[0] as nat + 256 * le_word(s.drop_first()));
            assert(s[0] == data@[i as int]);
        }
        val = 256 * val + data[i] as usize;
    }
    proof {
        assert(data@.subrange(0, width as int) =~= data@);
    }
    Ok(val)
}

} // verus!
