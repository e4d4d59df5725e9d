//! Small byte-level building blocks: bit reversal within a byte, appending a
//! slice to a vector, and copying a fixed 32-byte window out of a slice.

use vstd::prelude::*;

verus! {

/// The byte with the bit order reversed: bit `i` of `b` becomes bit `7 - i`.
pub open spec fn rev8(b: u8) -> u8 {
    ((b & 0x01) << 7) | ((b & 0x02) << 5) | ((b & 0x04) << 3) | ((b & 0x08) << 1) | ((b & 0x10)
        >> 1) | ((b & 0x20) >> 3) | ((b & 0x40) >> 5) | ((b & 0x80) >> 7)
}

/// Every byte of the sequence with its bit order reversed.
pub open spec fn rev_bytes(s: Seq<u8>) -> Seq<u8> {
    s.map_values(|b: u8| rev8(b))
}

/// Reverses the bit order of one byte.
pub fn reverse_bits_byte(b: u8) -> (r: u8)
    ensures
        r == rev8(b),
{
    ((b & 0x01) << 7) | ((b & 0x02) << 5) | ((b & 0x04) << 3) | ((b & 0x08) << 1) | ((b & 0x10)
        >> 1) | ((b & 0x20) >> 3) | ((b & 0x40) >> 5) | ((b & 0x80) >> 7)
}

/// Appends all bytes of `src` to `dst`, in order.
pub fn push_all(dst: &mut Vec<u8>, src: &[u8])
    ensures
        final(dst)@ == old(dst)@ + src@,
{
    let ghost dst0 = dst@;
    let mut i: usize = 0;
    while i < src.len()
        invariant
            i <= src@.len(),
            dst@ == dst0 + src@.take(i as int),
        decreases src@.len() - i,
    {
        dst.push(*vstd::slice::slice_index_get(src, i));
        proof {
            assert(dst0 + src@.take(i as int) + seq![src@[i as int]] =~= dst0 + src@.take(
                i as int + 1,
            ));
        }
        i = i + 1;
    }
    proof {
        assert(dst0 + src@.take(src@.len() as int) =~= dst0 + src@);
    }
}

/// Copies the 32 bytes of `src` starting at `off` into a fresh array.
pub fn read32(src: &[u8], off: usize) -> (r: [u8; 32])
    requires
        off + 32 <= src@.len(),
    ensures
        r@ == src@.subrange(off as int, off as int + 32),
{
    let mut r: [u8; 32] = [0u8; 32];
    let n: usize = src.len();
    let mut i: usize = 0;
    while i < 32
        invariant
            i <= 32,
            off + 32 <= n,
            n == src@.len(),
            forall|j: int| 0 <= j < i ==> r@[j] == src@[off + j],
        decreases 32 - i,
    {
        r[i] = *vstd::slice::slice_index_get(src, off + i);
        i = i + 1;
    }
    proof {
        assert(r@ =~= src@.subrange(off as int, off as int + 32));
    }
    r
}

} // verus!
