//! The size of buffer pools.
use vstd::arithmetic::power2::{lemma_pow2_strictly_increases, lemma_pow2_unfold, pow2};
use vstd::prelude::*;

verus! {

/// Whether `n` is a power of two.
pub open spec fn is_power_of_two(n: int) -> bool {
    exists|e: nat| n == #[trigger] pow2(e)
}

/// Whether `len` is the least power of two that is at least `n`.
pub open spec fn is_rounded_up(len: int, n: int) -> bool {
    &&& is_power_of_two(len)
    &&& n <= len
    &&& forall|p: int| #[trigger] is_power_of_two(p) && n <= p ==> len <= p
}

/// The number of buffers in a pool that is asked for with `buffer_len`: if
/// `buffer_len` is not a power of 2, it is rounded up. A number above 0x8000, the
/// greatest power of two of its type, cannot be rounded up.
pub fn buffer_pool_len(buffer_len: u16) -> (len: u16)
    requires
        buffer_len <= 0x8000,
    ensures
        is_rounded_up(len as int, buffer_len as int),
{
    let mut len: u16 = 1;
    let ghost mut e: nat = 0;
    proof {
        vstd::arithmetic::power2::lemma2_to64();
    }
    while len < buffer_len
        invariant
            buffer_len <= 0x8000,
            len == pow2(e),
            e <= 15,
            pow2(15) == 0x8000,
            e > 0 ==> pow2((e - 1) as nat) < buffer_len,
        decreases 15 - e,
    {
        proof {
            lemma_pow2_unfold(e + 1);
            if e + 1 < 15 {
                lemma_pow2_strictly_increases(e + 1, 15);
            }
            e = e + 1;
        }
        len = len * 2;
    }
    assert forall|p: int| #[trigger] is_power_of_two(p) && buffer_len <= p implies len <= p by {
        let f = choose|f: nat| p == #[trigger] pow2(f);
        if f < e {
            if f < e - 1 {
                lemma_pow2_strictly_increases(f, (e - 1) as nat);
            }
        } else if f > e {
            lemma_pow2_strictly_increases(e, f);
        }
    }
    len
}

} // verus!
