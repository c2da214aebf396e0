//! Where playback stands in a buffer that is played in a loop.

use vstd::prelude::*;

verus! {

/// The place in a buffer of `len` samples of the sample that comes `offset`
/// samples after `position`, when the buffer starts over at its end.
pub open spec fn looped(position: int, offset: int, len: int) -> int {
    (position + offset) % len
}

/// The place in a buffer of `len` samples of the sample that comes `offset`
/// samples after `position`. Playback starts over at the end of the buffer.
pub fn sample_index(position: usize, offset: usize, len: usize) -> (index: usize)
    requires
        len > 0,
        position + offset <= usize::MAX,
    ensures
        index == looped(position as int, offset as int, len as int),
        index < len,
{
    let mut pos = position + offset;
    if pos >= len {
        pos %= len;
    } else {
        proof {
            vstd::arithmetic::div_mod::lemma_small_mod(pos as nat, len as nat);
        }
    }
    pos
}

} // verus!
