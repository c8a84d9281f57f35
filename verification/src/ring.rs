//! Shared pieces of the two descriptor rings: the single-bit ownership
//! handoff marker and the circular cursor arithmetic.

use vstd::prelude::*;

verus! {

/// Which side of the software/hardware handoff currently owns a descriptor.
///
/// Exactly one side owns a descriptor at any time; the side that does not
/// own it must neither read nor write the paired buffer.
#[derive(Clone, Copy, PartialEq, Eq, Structural, Debug)]
pub enum Ownership {
    /// The DMA engine may fill (receive) or drain (transmit) the buffer.
    Hardware,
    /// Software may inspect or fill the buffer.
    Software,
}

/// The cursor position that follows `c` in a ring of `n` entries.
pub open spec fn next_index(c: nat, n: nat) -> nat {
    if c + 1 == n {
        0
    } else {
        c + 1
    }
}

/// The cursor position reached from `c` after `k` single advances in a ring
/// of `n` entries.
pub open spec fn advanced(c: nat, k: nat, n: nat) -> nat
    decreases k,
{
    if k == 0 {
        c
    } else {
        next_index(advanced(c, (k - 1) as nat, n), n)
    }
}

/// Law: walking a ring of `n` entries from entry 0 visits every entry
/// exactly once — after `k < n` advances the cursor stands on entry `k`,
/// and the `n`-th advance is the first to revisit entry 0.
pub proof fn lemma_ring_traversal(k: nat, n: nat)
    requires
        1 <= n,
        k <= n,
    ensures
        advanced(0, k, n) == if k == n {
            0nat
        } else {
            k
        },
    decreases k,
{
    if k > 0 {
        lemma_ring_traversal((k - 1) as nat, n);
    }
}

/// Advance a ring cursor by one position, wrapping at the ring's length.
pub(crate) fn advance_cursor(c: usize, n: usize) -> (r: usize)
    requires
        c < n,
    ensures
        r as nat == next_index(c as nat, n as nat),
        r < n,
{
    if c + 1 == n {
        0
    } else {
        c + 1
    }
}

} // verus!
