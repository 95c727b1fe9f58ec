//! Priority codec: the bidirectional mapping between the submitted priority
//! scale and the upstream priority scale.

use vstd::prelude::*;

verus! {

/// The priority scale runs over `{1, 2, 3, 4}`; anything else is unknown.
pub open spec fn known_priority(p: int) -> bool {
    1 <= p <= 4
}

/// The mapping between the two priority scales: `p` maps to `5 - p` on the
/// scale, and every value off the scale (zero, too large, or negative where
/// representable) maps to the fallback `0`, which signals an unknown priority.
pub open spec fn spec_invert(p: int) -> int {
    if known_priority(p) {
        5 - p
    } else {
        0
    }
}

/// Flip a submitted priority onto the upstream scale. Total: off-scale input
/// is not an error, it yields the fallback `0`.
pub fn invert(p: u64) -> (r: u64)
    ensures
        r as int == spec_invert(p as int),
{
    match p {
        4 => 1,
        3 => 2,
        2 => 3,
        1 => 4,
        _ => 0,
    }
}

/// Law: the mapping is an involution on the scale — inverting twice gives the
/// original priority back, for every priority in `{1, 2, 3, 4}`.
pub proof fn lemma_invert_involutive(p: int)
    requires
        known_priority(p),
    ensures
        spec_invert(spec_invert(p)) == p,
{
}

/// Law: every priority off the scale maps to the fallback `0`, including zero
/// and negative values.
pub proof fn lemma_invert_off_scale(p: int)
    requires
        !known_priority(p),
    ensures
        spec_invert(p) == 0,
{
}

} // verus!
