//! The per-event decision logic of the simulation: which collision comes
//! next, and the exact (bit-level) parts of each state transition.

use vstd::prelude::*;

verus! {

/// Bit mask of the sign bit of an IEEE-754 double-precision value.
pub const SIGN_BIT: u64 = 0x8000_0000_0000_0000;

/// The two kinds of discrete event the simulation can produce: the light
/// block striking the wall, or the two blocks striking each other. A value
/// of this type is a transient, per-step decision; it is never stored.
#[derive(Clone, Copy, PartialEq, Eq, Structural, Debug)]
pub enum Collision {
    Wall,
    Blocks,
}

/// The kinematic state of the two blocks at one instant. Each field holds
/// the IEEE-754 double-precision bit pattern of the quantity it names:
/// `p1`/`v1` are the position and velocity of the light (wall-adjacent)
/// block, `p2`/`v2` those of the heavy block.
#[derive(Clone, Copy, PartialEq, Eq, Structural, Debug)]
pub struct KinematicState {
    pub p1: u64,
    pub v1: u64,
    pub p2: u64,
    pub v2: u64,
}

/// The bit pattern of the exact negation of the value with bit pattern `v`:
/// IEEE-754 negation flips the sign bit and nothing else.
pub open spec fn sign_flipped(v: u64) -> u64 {
    v ^ SIGN_BIT
}

/// Reflecting a velocity twice restores it exactly.
pub proof fn lemma_reflection_involution(v: u64)
    ensures
        sign_flipped(sign_flipped(v)) == v,
{
    assert((v ^ 0x8000_0000_0000_0000u64) ^ 0x8000_0000_0000_0000u64 == v) by (bit_vector);
}

/// Selects the next collision from the two candidate times-to-collision, or
/// `None` when the simulation has no further reachable collision.
///
/// A candidate is passed as `Some(bits)` only when it is valid, i.e. the
/// time is finite and strictly positive; `None` marks an invalid candidate
/// (the bodies are separating or momentarily coincident). For finite,
/// strictly positive values the unsigned order of the bit patterns is the
/// numeric order, so the comparison below picks the earlier event.
///
/// When both candidates are valid and exactly equal, the block-block
/// collision wins. The tie-break is intentional and preserved for
/// output compatibility; it is not physically motivated.
pub fn next_collision(wall_time: Option<u64>, block_time: Option<u64>) -> (r: Option<Collision>)
    ensures
        r == (match (wall_time, block_time) {
            (Option::None, Option::None) => Option::<Collision>::None,
            (Option::Some(_), Option::None) => Option::Some(Collision::Wall),
            (Option::None, Option::Some(_)) => Option::Some(Collision::Blocks),
            (Option::Some(w), Option::Some(b)) => if w < b {
                Option::Some(Collision::Wall)
            } else {
                Option::Some(Collision::Blocks)
            },
        }),
{
    match (wall_time, block_time) {
        (None, None) => None,
        (Some(_), None) => Some(Collision::Wall),
        (None, Some(_)) => Some(Collision::Blocks),
        (Some(w), Some(b)) => if w < b {
            Some(Collision::Wall)
        } else {
            Some(Collision::Blocks)
        },
    }
}

/// Applies the exact part of a wall bounce to the state: the light block
/// lands exactly on the wall (`p1` becomes the bit pattern of positive
/// zero) and its velocity is exactly reversed (sign bit flipped); the heavy
/// block's velocity is unchanged. The heavy block's advanced position,
/// the one quantity of this transition that needs real arithmetic, is
/// computed by the caller and passed in as `p2_new`.
pub fn apply_wall(s: KinematicState, p2_new: u64) -> (r: KinematicState)
    ensures
        r.p1 == 0u64,
        r.v1 == sign_flipped(s.v1),
        r.p2 == p2_new,
        r.v2 == s.v2,
{
    KinematicState { p1: 0, v1: s.v1 ^ SIGN_BIT, p2: p2_new, v2: s.v2 }
}

/// Applies the exact part of a block-block collision to the state: both
/// blocks sit at exactly the same position at the collision instant. The
/// advanced position `p1_new` and the post-collision velocities `v1_new`
/// and `v2_new` come from the caller's elastic-collision arithmetic; this
/// function guarantees the exact coincidence of the two positions.
pub fn apply_blocks(s: KinematicState, p1_new: u64, v1_new: u64, v2_new: u64) -> (r:
    KinematicState)
    ensures
        r.p1 == p1_new,
        r.p2 == r.p1,
        r.v1 == v1_new,
        r.v2 == v2_new,
{
    KinematicState { p1: p1_new, v1: v1_new, p2: p1_new, v2: v2_new }
}

} // verus!
