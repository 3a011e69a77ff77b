//! The speed curve: the tick delay shrinks linearly with the score and
//! never drops below a floor.
use vstd::prelude::*;

verus! {

/// The delay, in milliseconds, of the first tick of a game.
pub const MAX_MOVE_DELAY: u64 = 150;

/// The floor the delay never drops below.
pub const MIN_MOVE_DELAY: u64 = 50;

/// The tick delay for a given score: `MAX_MOVE_DELAY - score`, clamped so it
/// never drops below `MIN_MOVE_DELAY`.
pub open spec fn delay_spec(score: u64) -> u64 {
    if score >= MAX_MOVE_DELAY - MIN_MOVE_DELAY {
        MIN_MOVE_DELAY
    } else {
        (MAX_MOVE_DELAY - score) as u64
    }
}

/// The speed curve starts at `MAX_MOVE_DELAY`, never drops below
/// `MIN_MOVE_DELAY`, is non-increasing in the score, and settles at the
/// floor once the score reaches `MAX_MOVE_DELAY - MIN_MOVE_DELAY`.
pub proof fn lemma_delay_curve(s1: u64, s2: u64)
    requires
        s1 <= s2,
    ensures
        delay_spec(0) == MAX_MOVE_DELAY,
        MIN_MOVE_DELAY <= delay_spec(s1) <= MAX_MOVE_DELAY,
        delay_spec(s2) <= delay_spec(s1),
        s1 >= MAX_MOVE_DELAY - MIN_MOVE_DELAY ==> delay_spec(s1) == MIN_MOVE_DELAY,
{
}

} // verus!
