//! The collision rules: what a tick does, given what the next head meets.
use vstd::prelude::*;
use crate::geometry::WIN_LENGTH;

verus! {

/// What the cell the head moves into holds.
#[derive(Clone, Copy, PartialEq, Eq, Debug, Structural)]
pub struct Collisions {
    pub will_grow: bool,
    pub hit_wall: bool,
    pub hit_hazard: bool,
    pub self_collision: bool,
}

/// The outcome of one tick.
#[derive(Clone, Copy, PartialEq, Eq, Debug, Structural)]
pub enum Verdict {
    /// The final growth move: the game is won.
    Win,
    /// The game is lost; the snake stays where it is.
    Lose,
    /// The armed hazard takes a segment and hides, then the snake moves.
    Shrink,
    /// The snake moves, growing if it ate.
    Advance,
}

/// The rules, checked in a fixed order for a snake of `len` segments. A wall
/// is fatal only below the winning length.
pub open spec fn verdict(len: int, c: Collisions) -> Verdict {
    if c.will_grow && len + 1 == WIN_LENGTH {
        Verdict::Win
    } else if !c.will_grow && c.hit_wall && len < WIN_LENGTH {
        Verdict::Lose
    } else if c.hit_hazard && len <= 1 {
        Verdict::Lose
    } else if c.self_collision {
        Verdict::Lose
    } else if c.hit_hazard {
        Verdict::Shrink
    } else {
        Verdict::Advance
    }
}

pub fn resolve(len: usize, c: &Collisions) -> (r: Verdict)
    ensures
        r == verdict(len as int, *c),
{
    if c.will_grow && len < WIN_LENGTH && len + 1 == WIN_LENGTH {
        Verdict::Win
    } else if !c.will_grow && c.hit_wall && len < WIN_LENGTH {
        Verdict::Lose
    } else if c.hit_hazard && len <= 1 {
        Verdict::Lose
    } else if c.self_collision {
        Verdict::Lose
    } else if c.hit_hazard {
        Verdict::Shrink
    } else {
        Verdict::Advance
    }
}

/// The game is won exactly when food brings the snake to the winning length.
pub proof fn lemma_win_only_by_growth(len: int, c: Collisions)
    ensures
        verdict(len, c) == Verdict::Win <==> (c.will_grow && len + 1 == WIN_LENGTH),
{
}

/// At or past the winning length a wall alone does not end the game.
pub proof fn lemma_wall_harmless_at_win_length(len: int, c: Collisions)
    requires
        len >= WIN_LENGTH,
        !c.hit_hazard,
        !c.self_collision,
    ensures
        verdict(len, c) != Verdict::Lose,
{
}

/// An armed hazard met by a snake of one segment loses the game; a longer
/// snake that meets nothing else fatal loses one segment to it instead.
pub proof fn lemma_hazard_outcome(len: int, c: Collisions)
    requires
        1 <= len,
        len + 1 < WIN_LENGTH,
        c.hit_hazard,
        !c.hit_wall,
        !c.self_collision,
    ensures
        len == 1 ==> verdict(len, c) == Verdict::Lose,
        len > 1 ==> verdict(len, c) == Verdict::Shrink,
{
}

} // verus!
