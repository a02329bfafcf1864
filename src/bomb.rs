//! The hazard: armed (visible) until its time runs out or the snake meets
//! it, then hidden until it respawns somewhere else.
use vstd::prelude::*;
use crate::geometry::{Color, Item};

verus! {

/// Milliseconds an armed hazard stays before it hides by itself.
pub const BOMB_TIMEOUT_MS: u64 = 7000;

/// A hidden hazard respawns on a tick with odds of one in this many.
pub const RESPAWN_ODDS: u16 = 100;

pub struct Bomb {
    pub item: Item,
    pub visible: bool,
    /// Milliseconds it stays armed.
    pub timeout: u64,
    /// Clock reading, in milliseconds, when it was last armed.
    pub armed_at: u64,
}

impl Bomb {
    /// Armed, and its time has run out at clock reading `now`.
    pub open spec fn expired_at(&self, now: u64) -> bool {
        self.visible && now >= self.armed_at + self.timeout
    }

    /// An armed hazard at `(x, y)`, armed at clock reading `armed_at`.
    pub fn new_bomb(figure: char, color: Color, x: u16, y: u16, timeout: u64, armed_at: u64) -> (r: Bomb)
        ensures
            r.item == (Item { figure, color, x, y }),
            r.visible,
            r.timeout == timeout,
            r.armed_at == armed_at,
    {
        Bomb { item: Item::new(figure, color, x, y), visible: true, timeout, armed_at }
    }

    pub fn hide_bomb(&mut self)
        ensures
            *final(self) == (Bomb { visible: false, ..*old(self) }),
    {
        self.visible = false;
    }

    /// Arms it again at `(x, y)`, with its time counted from `now`.
    pub fn reset_bomb(&mut self, x: u16, y: u16, now: u64)
        ensures
            final(self).item == (Item { x, y, ..old(self).item }),
            final(self).visible,
            final(self).timeout == old(self).timeout,
            final(self).armed_at == now,
    {
        self.item.x = x;
        self.item.y = y;
        self.visible = true;
        self.armed_at = now;
    }

    /// Hides it if its time has run out at clock reading `now`.
    pub fn expire(&mut self, now: u64)
        ensures
            *final(self) == if old(self).expired_at(now) {
                Bomb { visible: false, ..*old(self) }
            } else {
                *old(self)
            },
    {
        if self.visible && now >= self.armed_at && now - self.armed_at >= self.timeout {
            self.hide_bomb();
        }
    }

    /// Given a roll in `0..RESPAWN_ODDS`: a hidden hazard respawns at `(x, y)`
    /// when the roll is zero; otherwise nothing changes.
    pub fn respawn_with(&mut self, roll: u16, x: u16, y: u16, now: u64) -> (r: bool)
        ensures
            r == (!old(self).visible && roll == 0),
            r ==> final(self).item == (Item { x, y, ..old(self).item }) && final(self).visible
                && final(self).timeout == old(self).timeout && final(self).armed_at == now,
            !r ==> *final(self) == *old(self),
    {
        if !self.visible && roll == 0 {
            self.reset_bomb(x, y, now);
            true
        } else {
            false
        }
    }
}

} // verus!
