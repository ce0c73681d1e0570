use vstd::prelude::*;
use crate::staleness::age_of;

verus! {

/// Frames for which the box of a participant who is no longer told of stays on screen.
pub const CACHE_TTL_FRAMES: u32 = 90;

/// The same for a participant last seen closer than 30 metres.
pub const CACHE_TTL_MEDIUM: u32 = 150;

/// The same for a participant last seen closer than 10 metres.
pub const CACHE_TTL_NEAR: u32 = 300;

/// Bit patterns of the single-precision numbers 10 and 30, and of positive infinity.
pub const TEN_METRES: u32 = 0x4120_0000;

pub const THIRTY_METRES: u32 = 0x41F0_0000;

pub const POSITIVE_INFINITY: u32 = 0x7F80_0000;

/// Whether the overlay is shown, and whether the toggle key was down at the last poll.
#[derive(Clone, Copy, Debug, PartialEq, Eq, Structural)]
pub struct Toggle {
    pub visible: bool,
    pub was_down: bool,
}

impl Toggle {
    pub fn new() -> (t: Toggle)
        ensures
            t == (Toggle { visible: true, was_down: false }),
    {
        Toggle { visible: true, was_down: false }
    }

    /// The toggle after a poll that found the key down or up: visibility
    /// flips when the key goes down, not while it is held.
    pub open spec fn polled(self, down: bool) -> Toggle {
        Toggle { visible: if down && !self.was_down {
            !self.visible
        } else {
            self.visible
        }, was_down: down }
    }

    /// Takes note of the state of the key and tells whether the overlay is shown.
    pub fn poll(&mut self, down: bool) -> (visible: bool)
        ensures
            *final(self) == old(self).polled(down),
            visible == final(self).visible,
    {
        if down && !self.was_down {
            self.visible = !self.visible;
        }
        self.was_down = down;
        self.visible
    }
}

/// A distance, given as the bit pattern of a single-precision number, is
/// known when the number is greater than zero.
pub open spec fn known_distance(dist: u32) -> bool {
    0 < dist <= 0x7F80_0000
}

/// Frames for which a box outlives its participant: the nearer the
/// participant was, the longer. `fallback` holds for a distance that is
/// not known or is 30 metres or more.
pub open spec fn ttl_for(dist: u32, fallback: u32) -> u32 {
    if known_distance(dist) && dist < 0x4120_0000 {
        300
    } else if known_distance(dist) && dist < 0x41F0_0000 {
        150
    } else {
        fallback
    }
}

pub fn cache_ttl(dist: u32, fallback: u32) -> (ttl: u32)
    ensures
        ttl == ttl_for(dist, fallback),
{
    if 0 < dist && dist <= POSITIVE_INFINITY {
        if dist < TEN_METRES {
            CACHE_TTL_NEAR
        } else if dist < THIRTY_METRES {
            CACHE_TTL_MEDIUM
        } else {
            fallback
        }
    } else {
        fallback
    }
}

/// A box is still shown at `frame` when its participant was seen at all
/// and no more than `ttl` frames have passed since.
pub open spec fn shown(frame: u32, seen: u32, ttl: u32) -> bool {
    seen != 0 && age_of(frame, seen) <= ttl
}

pub fn cached_box_shown(frame: u32, seen: u32, ttl: u32) -> (r: bool)
    ensures
        r == shown(frame, seen, ttl),
{
    if seen == 0 {
        return false;
    }
    let age = frame.wrapping_sub(seen);
    assert(age == age_of(frame, seen));
    age <= ttl
}

} // verus!
