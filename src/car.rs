use vstd::prelude::*;

verus! {

/// Where an NPC car whose box overlaps the player's car lies, as measured by
/// the engine against the middle of the road and the player's front.
#[derive(Clone, Copy, Debug, PartialEq, Eq, Structural)]
pub struct Overlap {
    /// Its box lies above the middle of the road.
    pub upper_lane: bool,
    /// Its box starts right of the middle of the screen.
    pub starts_right: bool,
    /// Its box ends left of the middle of the screen.
    pub ends_left: bool,
    /// Its box ends beyond a quarter of the player's half length.
    pub ends_past_front: bool,
    /// Its box starts before a quarter of the player's half length.
    pub starts_before_front: bool,
}

/// How an NPC car touches the player's car.
#[derive(Clone, Copy, Debug, PartialEq, Eq, Structural)]
pub struct Contact {
    pub intersects_player: bool,
    pub blocks_player_movement: bool,
}

/// The contact of an NPC car that overlaps as `overlap` says, or none. A car
/// wholly on one side of the middle touches the player and blocks only a
/// player facing it. One across the middle in the upper lane blocks a player
/// facing left, and one facing right once it ends past the front; in the
/// lower lane, mirrored. Otherwise it does not touch.
pub open spec fn contact_of(overlap: Option<Overlap>, facing_left: bool) -> Contact {
    match overlap {
        None => Contact { intersects_player: false, blocks_player_movement: false },
        Some(o) => if o.upper_lane {
            if o.starts_right {
                Contact { intersects_player: true, blocks_player_movement: !facing_left }
            } else if facing_left || o.ends_past_front {
                Contact { intersects_player: true, blocks_player_movement: true }
            } else {
                Contact { intersects_player: false, blocks_player_movement: false }
            }
        } else {
            if o.ends_left {
                Contact { intersects_player: true, blocks_player_movement: facing_left }
            } else if !facing_left || o.starts_before_front {
                Contact { intersects_player: true, blocks_player_movement: true }
            } else {
                Contact { intersects_player: false, blocks_player_movement: false }
            }
        },
    }
}

/// Decides how an NPC car touches the player's car.
pub fn player_contact(overlap: Option<Overlap>, facing_left: bool) -> (r: Contact)
    ensures
        r == contact_of(overlap, facing_left),
{
    match overlap {
        None => Contact { intersects_player: false, blocks_player_movement: false },
        Some(o) => {
            if o.upper_lane {
                if o.starts_right {
                    Contact { intersects_player: true, blocks_player_movement: !facing_left }
                } else if facing_left {
                    Contact { intersects_player: true, blocks_player_movement: true }
                } else if o.ends_past_front {
                    Contact { intersects_player: true, blocks_player_movement: true }
                } else {
                    Contact { intersects_player: false, blocks_player_movement: false }
                }
            } else {
                if o.ends_left {
                    Contact { intersects_player: true, blocks_player_movement: facing_left }
                } else if !facing_left {
                    Contact { intersects_player: true, blocks_player_movement: true }
                } else if o.starts_before_front {
                    Contact { intersects_player: true, blocks_player_movement: true }
                } else {
                    Contact { intersects_player: false, blocks_player_movement: false }
                }
            }
        },
    }
}

/// The sprite frame of the player's car after a frame: while it moves, the
/// next frame of the facing's strip `min..=max` each time the animation timer
/// runs out, back to `min` after `max`; while it stands, `min`.
pub open spec fn frame_of(index: int, min: int, max: int, moving: bool, timer_done: bool) -> int {
    if moving {
        if timer_done {
            if index >= max {
                min
            } else {
                index + 1
            }
        } else {
            index
        }
    } else {
        min
    }
}

/// The next sprite frame of the player's car, as `frame_of` states.
pub fn player_frame(index: usize, min: usize, max: usize, moving: bool, timer_done: bool) -> (r:
    usize)
    ensures
        r == frame_of(index as int, min as int, max as int, moving, timer_done),
{
    if moving {
        if timer_done {
            if index >= max {
                min
            } else {
                index + 1
            }
        } else {
            index
        }
    } else {
        min
    }
}

} // verus!
