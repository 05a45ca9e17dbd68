use crate::bodies::TimeStamp;
use vstd::prelude::*;

verus! {

/// Rest in milliseconds that the ship's gun needs between two shots fired
/// from the keyboard.
pub const SHOT_SPACING: u64 = 350;

/// The keys that steer the ship, each `true` while held down.
#[derive(Clone, Copy, Debug, PartialEq, Eq, Structural)]
pub struct Keys {
    pub up: bool,
    pub down: bool,
    pub left: bool,
    pub right: bool,
    pub fire: bool,
}

/// What the player asks of the ship in one tick.
#[derive(Clone, Copy, Debug, PartialEq, Eq, Structural)]
pub struct Steering {
    /// 1 to accelerate forwards, -1 backwards, 0 to coast.
    pub thrust: i8,
    /// 1 to turn left, -1 to turn right, 0 to hold the heading.
    pub turn: i8,
    /// Whether a bullet leaves the ship in this tick.
    pub fire: bool,
}

/// Thrust asked for by the keys: forwards wins over backwards.
pub open spec fn thrust_of(keys: Keys) -> int {
    if keys.up {
        1
    } else if keys.down {
        -1
    } else {
        0
    }
}

/// Turn asked for by the keys: right wins over left.
pub open spec fn turn_of(keys: Keys) -> int {
    if keys.right {
        -1
    } else if keys.left {
        1
    } else {
        0
    }
}

/// Turns the keys held at `now` into what the ship does in this tick. The
/// ship fires when the fire key is held and its gun has rested longer than
/// `SHOT_SPACING` since `last_shot`, which then becomes `now`.
pub fn handle_player_input(
    keys: &Keys,
    now: TimeStamp,
    last_shot: &mut TimeStamp,
) -> (steering: Steering)
    ensures
        steering.thrust == thrust_of(*keys),
        steering.turn == turn_of(*keys),
        steering.fire == (keys.fire && old(last_shot).older_than(now, SHOT_SPACING)),
        *final(last_shot) == if steering.fire {
            now
        } else {
            *old(last_shot)
        },
{
    let thrust: i8 = if keys.up {
        1
    } else if keys.down {
        -1
    } else {
        0
    };
    let turn: i8 = if keys.right {
        -1
    } else if keys.left {
        1
    } else {
        0
    };
    let fire = keys.fire && last_shot.is_older_than(now, SHOT_SPACING);
    if fire {
        *last_shot = now;
    }
    Steering { thrust, turn, fire }
}

} // verus!
