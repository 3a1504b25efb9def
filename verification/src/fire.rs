//! Fire control: how long the player waits between two shots.

use vstd::prelude::*;
use crate::units::{CIRCLE_SIZE, FIRE_RATE};

verus! {

/// The size below which the player fires no faster.
pub open spec fn fastest_size() -> int {
    (CIRCLE_SIZE / 2) as int
}

/// Microseconds that must pass after a shot before the next, for a player
/// of the given size: `FIRE_RATE` divided by the fire-rate multiplier, which
/// is `CIRCLE_SIZE / size` and at most two.
pub open spec fn cooldown(size: int) -> int {
    if size <= fastest_size() {
        FIRE_RATE * fastest_size() / (CIRCLE_SIZE as int)
    } else {
        FIRE_RATE * size / (CIRCLE_SIZE as int)
    }
}

/// A shot is accepted on a fresh trigger, once more than the cooldown has
/// passed since the last accepted shot.
pub open spec fn fire_accepted(trigger: bool, now: int, last_shot: int, size: int) -> bool {
    trigger && now - last_shot > cooldown(size)
}

/// Microseconds between two shots of a player of the given size.
pub fn cooldown_for(size: u32) -> (r: u64)
    ensures
        r == cooldown(size as int),
        r >= FIRE_RATE / 2,
        size <= CIRCLE_SIZE ==> r <= FIRE_RATE,
{
    let basis: u64 = if size <= 16_000 {
        16_000
    } else {
        size as u64
    };
    250_000 * basis / 32_000
}

/// Whether a shot is accepted at time `now`.
pub fn may_fire(trigger: bool, now: u64, last_shot: u64, size: u32) -> (r: bool)
    ensures
        r == fire_accepted(trigger, now as int, last_shot as int, size as int),
{
    trigger && now >= last_shot && now - last_shot > cooldown_for(size)
}

/// A shot tried no later than the cooldown after an accepted one is
/// rejected, whatever the trigger.
pub proof fn second_shot_within_cooldown_is_rejected(
    trigger: bool,
    first: int,
    second: int,
    size: int,
)
    requires
        second - first <= cooldown(size),
    ensures
        !fire_accepted(trigger, second, first, size),
{
}

} // verus!
