//! The rules of damage, healing and score.

use vstd::prelude::*;
use crate::units::{round_div, rounded_quotient, BASE_DAMAGE, BASE_SCORE, CIRCLE_SIZE, REFERENCE_SIZE, SQUARE_MAX_SIZE, UNIT};

verus! {

/// Size lost by the player to an obstacle of the given size:
/// `BASE_DAMAGE` pixels for each sixteen pixels of the obstacle.
pub open spec fn damage(obstacle_size: int) -> int {
    BASE_DAMAGE * obstacle_size / 16
}

/// The player's size after a hit: what is left is rounded to the nearest
/// whole pixel, a half rounding up, and nothing is left below zero.
pub open spec fn size_after_hit(size: int, obstacle_size: int) -> int {
    if size <= damage(obstacle_size) {
        0
    } else {
        round_div(size - damage(obstacle_size), UNIT as int) * UNIT
    }
}

/// Score lost to an obstacle of the given size: `BASE_SCORE` for each
/// sixteen pixels, rounded to the nearest point.
pub open spec fn score_penalty(obstacle_size: int) -> int {
    round_div(BASE_SCORE * obstacle_size, REFERENCE_SIZE as int)
}

/// The score after a hit: it loses the penalty and stops at zero.
pub open spec fn score_after_hit(score: int, obstacle_size: int) -> int {
    if score <= score_penalty(obstacle_size) {
        0
    } else {
        score - score_penalty(obstacle_size)
    }
}

/// The player's size after a bullet has destroyed an obstacle: it grows by
/// one pixel for each time the obstacle fits into the largest obstacle, up
/// to full health. An obstacle without extent heals fully.
pub open spec fn size_after_kill(size: int, obstacle_size: int) -> int {
    if obstacle_size <= 0 {
        CIRCLE_SIZE as int
    } else if size + SQUARE_MAX_SIZE * UNIT / obstacle_size >= CIRCLE_SIZE {
        CIRCLE_SIZE as int
    } else {
        size + SQUARE_MAX_SIZE * UNIT / obstacle_size
    }
}

/// Score won by destroying an obstacle of the given size: `BASE_SCORE` for
/// each time it fits into the largest obstacle, rounded to the nearest
/// point. An obstacle without extent is worth as much as the score can hold.
pub open spec fn score_reward(obstacle_size: int) -> int {
    if obstacle_size <= 0 {
        u32::MAX as int
    } else {
        round_div(BASE_SCORE * SQUARE_MAX_SIZE, obstacle_size)
    }
}

/// The score after a kill: it wins the reward and stops at the largest
/// value that it can hold.
pub open spec fn score_after_kill(score: int, obstacle_size: int) -> int {
    if score + score_reward(obstacle_size) >= u32::MAX {
        u32::MAX as int
    } else {
        score + score_reward(obstacle_size)
    }
}

/// The player's size after an obstacle of size `obstacle_size` has hit it.
pub fn damaged_size(size: u32, obstacle_size: u32) -> (r: u32)
    ensures
        r == size_after_hit(size as int, obstacle_size as int),
        size <= CIRCLE_SIZE ==> r <= CIRCLE_SIZE,
        r <= size + UNIT / 2,
{
    let lost: u64 = 2 * (obstacle_size as u64) / 16;
    if (size as u64) <= lost {
        0
    } else {
        let left: u64 = size as u64 - lost;
        let pixels: u64 = rounded_quotient(left, 1_000);
        (pixels * 1_000) as u32
    }
}

/// The score after an obstacle of size `obstacle_size` has hit the player.
pub fn penalised_score(score: u32, obstacle_size: u32) -> (r: u32)
    ensures
        r == score_after_hit(score as int, obstacle_size as int),
        r <= score,
{
    let penalty: u64 = rounded_quotient(10 * (obstacle_size as u64), 16_000);
    if (score as u64) <= penalty {
        0
    } else {
        (score as u64 - penalty) as u32
    }
}

/// The player's size after a bullet has destroyed an obstacle of size
/// `obstacle_size`.
pub fn healed_size(size: u32, obstacle_size: u32) -> (r: u32)
    ensures
        r == size_after_kill(size as int, obstacle_size as int),
        r <= CIRCLE_SIZE,
        size <= CIRCLE_SIZE ==> size <= r,
{
    if obstacle_size == 0 {
        CIRCLE_SIZE
    } else {
        let gain: u64 = 64_000_000 / (obstacle_size as u64);
        let grown: u64 = size as u64 + gain;
        if grown >= CIRCLE_SIZE as u64 {
            CIRCLE_SIZE
        } else {
            grown as u32
        }
    }
}

/// The score after a bullet has destroyed an obstacle of size
/// `obstacle_size`.
pub fn rewarded_score(score: u32, obstacle_size: u32) -> (r: u32)
    ensures
        r == score_after_kill(score as int, obstacle_size as int),
        r >= score,
{
    if obstacle_size == 0 {
        u32::MAX
    } else {
        let reward: u64 = rounded_quotient(640_000, obstacle_size as u64);
        let total: u64 = score as u64 + reward;
        if total >= u32::MAX as u64 {
            u32::MAX
        } else {
            total as u32
        }
    }
}

/// After a hit the player's size lies between zero and full health, given
/// that it did before, and the score between zero and what it was.
pub proof fn hit_bounds(size: int, score: int, obstacle_size: int)
    requires
        0 <= size,
        0 <= score,
        0 <= obstacle_size,
    ensures
        0 <= size_after_hit(size, obstacle_size),
        size <= CIRCLE_SIZE ==> size_after_hit(size, obstacle_size) <= CIRCLE_SIZE,
        0 <= score_after_hit(score, obstacle_size) <= score,
{
}

/// After a kill the player's size lies between what it was and full
/// health, given that it did not exceed full health before.
pub proof fn kill_bounds(size: int, obstacle_size: int)
    requires
        0 <= size <= CIRCLE_SIZE,
    ensures
        size <= size_after_kill(size, obstacle_size) <= CIRCLE_SIZE,
{
    if obstacle_size > 0 {
        assert(SQUARE_MAX_SIZE * UNIT / obstacle_size >= 0) by (nonlinear_arith)
            requires
                obstacle_size > 0,
        ;
    }
}

/// The score after a run of hits by obstacles of the given sizes, in order.
pub open spec fn score_after_hits(score: int, sizes: Seq<int>) -> int
    decreases sizes.len(),
{
    if sizes.len() == 0 {
        score
    } else {
        score_after_hit(score_after_hits(score, sizes.drop_last()), sizes.last())
    }
}

/// However long the run of hits, the score never goes below zero, and
/// never above where it started.
pub proof fn score_never_negative(score: int, sizes: Seq<int>)
    requires
        0 <= score,
        forall|i: int| 0 <= i < sizes.len() ==> 0 <= #[trigger] sizes[i],
    ensures
        0 <= score_after_hits(score, sizes) <= score,
    decreases sizes.len(),
{
    if sizes.len() > 0 {
        score_never_negative(score, sizes.drop_last());
        hit_bounds(0, score_after_hits(score, sizes.drop_last()), sizes.last());
    }
}

} // verus!
