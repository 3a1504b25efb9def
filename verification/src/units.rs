//! Units, the constants of the game's rules, and the integer arithmetic that
//! the rules are written in.

use vstd::prelude::*;

verus! {

/// Thousandths of a pixel in one pixel.
pub const UNIT: u32 = 1_000;

/// Speed of the player along each axis.
pub const MOVEMENT_SPEED: u32 = 200_000;

/// Size of the player at full health.
pub const CIRCLE_SIZE: u32 = 32_000;

/// Time between two shots at full health, in microseconds.
pub const FIRE_RATE: u32 = 250_000;

/// Damage, in pixels, dealt by an obstacle sixteen pixels wide.
pub const BASE_DAMAGE: u32 = 2;

/// Score lost to, or won from, an obstacle of the reference size.
pub const BASE_SCORE: u32 = 10;

/// Largest obstacle the spawner makes.
pub const SQUARE_MAX_SIZE: u32 = 64_000;

/// Smallest obstacle the spawner makes.
pub const SQUARE_MIN_SIZE: u32 = 16_000;

/// Size against which damage and score loss are scaled.
pub const REFERENCE_SIZE: u32 = 16_000;

/// Slowest obstacle the spawner makes.
pub const SQUARE_MIN_SPEED: u32 = 50_000;

/// Fastest obstacle the spawner makes.
pub const SQUARE_MAX_SPEED: u32 = 150_000;

/// Size of a bullet.
pub const BULLET_SIZE: u32 = 4_000;

/// Speed of a bullet: twice that of the player.
pub const BULLET_SPEED: u32 = 400_000;

/// Largest width or height of a screen.
pub const MAX_SCREEN: u32 = 1_000_000_000;

/// The coordinate nearest to `v` that a shape can hold.
pub open spec fn saturate(v: int) -> int {
    if v < i32::MIN {
        i32::MIN as int
    } else if v > i32::MAX {
        i32::MAX as int
    } else {
        v
    }
}

/// The distance covered at `speed` during `dt` microseconds, whole
/// thousandths of a pixel only.
pub open spec fn travel(speed: int, dt: int) -> int {
    speed * dt / 1_000_000
}

/// `num / den` rounded to the nearest integer, a half rounding up.
pub open spec fn round_div(num: int, den: int) -> int {
    (num + den / 2) / den
}

/// `v` held inside `lo ..= hi`; `lo` where the interval is empty.
pub open spec fn clamp(v: int, lo: int, hi: int) -> int {
    if v < lo || hi < lo {
        lo
    } else if v > hi {
        hi
    } else {
        v
    }
}

/// Brings a coordinate back into the range that a shape can hold.
pub fn saturating_coord(v: i64) -> (r: i32)
    ensures
        r == saturate(v as int),
{
    if v < i32::MIN as i64 {
        i32::MIN
    } else if v > i32::MAX as i64 {
        i32::MAX
    } else {
        v as i32
    }
}

/// Distance covered at `speed` during `dt` microseconds.
pub fn distance(speed: u32, dt: u32) -> (r: i64)
    ensures
        r == travel(speed as int, dt as int),
        0 <= r <= 18_446_744_073_710,
{
    assert(0 <= speed * dt <= 0xFFFF_FFFF * 0xFFFF_FFFF) by (nonlinear_arith)
        requires
            0 <= speed <= 0xFFFF_FFFF,
            0 <= dt <= 0xFFFF_FFFF,
    ;
    let product: u64 = (speed as u64) * (dt as u64);
    (product / 1_000_000) as i64
}

/// `num / den` rounded to the nearest integer, a half rounding up.
pub fn rounded_quotient(num: u64, den: u64) -> (r: u64)
    requires
        den > 0,
        num + den / 2 <= u64::MAX,
    ensures
        r == round_div(num as int, den as int),
{
    (num + den / 2) / den
}

} // verus!
