//! Movement: where the player, the obstacles and the bullets are after a
//! frame of `dt` microseconds.

use vstd::prelude::*;
use crate::screen::Screen;
use crate::shape::Shape;
use crate::units::{clamp, distance, saturate, saturating_coord, travel, MOVEMENT_SPEED};

verus! {

/// The direction along one axis that two opposite keys ask for.
pub open spec fn axis(backward: bool, forward: bool) -> int {
    (if forward { 1int } else { 0int }) - (if backward { 1int } else { 0int })
}

/// The player after its keys have moved it for `dt` microseconds. Each axis
/// moves on its own, at full speed, so a diagonal is faster than a straight
/// line.
pub open spec fn steered(player: Shape, left: bool, right: bool, up: bool, down: bool, dt: u32) -> Shape {
    Shape {
        x: saturate(player.x + axis(left, right) * travel(MOVEMENT_SPEED as int, dt as int)) as i32,
        y: saturate(player.y + axis(up, down) * travel(MOVEMENT_SPEED as int, dt as int)) as i32,
        ..player
    }
}

/// The player held inside the screen, its own size away from each edge.
pub open spec fn confined(player: Shape, screen: Screen) -> Shape {
    Shape {
        x: clamp(player.x as int, player.size as int, screen.width - player.size) as i32,
        y: clamp(player.y as int, player.size as int, screen.height - player.size) as i32,
        ..player
    }
}

/// An obstacle after `dt` microseconds: it has fallen.
pub open spec fn fallen(obstacle: Shape, dt: u32) -> Shape {
    Shape { y: saturate(obstacle.y + travel(obstacle.speed as int, dt as int)) as i32, ..obstacle }
}

/// A bullet after `dt` microseconds: it has risen.
pub open spec fn risen(bullet: Shape, dt: u32) -> Shape {
    Shape { y: saturate(bullet.y - travel(bullet.speed as int, dt as int)) as i32, ..bullet }
}

/// Moves one coordinate of the player.
fn steer_axis(at: i32, backward: bool, forward: bool, step: i64) -> (r: i32)
    requires
        0 <= step <= 18_446_744_073_710,
    ensures
        r == saturate(at + axis(backward, forward) * step),
{
    let mut to: i64 = at as i64;
    if forward {
        to = to + step;
    }
    if backward {
        to = to - step;
    }
    proof {
        let a = axis(backward, forward);
        assert(a * step == if a == 1 {
            step as int
        } else if a == 0 {
            0int
        } else {
            -step
        }) by (nonlinear_arith)
            requires
                a == 1 || a == 0 || a == -1,
        ;
    }
    saturating_coord(to)
}

/// Holds one coordinate inside `lo ..= hi`.
fn clamp_coord(at: i32, lo: i64, hi: i64) -> (r: i32)
    requires
        0 <= lo <= i32::MAX,
    ensures
        r == clamp(at as int, lo as int, hi as int),
{
    let v: i64 = at as i64;
    if v < lo || hi < lo {
        lo as i32
    } else if v > hi {
        hi as i32
    } else {
        at
    }
}

/// Moves the player as its keys ask.
pub fn steer(player: Shape, left: bool, right: bool, up: bool, down: bool, dt: u32) -> (r: Shape)
    ensures
        r == steered(player, left, right, up, down, dt),
{
    let step: i64 = distance(MOVEMENT_SPEED, dt);
    Shape {
        x: steer_axis(player.x, left, right, step),
        y: steer_axis(player.y, up, down, step),
        ..player
    }
}

/// Holds the player inside the screen.
pub fn confine(player: Shape, screen: Screen) -> (r: Shape)
    requires
        player.size <= i32::MAX,
    ensures
        r == confined(player, screen),
        screen.width >= 2 * player.size ==> player.size <= r.x <= screen.width - player.size,
        screen.height >= 2 * player.size ==> player.size <= r.y <= screen.height - player.size,
{
    Shape {
        x: clamp_coord(player.x, player.size as i64, screen.width as i64 - player.size as i64),
        y: clamp_coord(player.y, player.size as i64, screen.height as i64 - player.size as i64),
        ..player
    }
}

/// Lets an obstacle fall for `dt` microseconds.
pub fn fall(obstacle: Shape, dt: u32) -> (r: Shape)
    ensures
        r == fallen(obstacle, dt),
{
    let step: i64 = distance(obstacle.speed, dt);
    Shape { y: saturating_coord(obstacle.y as i64 + step), ..obstacle }
}

/// Lets a bullet rise for `dt` microseconds.
pub fn rise(bullet: Shape, dt: u32) -> (r: Shape)
    ensures
        r == risen(bullet, dt),
{
    let step: i64 = distance(bullet.speed, dt);
    Shape { y: saturating_coord(bullet.y as i64 - step), ..bullet }
}

/// Lets every obstacle fall for `dt` microseconds.
pub fn fall_all(obstacles: Vec<Shape>, dt: u32) -> (r: Vec<Shape>)
    ensures
        r@ == obstacles@.map_values(|o: Shape| fallen(o, dt)),
{
    let mut moved: Vec<Shape> = Vec::new();
    let mut i: usize = 0;
    while i < obstacles.len()
        invariant
            i <= obstacles.len(),
            moved@ == obstacles@.take(i as int).map_values(|o: Shape| fallen(o, dt)),
        decreases obstacles.len() - i,
    {
        moved.push(fall(obstacles[i], dt));
        proof {
            assert(obstacles@.take(i + 1) == obstacles@.take(i as int).push(obstacles@[i as int]));
            assert(moved@ == obstacles@.take(i + 1).map_values(|o: Shape| fallen(o, dt)));
        }
        i = i + 1;
    }
    proof {
        assert(obstacles@.take(i as int) == obstacles@);
    }
    moved
}

/// Lets every bullet rise for `dt` microseconds.
pub fn rise_all(bullets: Vec<Shape>, dt: u32) -> (r: Vec<Shape>)
    ensures
        r@ == bullets@.map_values(|b: Shape| risen(b, dt)),
{
    let mut moved: Vec<Shape> = Vec::new();
    let mut i: usize = 0;
    while i < bullets.len()
        invariant
            i <= bullets.len(),
            moved@ == bullets@.take(i as int).map_values(|b: Shape| risen(b, dt)),
        decreases bullets.len() - i,
    {
        moved.push(rise(bullets[i], dt));
        proof {
            assert(bullets@.take(i + 1) == bullets@.take(i as int).push(bullets@[i as int]));
            assert(moved@ == bullets@.take(i + 1).map_values(|b: Shape| risen(b, dt)));
        }
        i = i + 1;
    }
    proof {
        assert(bullets@.take(i as int) == bullets@);
    }
    moved
}

} // verus!
