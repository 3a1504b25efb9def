//! The spawner: which obstacle, if any, enters the field in a frame.

use vstd::prelude::*;
use macroquad::rand::RandGenerator;
use crate::screen::Screen;
use crate::shape::Shape;
use crate::units::{SQUARE_MAX_SIZE, SQUARE_MAX_SPEED, SQUARE_MIN_SIZE, SQUARE_MIN_SPEED};

verus! {

/// The generator of pseudo-random numbers that the spawner draws from.
#[verifier::external_type_specification]
#[verifier::external_body]
pub struct ExRandGenerator(macroquad::rand::RandGenerator);

/// Number of equally likely rolls.
pub const ROLLS: u32 = 100;

/// The lowest roll that spawns: five rolls in a hundred do.
pub const SPAWN_ROLL: u32 = 95;

/// Whether the roll of a frame spawns an obstacle.
pub open spec fn spawns(roll: u32) -> bool {
    roll >= SPAWN_ROLL
}

/// The obstacle of the given size and speed that enters above the column
/// `x`: it starts just off the top edge, not yet struck.
pub open spec fn entering(size: u32, speed: u32, x: u32) -> Shape {
    Shape { size, speed, x: x as i32, y: (-(size as int)) as i32, collided: false }
}

/// The leftmost column for an obstacle of the given size: half its size
/// from the left edge, rounded up to a whole column.
pub open spec fn leftmost(size: u32) -> int {
    (size + 1) / 2
}

/// The rightmost column for an obstacle of the given size: half its size
/// from the right edge, rounded up to a whole column.
pub open spec fn rightmost(size: u32, screen: Screen) -> int {
    screen.width - (size + 1) / 2
}

/// What the spawner may hand out on the given screen.
pub open spec fn spawnable(s: Shape, screen: Screen) -> bool {
    &&& SQUARE_MIN_SIZE <= s.size <= SQUARE_MAX_SIZE
    &&& SQUARE_MIN_SPEED <= s.speed <= SQUARE_MAX_SPEED
    &&& leftmost(s.size) <= s.x <= rightmost(s.size, screen)
    &&& s.y == -(s.size as int)
    &&& !s.collided
}

/// Whether the box of a shape lies between the left and the right edge of
/// the screen and wholly above its top edge.
pub open spec fn enters_inside(s: Shape, screen: Screen) -> bool {
    &&& 0 <= s.rect_spec().left()
    &&& s.rect_spec().right() <= 2 * screen.width
    &&& s.rect_spec().bottom() <= 0
}

/// Whatever the spawner hands out enters inside the screen's width, from
/// above the top edge.
pub proof fn spawned_box_is_inside(s: Shape, screen: Screen)
    requires
        screen.wf(),
        spawnable(s, screen),
    ensures
        enters_inside(s, screen),
{
}

/// Draws a number from `low ..= high`.
///
/// Calls `RandGenerator::gen_range` of quad-rand, reached as
/// `macroquad::rand`. That function scales the next 32-bit output of the
/// generator into the span between the bounds and truncates; the contract
/// claims only that the number drawn lies between the bounds, both
/// included, and nothing of which number it is.
#[verifier::external_body]
fn draw(generator: &RandGenerator, low: u32, high: u32) -> (r: u32)
    requires
        low <= high,
    ensures
        low <= r <= high,
{
    generator.gen_range(low, high)
}

/// Whether the roll of a frame spawns an obstacle.
pub fn should_spawn(roll: u32) -> (r: bool)
    ensures
        r == spawns(roll),
{
    roll >= SPAWN_ROLL
}

/// The obstacle that enters for the given draws.
pub fn obstacle(size: u32, speed: u32, x: u32) -> (r: Shape)
    requires
        size <= i32::MAX,
        x <= i32::MAX,
    ensures
        r == entering(size, speed, x),
{
    Shape { size, speed, x: x as i32, y: -(size as i32), collided: false }
}

/// Rolls for the frame and, on a spawning roll, draws an obstacle: its size
/// first, then its speed, then its column, which depends on the size.
pub fn spawn(generator: &RandGenerator, screen: Screen) -> (r: Option<Shape>)
    requires
        screen.wf(),
    ensures
        r matches Some(s) ==> spawnable(s, screen) && enters_inside(s, screen),
{
    let roll: u32 = draw(generator, 0, ROLLS);
    if should_spawn(roll) {
        let size: u32 = draw(generator, SQUARE_MIN_SIZE, SQUARE_MAX_SIZE);
        let speed: u32 = draw(generator, SQUARE_MIN_SPEED, SQUARE_MAX_SPEED);
        let margin: u32 = (size + 1) / 2;
        let x: u32 = draw(generator, margin, screen.width - margin);
        Some(obstacle(size, speed, x))
    } else {
        None
    }
}

} // verus!
