//! Collision and combat resolution: first the obstacles against the player,
//! then the bullets against the obstacles that are left.

use vstd::prelude::*;
use crate::combat::{
    damaged_size, healed_size, hit_bounds, penalised_score, rewarded_score, score_after_hit,
    score_after_kill, size_after_hit, size_after_kill,
};
use crate::shape::Shape;
use crate::units::CIRCLE_SIZE;

verus! {

/// What a frame's collisions read and change besides the shapes in flight.
#[derive(Clone, Copy, Debug, PartialEq, Eq, Structural)]
pub struct Tally {
    /// The player; its size is its health.
    pub player: Shape,
    pub score: u32,
    /// The best score on record.
    pub high_score: u32,
    /// Whether this game has set a new high score.
    pub new_high_score: bool,
    /// Whether the player has died.
    pub game_over: bool,
    /// The high score to store, where a new one was set.
    pub persist: Option<u32>,
}

impl Tally {
    /// The player is no larger than at full health.
    pub open spec fn wf(self) -> bool {
        self.player.size <= CIRCLE_SIZE
    }
}

/// Two shapes differ in size at most.
pub open spec fn same_but_size(a: Shape, b: Shape) -> bool {
    a == (Shape { size: a.size, ..b })
}

/// The tally after the player has met one obstacle. Where they collide, the
/// player shrinks and the score drops; where nothing of the player is left,
/// the game is over, and a score above the record becomes the new record,
/// to be stored.
pub open spec fn after_obstacle(t: Tally, o: Shape) -> Tally {
    if t.player.collides_with_spec(o) {
        let size = size_after_hit(t.player.size as int, o.size as int) as u32;
        let score = score_after_hit(t.score as int, o.size as int) as u32;
        let dead = size == 0;
        let record = dead && score > t.high_score;
        Tally {
            player: Shape { size, ..t.player },
            score,
            high_score: if record { score } else { t.high_score },
            new_high_score: t.new_high_score || record,
            game_over: t.game_over || dead,
            persist: if record { Some(score) } else { t.persist },
        }
    } else {
        t
    }
}

/// Whether an obstacle stays in the field: it has not touched the player,
/// has not yet passed the bottom edge by its own size, and no bullet has
/// struck it.
pub open spec fn stays(t: Tally, o: Shape, screen_height: u32) -> bool {
    &&& !t.player.collides_with_spec(o)
    &&& o.y < screen_height + o.size
    &&& !o.collided
}

/// The tally after the player has met the first `n` obstacles, in order.
pub open spec fn tally_after(t: Tally, obstacles: Seq<Shape>, n: nat) -> Tally
    decreases n,
{
    if n == 0 {
        t
    } else {
        after_obstacle(tally_after(t, obstacles, (n - 1) as nat), obstacles[n - 1])
    }
}

/// Those of the first `n` obstacles that stay, in order. Each is judged
/// against the player as the obstacles before it have left it.
pub open spec fn staying(t: Tally, obstacles: Seq<Shape>, screen_height: u32, n: nat) -> Seq<Shape>
    decreases n,
{
    if n == 0 {
        Seq::empty()
    } else {
        let before = staying(t, obstacles, screen_height, (n - 1) as nat);
        if stays(tally_after(t, obstacles, (n - 1) as nat), obstacles[n - 1], screen_height) {
            before.push(obstacles[n - 1])
        } else {
            before
        }
    }
}

/// Resolves one obstacle against the player.
pub fn meet_obstacle(t: Tally, o: Shape) -> (r: Tally)
    ensures
        r == after_obstacle(t, o),
        t.wf() ==> r.wf(),
        r.score <= t.score,
        same_but_size(r.player, t.player),
{
    if t.player.collides_with(&o) {
        let size: u32 = damaged_size(t.player.size, o.size);
        let score: u32 = penalised_score(t.score, o.size);
        let dead: bool = size == 0;
        let record: bool = dead && score > t.high_score;
        Tally {
            player: Shape { size, ..t.player },
            score,
            high_score: if record { score } else { t.high_score },
            new_high_score: t.new_high_score || record,
            game_over: t.game_over || dead,
            persist: if record { Some(score) } else { t.persist },
        }
    } else {
        t
    }
}

/// Resolves every obstacle against the player, in order, and keeps those
/// that stay in the field.
///
/// No obstacle that is left has touched the player, passed the bottom edge
/// by its own size, or been struck by a bullet.
pub fn resolve_player_hits(t: Tally, obstacles: Vec<Shape>, screen_height: u32) -> (r: (
    Tally,
    Vec<Shape>,
))
    ensures
        r.0 == tally_after(t, obstacles@, obstacles@.len()),
        r.1@ == staying(t, obstacles@, screen_height, obstacles@.len()),
        forall|j: int|
            0 <= j < r.1@.len() ==> (#[trigger] r.1@[j]).y < screen_height + r.1@[j].size
                && !r.1@[j].collided,
        t.wf() ==> r.0.wf(),
        r.0.score <= t.score,
        same_but_size(r.0.player, t.player),
        r.1@.len() <= obstacles@.len(),
{
    let mut tally: Tally = t;
    let mut kept: Vec<Shape> = Vec::new();
    let mut i: usize = 0;
    while i < obstacles.len()
        invariant
            i <= obstacles.len(),
            tally == tally_after(t, obstacles@, i as nat),
            kept@ == staying(t, obstacles@, screen_height, i as nat),
            forall|j: int|
                0 <= j < kept@.len() ==> (#[trigger] kept@[j]).y < screen_height + kept@[j].size
                    && !kept@[j].collided,
            t.wf() ==> tally.wf(),
            tally.score <= t.score,
            same_but_size(tally.player, t.player),
            kept@.len() <= i,
        decreases obstacles.len() - i,
    {
        let o: Shape = obstacles[i];
        let touched: bool = tally.player.collides_with(&o);
        if !touched && (o.y as i64) < screen_height as i64 + o.size as i64 && !o.collided {
            kept.push(o);
        }
        tally = meet_obstacle(tally, o);
        i = i + 1;
    }
    (tally, kept)
}

/// The first obstacle at or after `from` that the bullet collides with, or
/// the number of obstacles where there is none.
pub open spec fn first_hit(bullet: Shape, obstacles: Seq<Shape>, from: int) -> int
    decreases obstacles.len() - from,
{
    if from < 0 || from >= obstacles.len() {
        obstacles.len() as int
    } else if bullet.collides_with_spec(obstacles[from]) {
        from
    } else {
        first_hit(bullet, obstacles, from + 1)
    }
}

/// An obstacle once a bullet has struck it.
pub open spec fn struck(o: Shape) -> Shape {
    Shape { collided: true, ..o }
}

/// The tally after one bullet has flown: where it strikes an obstacle, the
/// player heals and the score grows.
pub open spec fn tally_after_bullet(t: Tally, obstacles: Seq<Shape>, bullet: Shape) -> Tally {
    let i = first_hit(bullet, obstacles, 0);
    if i < obstacles.len() {
        Tally {
            player: Shape {
                size: size_after_kill(t.player.size as int, obstacles[i].size as int) as u32,
                ..t.player
            },
            score: score_after_kill(t.score as int, obstacles[i].size as int) as u32,
            ..t
        }
    } else {
        t
    }
}

/// The obstacles after one bullet has flown: the first that it collides
/// with is marked as struck, and stays in place.
pub open spec fn obstacles_after_bullet(obstacles: Seq<Shape>, bullet: Shape) -> Seq<Shape> {
    let i = first_hit(bullet, obstacles, 0);
    if i < obstacles.len() {
        obstacles.update(i, struck(obstacles[i]))
    } else {
        obstacles
    }
}

/// Whether a bullet flies on: it has struck nothing and has not left the
/// screen by the top edge.
pub open spec fn flies_on(obstacles: Seq<Shape>, bullet: Shape) -> bool {
    &&& first_hit(bullet, obstacles, 0) == obstacles.len()
    &&& 2 * bullet.y > -(bullet.size as int)
}

/// The tally after the first `n` bullets have flown, in order.
pub open spec fn tally_after_bullets(t: Tally, obstacles: Seq<Shape>, bullets: Seq<Shape>, n: nat) -> Tally
    decreases n,
{
    if n == 0 {
        t
    } else {
        tally_after_bullet(
            tally_after_bullets(t, obstacles, bullets, (n - 1) as nat),
            obstacles_after_bullets(obstacles, bullets, (n - 1) as nat),
            bullets[n - 1],
        )
    }
}

/// The obstacles after the first `n` bullets have flown, in order.
pub open spec fn obstacles_after_bullets(obstacles: Seq<Shape>, bullets: Seq<Shape>, n: nat) -> Seq<Shape>
    decreases n,
{
    if n == 0 {
        obstacles
    } else {
        obstacles_after_bullet(
            obstacles_after_bullets(obstacles, bullets, (n - 1) as nat),
            bullets[n - 1],
        )
    }
}

/// Those of the first `n` bullets that fly on, in order. Each is judged
/// against the obstacles as the bullets before it have left them.
pub open spec fn flying(obstacles: Seq<Shape>, bullets: Seq<Shape>, n: nat) -> Seq<Shape>
    decreases n,
{
    if n == 0 {
        Seq::empty()
    } else {
        let before = flying(obstacles, bullets, (n - 1) as nat);
        if flies_on(obstacles_after_bullets(obstacles, bullets, (n - 1) as nat), bullets[n - 1]) {
            before.push(bullets[n - 1])
        } else {
            before
        }
    }
}

/// Two fields hold the same obstacles in the same places, whatever has been
/// struck.
pub open spec fn same_places(a: Seq<Shape>, b: Seq<Shape>) -> bool {
    &&& a.len() == b.len()
    &&& forall|j: int|
        0 <= j < a.len() ==> (#[trigger] a[j]).x == b[j].x && a[j].y == b[j].y && a[j].size
            == b[j].size && a[j].speed == b[j].speed && (b[j].collided ==> a[j].collided)
}

/// Finds the first obstacle that the bullet collides with.
pub fn find_hit(bullet: Shape, obstacles: &Vec<Shape>) -> (r: usize)
    ensures
        r == first_hit(bullet, obstacles@, 0),
        r <= obstacles@.len(),
{
    let mut i: usize = 0;
    while i < obstacles.len()
        invariant
            i <= obstacles.len(),
            first_hit(bullet, obstacles@, 0) == first_hit(bullet, obstacles@, i as int),
        decreases obstacles.len() - i,
    {
        if bullet.collides_with(&obstacles[i]) {
            return i;
        }
        i = i + 1;
    }
    i
}

/// Lets one bullet fly: the result holds the tally, the obstacles, and
/// whether the bullet flies on.
pub fn fly_bullet(t: Tally, obstacles: Vec<Shape>, bullet: Shape) -> (r: (Tally, Vec<Shape>, bool))
    ensures
        r.0 == tally_after_bullet(t, obstacles@, bullet),
        r.1@ == obstacles_after_bullet(obstacles@, bullet),
        r.2 == flies_on(obstacles@, bullet),
        same_places(r.1@, obstacles@),
        t.wf() ==> r.0.wf() && r.0.player.size >= t.player.size,
        r.0.score >= t.score,
        same_but_size(r.0.player, t.player),
{
    let i: usize = find_hit(bullet, &obstacles);
    if i < obstacles.len() {
        let o: Shape = obstacles[i];
        let mut field: Vec<Shape> = obstacles;
        field.set(i, Shape { collided: true, ..o });
        let tally = Tally {
            player: Shape { size: healed_size(t.player.size, o.size), ..t.player },
            score: rewarded_score(t.score, o.size),
            ..t
        };
        (tally, field, false)
    } else {
        let on: bool = 2 * (bullet.y as i64) > -(bullet.size as i64);
        (t, obstacles, on)
    }
}

/// Lets every bullet fly, in order, against the obstacles as the bullets
/// before it have left them, and keeps those that fly on.
pub fn resolve_bullet_hits(t: Tally, obstacles: Vec<Shape>, bullets: Vec<Shape>) -> (r: (
    Tally,
    Vec<Shape>,
    Vec<Shape>,
))
    ensures
        r.0 == tally_after_bullets(t, obstacles@, bullets@, bullets@.len()),
        r.1@ == obstacles_after_bullets(obstacles@, bullets@, bullets@.len()),
        r.2@ == flying(obstacles@, bullets@, bullets@.len()),
        same_places(r.1@, obstacles@),
        t.wf() ==> r.0.wf() && r.0.player.size >= t.player.size,
        r.0.score >= t.score,
        same_but_size(r.0.player, t.player),
        r.2@.len() <= bullets@.len(),
{
    let ghost start = obstacles@;
    let mut tally: Tally = t;
    let mut field: Vec<Shape> = obstacles;
    let mut kept: Vec<Shape> = Vec::new();
    let mut i: usize = 0;
    while i < bullets.len()
        invariant
            i <= bullets.len(),
            tally == tally_after_bullets(t, start, bullets@, i as nat),
            field@ == obstacles_after_bullets(start, bullets@, i as nat),
            kept@ == flying(start, bullets@, i as nat),
            same_places(field@, start),
            t.wf() ==> tally.wf() && tally.player.size >= t.player.size,
            tally.score >= t.score,
            same_but_size(tally.player, t.player),
            kept@.len() <= i,
        decreases bullets.len() - i,
    {
        let b: Shape = bullets[i];
        let (next, after, on) = fly_bullet(tally, field, b);
        tally = next;
        field = after;
        if on {
            kept.push(b);
        }
        i = i + 1;
    }
    (tally, field, kept)
}

/// Every obstacle that stays is above the line that lies its own size
/// below the bottom edge, and no bullet has struck it.
pub proof fn staying_is_above_the_line(t: Tally, obstacles: Seq<Shape>, screen_height: u32, n: nat)
    requires
        n <= obstacles.len(),
    ensures
        forall|j: int|
            0 <= j < staying(t, obstacles, screen_height, n).len() ==> {
                let o = #[trigger] staying(t, obstacles, screen_height, n)[j];
                o.y < screen_height + o.size && !o.collided
            },
    decreases n,
{
    if n > 0 {
        staying_is_above_the_line(t, obstacles, screen_height, (n - 1) as nat);
        let before = staying(t, obstacles, screen_height, (n - 1) as nat);
        let now = staying(t, obstacles, screen_height, n);
        assert forall|j: int| 0 <= j < now.len() implies {
            let o = #[trigger] now[j];
            o.y < screen_height + o.size && !o.collided
        } by {
            if j < before.len() {
                assert(now[j] == before[j]);
            }
        }
    }
}

/// The bullets move no obstacle and remove none: they only mark.
pub proof fn bullets_move_no_obstacle(obstacles: Seq<Shape>, bullets: Seq<Shape>, n: nat)
    requires
        n <= bullets.len(),
    ensures
        same_places(obstacles_after_bullets(obstacles, bullets, n), obstacles),
    decreases n,
{
    if n > 0 {
        bullets_move_no_obstacle(obstacles, bullets, (n - 1) as nat);
        let before = obstacles_after_bullets(obstacles, bullets, (n - 1) as nat);
        first_hit_in_range(bullets[n - 1], before, 0);
    }
}

/// The first hit is an index of an obstacle that the bullet collides with,
/// or the number of obstacles.
pub proof fn first_hit_in_range(bullet: Shape, obstacles: Seq<Shape>, from: int)
    requires
        0 <= from,
    ensures
        from <= first_hit(bullet, obstacles, from) || first_hit(bullet, obstacles, from)
            == obstacles.len(),
        first_hit(bullet, obstacles, from) <= obstacles.len(),
        first_hit(bullet, obstacles, from) < obstacles.len() ==> bullet.collides_with_spec(
            obstacles[first_hit(bullet, obstacles, from)],
        ),
        forall|j: int|
            from <= j < first_hit(bullet, obstacles, from) ==> !bullet.collides_with_spec(
                #[trigger] obstacles[j],
            ),
    decreases obstacles.len() - from,
{
    if from < obstacles.len() && !bullet.collides_with_spec(obstacles[from]) {
        first_hit_in_range(bullet, obstacles, from + 1);
    }
}

/// However many obstacles hit the player, the score neither rises nor
/// falls below zero, and a player no larger than at full health stays so.
pub proof fn hits_only_take(t: Tally, obstacles: Seq<Shape>, n: nat)
    requires
        n <= obstacles.len(),
    ensures
        0 <= tally_after(t, obstacles, n).score <= t.score,
        t.wf() ==> tally_after(t, obstacles, n).wf(),
    decreases n,
{
    if n > 0 {
        hits_only_take(t, obstacles, (n - 1) as nat);
        let before = tally_after(t, obstacles, (n - 1) as nat);
        hit_bounds(
            before.player.size as int,
            before.score as int,
            obstacles[n - 1].size as int,
        );
    }
}

} // verus!
