//! The game as one record, and the frame that advances it.

use vstd::prelude::*;
use macroquad::rand::RandGenerator;
use crate::collision::{
    bullets_move_no_obstacle, flying, obstacles_after_bullets, resolve_bullet_hits,
    resolve_player_hits, staying, staying_is_above_the_line, tally_after, tally_after_bullets,
    Tally,
};
use crate::fire::{cooldown, fire_accepted, may_fire};
use crate::motion::{confine, confined, fall_all, fallen, rise_all, risen, steer, steered};
use crate::screen::Screen;
use crate::shape::Shape;
use crate::spawner::{spawn, spawnable};
use crate::state::{leaves, next_state, starts, transition, GameState};
use crate::units::{BULLET_SIZE, BULLET_SPEED, CIRCLE_SIZE, MOVEMENT_SPEED};

verus! {

/// The logical actions of one frame: four directions that are held, and
/// two triggers that are fresh.
#[derive(Clone, Copy, Debug, PartialEq, Eq, Structural)]
pub struct Input {
    pub left: bool,
    pub right: bool,
    pub up: bool,
    pub down: bool,
    pub fire: bool,
    pub cancel: bool,
}

/// What a frame asks of the program around the game.
#[derive(Clone, Copy, Debug, PartialEq, Eq, Structural)]
pub struct Outcome {
    /// The program is to end.
    pub exit: bool,
    /// The high score to store, where a new one was set.
    pub persist: Option<u32>,
}

/// The whole state of the game.
#[derive(Clone, Debug)]
pub struct Game {
    pub state: GameState,
    pub screen: Screen,
    pub player: Shape,
    pub obstacles: Vec<Shape>,
    pub bullets: Vec<Shape>,
    pub score: u32,
    pub high_score: u32,
    pub new_high_score: bool,
    /// When the last accepted shot was fired, in microseconds.
    pub time_of_last_shot: u64,
}

/// The game as a mathematical value: its collections are sequences.
pub struct GameModel {
    pub state: GameState,
    pub screen: Screen,
    pub player: Shape,
    pub obstacles: Seq<Shape>,
    pub bullets: Seq<Shape>,
    pub score: u32,
    pub high_score: u32,
    pub new_high_score: bool,
    pub time_of_last_shot: u64,
}

impl View for Game {
    type V = GameModel;

    open spec fn view(&self) -> GameModel {
        GameModel {
            state: self.state,
            screen: self.screen,
            player: self.player,
            obstacles: self.obstacles@,
            bullets: self.bullets@,
            score: self.score,
            high_score: self.high_score,
            new_high_score: self.new_high_score,
            time_of_last_shot: self.time_of_last_shot,
        }
    }
}

impl GameModel {
    /// The screen is one, and the player is no larger than at full health.
    pub open spec fn wf(self) -> bool {
        &&& self.screen.wf()
        &&& self.player.size <= CIRCLE_SIZE
    }

    /// The tally that the collisions of a frame start from.
    pub open spec fn tally(self, player: Shape) -> Tally {
        Tally {
            player,
            score: self.score,
            high_score: self.high_score,
            new_high_score: self.new_high_score,
            game_over: false,
            persist: None,
        }
    }
}

/// The player of a new game: at full health, in the middle of the screen.
pub open spec fn fresh_player(screen: Screen) -> Shape {
    Shape {
        size: CIRCLE_SIZE,
        speed: MOVEMENT_SPEED,
        x: (screen.width / 2) as i32,
        y: (screen.height / 2) as i32,
        collided: false,
    }
}

/// The game before its first frame: in the menu, with the high score that
/// was on record.
pub open spec fn opening(screen: Screen, high_score: u32) -> GameModel {
    GameModel {
        state: GameState::MainMenu,
        screen,
        player: fresh_player(screen),
        obstacles: Seq::empty(),
        bullets: Seq::empty(),
        score: 0,
        high_score,
        new_high_score: false,
        time_of_last_shot: 0,
    }
}

/// The game as a new round starts: the field is empty, the player is back
/// at full health in the middle of the screen, the score and the shot timer
/// are zero, and no new high score is claimed.
pub open spec fn restarted(g: GameModel) -> GameModel {
    GameModel {
        state: GameState::Playing,
        player: Shape {
            size: CIRCLE_SIZE,
            x: (g.screen.width / 2) as i32,
            y: (g.screen.height / 2) as i32,
            ..g.player
        },
        obstacles: Seq::empty(),
        bullets: Seq::empty(),
        score: 0,
        new_high_score: false,
        time_of_last_shot: 0,
        ..g
    }
}

/// The bullet that the player fires from where it stands.
pub open spec fn shot_from(player: Shape) -> Shape {
    Shape { size: BULLET_SIZE, speed: BULLET_SPEED, x: player.x, y: player.y, collided: false }
}

/// The bullets once the player has tried to fire at time `now`.
pub open spec fn bullets_after_fire(g: GameModel, player: Shape, fire: bool, now: u64) -> Seq<Shape> {
    if fire_accepted(fire, now as int, g.time_of_last_shot as int, player.size as int) {
        g.bullets.push(shot_from(player))
    } else {
        g.bullets
    }
}

/// The obstacles once the spawner has had its turn.
pub open spec fn obstacles_after_spawn(g: GameModel, spawned: Option<Shape>) -> Seq<Shape> {
    match spawned {
        Some(s) => g.obstacles.push(s),
        None => g.obstacles,
    }
}

/// One frame of play, in the order that the rules depend on: the player
/// moves; it fires from where it then stands; it is held inside the screen;
/// the spawner adds its obstacle; obstacles fall and bullets rise; the
/// obstacles are resolved against the player; the bullets are resolved
/// against the obstacles that are left.
pub open spec fn played(g: GameModel, input: Input, now: u64, dt: u32, spawned: Option<Shape>) -> (
    GameModel,
    Outcome,
) {
    let moved = steered(g.player, input.left, input.right, input.up, input.down, dt);
    let shot = fire_accepted(input.fire, now as int, g.time_of_last_shot as int, moved.size as int);
    let bullets = bullets_after_fire(g, moved, input.fire, now).map_values(|b: Shape| risen(b, dt));
    let obstacles = obstacles_after_spawn(g, spawned).map_values(|o: Shape| fallen(o, dt));
    let start = g.tally(confined(moved, g.screen));
    let hit = tally_after(start, obstacles, obstacles.len());
    let left = staying(start, obstacles, g.screen.height, obstacles.len());
    let end = tally_after_bullets(hit, left, bullets, bullets.len());
    (
        GameModel {
            state: next_state(GameState::Playing, input.fire, input.cancel, end.game_over),
            player: end.player,
            obstacles: obstacles_after_bullets(left, bullets, bullets.len()),
            bullets: flying(left, bullets, bullets.len()),
            score: end.score,
            high_score: end.high_score,
            new_high_score: end.new_high_score,
            time_of_last_shot: if shot { now } else { g.time_of_last_shot },
            ..g
        },
        Outcome { exit: false, persist: end.persist },
    )
}

/// One frame, whatever the state. Only play runs the simulation; the menu
/// starts a new game or leaves; the other states wait for their trigger.
pub open spec fn framed(g: GameModel, input: Input, now: u64, dt: u32, spawned: Option<Shape>) -> (
    GameModel,
    Outcome,
) {
    if g.state == GameState::Playing {
        played(g, input, now, dt, spawned)
    } else if starts(g.state, input.fire, input.cancel) {
        (restarted(g), Outcome { exit: false, persist: None })
    } else {
        (
            GameModel { state: next_state(g.state, input.fire, input.cancel, false), ..g },
            Outcome { exit: leaves(g.state, input.cancel), persist: None },
        )
    }
}

impl Game {
    /// The game before its first frame.
    pub fn new(screen: Screen, high_score: u32) -> (r: Game)
        ensures
            r@ == opening(screen, high_score),
            screen.wf() ==> r@.wf(),
    {
        Game {
            state: GameState::MainMenu,
            screen,
            player: Shape {
                size: CIRCLE_SIZE,
                speed: MOVEMENT_SPEED,
                x: (screen.width / 2) as i32,
                y: (screen.height / 2) as i32,
                collided: false,
            },
            obstacles: Vec::new(),
            bullets: Vec::new(),
            score: 0,
            high_score,
            new_high_score: false,
            time_of_last_shot: 0,
        }
    }

    /// One frame of play at time `now`, `dt` microseconds after the last,
    /// with the obstacle that the spawner has made, if any. The frame is
    /// played whatever state the game was in.
    ///
    /// The player ends the frame inside the screen, as far from each edge
    /// as it was large when the frame began, and no larger than at full
    /// health; every obstacle that is left is above the line that lies its
    /// own size below the bottom edge.
    pub fn play(self, input: Input, now: u64, dt: u32, spawned: Option<Shape>) -> (r: (Game, Outcome))
        requires
            self@.wf(),
        ensures
            r.0@ == played(self@, input, now, dt, spawned).0,
            r.1 == played(self@, input, now, dt, spawned).1,
            r.0@.wf(),
            self.player.size <= r.0.player.x <= self.screen.width - self.player.size,
            self.player.size <= r.0.player.y <= self.screen.height - self.player.size,
            forall|j: int|
                0 <= j < r.0@.obstacles.len() ==> (#[trigger] r.0@.obstacles[j]).y
                    < self.screen.height + r.0@.obstacles[j].size,
    {
        let Game {
            state: _,
            screen,
            player,
            obstacles,
            bullets,
            score,
            high_score,
            new_high_score,
            time_of_last_shot,
        } = self;
        let moved: Shape = steer(player, input.left, input.right, input.up, input.down, dt);
        let shot: bool = may_fire(input.fire, now, time_of_last_shot, moved.size);
        let mut bullets = bullets;
        if shot {
            bullets.push(Shape::bullet(moved.x, moved.y));
        }
        let held: Shape = confine(moved, screen);
        let mut obstacles = obstacles;
        match spawned {
            Some(s) => {
                obstacles.push(s);
            },
            None => {},
        }
        let obstacles = fall_all(obstacles, dt);
        let bullets = rise_all(bullets, dt);
        let start = Tally {
            player: held,
            score,
            high_score,
            new_high_score,
            game_over: false,
            persist: None,
        };
        let (hit, left) = resolve_player_hits(start, obstacles, screen.height);
        let (end, obstacles, bullets) = resolve_bullet_hits(hit, left, bullets);
        (
            Game {
                state: transition(GameState::Playing, input.fire, input.cancel, end.game_over),
                screen,
                player: end.player,
                obstacles,
                bullets,
                score: end.score,
                high_score: end.high_score,
                new_high_score: end.new_high_score,
                time_of_last_shot: if shot { now } else { time_of_last_shot },
            },
            Outcome { exit: false, persist: end.persist },
        )
    }

    /// One frame, whatever the state, with the obstacle that the spawner
    /// has made, if any. Outside play nothing moves and `spawned` is not
    /// looked at.
    pub fn frame(self, input: Input, now: u64, dt: u32, spawned: Option<Shape>) -> (r: (Game, Outcome))
        requires
            self@.wf(),
        ensures
            r.0@ == framed(self@, input, now, dt, spawned).0,
            r.1 == framed(self@, input, now, dt, spawned).1,
            r.0@.wf(),
    {
        match self.state {
            GameState::Playing => self.play(input, now, dt, spawned),
            GameState::MainMenu => {
                if !input.cancel && input.fire {
                    let player = Shape {
                        size: CIRCLE_SIZE,
                        x: (self.screen.width / 2) as i32,
                        y: (self.screen.height / 2) as i32,
                        ..self.player
                    };
                    (
                        Game {
                            state: GameState::Playing,
                            screen: self.screen,
                            player,
                            obstacles: Vec::new(),
                            bullets: Vec::new(),
                            score: 0,
                            high_score: self.high_score,
                            new_high_score: false,
                            time_of_last_shot: 0,
                        },
                        Outcome { exit: false, persist: None },
                    )
                } else {
                    (self, Outcome { exit: input.cancel, persist: None })
                }
            },
            _ => {
                let next = transition(self.state, input.fire, input.cancel, false);
                let mut game = self;
                game.state = next;
                (game, Outcome { exit: false, persist: None })
            },
        }
    }

    /// One frame, whatever the state. In play the spawner first rolls on
    /// `generator` for a new obstacle; outside play nothing is drawn.
    ///
    /// The result is that of `frame` for some obstacle that the spawner may
    /// hand out, or for none.
    pub fn advance(self, input: Input, now: u64, dt: u32, generator: &RandGenerator) -> (r: (
        Game,
        Outcome,
    ))
        requires
            self@.wf(),
        ensures
            exists|spawned: Option<Shape>|
                {
                    &&& r.0@ == (#[trigger] framed(self@, input, now, dt, spawned)).0
                    &&& r.1 == framed(self@, input, now, dt, spawned).1
                    &&& spawned matches Some(s) ==> self.state == GameState::Playing && spawnable(
                        s,
                        self.screen,
                    )
                },
            r.0@.wf(),
    {
        let spawned: Option<Shape> = match self.state {
            GameState::Playing => spawn(generator, self.screen),
            _ => None,
        };
        self.frame(input, now, dt, spawned)
    }
}

/// Only play runs the simulation: in any other state a frame that does
/// not start a new game leaves the player, the field, the scores and the
/// shot timer as they were, and asks for nothing to be stored.
pub proof fn only_play_runs_the_simulation(
    g: GameModel,
    input: Input,
    now: u64,
    dt: u32,
    spawned: Option<Shape>,
)
    requires
        g.state != GameState::Playing,
        !starts(g.state, input.fire, input.cancel),
    ensures
        ({
            let after = framed(g, input, now, dt, spawned).0;
            &&& after.player == g.player
            &&& after.obstacles == g.obstacles
            &&& after.bullets == g.bullets
            &&& after.score == g.score
            &&& after.high_score == g.high_score
            &&& after.new_high_score == g.new_high_score
            &&& after.time_of_last_shot == g.time_of_last_shot
            &&& after.state != GameState::GameOver || g.state == GameState::GameOver
        }),
        framed(g, input, now, dt, spawned).1.persist.is_none(),
{
}

/// A shot that is tried no later than the cooldown after an accepted one
/// spawns no bullet and leaves the shot timer as it was.
pub proof fn second_shot_within_cooldown_changes_nothing(
    g: GameModel,
    first_input: Input,
    first: u64,
    first_dt: u32,
    first_spawned: Option<Shape>,
    second_input: Input,
    second: u64,
    second_dt: u32,
    second_spawned: Option<Shape>,
)
    requires
        fire_accepted(
            first_input.fire,
            first as int,
            g.time_of_last_shot as int,
            g.player.size as int,
        ),
        second - first <= cooldown(
            played(g, first_input, first, first_dt, first_spawned).0.player.size as int,
        ),
    ensures
        ({
            let g1 = played(g, first_input, first, first_dt, first_spawned).0;
            let g2 = played(g1, second_input, second, second_dt, second_spawned).0;
            let moved = steered(
                g1.player,
                second_input.left,
                second_input.right,
                second_input.up,
                second_input.down,
                second_dt,
            );
            &&& g1.time_of_last_shot == first
            &&& g2.time_of_last_shot == first
            &&& bullets_after_fire(g1, moved, second_input.fire, second) == g1.bullets
        }),
{
}

/// An obstacle that has passed the bottom edge by its own size when the
/// obstacles are resolved is gone after the frame: every obstacle that a
/// frame of play leaves is above that line.
pub proof fn passed_obstacles_are_gone(
    g: GameModel,
    input: Input,
    now: u64,
    dt: u32,
    spawned: Option<Shape>,
    j: int,
)
    requires
        0 <= j < played(g, input, now, dt, spawned).0.obstacles.len(),
    ensures
        played(g, input, now, dt, spawned).0.obstacles[j].y < g.screen.height + played(
            g,
            input,
            now,
            dt,
            spawned,
        ).0.obstacles[j].size,
{
    let bullets = bullets_after_fire(
        g,
        steered(g.player, input.left, input.right, input.up, input.down, dt),
        input.fire,
        now,
    ).map_values(|b: Shape| risen(b, dt));
    let obstacles = obstacles_after_spawn(g, spawned).map_values(|o: Shape| fallen(o, dt));
    let start = g.tally(
        confined(steered(g.player, input.left, input.right, input.up, input.down, dt), g.screen),
    );
    let left = staying(start, obstacles, g.screen.height, obstacles.len());
    staying_is_above_the_line(start, obstacles, g.screen.height, obstacles.len());
    bullets_move_no_obstacle(left, bullets, bullets.len());
}

} // verus!
