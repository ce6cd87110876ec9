//! Scenarios: what a session starts with, when it is over, and what it
//! draws to show progress.
//!
//! The set of scenarios is closed, so a scenario is a value of one enum. The
//! registry maps each stable name to a fresh scenario of that name.

use vstd::prelude::*;
use crate::text::same_text;
use crate::vec2::{distance_squared, length_squared, Vec2};
use crate::random::{draw, pick};
use crate::world::{
    same_state, Bullet, BulletHandle, Ship, ShipClass, ShipHandle, Wall, World, ASTEROID_TEAM,
    BULLET_LIFETIME_TICKS, ENEMY_TEAM, PLAYER_TEAM,
};

verus! {

/// Ticks that the controlled ship has to hold its position for.
pub const HOLD_TICKS: i32 = 120;

/// Radius round the target inside which the ship counts as on target.
pub const HOLD_RADIUS: u32 = 50_000;

/// Speed under which the ship counts as stopped, per second.
pub const HOLD_SPEED: u32 = 1_000;

/// Where the fixed target lies, along the first axis.
pub const FIXED_TARGET_X: i32 = 200_000;

/// Where the fixed target lies, along the second axis.
pub const FIXED_TARGET_Y: i32 = 0;

/// Random targets have both coordinates in `-TARGET_RANGE..TARGET_RANGE`.
pub const TARGET_RANGE: i32 = 500_000;

/// Side of the square arena.
pub const WORLD_SIZE: i32 = 10_000_000;

/// Thickness of the arena's walls.
pub const WALL_WIDTH: i32 = 10_000;

/// A quarter turn, in millionths of a radian.
pub const QUARTER_TURN: i32 = 1_570_796;

/// A half turn, in millionths of a radian.
pub const HALF_TURN: i32 = 3_141_593;

/// Three quarters of a turn, in millionths of a radian.
pub const THREE_QUARTER_TURN: i32 = 4_712_389;

/// A full turn, in millionths of a radian.
pub const FULL_TURN: i32 = 6_283_185;

/// Bodies that the large scenarios scatter.
pub const SCATTER_COUNT: usize = 1000;

/// Asteroids on the opening screen.
pub const WELCOME_COUNT: usize = 100;

/// The large scenarios scatter their bodies with both coordinates in
/// `-SCATTER_BOUND..SCATTER_BOUND`: nine tenths of the way to the walls.
pub const SCATTER_BOUND: i32 = 4_500_000;

/// The opening screen scatters with both coordinates in
/// `-WELCOME_BOUND..WELCOME_BOUND`.
pub const WELCOME_BOUND: i32 = 450_000;

/// Asteroids drift with both velocity coordinates in
/// `-DRIFT_SPEED..DRIFT_SPEED`.
pub const DRIFT_SPEED: i32 = 30_000;

/// Scattered bullets fly with both velocity coordinates in
/// `-STRAY_SPEED..STRAY_SPEED`.
pub const STRAY_SPEED: i32 = 1_000_000;

/// Asteroid variants are numbered from zero up to this.
pub const ASTEROID_VARIANTS: i32 = 30;

/// Handles that a scenario may need for its initial bodies.
pub const SPAWN_LIMIT: usize = 1001;

/// Whether a session still runs.
#[derive(Clone, Copy, Debug, PartialEq, Eq, Structural)]
pub enum Status {
    Running,
    Finished,
}

/// One game mode, together with the progress that it keeps.
#[derive(Clone, Copy, Debug)]
pub enum Scenario {
    /// Two fighters face each other inside the arena.
    Basic,
    /// One fighter among a thousand drifting asteroids.
    Asteroid,
    /// One fighter among a thousand bullets.
    BulletStress,
    /// The opening screen: one fighter and a few asteroids.
    Welcome,
    /// Destroy the asteroid ahead.
    Tutorial01,
    /// Fly to a fixed target and stop there.
    Tutorial02 { on_target_ticks: i32 },
    /// Fly to a random target and stop there.
    Tutorial03 { on_target_ticks: i32, target: Vec2 },
    /// Destroy an asteroid at a random place.
    Tutorial04 { target: Vec2 },
}

/// The target of the scenario with the fixed target.
pub open spec fn fixed_target() -> Vec2 {
    Vec2 { x: FIXED_TARGET_X, y: FIXED_TARGET_Y }
}

/// Whether a point can be a random target.
pub open spec fn in_target_range(target: Vec2) -> bool {
    &&& -TARGET_RANGE <= target.x < TARGET_RANGE
    &&& -TARGET_RANGE <= target.y < TARGET_RANGE
}

/// A ship holds its position when it is inside the radius round the target
/// and slower than the speed limit.
pub open spec fn holds_position(ship: Ship, target: Vec2) -> bool {
    &&& distance_squared(ship.position, target) < HOLD_RADIUS * HOLD_RADIUS
    &&& length_squared(ship.velocity) < HOLD_SPEED * HOLD_SPEED
}

/// What the streak counter is after one more tick in which a ship was there:
/// one more while the ship holds its position, and zero as soon as it does
/// not.
pub open spec fn next_streak(streak: i32, holding: bool) -> int {
    if holding {
        streak + 1
    } else {
        0
    }
}

/// One edge of the arena: as long as the arena is wide, and reflecting
/// without loss.
pub open spec fn edge(x: int, y: int, angle: int) -> Wall {
    Wall {
        center: Vec2 { x: x as i32, y: y as i32 },
        angle: angle as i32,
        length: WORLD_SIZE,
        width: WALL_WIDTH,
        restitution: 1000,
    }
}

/// The four edges of the arena: top, bottom, right, left.
pub open spec fn arena_walls() -> Seq<Wall> {
    seq![
        edge(0, WORLD_SIZE / 2, 0),
        edge(0, -WORLD_SIZE / 2, HALF_TURN as int),
        edge(WORLD_SIZE / 2, 0, QUARTER_TURN as int),
        edge(-WORLD_SIZE / 2, 0, THREE_QUARTER_TURN as int),
    ]
}

/// A ship as it is created: not turning, weapon ready, no target.
pub open spec fn new_ship(
    handle: int,
    team: i32,
    class: ShipClass,
    position: Vec2,
    velocity: Vec2,
    heading: i32,
) -> Ship {
    Ship {
        handle: ShipHandle(handle as u64),
        team,
        class,
        position,
        velocity,
        heading,
        angular_velocity: 0,
        cooldown: 0,
        target: None,
    }
}

/// A fighter at rest.
pub open spec fn fighter_at(handle: int, team: i32, position: Vec2, heading: i32) -> Ship {
    new_ship(handle, team, ShipClass::Fighter, position, Vec2 { x: 0, y: 0 }, heading)
}

/// An asteroid of the first variant at rest.
pub open spec fn rock_at(handle: int, position: Vec2, heading: i32) -> Ship {
    new_ship(
        handle,
        ASTEROID_TEAM,
        ShipClass::Asteroid { variant: 1 },
        position,
        Vec2 { x: 0, y: 0 },
        heading,
    )
}

/// The variants that the opening screen picks from.
pub open spec fn welcome_variants() -> Seq<i32> {
    seq![1i32, 6i32, 14i32]
}

/// What holds of every asteroid that a scenario scatters: it is a new
/// asteroid with the given handle, inside the bound, drifting slowly, with
/// any heading, and of a variant that the scenario allows.
pub open spec fn is_scattered_asteroid(
    ship: Ship,
    handle: int,
    bound: i32,
    welcome: bool,
) -> bool {
    &&& ship.class is Asteroid
    &&& ship == new_ship(
        handle,
        ASTEROID_TEAM,
        ship.class,
        ship.position,
        ship.velocity,
        ship.heading,
    )
    &&& if welcome {
        welcome_variants().contains(ship.class->variant)
    } else {
        0 <= ship.class->variant < ASTEROID_VARIANTS
    }
    &&& -bound <= ship.position.x < bound
    &&& -bound <= ship.position.y < bound
    &&& -DRIFT_SPEED <= ship.velocity.x < DRIFT_SPEED
    &&& -DRIFT_SPEED <= ship.velocity.y < DRIFT_SPEED
    &&& 0 <= ship.heading < FULL_TURN
}

/// What holds of every bullet that the stress scenario scatters.
pub open spec fn is_stray_bullet(bullet: Bullet, handle: int, tick: u64) -> bool {
    &&& bullet.handle == BulletHandle(handle as u64)
    &&& bullet.team == ENEMY_TEAM
    &&& bullet.spawn_tick == tick
    &&& bullet.ttl == BULLET_LIFETIME_TICKS
    &&& -SCATTER_BOUND <= bullet.position.x < SCATTER_BOUND
    &&& -SCATTER_BOUND <= bullet.position.y < SCATTER_BOUND
    &&& -STRAY_SPEED <= bullet.velocity.x < STRAY_SPEED
    &&& -STRAY_SPEED <= bullet.velocity.y < STRAY_SPEED
}

/// The ships after `count` asteroids were scattered behind the ships that
/// were there: the old ships stay, and each new one is a scattered asteroid
/// with the next handle.
pub open spec fn scattered_behind(
    before: Seq<Ship>,
    after: Seq<Ship>,
    first_handle: int,
    count: int,
    bound: i32,
    welcome: bool,
) -> bool {
    &&& after.len() == before.len() + count
    &&& forall|i: int| 0 <= i < before.len() ==> #[trigger] after[i] == before[i]
    &&& forall|k: int|
        0 <= k < count ==> is_scattered_asteroid(
            #[trigger] after[before.len() + k],
            first_handle + k,
            bound,
            welcome,
        )
}

/// The bullets after `count` stray bullets were added behind the bullets
/// that were there.
pub open spec fn strays_behind(
    before: Seq<Bullet>,
    after: Seq<Bullet>,
    first_handle: int,
    count: int,
    tick: u64,
) -> bool {
    &&& after.len() == before.len() + count
    &&& forall|i: int| 0 <= i < before.len() ==> #[trigger] after[i] == before[i]
    &&& forall|k: int|
        0 <= k < count ==> is_stray_bullet(
            #[trigger] after[before.len() + k],
            first_handle + k,
            tick,
        )
}

/// The ships with the oldest one handed a target.
pub open spec fn with_first_target(ships: Seq<Ship>, target: Vec2) -> Seq<Ship> {
    if ships.len() > 0 {
        ships.update(0, Ship { target: Some(target), ..ships[0] })
    } else {
        ships
    }
}

/// The names under which scenarios are registered.
pub open spec fn is_registered_name(name: Seq<char>) -> bool {
    ||| name == "basic"@
    ||| name == "asteroid"@
    ||| name == "bullet-stress"@
    ||| name == "welcome"@
    ||| name == "tutorial01"@
    ||| name == "tutorial02"@
    ||| name == "tutorial03"@
    ||| name == "tutorial04"@
}

impl Scenario {
    /// The stable name of the scenario, which is its key in the registry.
    pub open spec fn name_text(self) -> Seq<char> {
        match self {
            Scenario::Basic => "basic"@,
            Scenario::Asteroid => "asteroid"@,
            Scenario::BulletStress => "bullet-stress"@,
            Scenario::Welcome => "welcome"@,
            Scenario::Tutorial01 => "tutorial01"@,
            Scenario::Tutorial02 { .. } => "tutorial02"@,
            Scenario::Tutorial03 { .. } => "tutorial03"@,
            Scenario::Tutorial04 { .. } => "tutorial04"@,
        }
    }

    /// The streak counter of a scenario that asks the ship to hold a
    /// position, and zero for every other scenario.
    pub open spec fn streak(self) -> int {
        match self {
            Scenario::Tutorial02 { on_target_ticks } => on_target_ticks as int,
            Scenario::Tutorial03 { on_target_ticks, .. } => on_target_ticks as int,
            _ => 0,
        }
    }

    /// The point that a hold-position scenario asks the ship to hold.
    pub open spec fn hold_target(self) -> Option<Vec2> {
        match self {
            Scenario::Tutorial02 { .. } => Some(fixed_target()),
            Scenario::Tutorial03 { target, .. } => Some(target),
            _ => None,
        }
    }

    /// The scenario's invariant: a streak counter is never negative, and a
    /// random target stays in its range.
    pub open spec fn wf(self) -> bool {
        match self {
            Scenario::Tutorial02 { on_target_ticks } => 0 <= on_target_ticks,
            Scenario::Tutorial03 { on_target_ticks, target } => 0 <= on_target_ticks
                && in_target_range(target),
            Scenario::Tutorial04 { target } => in_target_range(target),
            _ => true,
        }
    }

    /// A scenario as the registry hands it out: no progress made.
    pub open spec fn is_fresh(self) -> bool {
        self.streak() == 0
    }

    /// Whether the session is over, given the world as it is.
    pub open spec fn status_in(self, world: World) -> Status {
        match self {
            Scenario::BulletStress | Scenario::Welcome => Status::Running,
            Scenario::Tutorial02 { .. } | Scenario::Tutorial03 { .. } => if self.streak()
                > HOLD_TICKS {
                Status::Finished
            } else {
                Status::Running
            },
            _ => if world.ships@.len() > 1 {
                Status::Running
            } else {
                Status::Finished
            },
        }
    }

    /// Whether a tick of the given world adds to the streak: the scenario
    /// asks the ship to hold a position, a ship is there, and the oldest
    /// ship holds it.
    pub open spec fn counts_on(self, world: World) -> bool {
        match self.hold_target() {
            Some(target) => world.ships@.len() > 0 && holds_position(world.ships@[0], target),
            None => false,
        }
    }

    /// The scenario after one tick of the given world. Only a hold-position
    /// scenario in a world with a ship changes: its streak follows the
    /// oldest ship, whatever the streak was.
    pub open spec fn after_tick(self, world: World) -> Scenario {
        if world.ships@.len() == 0 {
            self
        } else {
            match self {
                Scenario::Tutorial02 { on_target_ticks } => Scenario::Tutorial02 {
                    on_target_ticks: next_streak(
                        on_target_ticks,
                        holds_position(world.ships@[0], fixed_target()),
                    ) as i32,
                },
                Scenario::Tutorial03 { on_target_ticks, target } => Scenario::Tutorial03 {
                    on_target_ticks: next_streak(
                        on_target_ticks,
                        holds_position(world.ships@[0], target),
                    ) as i32,
                    target,
                },
                _ => self,
            }
        }
    }

    /// What `init` makes of a world: the bodies that the scenario starts
    /// with stand behind those that were there, with the next handles in the
    /// order of their creation. Of a scattered body only its bounds are
    /// stated.
    pub open spec fn populates(self, before: World, after: World) -> bool {
        let n = before.next_handle as int;
        let origin = Vec2 { x: 0, y: 0 };
        let with_fighter = before.ships@.push(fighter_at(n, PLAYER_TEAM, origin, 0));
        let walled = after.walls@ == before.walls@ + arena_walls();
        let open_space = after.walls@ == before.walls@;
        let no_bullets = after.bullets@ == before.bullets@;
        &&& after.tick == before.tick
        &&& after.collided == before.collided
        &&& after.first_handle == before.first_handle
        &&& match self {
            Scenario::Basic => {
                &&& walled
                &&& no_bullets
                &&& after.next_handle == n + 2
                &&& after.ships@ == before.ships@.push(
                    fighter_at(n, PLAYER_TEAM, Vec2 { x: -100_000i32, y: 0 }, 0),
                ).push(fighter_at(n + 1, ENEMY_TEAM, Vec2 { x: 100_000, y: 0 }, HALF_TURN))
            },
            Scenario::Asteroid => {
                &&& walled
                &&& no_bullets
                &&& after.next_handle == n + 1 + SCATTER_COUNT
                &&& scattered_behind(
                    with_fighter,
                    after.ships@,
                    n + 1,
                    SCATTER_COUNT as int,
                    SCATTER_BOUND,
                    false,
                )
            },
            Scenario::BulletStress => {
                &&& walled
                &&& after.ships@ == with_fighter
                &&& after.next_handle == n + 1 + SCATTER_COUNT
                &&& strays_behind(
                    before.bullets@,
                    after.bullets@,
                    n + 1,
                    SCATTER_COUNT as int,
                    before.tick,
                )
            },
            Scenario::Welcome => {
                &&& walled
                &&& no_bullets
                &&& after.next_handle == n + 1 + WELCOME_COUNT
                &&& scattered_behind(
                    with_fighter,
                    after.ships@,
                    n + 1,
                    WELCOME_COUNT as int,
                    WELCOME_BOUND,
                    true,
                )
            },
            Scenario::Tutorial01 => {
                &&& open_space
                &&& no_bullets
                &&& after.next_handle == n + 2
                &&& after.ships@ == with_fighter.push(
                    rock_at(n + 1, Vec2 { x: 100_000, y: 0 }, 100_000),
                )
            },
            Scenario::Tutorial02 { .. } => {
                &&& open_space
                &&& no_bullets
                &&& after.next_handle == n + 1
                &&& after.ships@ == with_first_target(with_fighter, fixed_target())
            },
            Scenario::Tutorial03 { target, .. } => {
                &&& open_space
                &&& no_bullets
                &&& after.next_handle == n + 1
                &&& after.ships@ == with_first_target(with_fighter, target)
            },
            Scenario::Tutorial04 { target } => {
                &&& open_space
                &&& no_bullets
                &&& after.next_handle == n + 2
                &&& after.ships@ == with_first_target(with_fighter, target).push(
                    rock_at(n + 1, target, 0),
                )
            },
        }
    }

    /// The stable name of the scenario.
    pub fn name(&self) -> (name: String)
        ensures
            name@ == self.name_text(),
    {
        match self {
            Scenario::Basic => "basic".to_owned(),
            Scenario::Asteroid => "asteroid".to_owned(),
            Scenario::BulletStress => "bullet-stress".to_owned(),
            Scenario::Welcome => "welcome".to_owned(),
            Scenario::Tutorial01 => "tutorial01".to_owned(),
            Scenario::Tutorial02 { .. } => "tutorial02".to_owned(),
            Scenario::Tutorial03 { .. } => "tutorial03".to_owned(),
            Scenario::Tutorial04 { .. } => "tutorial04".to_owned(),
        }
    }

    /// Whether the session is over, by the world as it is and the streak as
    /// it stands.
    pub fn status(&self, world: &World) -> (status: Status)
        ensures
            status == self.status_in(*world),
    {
        match self {
            Scenario::BulletStress | Scenario::Welcome => Status::Running,
            Scenario::Tutorial02 { on_target_ticks } => {
                if *on_target_ticks > HOLD_TICKS {
                    Status::Finished
                } else {
                    Status::Running
                }
            },
            Scenario::Tutorial03 { on_target_ticks, .. } => {
                if *on_target_ticks > HOLD_TICKS {
                    Status::Finished
                } else {
                    Status::Running
                }
            },
            _ => {
                if world.ship_count() > 1 {
                    Status::Running
                } else {
                    Status::Finished
                }
            },
        }
    }

    /// Populates the world with the bodies that the scenario starts with.
    /// The driver calls it once, on the world of a new session. The
    /// scenario itself does not change.
    pub fn init(&mut self, world: &mut World)
        requires
            old(world).wf(),
            old(world).has_room(SPAWN_LIMIT as int),
        ensures
            *final(self) == *old(self),
            final(world).wf(),
            old(self).populates(*old(world), *final(world)),
    {
        let origin = Vec2 { x: 0, y: 0 };
        match *self {
            Scenario::Basic => {
                add_walls(world);
                world.add_ship(
                    PLAYER_TEAM,
                    ShipClass::Fighter,
                    Vec2 { x: -100_000, y: 0 },
                    origin,
                    0,
                );
                world.add_ship(
                    ENEMY_TEAM,
                    ShipClass::Fighter,
                    Vec2 { x: 100_000, y: 0 },
                    origin,
                    HALF_TURN,
                );
            },
            Scenario::Asteroid => {
                let mut rng = rand::thread_rng();
                add_walls(world);
                world.add_ship(PLAYER_TEAM, ShipClass::Fighter, origin, origin, 0);
                scatter_asteroids(world, &mut rng, SCATTER_COUNT, SCATTER_BOUND, false);
            },
            Scenario::BulletStress => {
                let mut rng = rand::thread_rng();
                add_walls(world);
                world.add_ship(PLAYER_TEAM, ShipClass::Fighter, origin, origin, 0);
                scatter_bullets(world, &mut rng, SCATTER_COUNT);
            },
            Scenario::Welcome => {
                let mut rng = rand::thread_rng();
                add_walls(world);
                world.add_ship(PLAYER_TEAM, ShipClass::Fighter, origin, origin, 0);
                scatter_asteroids(world, &mut rng, WELCOME_COUNT, WELCOME_BOUND, true);
            },
            Scenario::Tutorial01 => {
                world.add_ship(PLAYER_TEAM, ShipClass::Fighter, origin, origin, 0);
                world.add_ship(
                    ASTEROID_TEAM,
                    ShipClass::Asteroid { variant: 1 },
                    Vec2 { x: 100_000, y: 0 },
                    origin,
                    100_000,
                );
            },
            Scenario::Tutorial02 { .. } => {
                world.add_ship(PLAYER_TEAM, ShipClass::Fighter, origin, origin, 0);
                hand_first_target(world, Vec2 { x: FIXED_TARGET_X, y: FIXED_TARGET_Y });
            },
            Scenario::Tutorial03 { target, .. } => {
                world.add_ship(PLAYER_TEAM, ShipClass::Fighter, origin, origin, 0);
                hand_first_target(world, target);
            },
            Scenario::Tutorial04 { target } => {
                world.add_ship(PLAYER_TEAM, ShipClass::Fighter, origin, origin, 0);
                hand_first_target(world, target);
                world.add_ship(
                    ASTEROID_TEAM,
                    ShipClass::Asteroid { variant: 1 },
                    target,
                    origin,
                    0,
                );
            },
        }
    }

    /// Advances the scenario's own bookkeeping by one tick; the driver calls
    /// it once per tick, before the physics step. Where the tick counts on,
    /// the streak has to leave room for it.
    pub fn tick(&mut self, world: &World)
        requires
            old(self).wf(),
            old(self).counts_on(*world) ==> old(self).streak() < i32::MAX,
        ensures
            final(self).wf(),
            *final(self) == old(self).after_tick(*world),
    {
        if world.ship_count() == 0 {
            return ;
        }
        match *self {
            Scenario::Tutorial02 { on_target_ticks } => {
                let target = Vec2 { x: FIXED_TARGET_X, y: FIXED_TARGET_Y };
                let holding = ship_holds(&world.ships[0], &target);
                let next: i32 = if holding {
                    on_target_ticks + 1
                } else {
                    0
                };
                *self = Scenario::Tutorial02 { on_target_ticks: next };
            },
            Scenario::Tutorial03 { on_target_ticks, target } => {
                let holding = ship_holds(&world.ships[0], &target);
                let next: i32 = if holding {
                    on_target_ticks + 1
                } else {
                    0
                };
                *self = Scenario::Tutorial03 { on_target_ticks: next, target };
            },
            _ => {},
        }
    }
}

/// Adds the four edges of the arena to the world.
pub fn add_walls(world: &mut World)
    ensures
        final(world).walls@ == old(world).walls@ + arena_walls(),
        final(world).ships@ == old(world).ships@,
        final(world).bullets@ == old(world).bullets@,
        final(world).next_handle == old(world).next_handle,
        final(world).tick == old(world).tick,
        final(world).first_handle == old(world).first_handle,
        final(world).collided == old(world).collided,
{
    let half: i32 = WORLD_SIZE / 2;
    world.add_wall(make_edge(0, half, 0));
    world.add_wall(make_edge(0, -half, HALF_TURN));
    world.add_wall(make_edge(half, 0, QUARTER_TURN));
    world.add_wall(make_edge(-half, 0, THREE_QUARTER_TURN));
    assert(world.walls@ =~= old(world).walls@ + arena_walls());
}

/// One edge of the arena.
fn make_edge(x: i32, y: i32, angle: i32) -> (wall: Wall)
    ensures
        wall == edge(x as int, y as int, angle as int),
{
    Wall {
        center: Vec2 { x, y },
        angle,
        length: WORLD_SIZE,
        width: WALL_WIDTH,
        restitution: 1000,
    }
}

/// Draws the variant of one scattered asteroid: any of them, or on the
/// opening screen one of its three.
fn draw_variant(rng: &mut rand::rngs::ThreadRng, welcome: bool) -> (variant: i32)
    ensures
        if welcome {
            welcome_variants().contains(variant)
        } else {
            0 <= variant < ASTEROID_VARIANTS
        },
{
    if welcome {
        let mut choices: Vec<i32> = Vec::new();
        choices.push(1);
        choices.push(6);
        choices.push(14);
        assert(choices@ =~= welcome_variants());
        pick(rng, &choices).unwrap()
    } else {
        draw(rng, 0, ASTEROID_VARIANTS)
    }
}

/// Scatters `count` asteroids inside the bound.
fn scatter_asteroids(
    world: &mut World,
    rng: &mut rand::rngs::ThreadRng,
    count: usize,
    bound: i32,
    welcome: bool,
)
    requires
        old(world).wf(),
        old(world).has_room(count as int),
        0 < bound <= SCATTER_BOUND,
    ensures
        final(world).wf(),
        scattered_behind(
            old(world).ships@,
            final(world).ships@,
            old(world).next_handle as int,
            count as int,
            bound,
            welcome,
        ),
        final(world).next_handle == old(world).next_handle + count,
        final(world).bullets@ == old(world).bullets@,
        final(world).walls@ == old(world).walls@,
        final(world).tick == old(world).tick,
        final(world).first_handle == old(world).first_handle,
        final(world).collided == old(world).collided,
{
    let mut done: usize = 0;
    while done < count
        invariant
            done <= count,
            0 < bound <= SCATTER_BOUND,
            world.wf(),
            old(world).has_room(count as int),
            scattered_behind(
                old(world).ships@,
                world.ships@,
                old(world).next_handle as int,
                done as int,
                bound,
                welcome,
            ),
            world.next_handle == old(world).next_handle + done,
            world.bullets@ == old(world).bullets@,
            world.walls@ == old(world).walls@,
            world.tick == old(world).tick,
            world.first_handle == old(world).first_handle,
            world.collided == old(world).collided,
        decreases count - done,
    {
        let x: i32 = draw(rng, -bound, bound);
        let y: i32 = draw(rng, -bound, bound);
        let vx: i32 = draw(rng, -DRIFT_SPEED, DRIFT_SPEED);
        let vy: i32 = draw(rng, -DRIFT_SPEED, DRIFT_SPEED);
        let heading: i32 = draw(rng, 0, FULL_TURN);
        let variant: i32 = draw_variant(rng, welcome);
        world.add_ship(
            ASTEROID_TEAM,
            ShipClass::Asteroid { variant },
            Vec2 { x, y },
            Vec2 { x: vx, y: vy },
            heading,
        );
        done += 1;
    }
}

/// Scatters `count` bullets over the arena.
fn scatter_bullets(world: &mut World, rng: &mut rand::rngs::ThreadRng, count: usize)
    requires
        old(world).wf(),
        old(world).has_room(count as int),
    ensures
        final(world).wf(),
        strays_behind(
            old(world).bullets@,
            final(world).bullets@,
            old(world).next_handle as int,
            count as int,
            old(world).tick,
        ),
        final(world).next_handle == old(world).next_handle + count,
        final(world).ships@ == old(world).ships@,
        final(world).walls@ == old(world).walls@,
        final(world).tick == old(world).tick,
        final(world).first_handle == old(world).first_handle,
        final(world).collided == old(world).collided,
{
    let mut done: usize = 0;
    while done < count
        invariant
            done <= count,
            world.wf(),
            old(world).has_room(count as int),
            strays_behind(
                old(world).bullets@,
                world.bullets@,
                old(world).next_handle as int,
                done as int,
                old(world).tick,
            ),
            world.next_handle == old(world).next_handle + done,
            world.ships@ == old(world).ships@,
            world.walls@ == old(world).walls@,
            world.tick == old(world).tick,
            world.first_handle == old(world).first_handle,
            world.collided == old(world).collided,
        decreases count - done,
    {
        let x: i32 = draw(rng, -SCATTER_BOUND, SCATTER_BOUND);
        let y: i32 = draw(rng, -SCATTER_BOUND, SCATTER_BOUND);
        let vx: i32 = draw(rng, -STRAY_SPEED, STRAY_SPEED);
        let vy: i32 = draw(rng, -STRAY_SPEED, STRAY_SPEED);
        world.add_bullet(ENEMY_TEAM, Vec2 { x, y }, Vec2 { x: vx, y: vy });
        done += 1;
    }
}

/// Hands the oldest ship of the world a target.
fn hand_first_target(world: &mut World, target: Vec2)
    requires
        old(world).wf(),
    ensures
        final(world).wf(),
        final(world).ships@ == with_first_target(old(world).ships@, target),
        final(world).bullets@ == old(world).bullets@,
        final(world).walls@ == old(world).walls@,
        final(world).next_handle == old(world).next_handle,
        final(world).tick == old(world).tick,
        final(world).first_handle == old(world).first_handle,
        final(world).collided == old(world).collided,
{
    match world.first_ship() {
        Some(handle) => {
            world.write_target(handle, target);
            assert(world.ships@ =~= with_first_target(old(world).ships@, target));
        },
        None => {},
    }
}

/// Whether a ship is inside the hold radius round the target and slower than
/// the hold speed.
pub fn ship_holds(ship: &Ship, target: &Vec2) -> (holding: bool)
    ensures
        holding == holds_position(*ship, *target),
{
    ship.position.is_within(target, HOLD_RADIUS) && ship.velocity.is_shorter_than(HOLD_SPEED)
}

/// Whether a scenario is registered under this name.
pub fn is_registered(name: &str) -> (known: bool)
    ensures
        known == is_registered_name(name@),
{
    same_text(name, "basic") || same_text(name, "asteroid") || same_text(name, "bullet-stress")
        || same_text(name, "welcome") || same_text(name, "tutorial01") || same_text(
        name,
        "tutorial02",
    ) || same_text(name, "tutorial03") || same_text(name, "tutorial04")
}

/// A target somewhere in the target range.
fn draw_target() -> (target: Vec2)
    ensures
        in_target_range(target),
{
    let mut rng = rand::thread_rng();
    let x: i32 = draw(&mut rng, -TARGET_RANGE, TARGET_RANGE);
    let y: i32 = draw(&mut rng, -TARGET_RANGE, TARGET_RANGE);
    Vec2 { x, y }
}

/// Looks a scenario up in the registry: a fresh scenario of that name, with
/// a newly drawn target where the scenario has a random one. A name that is
/// not registered is a fault of the configuration, and no caller may pass
/// one; `is_registered` tells.
pub fn load(name: &str) -> (scenario: Scenario)
    requires
        is_registered_name(name@),
    ensures
        scenario.name_text() == name@,
        scenario.wf(),
        scenario.is_fresh(),
{
    if same_text(name, "basic") {
        Scenario::Basic
    } else if same_text(name, "asteroid") {
        Scenario::Asteroid
    } else if same_text(name, "bullet-stress") {
        Scenario::BulletStress
    } else if same_text(name, "welcome") {
        Scenario::Welcome
    } else if same_text(name, "tutorial01") {
        Scenario::Tutorial01
    } else if same_text(name, "tutorial02") {
        Scenario::Tutorial02 { on_target_ticks: 0 }
    } else if same_text(name, "tutorial03") {
        Scenario::Tutorial03 { on_target_ticks: 0, target: draw_target() }
    } else if same_text(name, "tutorial04") {
        Scenario::Tutorial04 { target: draw_target() }
    } else {
        unreached()
    }
}

/// Whether two scenarios are of the same game mode, whatever their progress
/// and their targets.
pub open spec fn same_mode(a: Scenario, b: Scenario) -> bool {
    match a {
        Scenario::Basic => b is Basic,
        Scenario::Asteroid => b is Asteroid,
        Scenario::BulletStress => b is BulletStress,
        Scenario::Welcome => b is Welcome,
        Scenario::Tutorial01 => b is Tutorial01,
        Scenario::Tutorial02 { .. } => b is Tutorial02,
        Scenario::Tutorial03 { .. } => b is Tutorial03,
        Scenario::Tutorial04 { .. } => b is Tutorial04,
    }
}

/// A name stands for one game mode: scenarios of the same name are of the
/// same mode, and every scenario's name is registered.
pub proof fn lemma_names_tell_modes_apart(a: Scenario, b: Scenario)
    ensures
        is_registered_name(a.name_text()),
        a.name_text() == b.name_text() ==> same_mode(a, b),
{
    reveal_strlit("basic");
    reveal_strlit("asteroid");
    reveal_strlit("bullet-stress");
    reveal_strlit("welcome");
    reveal_strlit("tutorial01");
    reveal_strlit("tutorial02");
    reveal_strlit("tutorial03");
    reveal_strlit("tutorial04");
    let x = a.name_text();
    let y = b.name_text();
    if x == y && x.len() == 10 {
        assert(x[9] == y[9]);
    }
}

/// The scenario after one tick in each of the given worlds, in their order.
pub open spec fn after_ticks(scenario: Scenario, worlds: Seq<World>) -> Scenario
    decreases worlds.len(),
{
    if worlds.len() == 0 {
        scenario
    } else {
        after_ticks(scenario, worlds.drop_last()).after_tick(worlds.last())
    }
}

/// A tick keeps a scenario well-formed and never moves its target or
/// changes its name, as long as the streak has room where the tick counts
/// on.
pub proof fn lemma_tick_keeps_target(scenario: Scenario, world: World)
    requires
        scenario.wf(),
        scenario.counts_on(world) ==> scenario.streak() < i32::MAX,
    ensures
        scenario.after_tick(world).wf(),
        scenario.after_tick(world).hold_target() == scenario.hold_target(),
        scenario.after_tick(world).name_text() == scenario.name_text(),
{
}

/// One tick on target adds one to the streak, whatever the streak was.
pub proof fn lemma_holding_counts_on(scenario: Scenario, world: World)
    requires
        scenario.wf(),
        scenario.streak() < i32::MAX,
        scenario.hold_target() is Some,
        world.ships@.len() > 0,
        holds_position(world.ships@[0], scenario.hold_target().unwrap()),
    ensures
        scenario.after_tick(world).streak() == scenario.streak() + 1,
{
}

/// A streak ends at once: after a tick in which the controlled ship was
/// there but did not hold its position, the streak is zero and the scenario
/// runs, whatever the streak was and whether or not it had reached its goal.
pub proof fn lemma_leaving_resets_streak(scenario: Scenario, world: World)
    requires
        scenario.hold_target() is Some,
        world.ships@.len() > 0,
        !holds_position(world.ships@[0], scenario.hold_target().unwrap()),
    ensures
        scenario.after_tick(world).streak() == 0,
        scenario.after_tick(world).status_in(world) == Status::Running,
{
}

/// The streak is the length of the unbroken run of ticks on target that
/// ends with the last tick. After any number of ticks of a fresh
/// hold-position scenario, in worlds that all hold a ship, the oldest ship
/// held its position in every one of the last `streak` ticks, and not in
/// the tick before them if there was one. So the scenario is finished
/// exactly when more than `HOLD_TICKS` ticks on target in a row end with the
/// last tick.
pub proof fn lemma_streak_counts_ticks_on_target(scenario: Scenario, worlds: Seq<World>)
    requires
        scenario.wf(),
        scenario.is_fresh(),
        scenario.hold_target() is Some,
        worlds.len() < i32::MAX,
        forall|t: int| 0 <= t < worlds.len() ==> (#[trigger] worlds[t]).ships@.len() > 0,
    ensures
        after_ticks(scenario, worlds).wf(),
        after_ticks(scenario, worlds).hold_target() == scenario.hold_target(),
        0 <= after_ticks(scenario, worlds).streak() <= worlds.len(),
        forall|t: int|
            worlds.len() - after_ticks(scenario, worlds).streak() <= t < worlds.len()
                ==> holds_position(
                (#[trigger] worlds[t]).ships@[0],
                scenario.hold_target().unwrap(),
            ),
        after_ticks(scenario, worlds).streak() < worlds.len() ==> !holds_position(
            worlds[worlds.len() - after_ticks(scenario, worlds).streak() - 1].ships@[0],
            scenario.hold_target().unwrap(),
        ),
        (after_ticks(scenario, worlds).status_in(worlds.last()) == Status::Finished) == (
        after_ticks(scenario, worlds).streak() > HOLD_TICKS),
    decreases worlds.len(),
{
    if worlds.len() > 0 {
        let earlier = worlds.drop_last();
        assert forall|t: int| 0 <= t < earlier.len() implies (#[trigger] earlier[t]).ships@.len()
            > 0 by {
            assert(earlier[t] == worlds[t]);
        }
        lemma_streak_counts_ticks_on_target(scenario, earlier);
        let before = after_ticks(scenario, earlier);
        lemma_tick_keeps_target(before, worlds.last());
        assert forall|t: int|
            earlier.len() - before.streak() <= t < earlier.len() implies holds_position(
            (#[trigger] worlds[t]).ships@[0],
            scenario.hold_target().unwrap(),
        ) by {
            assert(earlier[t] == worlds[t]);
        }
        if before.streak() < earlier.len() {
            assert(earlier[earlier.len() - before.streak() - 1] == worlds[earlier.len()
                - before.streak() - 1]);
        }
    }
}

/// A tick in which a ship was there and held the position.
pub open spec fn is_hit(world: World, target: Vec2) -> bool {
    world.ships@.len() > 0 && holds_position(world.ships@[0], target)
}

/// A tick in which a ship was there and did not hold the position.
pub open spec fn is_miss(world: World, target: Vec2) -> bool {
    world.ships@.len() > 0 && !holds_position(world.ships@[0], target)
}

/// The number of hits among the ticks from the tick `from` on.
pub open spec fn hits_from(worlds: Seq<World>, target: Vec2, from: int) -> int
    decreases worlds.len(),
{
    if worlds.len() == 0 || worlds.len() <= from {
        0
    } else {
        hits_from(worlds.drop_last(), target, from) + if is_hit(worlds.last(), target) {
            1int
        } else {
            0int
        }
    }
}

/// The streak counts the hits since the last miss, in any worlds. After any
/// number of ticks of a fresh hold-position scenario there is a tick
/// `since` from which on no tick was a miss, which follows a miss unless it
/// is the first tick of all, and the streak is the number of hits from then
/// on. A tick without a ship is neither: it leaves the streak as it is. So
/// the scenario is finished only when more than `HOLD_TICKS` hits have
/// followed the last miss.
pub proof fn lemma_streak_counts_hits_since_last_miss(
    scenario: Scenario,
    worlds: Seq<World>,
) -> (since: int)
    requires
        scenario.wf(),
        scenario.is_fresh(),
        scenario.hold_target() is Some,
        worlds.len() < i32::MAX,
    ensures
        after_ticks(scenario, worlds).wf(),
        after_ticks(scenario, worlds).hold_target() == scenario.hold_target(),
        0 <= since <= worlds.len(),
        since > 0 ==> is_miss(worlds[since - 1], scenario.hold_target().unwrap()),
        forall|t: int|
            since <= t < worlds.len() ==> !is_miss(
                #[trigger] worlds[t],
                scenario.hold_target().unwrap(),
            ),
        after_ticks(scenario, worlds).streak() == hits_from(
            worlds,
            scenario.hold_target().unwrap(),
            since,
        ),
        0 <= after_ticks(scenario, worlds).streak() <= worlds.len() - since,
    decreases worlds.len(),
{
    let target = scenario.hold_target().unwrap();
    if worlds.len() == 0 {
        0
    } else {
        let earlier = worlds.drop_last();
        let before_since = lemma_streak_counts_hits_since_last_miss(scenario, earlier);
        let before = after_ticks(scenario, earlier);
        lemma_tick_keeps_target(before, worlds.last());
        assert forall|t: int| before_since <= t < earlier.len() implies !is_miss(
            #[trigger] worlds[t],
            target,
        ) by {
            assert(earlier[t] == worlds[t]);
        }
        if before_since > 0 {
            assert(earlier[before_since - 1] == worlds[before_since - 1]);
        }
        if is_miss(worlds.last(), target) {
            worlds.len() as int
        } else {
            before_since
        }
    }
}

/// A scenario that scatters nothing populates a world in one way only:
/// whatever `init` makes of the same world twice is the same world, body
/// for body and handle for handle.
pub proof fn lemma_fixed_scenarios_populate_one_way(
    scenario: Scenario,
    before: World,
    one: World,
    other: World,
)
    requires
        !(scenario is Asteroid),
        !(scenario is BulletStress),
        !(scenario is Welcome),
        scenario.populates(before, one),
        scenario.populates(before, other),
    ensures
        same_state(one, other),
{
}

} // verus!
