//! The world: ships, bullets and walls, and the rules that create and
//! destroy them.
//!
//! The world is the discrete state of a session. A physics engine outside the
//! crate moves the bodies; after each of its steps the driver writes the new
//! positions back and reports the contacts, and the world decides what those
//! contacts destroy.

use vstd::prelude::*;
use crate::collision::{groups_of, Category, CollisionGroups};
use crate::vec2::{length_squared, sum_fits, Vec2, UNIT};

verus! {

/// Ticks that a weapon needs after a shot before it can fire again.
pub const RELOAD_TICKS: u32 = 12;

/// Ticks that a bullet lives.
pub const BULLET_LIFETIME_TICKS: u32 = 300;

/// Ticks that the simulation advances per second; every tick has the same
/// length.
pub const TICKS_PER_SECOND: u32 = 60;

/// Speed at which a bullet leaves the weapon, per second.
pub const MUZZLE_SPEED: i32 = 1_000_000;

/// Distance from a ship's centre to the muzzle of its weapon.
pub const NOSE_OFFSET: i32 = 20_000;

/// Radius of a bullet's collider.
pub const BULLET_RADIUS: u32 = 1_000;

/// Radius of a fighter's collider.
pub const FIGHTER_RADIUS: u32 = 10_000;

/// Radius of the smallest asteroid's collider.
pub const ASTEROID_RADIUS: u32 = 10_000;

/// What each further variant adds to an asteroid's radius.
pub const ASTEROID_GROWTH: u32 = 2_000;

/// The largest variant that makes an asteroid larger.
pub const LARGEST_VARIANT: i32 = 29;

/// Team of the ship that the player controls.
pub const PLAYER_TEAM: i32 = 0;

/// Team of the ships that oppose the player.
pub const ENEMY_TEAM: i32 = 1;

/// Team of every asteroid.
pub const ASTEROID_TEAM: i32 = 9;

/// Names a ship. A handle is given out once and never again.
#[derive(Clone, Copy, Debug, PartialEq, Eq, Structural)]
pub struct ShipHandle(pub u64);

/// Names a bullet. A handle is given out once and never again.
#[derive(Clone, Copy, Debug, PartialEq, Eq, Structural)]
pub struct BulletHandle(pub u64);

/// What kind of body a ship is.
#[derive(Clone, Copy, Debug, PartialEq, Eq, Structural)]
pub enum ShipClass {
    Fighter,
    /// A rock; the variant selects its size, mass and collider radius.
    Asteroid { variant: i32 },
}

/// A ship as the world knows it.
#[derive(Clone, Copy, Debug)]
pub struct Ship {
    pub handle: ShipHandle,
    pub team: i32,
    pub class: ShipClass,
    pub position: Vec2,
    pub velocity: Vec2,
    /// Heading in millionths of a radian.
    pub heading: i32,
    /// Turning rate in millionths of a radian per second.
    pub angular_velocity: i32,
    /// Ticks until the weapon may fire again; zero when it is ready.
    pub cooldown: u32,
    /// A point that the scenario hands to the ship's program.
    pub target: Option<Vec2>,
}

/// A bullet in flight.
#[derive(Clone, Copy, Debug)]
pub struct Bullet {
    pub handle: BulletHandle,
    /// Team of the ship that fired it.
    pub team: i32,
    pub position: Vec2,
    pub velocity: Vec2,
    /// Tick at which it was created.
    pub spawn_tick: u64,
    /// Ticks that it lives.
    pub ttl: u32,
}

/// A static edge of the arena.
#[derive(Clone, Copy, Debug)]
pub struct Wall {
    pub center: Vec2,
    /// Rotation in millionths of a radian.
    pub angle: i32,
    pub length: i32,
    pub width: i32,
    /// Restitution in thousandths; a thousand reflects without loss.
    pub restitution: i32,
}

/// What became of an order to fire.
#[derive(Clone, Copy, Debug, PartialEq, Eq, Structural)]
pub enum FireOutcome {
    /// The weapon fired the bullet with this handle.
    Fired(BulletHandle),
    /// The weapon is still reloading; nothing happened.
    Reloading,
    /// The ship has no weapon in that slot; nothing happened.
    Unarmed,
}

/// All entities of a session, the tick counter, and a flag that is raised
/// whenever something was destroyed and lowered by whoever shows it.
pub struct World {
    pub ships: Vec<Ship>,
    pub bullets: Vec<Bullet>,
    pub walls: Vec<Wall>,
    /// The number that the first handle of this session got.
    pub first_handle: u64,
    /// The number that the next handle gets.
    pub next_handle: u64,
    pub tick: u64,
    pub collided: bool,
}

/// Ships in the order of their creation: handles grow strictly along the
/// sequence and stay under the limit.
pub open spec fn ships_ordered(ships: Seq<Ship>, limit: u64) -> bool {
    &&& forall|i: int, j: int|
        0 <= i < j < ships.len() ==> (#[trigger] ships[i]).handle.0 < (#[trigger] ships[j]).handle.0
    &&& forall|i: int| 0 <= i < ships.len() ==> (#[trigger] ships[i]).handle.0 < limit
}

/// Bullets in the order of their creation: handles grow strictly along the
/// sequence and stay under the limit.
pub open spec fn bullets_ordered(bullets: Seq<Bullet>, limit: u64) -> bool {
    &&& forall|i: int, j: int|
        0 <= i < j < bullets.len() ==> (#[trigger] bullets[i]).handle.0 < (
        #[trigger] bullets[j]).handle.0
    &&& forall|i: int| 0 <= i < bullets.len() ==> (#[trigger] bullets[i]).handle.0 < limit
}

/// Number of weapon slots of a class of ship.
pub open spec fn weapon_slots(class: ShipClass) -> int {
    match class {
        ShipClass::Fighter => 1,
        ShipClass::Asteroid { .. } => 0,
    }
}

/// Radius of the collider of a ship of a class. Asteroids grow with their
/// variant, from the smallest at variant zero or under to the largest at
/// the largest variant or over.
pub open spec fn radius_of(class: ShipClass) -> int {
    match class {
        ShipClass::Fighter => FIGHTER_RADIUS as int,
        ShipClass::Asteroid { variant } => if variant <= 0 {
            ASTEROID_RADIUS as int
        } else if variant >= LARGEST_VARIANT {
            ASTEROID_RADIUS + ASTEROID_GROWTH * LARGEST_VARIANT
        } else {
            ASTEROID_RADIUS + ASTEROID_GROWTH * variant
        },
    }
}

/// A vector that can stand for a direction: no coordinate is longer than
/// one unit.
pub open spec fn fits_direction(direction: Vec2) -> bool {
    &&& -UNIT <= direction.x <= UNIT
    &&& -UNIT <= direction.y <= UNIT
}

/// A direction proper: a vector whose length is one unit, within the
/// rounding of its coordinates.
pub open spec fn is_unit(direction: Vec2) -> bool {
    (UNIT - 1) * (UNIT - 1) <= length_squared(direction) <= (UNIT + 1) * (UNIT + 1)
}

/// The vector of a given length along a direction; the length is a whole
/// number of units.
pub open spec fn along(direction: Vec2, length: int) -> Vec2 {
    Vec2 {
        x: (direction.x * (length / (UNIT as int))) as i32,
        y: (direction.y * (length / (UNIT as int))) as i32,
    }
}

/// Where the muzzle of a weapon lies from the centre of a ship that points
/// in a direction.
pub open spec fn muzzle_offset(direction: Vec2) -> Vec2 {
    along(direction, NOSE_OFFSET as int)
}

/// The velocity that a weapon adds to its bullet: the muzzle speed along
/// the direction in which the ship points.
pub open spec fn muzzle_velocity(direction: Vec2) -> Vec2 {
    along(direction, MUZZLE_SPEED as int)
}

/// The sum of two vectors.
pub open spec fn plus(a: Vec2, b: Vec2) -> Vec2 {
    Vec2 { x: (a.x + b.x) as i32, y: (a.y + b.y) as i32 }
}

/// A ship one tick later, as far as the world alone decides: its weapon
/// is one tick nearer to being ready.
pub open spec fn cooled(ship: Ship) -> Ship {
    Ship {
        cooldown: if ship.cooldown > 0 {
            (ship.cooldown - 1) as u32
        } else {
            0
        },
        ..ship
    }
}

/// Whether a bullet has outlived its time at the given tick.
pub open spec fn expired(bullet: Bullet, tick: u64) -> bool {
    tick - bullet.spawn_tick >= bullet.ttl
}

impl Wall {
    /// The masks of a wall's collider: every wall is of the wall category,
    /// so it meets ships and bullets and no other wall.
    pub fn groups(&self) -> (groups: CollisionGroups)
        ensures
            groups == groups_of(Category::Wall),
    {
        Category::Wall.groups()
    }
}

impl Ship {
    /// The masks of a ship's collider: every ship, fighter or asteroid, is
    /// of the ship category, so it meets walls, bullets and other ships.
    pub fn groups(&self) -> (groups: CollisionGroups)
        ensures
            groups == groups_of(Category::Ship),
    {
        Category::Ship.groups()
    }
}

impl Bullet {
    /// The masks of a bullet's collider: every bullet is of the bullet
    /// category, so it meets walls and ships and no other bullet.
    pub fn groups(&self) -> (groups: CollisionGroups)
        ensures
            groups == groups_of(Category::Bullet),
    {
        Category::Bullet.groups()
    }
}

impl ShipClass {
    /// Radius of the collider that the physics engine gives a ship of this
    /// class.
    pub fn collider_radius(self) -> (radius: u32)
        ensures
            radius == radius_of(self),
            ASTEROID_RADIUS <= radius <= ASTEROID_RADIUS + ASTEROID_GROWTH * LARGEST_VARIANT,
    {
        match self {
            ShipClass::Fighter => FIGHTER_RADIUS,
            ShipClass::Asteroid { variant } => {
                let steps: u32 = if variant <= 0 {
                    0
                } else if variant >= LARGEST_VARIANT {
                    LARGEST_VARIANT as u32
                } else {
                    variant as u32
                };
                assert(ASTEROID_GROWTH * steps <= ASTEROID_GROWTH * LARGEST_VARIANT)
                    by (nonlinear_arith)
                    requires
                        steps <= LARGEST_VARIANT,
                ;
                ASTEROID_RADIUS + ASTEROID_GROWTH * steps
            },
        }
    }
}

impl World {
    /// The world's invariant: ships and bullets are kept in the order of
    /// their creation, and every handle in use was given out in this
    /// session: none is under the session's first handle, none at or above
    /// the counter.
    pub open spec fn wf(&self) -> bool {
        &&& self.first_handle <= self.next_handle
        &&& ships_ordered(self.ships@, self.next_handle)
        &&& bullets_ordered(self.bullets@, self.next_handle)
        &&& forall|i: int|
            0 <= i < self.ships@.len() ==> (#[trigger] self.ships@[i]).handle.0
                >= self.first_handle
        &&& forall|i: int|
            0 <= i < self.bullets@.len() ==> (#[trigger] self.bullets@[i]).handle.0
                >= self.first_handle
    }

    /// Whether a ship with this handle is alive.
    pub open spec fn has_ship(&self, handle: ShipHandle) -> bool {
        exists|i: int| 0 <= i < self.ships@.len() && self.ships@[i].handle == handle
    }

    /// Position of the ship with this handle among the ships alive; it
    /// means something only while such a ship is alive.
    pub open spec fn index_of(&self, handle: ShipHandle) -> int {
        choose|i: int| 0 <= i < self.ships@.len() && self.ships@[i].handle == handle
    }

    /// The ship with this handle; it means something only while such a ship
    /// is alive.
    pub open spec fn ship_named(&self, handle: ShipHandle) -> Ship {
        self.ships@[self.index_of(handle)]
    }

    /// Whether a bullet with this handle is in flight.
    pub open spec fn has_bullet(&self, handle: BulletHandle) -> bool {
        exists|i: int| 0 <= i < self.bullets@.len() && self.bullets@[i].handle == handle
    }

    /// Position of the bullet with this handle among the bullets in flight;
    /// it means something only while such a bullet is in flight.
    pub open spec fn bullet_index_of(&self, handle: BulletHandle) -> int {
        choose|i: int| 0 <= i < self.bullets@.len() && self.bullets@[i].handle == handle
    }

    /// Whether a contact between this bullet and this ship destroys the
    /// ship: both are there, and their teams differ.
    pub open spec fn is_hit(&self, bullet: BulletHandle, ship: ShipHandle) -> bool {
        &&& self.has_bullet(bullet)
        &&& self.has_ship(ship)
        &&& self.bullets@[self.bullet_index_of(bullet)].team != self.ship_named(ship).team
    }

    /// Whether the counter leaves room for `count` more handles.
    pub open spec fn has_room(&self, count: int) -> bool {
        self.next_handle + count <= u64::MAX
    }

    /// An empty world at tick zero.
    pub fn new() -> (world: World)
        ensures
            world.wf(),
            world.ships@.len() == 0,
            world.bullets@.len() == 0,
            world.walls@.len() == 0,
            world.first_handle == 0,
            world.next_handle == 0,
            world.tick == 0,
            !world.collided,
    {
        World {
            ships: Vec::new(),
            bullets: Vec::new(),
            walls: Vec::new(),
            first_handle: 0,
            next_handle: 0,
            tick: 0,
            collided: false,
        }
    }

    /// Whether this world is what a reset makes of `before`: empty, at tick
    /// zero, with the flag lowered, and with a new session that begins at
    /// the handle that `before` would have given out next.
    pub open spec fn is_reset_of(&self, before: World) -> bool {
        &&& self.ships@.len() == 0
        &&& self.bullets@.len() == 0
        &&& self.walls@.len() == 0
        &&& self.next_handle == before.next_handle
        &&& self.first_handle == before.next_handle
        &&& self.tick == 0
        &&& !self.collided
    }

    /// Discards every ship, bullet and wall and starts a new session at tick
    /// zero. The handle counter goes on, and the new session's first handle
    /// is the counter: no handle given out before the reset names anything
    /// in this session.
    pub fn reset(&mut self)
        requires
            old(self).wf(),
        ensures
            final(self).wf(),
            final(self).is_reset_of(*old(self)),
    {
        self.ships.clear();
        self.bullets.clear();
        self.walls.clear();
        self.first_handle = self.next_handle;
        self.tick = 0;
        self.collided = false;
    }

    /// Number of ships alive.
    pub fn ship_count(&self) -> (count: usize)
        ensures
            count == self.ships@.len(),
    {
        self.ships.len()
    }

    /// Number of bullets in flight.
    pub fn bullet_count(&self) -> (count: usize)
        ensures
            count == self.bullets@.len(),
    {
        self.bullets.len()
    }

    /// Handle of the oldest ship alive.
    pub fn first_ship(&self) -> (first: Option<ShipHandle>)
        ensures
            first == if self.ships@.len() > 0 {
                Some(self.ships@[0].handle)
            } else {
                None
            },
    {
        if self.ships.len() > 0 {
            Some(self.ships[0].handle)
        } else {
            None
        }
    }

    /// Position of the ship with this handle among the ships alive.
    pub fn find_ship(&self, handle: ShipHandle) -> (found: Option<usize>)
        ensures
            found.is_some() == self.has_ship(handle),
            found matches Some(i) ==> i < self.ships@.len() && self.ships@[i as int].handle
                == handle,
            found matches Some(i) ==> forall|k: int|
                0 <= k < i ==> (#[trigger] self.ships@[k]).handle != handle,
            self.wf() ==> (found matches Some(i) ==> i == self.index_of(handle)),
    {
        let mut i: usize = 0;
        while i < self.ships.len()
            invariant
                i <= self.ships@.len(),
                forall|k: int| 0 <= k < i ==> self.ships@[k].handle != handle,
            decreases self.ships@.len() - i,
        {
            if self.ships[i].handle.0 == handle.0 {
                return Some(i);
            }
            i += 1;
        }
        None
    }

    /// Position of the bullet with this handle among the bullets in flight.
    pub fn find_bullet(&self, handle: BulletHandle) -> (found: Option<usize>)
        ensures
            found.is_some() == self.has_bullet(handle),
            found matches Some(i) ==> i < self.bullets@.len() && self.bullets@[i as int].handle
                == handle,
            found matches Some(i) ==> forall|k: int|
                0 <= k < i ==> (#[trigger] self.bullets@[k]).handle != handle,
    {
        let mut i: usize = 0;
        while i < self.bullets.len()
            invariant
                i <= self.bullets@.len(),
                forall|k: int| 0 <= k < i ==> self.bullets@[k].handle != handle,
            decreases self.bullets@.len() - i,
        {
            if self.bullets[i].handle.0 == handle.0 {
                return Some(i);
            }
            i += 1;
        }
        None
    }

    /// The ship with this handle, as it is now.
    pub fn ship(&self, handle: ShipHandle) -> (ship: Option<Ship>)
        ensures
            ship.is_some() == self.has_ship(handle),
            ship matches Some(s) ==> s.handle == handle && self.ships@.contains(s),
            self.wf() ==> (ship matches Some(s) ==> s == self.ship_named(handle)),
    {
        match self.find_ship(handle) {
            Some(i) => Some(self.ships[i]),
            None => None,
        }
    }

    /// The bullet with this handle, as it is now.
    pub fn bullet(&self, handle: BulletHandle) -> (bullet: Option<Bullet>)
        ensures
            bullet.is_some() == self.has_bullet(handle),
            bullet matches Some(b) ==> b.handle == handle && self.bullets@.contains(b),
            self.wf() ==> (bullet matches Some(b) ==> b == self.bullets@[self.bullet_index_of(
                handle,
            )]),
    {
        match self.find_bullet(handle) {
            Some(i) => {
                proof {
                    if self.wf() {
                        lemma_bullet_index_is_unique(*self, handle, i as int);
                    }
                }
                Some(self.bullets[i])
            },
            None => None,
        }
    }

    /// Adds a ship at rest in its rotation, with its weapon ready and no
    /// target, and gives it the next handle.
    pub fn add_ship(
        &mut self,
        team: i32,
        class: ShipClass,
        position: Vec2,
        velocity: Vec2,
        heading: i32,
    ) -> (handle: ShipHandle)
        requires
            old(self).wf(),
            old(self).has_room(1),
        ensures
            final(self).wf(),
            handle.0 == old(self).next_handle,
            final(self).has_ship(handle),
            forall|other: ShipHandle| #[trigger]
                old(self).has_ship(other) ==> final(self).has_ship(other),
            final(self).next_handle == old(self).next_handle + 1,
            final(self).ships@ == old(self).ships@.push(
                Ship {
                    handle,
                    team,
                    class,
                    position,
                    velocity,
                    heading,
                    angular_velocity: 0,
                    cooldown: 0,
                    target: None,
                },
            ),
            final(self).bullets@ == old(self).bullets@,
            final(self).walls@ == old(self).walls@,
            final(self).tick == old(self).tick,
            final(self).first_handle == old(self).first_handle,
            final(self).collided == old(self).collided,
    {
        let handle = ShipHandle(self.next_handle);
        self.ships.push(
            Ship {
                handle,
                team,
                class,
                position,
                velocity,
                heading,
                angular_velocity: 0,
                cooldown: 0,
                target: None,
            },
        );
        self.next_handle = self.next_handle + 1;
        proof {
            let last = old(self).ships@.len() as int;
            assert(self.ships@[last].handle == handle);
            assert forall|other: ShipHandle| #[trigger] old(self).has_ship(other) implies self.has_ship(
                other,
            ) by {
                let i = choose|i: int|
                    0 <= i < old(self).ships@.len() && old(self).ships@[i].handle == other;
                assert(self.ships@[i].handle == other);
            }
        }
        handle
    }

    /// Adds a bullet that was created at the current tick and lives for the
    /// usual time, and gives it the next handle.
    pub fn add_bullet(&mut self, team: i32, position: Vec2, velocity: Vec2) -> (handle:
        BulletHandle)
        requires
            old(self).wf(),
            old(self).has_room(1),
        ensures
            final(self).wf(),
            handle.0 == old(self).next_handle,
            final(self).has_bullet(handle),
            forall|other: BulletHandle| #[trigger]
                old(self).has_bullet(other) ==> final(self).has_bullet(other),
            final(self).next_handle == old(self).next_handle + 1,
            final(self).bullets@ == old(self).bullets@.push(
                Bullet {
                    handle,
                    team,
                    position,
                    velocity,
                    spawn_tick: old(self).tick,
                    ttl: BULLET_LIFETIME_TICKS,
                },
            ),
            final(self).ships@ == old(self).ships@,
            final(self).walls@ == old(self).walls@,
            final(self).tick == old(self).tick,
            final(self).first_handle == old(self).first_handle,
            final(self).collided == old(self).collided,
    {
        let handle = BulletHandle(self.next_handle);
        self.bullets.push(
            Bullet {
                handle,
                team,
                position,
                velocity,
                spawn_tick: self.tick,
                ttl: BULLET_LIFETIME_TICKS,
            },
        );
        self.next_handle = self.next_handle + 1;
        proof {
            let last = old(self).bullets@.len() as int;
            assert(self.bullets@[last].handle == handle);
            assert forall|other: BulletHandle| #[trigger]
                old(self).has_bullet(other) implies self.has_bullet(other) by {
                let i = choose|i: int|
                    0 <= i < old(self).bullets@.len() && old(self).bullets@[i].handle == other;
                assert(self.bullets@[i].handle == other);
            }
        }
        handle
    }

    /// Hands the ship with this handle a target for its program.
    pub fn write_target(&mut self, handle: ShipHandle, target: Vec2)
        requires
            old(self).wf(),
            old(self).has_ship(handle),
        ensures
            final(self).wf(),
            forall|other: ShipHandle| #[trigger]
                final(self).has_ship(other) == old(self).has_ship(other),
            final(self).ships@.len() == old(self).ships@.len(),
            forall|i: int|
                0 <= i < old(self).ships@.len() ==> #[trigger] final(self).ships@[i] == (if old(
                    self,
                ).ships@[i].handle == handle {
                    Ship { target: Some(target), ..old(self).ships@[i] }
                } else {
                    old(self).ships@[i]
                }),
            final(self).bullets@ == old(self).bullets@,
            final(self).walls@ == old(self).walls@,
            final(self).next_handle == old(self).next_handle,
            final(self).tick == old(self).tick,
            final(self).first_handle == old(self).first_handle,
            final(self).collided == old(self).collided,
    {
        match self.find_ship(handle) {
            Some(i) => {
                let ship = self.ships[i];
                self.ships.set(i, Ship { target: Some(target), ..ship });
            },
            None => {},
        }
        proof {
            lemma_same_handles_same_ships(*old(self), *self);
        }
    }

    /// Adds a wall.
    pub fn add_wall(&mut self, wall: Wall)
        ensures
            final(self).walls@ == old(self).walls@.push(wall),
            final(self).ships@ == old(self).ships@,
            final(self).bullets@ == old(self).bullets@,
            final(self).next_handle == old(self).next_handle,
            final(self).tick == old(self).tick,
            final(self).first_handle == old(self).first_handle,
            final(self).collided == old(self).collided,
    {
        self.walls.push(wall);
    }

    /// Whether something was destroyed since the flag was last taken; the
    /// flag is lowered.
    pub fn take_collided(&mut self) -> (collided: bool)
        ensures
            collided == old(self).collided,
            !final(self).collided,
            final(self).ships@ == old(self).ships@,
            final(self).bullets@ == old(self).bullets@,
            final(self).walls@ == old(self).walls@,
            final(self).next_handle == old(self).next_handle,
            final(self).tick == old(self).tick,
            final(self).first_handle == old(self).first_handle,
    {
        let collided = self.collided;
        self.collided = false;
        collided
    }

    /// Whether a shot of this ship in this direction can be represented:
    /// the ship is alive, a handle is left for the bullet, the direction is
    /// no longer than a unit, and the bullet's position and velocity fit.
    pub open spec fn can_fire(&self, handle: ShipHandle, direction: Vec2) -> bool {
        &&& self.has_ship(handle)
        &&& self.has_room(1)
        &&& fits_direction(direction)
        &&& sum_fits(self.ship_named(handle).position, muzzle_offset(direction))
        &&& sum_fits(self.ship_named(handle).velocity, muzzle_velocity(direction))
    }

    /// What an order to fire makes of the world. A weapon that the ship has
    /// and that is ready creates a bullet of the ship's team at the muzzle,
    /// flying with the ship's velocity plus the muzzle velocity along the
    /// direction, and starts to reload. Otherwise nothing changes. The ship
    /// keeps its position and its velocity either way: there is no recoil.
    pub open spec fn fires(
        &self,
        after: World,
        handle: ShipHandle,
        slot: u32,
        direction: Vec2,
        outcome: FireOutcome,
    ) -> bool {
        let ship = self.ship_named(handle);
        &&& after.wf()
        &&& after.walls@ == self.walls@
        &&& after.tick == self.tick
        &&& after.first_handle == self.first_handle
        &&& after.collided == self.collided
        &&& forall|other: ShipHandle| #[trigger] after.has_ship(other) == self.has_ship(other)
        &&& after.ship_named(handle).position == ship.position
        &&& after.ship_named(handle).velocity == ship.velocity
        &&& outcome == (if slot >= weapon_slots(ship.class) {
            FireOutcome::Unarmed
        } else if ship.cooldown > 0 {
            FireOutcome::Reloading
        } else {
            FireOutcome::Fired(BulletHandle(self.next_handle))
        })
        &&& !(outcome is Fired) ==> {
            &&& after.ships@ == self.ships@
            &&& after.bullets@ == self.bullets@
            &&& after.next_handle == self.next_handle
        }
        &&& outcome is Fired ==> {
            &&& after.ships@ == self.ships@.update(
                self.index_of(handle),
                Ship { cooldown: RELOAD_TICKS, ..ship },
            )
            &&& after.bullets@ == self.bullets@.push(
                Bullet {
                    handle: BulletHandle(self.next_handle),
                    team: ship.team,
                    position: plus(ship.position, muzzle_offset(direction)),
                    velocity: plus(ship.velocity, muzzle_velocity(direction)),
                    spawn_tick: self.tick,
                    ttl: BULLET_LIFETIME_TICKS,
                },
            )
            &&& after.next_handle == self.next_handle + 1
        }
    }

    /// Fires a weapon of a ship that points in `direction`, a vector of one
    /// unit's length. What becomes of the order and of the world is what
    /// `fires` states.
    pub fn fire_weapon(&mut self, handle: ShipHandle, slot: u32, direction: Vec2) -> (outcome:
        FireOutcome)
        requires
            old(self).wf(),
            old(self).can_fire(handle, direction),
        ensures
            old(self).fires(*final(self), handle, slot, direction, outcome),
    {
        let i: usize = self.find_ship(handle).unwrap();
        let ship: Ship = self.ships[i];
        let armed: bool = match ship.class {
            ShipClass::Fighter => slot < 1,
            ShipClass::Asteroid { .. } => false,
        };
        if !armed {
            assert(self.ships@[i as int] == self.ship_named(handle));
            return FireOutcome::Unarmed;
        }
        if ship.cooldown > 0 {
            assert(self.ships@[i as int] == self.ship_named(handle));
            return FireOutcome::Reloading;
        }
        let offset = scale(&direction, NOSE_OFFSET);
        let muzzle = scale(&direction, MUZZLE_SPEED);
        let position = Vec2 { x: ship.position.x + offset.x, y: ship.position.y + offset.y };
        let velocity = Vec2 { x: ship.velocity.x + muzzle.x, y: ship.velocity.y + muzzle.y };
        self.ships.set(i, Ship { cooldown: RELOAD_TICKS, ..ship });
        let bullet = self.add_bullet(ship.team, position, velocity);
        proof {
            assert(self.ships@[i as int].handle == handle);
            lemma_index_is_unique(*self, handle, i as int);
            lemma_same_handles_same_ships(*old(self), *self);
        }
        FireOutcome::Fired(bullet)
    }

    /// Fires a weapon if the shot can be represented, and does nothing and
    /// says so if it cannot.
    pub fn try_fire_weapon(&mut self, handle: ShipHandle, slot: u32, direction: Vec2) -> (outcome:
        Option<FireOutcome>)
        requires
            old(self).wf(),
        ensures
            outcome.is_some() == old(self).can_fire(handle, direction),
            outcome matches Some(fired) ==> old(self).fires(
                *final(self),
                handle,
                slot,
                direction,
                fired,
            ),
            outcome is None ==> *final(self) == *old(self),
    {
        let ship: Ship = match self.ship(handle) {
            Some(ship) => ship,
            None => {
                return None;
            },
        };
        if self.next_handle == u64::MAX {
            return None;
        }
        if direction.x < -UNIT || direction.x > UNIT || direction.y < -UNIT || direction.y > UNIT {
            return None;
        }
        let offset = scale(&direction, NOSE_OFFSET);
        let muzzle = scale(&direction, MUZZLE_SPEED);
        if ship.position.checked_add(&offset).is_none() || ship.velocity.checked_add(
            &muzzle,
        ).is_none() {
            return None;
        }
        Some(self.fire_weapon(handle, slot, direction))
    }

    /// Destroys a ship at once: it leaves the world, and the collision flag
    /// is raised. The ships that stay keep their order.
    pub fn explode(&mut self, handle: ShipHandle)
        requires
            old(self).wf(),
            old(self).has_ship(handle),
        ensures
            final(self).wf(),
            final(self).ships@ == old(self).ships@.remove(old(self).index_of(handle)),
            !final(self).has_ship(handle),
            final(self).collided,
            final(self).bullets@ == old(self).bullets@,
            final(self).walls@ == old(self).walls@,
            final(self).next_handle == old(self).next_handle,
            final(self).tick == old(self).tick,
            final(self).first_handle == old(self).first_handle,
    {
        let i: usize = self.find_ship(handle).unwrap();
        self.ships.remove(i);
        self.collided = true;
        proof {
            lemma_removal_forgets_ship(old(self).ships@, old(self).next_handle, i as int);
        }
    }

    /// Writes back where the physics engine has moved a ship.
    pub fn set_motion(
        &mut self,
        handle: ShipHandle,
        position: Vec2,
        velocity: Vec2,
        heading: i32,
        angular_velocity: i32,
    )
        requires
            old(self).wf(),
            old(self).has_ship(handle),
        ensures
            final(self).wf(),
            forall|other: ShipHandle| #[trigger]
                final(self).has_ship(other) == old(self).has_ship(other),
            final(self).ships@ == old(self).ships@.update(
                old(self).index_of(handle),
                Ship {
                    position,
                    velocity,
                    heading,
                    angular_velocity,
                    ..old(self).ship_named(handle)
                },
            ),
            final(self).bullets@ == old(self).bullets@,
            final(self).walls@ == old(self).walls@,
            final(self).next_handle == old(self).next_handle,
            final(self).tick == old(self).tick,
            final(self).first_handle == old(self).first_handle,
            final(self).collided == old(self).collided,
    {
        let i: usize = self.find_ship(handle).unwrap();
        let ship: Ship = self.ships[i];
        self.ships.set(i, Ship { position, velocity, heading, angular_velocity, ..ship });
        proof {
            lemma_same_handles_same_ships(*old(self), *self);
        }
    }

    /// Writes back where the physics engine has moved a bullet.
    pub fn set_bullet_motion(&mut self, handle: BulletHandle, position: Vec2, velocity: Vec2)
        requires
            old(self).wf(),
            old(self).has_bullet(handle),
        ensures
            final(self).wf(),
            final(self).bullets@ == old(self).bullets@.update(
                old(self).bullet_index_of(handle),
                Bullet {
                    position,
                    velocity,
                    ..old(self).bullets@[old(self).bullet_index_of(handle)]
                },
            ),
            final(self).ships@ == old(self).ships@,
            final(self).walls@ == old(self).walls@,
            final(self).next_handle == old(self).next_handle,
            final(self).tick == old(self).tick,
            final(self).first_handle == old(self).first_handle,
            final(self).collided == old(self).collided,
    {
        let i: usize = self.find_bullet(handle).unwrap();
        proof {
            lemma_bullet_index_is_unique(*self, handle, i as int);
        }
        let bullet: Bullet = self.bullets[i];
        self.bullets.set(i, Bullet { position, velocity, ..bullet });
    }

    /// Settles one contact that the physics engine reported between a
    /// bullet and a ship. Where both are still there and the bullet is of
    /// another team than the ship, the ship is destroyed, the bullet is
    /// removed and the collision flag is raised. Otherwise nothing happens.
    pub fn resolve_contact(&mut self, bullet: BulletHandle, ship: ShipHandle) -> (hit: bool)
        requires
            old(self).wf(),
        ensures
            final(self).wf(),
            hit == old(self).is_hit(bullet, ship),
            hit ==> {
                &&& final(self).ships@ == old(self).ships@.remove(old(self).index_of(ship))
                &&& final(self).bullets@ == old(self).bullets@.remove(
                    old(self).bullet_index_of(bullet),
                )
                &&& !final(self).has_ship(ship)
                &&& !final(self).has_bullet(bullet)
                &&& final(self).collided
            },
            !hit ==> {
                &&& final(self).ships@ == old(self).ships@
                &&& final(self).bullets@ == old(self).bullets@
                &&& final(self).collided == old(self).collided
            },
            final(self).walls@ == old(self).walls@,
            final(self).next_handle == old(self).next_handle,
            final(self).tick == old(self).tick,
            final(self).first_handle == old(self).first_handle,
    {
        let b: usize = match self.find_bullet(bullet) {
            Some(b) => b,
            None => {
                return false;
            },
        };
        let s: usize = match self.find_ship(ship) {
            Some(s) => s,
            None => {
                return false;
            },
        };
        proof {
            lemma_bullet_index_is_unique(*self, bullet, b as int);
        }
        if self.bullets[b].team == self.ships[s].team {
            return false;
        }
        self.ships.remove(s);
        self.bullets.remove(b);
        self.collided = true;
        proof {
            lemma_removal_forgets_ship(old(self).ships@, old(self).next_handle, s as int);
            lemma_removal_forgets_bullet(old(self).bullets@, old(self).next_handle, b as int);
        }
        true
    }

    /// Closes a tick after the physics step: the counter advances, every
    /// weapon that reloads comes one tick nearer to being ready, and the
    /// bullets that have outlived their time at the new tick are removed.
    /// The bullets that stay keep their order.
    pub fn finish_tick(&mut self)
        requires
            old(self).wf(),
            old(self).tick < u64::MAX,
        ensures
            final(self).wf(),
            final(self).tick == old(self).tick + 1,
            final(self).first_handle == old(self).first_handle,
            forall|other: ShipHandle| #[trigger]
                final(self).has_ship(other) == old(self).has_ship(other),
            final(self).ships@ == old(self).ships@.map_values(|s: Ship| cooled(s)),
            final(self).bullets@ == old(self).bullets@.filter(
                |b: Bullet| !expired(b, final(self).tick),
            ),
            final(self).walls@ == old(self).walls@,
            final(self).next_handle == old(self).next_handle,
            final(self).collided == old(self).collided,
    {
        self.tick = self.tick + 1;
        let now: u64 = self.tick;
        let mut i: usize = 0;
        while i < self.ships.len()
            invariant
                i <= self.ships@.len(),
                self.ships@.len() == old(self).ships@.len(),
                forall|k: int| 0 <= k < i ==> #[trigger] self.ships@[k] == cooled(old(self).ships@[k]),
                forall|k: int|
                    i <= k < self.ships@.len() ==> #[trigger] self.ships@[k] == old(self).ships@[k],
                self.bullets@ == old(self).bullets@,
                self.walls@ == old(self).walls@,
                self.next_handle == old(self).next_handle,
                self.collided == old(self).collided,
                self.tick == now,
                self.first_handle == old(self).first_handle,
            decreases self.ships@.len() - i,
        {
            let ship: Ship = self.ships[i];
            if ship.cooldown > 0 {
                self.ships.set(i, Ship { cooldown: ship.cooldown - 1, ..ship });
            }
            i += 1;
        }
        assert(self.ships@ =~= old(self).ships@.map_values(|s: Ship| cooled(s)));
        assert(ships_ordered(self.ships@, self.next_handle)) by {
            assert forall|a: int, b: int| 0 <= a < b < self.ships@.len() implies (
            #[trigger] self.ships@[a]).handle.0 < (#[trigger] self.ships@[b]).handle.0 by {
                assert(old(self).ships@[a].handle.0 < old(self).ships@[b].handle.0);
            }
            assert forall|a: int| 0 <= a < self.ships@.len() implies (
            #[trigger] self.ships@[a]).handle.0 < self.next_handle by {
                assert(old(self).ships@[a].handle.0 < old(self).next_handle);
            }
        }
        assert forall|a: int| 0 <= a < self.ships@.len() implies (
        #[trigger] self.ships@[a]).handle.0 >= self.first_handle by {
            assert(old(self).ships@[a].handle.0 >= old(self).first_handle);
        }
        let ghost alive = |b: Bullet| !expired(b, now);
        let mut kept: Vec<Bullet> = Vec::new();
        let mut j: usize = 0;
        assert(self.bullets@.take(0).filter(alive) =~= Seq::<Bullet>::empty()) by {
            reveal(Seq::filter);
        }
        while j < self.bullets.len()
            invariant
                j <= self.bullets@.len(),
                self.bullets@ == old(self).bullets@,
                bullets_ordered(self.bullets@, self.next_handle),
                alive == |b: Bullet| !expired(b, now),
                kept@ == self.bullets@.take(j as int).filter(alive),
                bullets_ordered(kept@, self.next_handle),
                forall|k: int|
                    0 <= k < kept@.len() ==> (#[trigger] kept@[k]).handle.0 >= self.first_handle,
                forall|m: int|
                    0 <= m < self.bullets@.len() ==> (#[trigger] self.bullets@[m]).handle.0
                        >= self.first_handle,
                forall|a: int|
                    0 <= a < self.ships@.len() ==> (#[trigger] self.ships@[a]).handle.0
                        >= self.first_handle,
                self.first_handle <= self.next_handle,
                forall|k: int, m: int|
                    0 <= k < kept@.len() && j <= m < self.bullets@.len() ==> (
                    #[trigger] kept@[k]).handle.0 < (#[trigger] self.bullets@[m]).handle.0,
                self.ships@ == old(self).ships@.map_values(|s: Ship| cooled(s)),
                ships_ordered(self.ships@, self.next_handle),
                self.walls@ == old(self).walls@,
                self.next_handle == old(self).next_handle,
                self.collided == old(self).collided,
                self.tick == now,
                self.first_handle == old(self).first_handle,
            decreases self.bullets@.len() - j,
        {
            let bullet: Bullet = self.bullets[j];
            let gone: bool = now >= bullet.spawn_tick && now - bullet.spawn_tick >= bullet.ttl as u64;
            proof {
                let longer = self.bullets@.take(j + 1);
                assert(longer.drop_last() =~= self.bullets@.take(j as int));
                assert(longer.last() == bullet);
                reveal(Seq::filter);
                assert(longer.filter(alive) == if alive(bullet) {
                    self.bullets@.take(j as int).filter(alive).push(bullet)
                } else {
                    self.bullets@.take(j as int).filter(alive)
                });
            }
            if !gone {
                kept.push(bullet);
            }
            j += 1;
        }
        assert(self.bullets@.take(j as int) =~= self.bullets@);
        self.bullets = kept;
        proof {
            lemma_same_handles_same_ships(*old(self), *self);
        }
    }
}

/// Two worlds in the same state: the same bodies with the same handles in
/// the same order, the same counters and the same flag.
pub open spec fn same_state(a: World, b: World) -> bool {
    &&& a.ships@ == b.ships@
    &&& a.bullets@ == b.bullets@
    &&& a.walls@ == b.walls@
    &&& a.first_handle == b.first_handle
    &&& a.next_handle == b.next_handle
    &&& a.tick == b.tick
    &&& a.collided == b.collided
}

/// An order to fire has one outcome only: whatever it makes of the same
/// world twice is the same answer and the same world.
pub proof fn lemma_firing_is_determined(
    before: World,
    one: World,
    other: World,
    handle: ShipHandle,
    slot: u32,
    direction: Vec2,
    first: FireOutcome,
    second: FireOutcome,
)
    requires
        before.fires(one, handle, slot, direction, first),
        before.fires(other, handle, slot, direction, second),
    ensures
        first == second,
        same_state(one, other),
{
}

/// The vector of a length along a direction.
fn scale(direction: &Vec2, length: i32) -> (scaled: Vec2)
    requires
        fits_direction(*direction),
        0 <= length <= MUZZLE_SPEED,
    ensures
        scaled == along(*direction, length as int),
{
    let factor: i32 = length / UNIT;
    assert(-1_000_000 <= direction.x * factor <= 1_000_000 && -1_000_000 <= direction.y * factor
        <= 1_000_000) by (nonlinear_arith)
        requires
            -1000 <= direction.x <= 1000,
            -1000 <= direction.y <= 1000,
            0 <= factor <= 1000,
    ;
    Vec2 { x: direction.x * factor, y: direction.y * factor }
}

/// A bullet leaves the weapon at the muzzle speed: along a direction of
/// one unit's length, the muzzle velocity is as long as the muzzle speed,
/// within a thousandth of it, and the muzzle lies at the nose offset from
/// the ship's centre, within a thousandth of it.
pub proof fn lemma_muzzle_speed(direction: Vec2)
    requires
        is_unit(direction),
    ensures
        (MUZZLE_SPEED - MUZZLE_SPEED / UNIT) * (MUZZLE_SPEED - MUZZLE_SPEED / UNIT)
            <= length_squared(muzzle_velocity(direction)),
        length_squared(muzzle_velocity(direction)) <= (MUZZLE_SPEED + MUZZLE_SPEED / UNIT) * (
        MUZZLE_SPEED + MUZZLE_SPEED / UNIT),
        (NOSE_OFFSET - NOSE_OFFSET / UNIT) * (NOSE_OFFSET - NOSE_OFFSET / UNIT) <= length_squared(
            muzzle_offset(direction),
        ),
        length_squared(muzzle_offset(direction)) <= (NOSE_OFFSET + NOSE_OFFSET / UNIT) * (
        NOSE_OFFSET + NOSE_OFFSET / UNIT),
{
    let x = direction.x as int;
    let y = direction.y as int;
    let l = x * x + y * y;
    assert(999 * 999 <= l <= 1001 * 1001);
    assert(-1001 <= x <= 1001 && -1001 <= y <= 1001) by (nonlinear_arith)
        requires
            x * x + y * y <= 1001 * 1001,
    ;
    assert((x * 1000) * (x * 1000) + (y * 1000) * (y * 1000) == 1_000_000 * l)
        by (nonlinear_arith)
        requires
            l == x * x + y * y,
    ;
    assert((x * 20) * (x * 20) + (y * 20) * (y * 20) == 400 * l) by (nonlinear_arith)
        requires
            l == x * x + y * y,
    ;
    assert(muzzle_velocity(direction).x == x * 1000 && muzzle_velocity(direction).y == y * 1000);
    assert(muzzle_offset(direction).x == x * 20 && muzzle_offset(direction).y == y * 20);
}

/// A handle of an earlier session names nothing: in a well-formed world no
/// ship and no bullet has a handle under the session's first.
pub proof fn lemma_stale_handles_name_nothing(world: World, ship: ShipHandle, bullet: BulletHandle)
    requires
        world.wf(),
    ensures
        ship.0 < world.first_handle ==> !world.has_ship(ship),
        bullet.0 < world.first_handle ==> !world.has_bullet(bullet),
{
}

/// A reset outdates every handle: whatever a handle named before the
/// reset, it names nothing in any later state of the new session, whatever
/// has been created since.
pub proof fn lemma_reset_outdates_handles(
    before: World,
    cleared: World,
    later: World,
    ship: ShipHandle,
    bullet: BulletHandle,
)
    requires
        before.wf(),
        cleared.is_reset_of(before),
        later.wf(),
        later.first_handle == cleared.first_handle,
    ensures
        before.has_ship(ship) ==> !later.has_ship(ship),
        before.has_bullet(bullet) ==> !later.has_bullet(bullet),
{
    if before.has_ship(ship) {
        let i = choose|i: int| 0 <= i < before.ships@.len() && before.ships@[i].handle == ship;
        assert(before.ships@[i].handle.0 < before.next_handle);
    }
    if before.has_bullet(bullet) {
        let i = choose|i: int| 0 <= i < before.bullets@.len() && before.bullets@[i].handle == bullet;
        assert(before.bullets@[i].handle.0 < before.next_handle);
    }
}

/// Where two worlds hold ships with the same handles in the same places,
/// a handle names a ship in the one exactly if it names one in the other.
pub proof fn lemma_same_handles_same_ships(before: World, after: World)
    requires
        after.ships@.len() == before.ships@.len(),
        forall|i: int|
            0 <= i < before.ships@.len() ==> (#[trigger] after.ships@[i]).handle
                == before.ships@[i].handle,
    ensures
        forall|handle: ShipHandle| #[trigger] after.has_ship(handle) == before.has_ship(handle),
{
    assert forall|handle: ShipHandle| #[trigger] after.has_ship(handle) == before.has_ship(
        handle,
    ) by {
        if before.has_ship(handle) {
            let i = choose|i: int|
                0 <= i < before.ships@.len() && before.ships@[i].handle == handle;
            assert(after.ships@[i].handle == handle);
        }
        if after.has_ship(handle) {
            let i = choose|i: int| 0 <= i < after.ships@.len() && after.ships@[i].handle == handle;
            assert(before.ships@[i].handle == handle);
        }
    }
}

/// A reset is idempotent: a second reset, with nothing created in between,
/// leaves the world as the first one left it.
pub proof fn lemma_reset_is_idempotent(before: World, once: World, twice: World)
    requires
        once.is_reset_of(before),
        twice.is_reset_of(once),
    ensures
        twice.is_reset_of(before),
        twice.ships@ == once.ships@,
        twice.bullets@ == once.bullets@,
        twice.walls@ == once.walls@,
        twice.first_handle == once.first_handle,
        twice.next_handle == once.next_handle,
        twice.tick == once.tick,
        twice.collided == once.collided,
{
    assert(twice.ships@ =~= once.ships@);
    assert(twice.bullets@ =~= once.bullets@);
    assert(twice.walls@ =~= once.walls@);
}

/// In a well-formed world a handle names at most one ship.
pub proof fn lemma_index_is_unique(world: World, handle: ShipHandle, i: int)
    requires
        ships_ordered(world.ships@, world.next_handle),
        0 <= i < world.ships@.len(),
        world.ships@[i].handle == handle,
    ensures
        world.index_of(handle) == i,
{
    let k = world.index_of(handle);
    assert(world.ships@[k].handle == handle);
    if k < i {
        assert(world.ships@[k].handle.0 < world.ships@[i].handle.0);
    } else if i < k {
        assert(world.ships@[i].handle.0 < world.ships@[k].handle.0);
    }
}

/// In a well-formed world a handle names at most one bullet.
pub proof fn lemma_bullet_index_is_unique(world: World, handle: BulletHandle, i: int)
    requires
        bullets_ordered(world.bullets@, world.next_handle),
        0 <= i < world.bullets@.len(),
        world.bullets@[i].handle == handle,
    ensures
        world.bullet_index_of(handle) == i,
{
    let k = world.bullet_index_of(handle);
    assert(world.bullets@[k].handle == handle);
    if k < i {
        assert(world.bullets@[k].handle.0 < world.bullets@[i].handle.0);
    } else if i < k {
        assert(world.bullets@[i].handle.0 < world.bullets@[k].handle.0);
    }
}

/// Taking a ship out of ordered ships leaves them ordered, and the handle
/// of the ship that left names none of those that stay.
pub proof fn lemma_removal_forgets_ship(ships: Seq<Ship>, limit: u64, i: int)
    requires
        ships_ordered(ships, limit),
        0 <= i < ships.len(),
    ensures
        ships_ordered(ships.remove(i), limit),
        forall|k: int|
            0 <= k < ships.remove(i).len() ==> (#[trigger] ships.remove(i)[k]).handle
                != ships[i].handle,
{
    let rest = ships.remove(i);
    assert forall|k: int| 0 <= k < rest.len() implies rest[k] == ships[if k < i {
        k
    } else {
        k + 1
    }] by {}
    assert forall|a: int, b: int| 0 <= a < b < rest.len() implies (#[trigger] rest[a]).handle.0 < (
    #[trigger] rest[b]).handle.0 by {
        let a0 = if a < i { a } else { a + 1 };
        let b0 = if b < i { b } else { b + 1 };
        assert(ships[a0].handle.0 < ships[b0].handle.0);
    }
    assert forall|k: int| 0 <= k < rest.len() implies (#[trigger] rest[k]).handle.0 < limit by {
        let k0 = if k < i { k } else { k + 1 };
        assert(ships[k0].handle.0 < limit);
    }
    assert forall|k: int| 0 <= k < rest.len() implies (#[trigger] rest[k]).handle
        != ships[i].handle by {
        let k0 = if k < i { k } else { k + 1 };
        if k0 < i {
            assert(ships[k0].handle.0 < ships[i].handle.0);
        } else {
            assert(ships[i].handle.0 < ships[k0].handle.0);
        }
    }
}

/// Taking a bullet out of ordered bullets leaves them ordered, and the
/// handle of the bullet that left names none of those that stay.
pub proof fn lemma_removal_forgets_bullet(bullets: Seq<Bullet>, limit: u64, i: int)
    requires
        bullets_ordered(bullets, limit),
        0 <= i < bullets.len(),
    ensures
        bullets_ordered(bullets.remove(i), limit),
        forall|k: int|
            0 <= k < bullets.remove(i).len() ==> (#[trigger] bullets.remove(i)[k]).handle
                != bullets[i].handle,
{
    let rest = bullets.remove(i);
    assert forall|k: int| 0 <= k < rest.len() implies rest[k] == bullets[if k < i {
        k
    } else {
        k + 1
    }] by {}
    assert forall|a: int, b: int| 0 <= a < b < rest.len() implies (#[trigger] rest[a]).handle.0 < (
    #[trigger] rest[b]).handle.0 by {
        let a0 = if a < i { a } else { a + 1 };
        let b0 = if b < i { b } else { b + 1 };
        assert(bullets[a0].handle.0 < bullets[b0].handle.0);
    }
    assert forall|k: int| 0 <= k < rest.len() implies (#[trigger] rest[k]).handle.0 < limit by {
        let k0 = if k < i { k } else { k + 1 };
        assert(bullets[k0].handle.0 < limit);
    }
    assert forall|k: int| 0 <= k < rest.len() implies (#[trigger] rest[k]).handle
        != bullets[i].handle by {
        let k0 = if k < i { k } else { k + 1 };
        if k0 < i {
            assert(bullets[k0].handle.0 < bullets[i].handle.0);
        } else {
            assert(bullets[i].handle.0 < bullets[k0].handle.0);
        }
    }
}

} // verus!
