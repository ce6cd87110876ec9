//! Radar: the one sensor of a ship.
//!
//! A scan finds the nearest ship of another team that is no farther than the
//! radar reaches, and reports where it is and how it moves at that moment.

use vstd::prelude::*;
use crate::vec2::{distance_squared, Vec2};
use crate::world::{Ship, ShipHandle, World};

verus! {

/// How far a radar reaches.
pub const MAX_RADAR_DISTANCE: u32 = 3_000_000;

/// The radar of one ship.
#[derive(Clone, Copy, Debug)]
pub struct RadarApi {
    /// The ship that carries the radar.
    pub handle: ShipHandle,
}

/// What a scan reports. Where nothing was found, position and velocity are
/// zero.
#[derive(Clone, Copy, Debug)]
pub struct ScanResult {
    pub found: bool,
    pub position: Vec2,
    pub velocity: Vec2,
}

/// A ship that the radar of `own` can report: one of another team, no
/// farther away than the radar reaches.
pub open spec fn detectable(own: Ship, other: Ship) -> bool {
    &&& other.team != own.team
    &&& distance_squared(own.position, other.position) <= MAX_RADAR_DISTANCE * MAX_RADAR_DISTANCE
}

/// The ship at `k` is the one that a scan by `own` reports: it is
/// detectable, no detectable ship is nearer, and of the detectable ships
/// that are as near it is the oldest.
pub open spec fn is_nearest(ships: Seq<Ship>, own: Ship, k: int) -> bool {
    &&& 0 <= k < ships.len()
    &&& detectable(own, ships[k])
    &&& forall|j: int|
        0 <= j < ships.len() && detectable(own, #[trigger] ships[j]) ==> distance_squared(
            own.position,
            ships[k].position,
        ) <= distance_squared(own.position, ships[j].position)
    &&& forall|j: int|
        0 <= j < k && detectable(own, #[trigger] ships[j]) ==> distance_squared(
            own.position,
            ships[k].position,
        ) < distance_squared(own.position, ships[j].position)
}

/// What a scan reports of a ship that it found.
pub open spec fn sighting(ship: Ship) -> ScanResult {
    ScanResult { found: true, position: ship.position, velocity: ship.velocity }
}

/// What a scan reports when it found nothing.
pub open spec fn nothing_found() -> ScanResult {
    ScanResult { found: false, position: Vec2 { x: 0, y: 0 }, velocity: Vec2 { x: 0, y: 0 } }
}

/// Scans for the nearest enemy of the ship that carries the radar. The world
/// is only read.
pub fn scan(obj: RadarApi, world: &World) -> (result: ScanResult)
    requires
        world.wf(),
        world.has_ship(obj.handle),
    ensures
        result.found == exists|k: int|
            0 <= k < world.ships@.len() && detectable(
                world.ship_named(obj.handle),
                #[trigger] world.ships@[k],
            ),
        result.found ==> exists|k: int|
            is_nearest(world.ships@, world.ship_named(obj.handle), k) && result == sighting(
                #[trigger] world.ships@[k],
            ),
        !result.found ==> result == nothing_found(),
{
    let own: Ship = world.ship(obj.handle).unwrap();
    let reach: u128 = (MAX_RADAR_DISTANCE as u128) * (MAX_RADAR_DISTANCE as u128);
    let mut result = ScanResult {
        found: false,
        position: Vec2 { x: 0, y: 0 },
        velocity: Vec2 { x: 0, y: 0 },
    };
    let mut best_distance: u128 = 0;
    let ghost mut best: int = 0;
    let mut i: usize = 0;
    while i < world.ships.len()
        invariant
            i <= world.ships@.len(),
            own == world.ship_named(obj.handle),
            reach == MAX_RADAR_DISTANCE * MAX_RADAR_DISTANCE,
            !result.found ==> result == nothing_found() && forall|j: int|
                0 <= j < i ==> !detectable(own, #[trigger] world.ships@[j]),
            result.found ==> {
                &&& 0 <= best < i
                &&& is_nearest(world.ships@.take(i as int), own, best)
                &&& result == sighting(world.ships@[best])
                &&& best_distance == distance_squared(own.position, world.ships@[best].position)
            },
        decreases world.ships@.len() - i,
    {
        let other: Ship = world.ships[i];
        let distance: u128 = own.position.distance_squared_to(&other.position);
        if other.team != own.team && distance <= reach {
            if !result.found || distance < best_distance {
                result =
                ScanResult { found: true, position: other.position, velocity: other.velocity };
                best_distance = distance;
                proof {
                    best = i as int;
                }
            }
        }
        proof {
            let shorter = world.ships@.take(i as int);
            let longer = world.ships@.take(i + 1);
            assert(forall|j: int| 0 <= j < i ==> shorter[j] == longer[j]);
            assert(longer[i as int] == world.ships@[i as int]);
        }
        i += 1;
    }
    proof {
        assert(world.ships@.take(i as int) =~= world.ships@);
    }
    result
}

/// Whether the scan found a ship.
pub fn get_found(obj: &mut ScanResult) -> (found: bool)
    ensures
        found == old(obj).found,
        *final(obj) == *old(obj),
{
    obj.found
}

/// Where the ship that the scan found was.
pub fn get_position(obj: &mut ScanResult) -> (position: Vec2)
    ensures
        position == old(obj).position,
        *final(obj) == *old(obj),
{
    obj.position
}

/// How the ship that the scan found was moving.
pub fn get_velocity(obj: &mut ScanResult) -> (velocity: Vec2)
    ensures
        velocity == old(obj).velocity,
        *final(obj) == *old(obj),
{
    obj.velocity
}

} // verus!
