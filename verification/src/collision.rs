//! Collision categories and the masks that decide which of them touch.
//!
//! Every collider belongs to one category. The physics engine reports a
//! contact between two colliders only where each one's membership mask meets
//! the other's filter mask.

use vstd::prelude::*;

verus! {

/// Bit position of the wall category.
pub const WALL_COLLISION_GROUP: u32 = 0;

/// Bit position of the ship category.
pub const SHIP_COLLISION_GROUP: u32 = 1;

/// Bit position of the bullet category.
pub const BULLET_COLLISION_GROUP: u32 = 2;

/// What a collider is.
#[derive(Clone, Copy, Debug, PartialEq, Eq, Structural)]
pub enum Category {
    Wall,
    Ship,
    Bullet,
}

/// A membership mask and a filter mask, as the physics engine takes them.
#[derive(Clone, Copy, Debug, PartialEq, Eq, Structural)]
pub struct CollisionGroups {
    pub memberships: u32,
    pub filter: u32,
}

/// Two colliders interact where each one's memberships share a bit with the
/// other's filter.
pub open spec fn interacts(a: CollisionGroups, b: CollisionGroups) -> bool {
    (a.memberships & b.filter) != 0 && (b.memberships & a.filter) != 0
}

/// The masks of a category: its own bit as membership, and as filter the bits
/// of the categories it is meant to touch.
pub open spec fn groups_of(category: Category) -> CollisionGroups {
    match category {
        Category::Wall => CollisionGroups { memberships: 1, filter: 6 },
        Category::Ship => CollisionGroups { memberships: 2, filter: 7 },
        Category::Bullet => CollisionGroups { memberships: 4, filter: 3 },
    }
}

/// Which pairs of categories are meant to touch: everything meets everything,
/// except that walls do not meet walls and bullets do not meet bullets.
pub open spec fn touches(a: Category, b: Category) -> bool {
    !(a == Category::Wall && b == Category::Wall) && !(a == Category::Bullet && b
        == Category::Bullet)
}

/// Asks the physics engine whether two pairs of masks interact, through
/// `rapier2d_f64::geometry::InteractionGroups::test`. The engine documents
/// the answer as the conjunction of the two mask intersections being
/// non-empty, which is what `interacts` states.
#[verifier::external_body]
fn engine_test(a: CollisionGroups, b: CollisionGroups) -> (allowed: bool)
    ensures
        allowed == interacts(a, b),
{
    let left = rapier2d_f64::geometry::InteractionGroups::new(a.memberships, a.filter);
    let right = rapier2d_f64::geometry::InteractionGroups::new(b.memberships, b.filter);
    left.test(right)
}

impl Category {
    /// The masks that colliders of this category are created with.
    pub fn groups(self) -> (groups: CollisionGroups)
        ensures
            groups == groups_of(self),
    {
        let wall: u32 = 1u32 << WALL_COLLISION_GROUP;
        let ship: u32 = 1u32 << SHIP_COLLISION_GROUP;
        let bullet: u32 = 1u32 << BULLET_COLLISION_GROUP;
        proof {
            lemma_masks_are_group_bits();
        }
        match self {
            Category::Wall => CollisionGroups { memberships: wall, filter: ship | bullet },
            Category::Ship => CollisionGroups { memberships: ship, filter: wall | ship | bullet },
            Category::Bullet => CollisionGroups { memberships: bullet, filter: wall | ship },
        }
    }

    /// Whether the physics engine reports contacts between colliders of these
    /// two categories.
    pub fn collides_with(self, other: Category) -> (allowed: bool)
        ensures
            allowed == touches(self, other),
    {
        proof {
            lemma_masks_match_table(self, other);
        }
        engine_test(self.groups(), other.groups())
    }
}

/// The masks are made of the categories' bits: the membership of a
/// category is its own bit alone, a wall's filter holds the bits of ships
/// and bullets, a ship's filter all three bits, and a bullet's filter the
/// bits of walls and ships.
pub proof fn lemma_masks_are_group_bits()
    ensures
        groups_of(Category::Wall) == (CollisionGroups {
            memberships: 1u32 << WALL_COLLISION_GROUP,
            filter: (1u32 << SHIP_COLLISION_GROUP) | (1u32 << BULLET_COLLISION_GROUP),
        }),
        groups_of(Category::Ship) == (CollisionGroups {
            memberships: 1u32 << SHIP_COLLISION_GROUP,
            filter: (1u32 << WALL_COLLISION_GROUP) | (1u32 << SHIP_COLLISION_GROUP) | (1u32
                << BULLET_COLLISION_GROUP),
        }),
        groups_of(Category::Bullet) == (CollisionGroups {
            memberships: 1u32 << BULLET_COLLISION_GROUP,
            filter: (1u32 << WALL_COLLISION_GROUP) | (1u32 << SHIP_COLLISION_GROUP),
        }),
{
    assert(1u32 << 0u32 == 1u32) by (bit_vector);
    assert(1u32 << 1u32 == 2u32) by (bit_vector);
    assert(1u32 << 2u32 == 4u32) by (bit_vector);
    assert(2u32 | 4u32 == 6u32) by (bit_vector);
    assert(1u32 | 2u32 | 4u32 == 7u32) by (bit_vector);
    assert(1u32 | 2u32 == 3u32) by (bit_vector);
}

/// The masks give each pair of categories exactly the interaction that the
/// table of `touches` asks for; in particular the three memberships are
/// pairwise disjoint.
pub proof fn lemma_masks_match_table(a: Category, b: Category)
    ensures
        interacts(groups_of(a), groups_of(b)) == touches(a, b),
        a != b ==> groups_of(a).memberships & groups_of(b).memberships == 0,
{
    assert(1u32 & 6u32 == 0u32) by (bit_vector);
    assert(1u32 & 7u32 != 0u32) by (bit_vector);
    assert(1u32 & 3u32 != 0u32) by (bit_vector);
    assert(2u32 & 6u32 != 0u32) by (bit_vector);
    assert(2u32 & 7u32 != 0u32) by (bit_vector);
    assert(2u32 & 3u32 != 0u32) by (bit_vector);
    assert(4u32 & 6u32 != 0u32) by (bit_vector);
    assert(4u32 & 7u32 != 0u32) by (bit_vector);
    assert(4u32 & 3u32 == 0u32) by (bit_vector);
    assert(1u32 & 2u32 == 0u32) by (bit_vector);
    assert(1u32 & 4u32 == 0u32) by (bit_vector);
    assert(2u32 & 4u32 == 0u32) by (bit_vector);
    assert(2u32 & 1u32 == 0u32) by (bit_vector);
    assert(4u32 & 1u32 == 0u32) by (bit_vector);
    assert(4u32 & 2u32 == 0u32) by (bit_vector);
}

} // verus!
