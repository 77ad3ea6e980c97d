//! Physics vocabulary and the world queries collision is built on.

use vstd::prelude::*;
use crate::block::{block_flags, default_block_flags, BlockFlag, BlockId};
use crate::math::BlockPos;

verus! {

/// How a physics body moves.
#[derive(Debug, Clone, Copy, PartialEq, Eq, Structural)]
pub enum BodyType {
    /// Moved by forces.
    Dynamic,
    /// Fixed in place.
    Static,
    /// Moved by a player or an NPC.
    Kinematic,
}

/// Vehicle kinds.
#[derive(Debug, Clone, Copy, PartialEq, Eq, Structural)]
pub enum VehicleType {
    Car,
    Motorcycle,
    Truck,
    Boat,
    Helicopter,
}

/// Conversion of a point to the block that holds it.
pub trait ToBlockPos {
    fn to_block_pos(&self) -> BlockPos;
}

/// The blocks that collide: the registered blocks whose flag word has the
/// solid bit; air and unregistered ids do not.
pub open spec fn spec_is_solid_block(block_id: BlockId) -> bool {
    match default_block_flags(block_id) {
        Some(f) => f & BlockFlag::Solid.spec_bits() != 0,
        None => false,
    }
}

/// Whether `block_id` is a solid block.
pub fn is_solid_block(block_id: BlockId) -> (b: bool)
    ensures
        b == spec_is_solid_block(block_id),
{
    match block_flags(block_id) {
        Some(f) => f & BlockFlag::Solid.bits() != 0,
        None => false,
    }
}

/// Whether `p` lies in the box from `min` to `max`, both included.
pub open spec fn in_box(p: BlockPos, min: BlockPos, max: BlockPos) -> bool {
    min.x <= p.x <= max.x && min.y <= p.y <= max.y && min.z <= p.z <= max.z
}

/// The lookup `getter` was asked for `p` and answered a block that is not
/// solid.
pub open spec fn looked_clear<F: Fn(BlockPos) -> BlockId>(getter: F, p: BlockPos) -> bool {
    exists|b: BlockId| #[trigger] call_ensures(getter, (p,), b) && !spec_is_solid_block(b)
}

/// Checks positions against the world through a caller-supplied lookup of
/// the block at a position.
pub struct CollisionResolver<F> {
    world_getter: F,
}

impl<F: Fn(BlockPos) -> BlockId> CollisionResolver<F> {
    /// The caller's block lookup.
    pub closed spec fn getter(&self) -> F {
        self.world_getter
    }

    pub fn new(world_getter: F) -> (c: Self)
        ensures
            c.getter() == world_getter,
    {
        CollisionResolver { world_getter }
    }

    /// The block at `pos`, as the lookup gives it.
    pub fn block_at(&self, pos: BlockPos) -> (b: BlockId)
        requires
            call_requires(self.getter(), (pos,)),
        ensures
            call_ensures(self.getter(), (pos,), b),
    {
        (self.world_getter)(pos)
    }

    /// Whether some block of the box from `min` to `max` (inclusive) is
    /// solid, looking the blocks up in x, then y, then z order and stopping
    /// at the first solid one. Every block of a box that an axis-aligned box
    /// spans touches it, so this is whether that box collides with the world.
    pub fn check_collision_in(&self, min: BlockPos, max: BlockPos) -> (r: bool)
        requires
            forall|p: BlockPos| call_requires(self.getter(), (p,)),
        ensures
            r ==> exists|p: BlockPos, b: BlockId| in_box(p, min, max) && #[trigger] call_ensures(self.getter(), (p,), b)
                && spec_is_solid_block(b),
            !r ==> forall|p: BlockPos| #[trigger] in_box(p, min, max) ==> looked_clear(self.getter(), p),
    {
        let mut x: i64 = min.x as i64;
        while x <= max.x as i64
            invariant
                forall|p: BlockPos| call_requires(self.getter(), (p,)),
                min.x <= x,
                x <= max.x as int + 1 || x == min.x,
                forall|p: BlockPos| #[trigger] in_box(p, min, max) && p.x < x ==> looked_clear(self.getter(), p),
            decreases max.x as int + 1 - x,
        {
            let mut y: i64 = min.y as i64;
            while y <= max.y as i64
                invariant
                    forall|p: BlockPos| call_requires(self.getter(), (p,)),
                    min.x <= x <= max.x,
                    min.y <= y,
                    y <= max.y as int + 1 || y == min.y,
                    forall|p: BlockPos| #[trigger] in_box(p, min, max) && (p.x < x || (p.x == x && p.y < y)) ==> looked_clear(self.getter(), p),
                decreases max.y as int + 1 - y,
            {
                let mut z: i64 = min.z as i64;
                while z <= max.z as i64
                    invariant
                        forall|p: BlockPos| call_requires(self.getter(), (p,)),
                        min.x <= x <= max.x,
                        min.y <= y <= max.y,
                        min.z <= z,
                        z <= max.z as int + 1 || z == min.z,
                        forall|p: BlockPos| #[trigger] in_box(p, min, max) && (p.x < x || (p.x == x && p.y < y) || (p.x == x && p.y == y && p.z < z)) ==> looked_clear(self.getter(), p),
                    decreases max.z as int + 1 - z,
                {
                    let pos = BlockPos { x: x as i32, y: y as i32, z: z as i32 };
                    let b = self.block_at(pos);
                    if is_solid_block(b) {
                        assert(in_box(pos, min, max) && call_ensures(self.getter(), (pos,), b));
                        return true;
                    }
                    assert(looked_clear(self.getter(), pos));
                    z = z + 1;
                }
                y = y + 1;
            }
            x = x + 1;
        }
        false
    }

    /// The solid blocks of the box from `min` to `max` (inclusive) with
    /// their ids, in x, then y, then z order.
    pub fn get_solid_blocks_in(&self, min: BlockPos, max: BlockPos) -> (r: Vec<(BlockPos, BlockId)>)
        requires
            forall|p: BlockPos| call_requires(self.getter(), (p,)),
        ensures
            forall|k: int| 0 <= k < r.len() ==> in_box((#[trigger] r@[k]).0, min, max)
                && call_ensures(self.getter(), (r@[k].0,), r@[k].1) && spec_is_solid_block(r@[k].1),
            forall|p: BlockPos| #[trigger] in_box(p, min, max) ==> exists|b: BlockId| #[trigger] call_ensures(self.getter(), (p,), b)
                && (spec_is_solid_block(b) <==> r@.contains((p, b))),
    {
        let mut r: Vec<(BlockPos, BlockId)> = Vec::new();
        let mut x: i64 = min.x as i64;
        while x <= max.x as i64
            invariant
                forall|p: BlockPos| call_requires(self.getter(), (p,)),
                min.x <= x,
                x <= max.x as int + 1 || x == min.x,
                forall|k: int| 0 <= k < r.len() ==> in_box((#[trigger] r@[k]).0, min, max) && r@[k].0.x < x
                    && call_ensures(self.getter(), (r@[k].0,), r@[k].1) && spec_is_solid_block(r@[k].1),
                forall|p: BlockPos| #[trigger] in_box(p, min, max) && p.x < x ==> exists|b: BlockId| #[trigger] call_ensures(self.getter(), (p,), b)
                    && (spec_is_solid_block(b) <==> r@.contains((p, b))),
            decreases max.x as int + 1 - x,
        {
            let mut y: i64 = min.y as i64;
            while y <= max.y as i64
                invariant
                    forall|p: BlockPos| call_requires(self.getter(), (p,)),
                    min.x <= x <= max.x,
                    min.y <= y,
                    y <= max.y as int + 1 || y == min.y,
                    forall|k: int| 0 <= k < r.len() ==> in_box((#[trigger] r@[k]).0, min, max)
                        && (r@[k].0.x < x || (r@[k].0.x == x && r@[k].0.y < y))
                        && call_ensures(self.getter(), (r@[k].0,), r@[k].1) && spec_is_solid_block(r@[k].1),
                    forall|p: BlockPos| #[trigger] in_box(p, min, max) && (p.x < x || (p.x == x && p.y < y)) ==> exists|b: BlockId| #[trigger] call_ensures(self.getter(), (p,), b)
                        && (spec_is_solid_block(b) <==> r@.contains((p, b))),
                decreases max.y as int + 1 - y,
            {
                let mut z: i64 = min.z as i64;
                while z <= max.z as i64
                    invariant
                        forall|p: BlockPos| call_requires(self.getter(), (p,)),
                        min.x <= x <= max.x,
                        min.y <= y <= max.y,
                        min.z <= z,
                        z <= max.z as int + 1 || z == min.z,
                        forall|k: int| 0 <= k < r.len() ==> in_box((#[trigger] r@[k]).0, min, max)
                            && (r@[k].0.x < x || (r@[k].0.x == x && r@[k].0.y < y) || (r@[k].0.x == x && r@[k].0.y == y && r@[k].0.z < z))
                            && call_ensures(self.getter(), (r@[k].0,), r@[k].1) && spec_is_solid_block(r@[k].1),
                        forall|p: BlockPos| #[trigger] in_box(p, min, max) && (p.x < x || (p.x == x && p.y < y) || (p.x == x && p.y == y && p.z < z)) ==> exists|b: BlockId| #[trigger] call_ensures(self.getter(), (p,), b)
                            && (spec_is_solid_block(b) <==> r@.contains((p, b))),
                    decreases max.z as int + 1 - z,
                {
                    let pos = BlockPos { x: x as i32, y: y as i32, z: z as i32 };
                    let b = self.block_at(pos);
                    let ghost before = r@;
                    if is_solid_block(b) {
                        r.push((pos, b));
                    }
                    proof {
                        assert forall|p: BlockPos| #[trigger] in_box(p, min, max) && (p.x < x || (p.x == x && p.y < y) || (p.x == x && p.y == y && p.z < z + 1)) implies exists|b2: BlockId| #[trigger] call_ensures(self.getter(), (p,), b2)
                            && (spec_is_solid_block(b2) <==> r@.contains((p, b2))) by {
                            if p == pos {
                                if spec_is_solid_block(b) {
                                    assert(r@[r.len() - 1] == (pos, b));
                                } else {
                                    assert(r@ == before);
                                    if before.contains((pos, b)) {
                                        let k = choose|k: int| 0 <= k < before.len() && before[k] == (pos, b);
                                        assert(before[k].0.z < z);
                                    }
                                }
                            } else {
                                let b2 = choose|b2: BlockId| #[trigger] call_ensures(self.getter(), (p,), b2)
                                    && (spec_is_solid_block(b2) <==> before.contains((p, b2)));
                                if before.contains((p, b2)) {
                                    let k = choose|k: int| 0 <= k < before.len() && before[k] == (p, b2);
                                    assert(r@[k] == (p, b2));
                                }
                                if r@.contains((p, b2)) && !before.contains((p, b2)) {
                                    let k = choose|k: int| 0 <= k < r.len() && r@[k] == (p, b2);
                                    assert(k == r.len() - 1);
                                }
                            }
                        }
                    }
                    z = z + 1;
                }
                y = y + 1;
            }
            x = x + 1;
        }
        r
    }

    /// Whether the block at `pos` is solid.
    pub fn is_solid_at(&self, pos: BlockPos) -> (r: bool)
        requires
            call_requires(self.getter(), (pos,)),
        ensures
            exists|b: BlockId| call_ensures(self.getter(), (pos,), b) && r == spec_is_solid_block(b),
    {
        let b = self.block_at(pos);
        is_solid_block(b)
    }
}

/// The movement keys held down in a frame.
#[derive(Debug, Clone, Copy, PartialEq, Eq, Structural)]
pub struct MovementInput {
    pub forward: bool,
    pub backward: bool,
    pub left: bool,
    pub right: bool,
    pub jump: bool,
    pub sprint: bool,
    pub sneak: bool,
}

impl Default for MovementInput {
    fn default() -> (m: Self)
        ensures
            m == (MovementInput {
                forward: false,
                backward: false,
                left: false,
                right: false,
                jump: false,
                sprint: false,
                sneak: false,
            }),
    {
        MovementInput {
            forward: false,
            backward: false,
            left: false,
            right: false,
            jump: false,
            sprint: false,
            sneak: false,
        }
    }
}

/// Player movement, resolved against the world.
pub struct MovementSystem<F> {
    collision: CollisionResolver<F>,
}

impl<F: Fn(BlockPos) -> BlockId> MovementSystem<F> {
    /// The collision resolver the movement uses.
    pub closed spec fn resolver(&self) -> F {
        self.collision.world_getter
    }

    pub fn new(collision: CollisionResolver<F>) -> (m: Self)
        ensures
            m.resolver() == collision.getter(),
    {
        MovementSystem { collision }
    }

    /// The collision resolver.
    pub fn collision(&self) -> (c: &CollisionResolver<F>)
        ensures
            c.getter() == self.resolver(),
    {
        &self.collision
    }
}

} // verus!
