//! Portals between dimensions.

use vstd::prelude::*;
use crate::math::{BlockPos, ChunkPos, chunk_key, spec_chunk_key, spec_chunk_of, law_chunk_key_injective};
use crate::world_types::{DimensionId, DIM_OVERWORLD};
use crate::inventory::{Inventory, holds_id};
use crate::item::{ItemId, ItemStack};
use std::collections::HashMap;

verus! {

broadcast use vstd::std_specs::hash::group_hash_axioms;

/// Portal state.
#[derive(Debug, Clone, Copy, PartialEq, Eq, Structural)]
pub enum PortalState {
    Incomplete,
    Ready,
    Active,
}

/// A portal as a mathematical value.
pub struct PortalView {
    pub position: BlockPos,
    pub target_dimension: DimensionId,
    pub state: PortalState,
    pub frame_blocks: Seq<BlockPos>,
}

/// A portal built of frame blocks, leading to a dimension.
#[derive(Debug)]
pub struct Portal {
    pub position: BlockPos,
    pub target_dimension: DimensionId,
    pub state: PortalState,
    pub frame_blocks: Vec<BlockPos>,
}

impl View for Portal {
    type V = PortalView;

    open spec fn view(&self) -> PortalView {
        PortalView {
            position: self.position,
            target_dimension: self.target_dimension,
            state: self.state,
            frame_blocks: self.frame_blocks@,
        }
    }
}

impl Portal {
    /// A copy of this portal.
    pub fn duplicate(&self) -> (p: Portal)
        ensures
            p@ == self@,
    {
        let mut frame: Vec<BlockPos> = Vec::new();
        let n = self.frame_blocks.len();
        let mut i: usize = 0;
        while i < n
            invariant
                n == self.frame_blocks@.len(),
                i <= n,
                frame@ == self.frame_blocks@.take(i as int),
            decreases n - i,
        {
            frame.push(self.frame_blocks[i]);
            proof {
                assert(self.frame_blocks@.take(i as int + 1) =~= self.frame_blocks@.take(i as int).push(self.frame_blocks@[i as int]));
            }
            i = i + 1;
        }
        proof {
            assert(self.frame_blocks@.take(n as int) =~= self.frame_blocks@);
        }
        Portal {
            position: self.position,
            target_dimension: self.target_dimension,
            state: self.state,
            frame_blocks: frame,
        }
    }
}

/// All portals of the world, one per chunk, and the active ones in the order
/// they were registered.
pub struct PortalManager {
    portals: HashMap<u64, Portal>,
    active_portals: Vec<Portal>,
}

impl PortalManager {
    /// The portal registered for chunk `c`, if any.
    pub closed spec fn portal_at(&self, c: ChunkPos) -> Option<PortalView> {
        if self.portals@.contains_key(spec_chunk_key(c)) {
            Some(self.portals@[spec_chunk_key(c)]@)
        } else {
            None
        }
    }

    /// The active portals, in registration order.
    pub closed spec fn active(&self) -> Seq<PortalView> {
        self.active_portals@.map_values(|p: Portal| p@)
    }

    pub fn new() -> (m: Self)
        ensures
            forall|c: ChunkPos| m.portal_at(c).is_none(),
            m.active() == Seq::<PortalView>::empty(),
    {
        let m = PortalManager { portals: HashMap::new(), active_portals: Vec::new() };
        assert(m.active() =~= Seq::<PortalView>::empty());
        m
    }

    /// The portal in chunk `chunk_pos`, if one is registered there.
    pub fn get_portal(&self, chunk_pos: ChunkPos) -> (r: Option<&Portal>)
        ensures
            match r {
                Some(p) => self.portal_at(chunk_pos) == Some(p@),
                None => self.portal_at(chunk_pos).is_none(),
            },
    {
        let key = chunk_key(chunk_pos);
        self.portals.get(&key)
    }

    /// Registers a portal under the chunk that holds its position, replacing
    /// any portal there; an active portal also joins the active list.
    pub fn register_portal(&mut self, portal: Portal)
        ensures
            forall|c: ChunkPos| #[trigger] final(self).portal_at(c) == (if c == spec_chunk_of(portal.position) {
                Some(portal@)
            } else {
                old(self).portal_at(c)
            }),
            final(self).active() == (if portal.state == PortalState::Active {
                old(self).active().push(portal@)
            } else {
                old(self).active()
            }),
    {
        let chunk = ChunkPos::from_block(&portal.position);
        let key = chunk_key(chunk);
        let copy = portal.duplicate();
        self.portals.insert(key, copy);
        let active = portal.state == PortalState::Active;
        if active {
            self.active_portals.push(portal);
        }
        proof {
            assert forall|c: ChunkPos| #[trigger] self.portal_at(c) == (if c == spec_chunk_of(portal.position) {
                Some(portal@)
            } else {
                old(self).portal_at(c)
            }) by {
                law_chunk_key_injective(c, chunk);
            }
            if active {
                assert(self.active() =~= old(self).active().push(portal@));
            } else {
                assert(self.active() =~= old(self).active());
            }
        }
    }

    /// The active portals, in registration order.
    pub fn get_active_portals(&self) -> (r: &[Portal])
        ensures
            r@.map_values(|p: Portal| p@) == self.active(),
    {
        self.active_portals.as_slice()
    }

    /// A player may step through an active portal when they carry the target
    /// dimension's crystal (dimensions without one need none).
    pub fn can_use_portal(&self, portal: &Portal, inventory: &Inventory) -> (b: bool)
        ensures
            b == (portal.state == PortalState::Active && match DimensionId::spec_crystal(portal.target_dimension.0) {
                Some(c) => exists|j: int| 0 <= j < inventory@.len() && holds_id(#[trigger] inventory@[j], c),
                None => true,
            }),
    {
        if portal.state != PortalState::Active {
            return false;
        }
        match portal.target_dimension.required_crystal_item_id() {
            Some(crystal_id) => inventory.contains(crystal_id),
            None => true,
        }
    }

    /// The dimension an active portal leads to; travellers arrive at the
    /// height `spawn_y()` of that dimension.
    pub fn teleport(&self, portal: &Portal) -> (d: Option<DimensionId>)
        ensures
            d == (if portal.state == PortalState::Active { Some(portal.target_dimension) } else { None::<DimensionId> }),
    {
        if portal.state != PortalState::Active {
            return None;
        }
        Some(portal.target_dimension)
    }
}

impl Default for PortalManager {
    fn default() -> (m: Self)
        ensures
            forall|c: ChunkPos| m.portal_at(c).is_none(),
            m.active() == Seq::<PortalView>::empty(),
    {
        PortalManager::new()
    }
}

/// Some slot of the inventory holds a stack of `id`.
pub open spec fn has_item(inv: Seq<Option<ItemStack>>, id: ItemId) -> bool {
    exists|j: int| 0 <= j < inv.len() && holds_id(#[trigger] inv[j], id)
}

/// A traveller with inventory `inv` holds what dimension `target` asks for:
/// its crystal, when it needs one.
pub open spec fn crystal_ok(inv: Seq<Option<ItemStack>>, target: DimensionId) -> bool {
    match DimensionId::spec_crystal(target.0) {
        Some(c) => has_item(inv, c),
        None => true,
    }
}

/// Charges a new Dimensional Rift Engine holds.
pub const RIFT_ENGINE_CHARGES: u16 = 1000;

/// The Dimensional Rift Engine a player carries. Its cool-down timer is kept
/// by the caller, who tells each operation whether it has run out.
#[derive(Debug, Clone, Copy, PartialEq, Eq, Structural)]
pub struct RiftEngineState {
    pub selected_dimension: DimensionId,
    /// Uses left, out of 1000.
    pub charge: u16,
    pub is_equipped: bool,
}

impl RiftEngineState {
    /// A fully charged engine set to the overworld.
    pub fn new() -> (r: Self)
        ensures
            r == (RiftEngineState { selected_dimension: DimensionId(DIM_OVERWORLD), charge: 1000, is_equipped: false }),
    {
        RiftEngineState { selected_dimension: DimensionId(DIM_OVERWORLD), charge: RIFT_ENGINE_CHARGES, is_equipped: false }
    }

    /// Uses the engine to go to `target`: it must have cooled down
    /// (`cooled_down`), hold a charge, and the inventory must hold the
    /// target's crystal. On success the engine is set to the target and
    /// spends one charge; otherwise nothing changes.
    pub fn use_engine(&mut self, target: DimensionId, inventory: &Inventory, cooled_down: bool) -> (b: bool)
        ensures
            b == (cooled_down && old(self).charge > 0 && crystal_ok(inventory@, target)),
            b ==> *final(self) == (RiftEngineState {
                selected_dimension: target,
                charge: (old(self).charge - 1) as u16,
                ..*old(self)
            }),
            !b ==> *final(self) == *old(self),
    {
        if !cooled_down || self.charge == 0 {
            return false;
        }
        match target.required_crystal_item_id() {
            Some(crystal_id) => {
                if !inventory.contains(crystal_id) {
                    return false;
                }
            },
            None => {},
        }
        self.selected_dimension = target;
        self.charge = self.charge - 1;
        true
    }

    /// The engine can be used: it has cooled down and holds a charge.
    pub fn can_use(&self, cooled_down: bool) -> (b: bool)
        ensures
            b == (cooled_down && self.charge > 0),
    {
        cooled_down && self.charge > 0
    }
}

impl Default for RiftEngineState {
    fn default() -> (r: Self)
        ensures
            r == (RiftEngineState { selected_dimension: DimensionId(DIM_OVERWORLD), charge: 1000, is_equipped: false }),
    {
        RiftEngineState::new()
    }
}

/// The dimensions the engine's selector cycles through, in order.
pub open spec fn cycle_order() -> Seq<u16> {
    seq![0u16, 1, 2, 3, 4, 5, 6, 7]
}

/// Every dimension, in id order.
pub open spec fn all_dimensions() -> Seq<DimensionId> {
    Seq::new(14, |i: int| DimensionId(i as u16))
}

/// Dimension `d` can be reached from where the traveller is: the overworld
/// always; elsewhere the engine must be usable and the crystal at hand.
pub open spec fn spec_can_access(d: DimensionId, inv: Seq<Option<ItemStack>>, usable: bool) -> bool {
    d.0 == DIM_OVERWORLD || (usable && crystal_ok(inv, d))
}

/// Coordinates travel between dimensions.
pub struct DimensionalTravelManager {
    pub current_dimension: DimensionId,
    pub rift_engine: RiftEngineState,
    pub portal_manager: PortalManager,
    travel_history: Vec<DimensionId>,
}

impl DimensionalTravelManager {
    /// The dimensions travelled to, the first one first.
    pub closed spec fn history(&self) -> Seq<DimensionId> {
        self.travel_history@
    }

    /// Where the traveller is.
    pub closed spec fn current(&self) -> DimensionId {
        self.current_dimension
    }

    /// The traveller's rift engine.
    pub closed spec fn engine(&self) -> RiftEngineState {
        self.rift_engine
    }

    /// The portals of the world.
    pub closed spec fn portals(&self) -> &PortalManager {
        &self.portal_manager
    }

    /// The history ends where the traveller is.
    pub closed spec fn wf(&self) -> bool {
        self.history().len() > 0 && self.history().last() == self.current_dimension
    }

    /// In the overworld, having been nowhere else, with a new engine and no
    /// portals.
    pub fn new() -> (m: Self)
        ensures
            m.wf(),
            m.current() == DimensionId(DIM_OVERWORLD),
            m.history() == seq![DimensionId(DIM_OVERWORLD)],
            m.engine() == RiftEngineState::new_spec(),
            forall|c: ChunkPos| m.portals().portal_at(c).is_none(),
    {
        let mut history: Vec<DimensionId> = Vec::new();
        history.push(DimensionId(DIM_OVERWORLD));
        DimensionalTravelManager {
            current_dimension: DimensionId(DIM_OVERWORLD),
            rift_engine: RiftEngineState::new(),
            portal_manager: PortalManager::new(),
            travel_history: history,
        }
    }

    /// Travels to `target` with the rift engine. Refused when already there
    /// or when the engine cannot take the traveller; otherwise the traveller
    /// arrives and the trip is recorded.
    pub fn travel_to(&mut self, target: DimensionId, inventory: &Inventory, cooled_down: bool) -> (b: bool)
        ensures
            b == (target != old(self).current() && cooled_down && old(self).engine().charge > 0
                && crystal_ok(inventory@, target)),
            b ==> final(self).current() == target
                && final(self).history() == old(self).history().push(target)
                && final(self).engine().charge == old(self).engine().charge - 1
                && final(self).engine().selected_dimension == target,
            !b ==> final(self).current() == old(self).current()
                && final(self).history() == old(self).history()
                && final(self).engine() == old(self).engine(),
            old(self).wf() ==> final(self).wf(),
    {
        if target == self.current_dimension {
            return false;
        }
        if !self.rift_engine.use_engine(target, inventory, cooled_down) {
            return false;
        }
        self.current_dimension = target;
        self.travel_history.push(target);
        true
    }

    /// Travels through `portal`, when the portal can be used.
    pub fn travel_via_portal(&mut self, portal: &Portal, inventory: &Inventory) -> (b: bool)
        ensures
            b == (portal.state == PortalState::Active && crystal_ok(inventory@, portal.target_dimension)),
            b ==> final(self).current() == portal.target_dimension
                && final(self).history() == old(self).history().push(portal.target_dimension),
            !b ==> final(self).current() == old(self).current()
                && final(self).history() == old(self).history(),
            final(self).engine() == old(self).engine(),
            old(self).wf() ==> final(self).wf(),
    {
        if !self.portal_manager.can_use_portal(portal, inventory) {
            return false;
        }
        self.current_dimension = portal.target_dimension;
        self.travel_history.push(portal.target_dimension);
        true
    }

    /// Goes back to the overworld; needs a usable engine but no crystal, and
    /// spends no charge.
    pub fn return_to_overworld(&mut self, cooled_down: bool) -> (b: bool)
        ensures
            b == (old(self).current() != DimensionId(DIM_OVERWORLD) && cooled_down && old(self).engine().charge > 0),
            b ==> final(self).current() == DimensionId(DIM_OVERWORLD)
                && final(self).history() == old(self).history().push(DimensionId(DIM_OVERWORLD)),
            !b ==> final(self).current() == old(self).current()
                && final(self).history() == old(self).history(),
            final(self).engine() == old(self).engine(),
            old(self).wf() ==> final(self).wf(),
    {
        if self.current_dimension == DimensionId(DIM_OVERWORLD) {
            return false;
        }
        if self.rift_engine.can_use(cooled_down) {
            self.current_dimension = DimensionId(DIM_OVERWORLD);
            self.travel_history.push(DimensionId(DIM_OVERWORLD));
            true
        } else {
            false
        }
    }

    /// Sets the engine's selector to the dimension after the current one in
    /// the cycle overworld, moon, mars, venus, mercury, jupiter, saturn,
    /// neptune (back to the overworld after neptune); outside that cycle
    /// nothing changes.
    pub fn cycle_dimension(&mut self)
        ensures
            final(self).current() == old(self).current(),
            final(self).history() == old(self).history(),
            final(self).engine().charge == old(self).engine().charge,
            final(self).engine().is_equipped == old(self).engine().is_equipped,
            final(self).engine().selected_dimension == (if old(self).current().0 < 8 {
                DimensionId(((old(self).current().0 + 1) % 8) as u16)
            } else {
                old(self).engine().selected_dimension
            }),
    {
        let dims: [u16; 8] = [0, 1, 2, 3, 4, 5, 6, 7];
        let cur = self.current_dimension.0;
        let mut found: Option<usize> = None;
        let mut i: usize = 0;
        while i < 8
            invariant_except_break
                found is None,
            invariant
                i <= 8,
                dims@ == cycle_order(),
                forall|j: int| 0 <= j < i ==> dims@[j] != cur,
                found matches Some(k) ==> k < 8 && dims@[k as int] == cur,
            ensures
                found is None ==> forall|j: int| 0 <= j < 8 ==> dims@[j] != cur,
            decreases 8 - i,
        {
            if dims[i] == cur {
                found = Some(i);
                break;
            }
            i = i + 1;
        }
        match found {
            Some(k) => {
                let next = (k + 1) % 8;
                self.rift_engine.selected_dimension = DimensionId(dims[next]);
            },
            None => {
                assert(cur >= 8) by {
                    if cur < 8 {
                        assert(dims@[cur as int] == cur);
                    }
                }
            },
        }
    }

    /// The dimensions travelled to, the first one first.
    pub fn get_history(&self) -> (h: &[DimensionId])
        ensures
            h@ == self.history(),
    {
        self.travel_history.as_slice()
    }

    /// Whether `dimension` can be reached.
    pub fn can_access(&self, dimension: DimensionId, inventory: &Inventory, cooled_down: bool) -> (b: bool)
        ensures
            b == spec_can_access(dimension, inventory@, cooled_down && self.engine().charge > 0),
    {
        if dimension == DimensionId(DIM_OVERWORLD) {
            return true;
        }
        if !self.rift_engine.can_use(cooled_down) {
            return false;
        }
        match dimension.required_crystal_item_id() {
            Some(crystal_id) => inventory.contains(crystal_id),
            None => true,
        }
    }

    /// The dimensions, in id order, other than the current one, that can be
    /// reached.
    pub fn get_available_destinations(&self, inventory: &Inventory, cooled_down: bool) -> (r: Vec<DimensionId>)
        ensures
            r@ == all_dimensions().filter(|d: DimensionId| d != self.current()
                && spec_can_access(d, inventory@, cooled_down && self.engine().charge > 0)),
    {
        let ghost usable = cooled_down && self.engine().charge > 0;
        let ghost pred = |d: DimensionId| d != self.current() && spec_can_access(d, inventory@, usable);
        let mut out: Vec<DimensionId> = Vec::new();
        let mut i: u16 = 0;
        while i < 14
            invariant
                i <= 14,
                usable == (cooled_down && self.engine().charge > 0),
                pred == (|d: DimensionId| d != self.current() && spec_can_access(d, inventory@, usable)),
                out@ == all_dimensions().take(i as int).filter(pred),
            decreases 14 - i,
        {
            let d = DimensionId(i);
            proof {
                reveal_with_fuel(Seq::filter, 1);
                assert(all_dimensions().take(i as int + 1).drop_last() =~= all_dimensions().take(i as int));
                assert(all_dimensions().take(i as int + 1).last() == d);
            }
            if d != self.current_dimension && self.can_access(d, inventory, cooled_down) {
                out.push(d);
            }
            i = i + 1;
        }
        assert(all_dimensions().take(14) =~= all_dimensions());
        out
    }
}

impl RiftEngineState {
    /// A fully charged engine set to the overworld.
    pub open spec fn new_spec() -> RiftEngineState {
        RiftEngineState { selected_dimension: DimensionId(DIM_OVERWORLD), charge: 1000, is_equipped: false }
    }
}

impl Default for DimensionalTravelManager {
    fn default() -> (m: Self)
        ensures
            m.wf(),
            m.current() == DimensionId(DIM_OVERWORLD),
            m.history() == seq![DimensionId(DIM_OVERWORLD)],
    {
        DimensionalTravelManager::new()
    }
}

/// Uses the Dimensional Rift Engine to travel to `selected_dimension`. On
/// success the result names the dimension the traveller left and the one
/// reached; on failure it gives the reason.
pub fn handle_rift_engine_use(
    selected_dimension: DimensionId,
    inventory: &mut Inventory,
    travel_manager: &mut DimensionalTravelManager,
    cooled_down: bool,
) -> (r: TravelResult)
    ensures
        final(inventory)@ == old(inventory)@,
        ({
            let ok = selected_dimension != old(travel_manager).current() && cooled_down
                && old(travel_manager).engine().charge > 0 && crystal_ok(old(inventory)@, selected_dimension);
            &&& ok ==> r == TravelResult::Success { from: old(travel_manager).current(), to: selected_dimension }
                && final(travel_manager).current() == selected_dimension
                && final(travel_manager).history() == old(travel_manager).history().push(selected_dimension)
            &&& !ok ==> (r matches TravelResult::Failed { reason } && reason@ == "Cannot travel - check charge and crystal requirements"@)
                && final(travel_manager).current() == old(travel_manager).current()
                && final(travel_manager).history() == old(travel_manager).history()
        }),
        old(travel_manager).wf() ==> final(travel_manager).wf(),
{
    let from = travel_manager.current_dimension;
    if travel_manager.travel_to(selected_dimension, inventory, cooled_down) {
        TravelResult::Success { from, to: selected_dimension }
    } else {
        TravelResult::Failed { reason: "Cannot travel - check charge and crystal requirements".to_owned() }
    }
}

/// Outcome of using the Dimensional Rift Engine.
#[derive(Debug, Clone)]
pub enum TravelResult {
    Success { from: DimensionId, to: DimensionId },
    Failed { reason: String },
}

/// The moon, mars and venus portal frame blocks.
pub fn is_portal_frame_block(block_id: u16) -> (b: bool)
    ensures
        b == (block_id == 210 || block_id == 211 || block_id == 212),
{
    block_id == 210 || block_id == 211 || block_id == 212
}

/// The dimension a portal frame block leads to.
pub fn get_dimension_from_frame(block_id: u16) -> (d: Option<DimensionId>)
    ensures
        d == (if block_id == 210 {
            Some(DimensionId(1))
        } else if block_id == 211 {
            Some(DimensionId(2))
        } else if block_id == 212 {
            Some(DimensionId(3))
        } else {
            None::<DimensionId>
        }),
{
    match block_id {
        210 => Some(DimensionId(crate::world_types::DIM_MOON)),
        211 => Some(DimensionId(crate::world_types::DIM_MARS)),
        212 => Some(DimensionId(crate::world_types::DIM_VENUS)),
        _ => None,
    }
}

} // verus!
