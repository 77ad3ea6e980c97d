//! Anti-cheat: violation records and the integer checks behind them.

use vstd::prelude::*;
use crate::entity::EntityId;
use crate::math::spec_abs;
use std::collections::HashMap;

verus! {

broadcast use vstd::std_specs::hash::group_hash_axioms;

/// Kinds of violation.
#[derive(Debug, Clone, Copy, PartialEq, Eq, Structural)]
pub enum ViolationType {
    SpeedHack,
    FlyHack,
    NoClip,
    InvalidBlockBreak,
    InvalidBlockPlace,
    Teleport,
    InventoryMismatch,
    InvalidAction,
    ChunkMismatch,
}

/// A recorded violation.
#[derive(Debug, Clone)]
pub struct Violation {
    pub player_id: EntityId,
    pub violation_type: ViolationType,
    pub details: String,
    pub tick: u64,
}

/// A chunk request is out of range when the chunk lies more than two chunks
/// beyond the render distance from the player's chunk along x or z.
pub open spec fn spec_chunk_out_of_range(
    chunk_x: int, chunk_z: int, player_chunk_x: int, player_chunk_z: int, render_distance: int,
) -> bool {
    spec_abs(chunk_x - player_chunk_x) > render_distance + 2
        || spec_abs(chunk_z - player_chunk_z) > render_distance + 2
}

/// Whether a request for chunk (`chunk_x`, `chunk_z`) from a player standing
/// in chunk (`player_chunk_x`, `player_chunk_z`) is out of range.
pub fn chunk_request_out_of_range(
    chunk_x: i32,
    chunk_z: i32,
    player_chunk_x: i32,
    player_chunk_z: i32,
    render_distance: i32,
) -> (b: bool)
    requires
        i32::MIN < chunk_x - player_chunk_x <= i32::MAX,
        i32::MIN < chunk_z - player_chunk_z <= i32::MAX,
        render_distance + 2 <= i32::MAX,
    ensures
        b == spec_chunk_out_of_range(chunk_x as int, chunk_z as int, player_chunk_x as int, player_chunk_z as int, render_distance as int),
{
    let dx = chunk_x - player_chunk_x;
    let dz = chunk_z - player_chunk_z;
    let adx = if dx < 0 { -dx } else { dx };
    let adz = if dz < 0 { -dz } else { dz };
    adx > render_distance + 2 || adz > render_distance + 2
}

/// Drops every violation of `player_id`, keeping the others in order.
pub fn clear_player_violations(violations: &mut Vec<Violation>, player_id: EntityId)
    ensures
        final(violations)@ == old(violations)@.filter(|v: Violation| v.player_id != player_id),
{
    let ghost pred = |v: Violation| v.player_id != player_id;
    let mut kept: Vec<Violation> = Vec::new();
    let ghost orig = violations@;
    while violations.len() > 0
        invariant
            pred == (|v: Violation| v.player_id != player_id),
            orig == old(violations)@,
            kept@ + violations@.filter(pred) == orig.filter(pred),
        decreases violations@.len(),
    {
        let ghost rest = violations@;
        let v = violations.remove(0);
        proof {
            reveal_with_fuel(Seq::filter, 1);
            assert(rest =~= seq![v] + violations@);
            Seq::filter_distributes_over_add(seq![v], violations@, pred);
            assert(seq![v].filter(pred) =~= (if pred(v) { seq![v] } else { Seq::empty() })) by {
                reveal_with_fuel(Seq::filter, 2);
                assert(seq![v].drop_last() =~= Seq::<Violation>::empty());
            }
        }
        if v.player_id != player_id {
            kept.push(v);
            proof {
                assert(kept@ + violations@.filter(pred) =~= orig.filter(pred));
            }
        } else {
            proof {
                assert(kept@ + violations@.filter(pred) =~= orig.filter(pred));
            }
        }
    }
    proof {
        assert(violations@.filter(pred) =~= Seq::<Violation>::empty()) by {
            reveal_with_fuel(Seq::filter, 1);
        }
        assert(kept@ =~= orig.filter(pred));
    }
    *violations = kept;
}

/// What the last position update of a player said: where it was and at
/// which tick.
#[derive(Debug, Clone)]
pub struct PlayerState<P> {
    pub position: P,
    pub last_tick: u64,
}

/// The anti-cheat validator: its thresholds, the violations it has recorded
/// and the last position update of each player.
pub struct AntiCheat<C, P> {
    config: C,
    violations: Vec<Violation>,
    player_positions: HashMap<EntityId, PlayerState<P>>,
}

impl<C, P> AntiCheat<C, P> {
    /// The thresholds.
    pub closed spec fn thresholds(&self) -> C {
        self.config
    }

    /// The recorded violations, oldest first.
    pub closed spec fn recorded(&self) -> Seq<Violation> {
        self.violations@
    }

    /// The last position update of each player.
    pub closed spec fn last_states(&self) -> Map<EntityId, PlayerState<P>> {
        self.player_positions@
    }

    /// A validator with thresholds `config`, no violation and no player seen.
    pub fn new(config: C) -> (a: Self)
        ensures
            a.thresholds() == config,
            a.recorded() == Seq::<Violation>::empty(),
            a.last_states() == Map::<EntityId, PlayerState<P>>::empty(),
    {
        AntiCheat { config, violations: Vec::new(), player_positions: HashMap::new() }
    }

    /// The thresholds.
    pub fn config(&self) -> (c: &C)
        ensures
            *c == self.thresholds(),
    {
        &self.config
    }

    /// The last position update of `player_id`, if it has sent one.
    pub fn last_state(&self, player_id: EntityId) -> (r: Option<&PlayerState<P>>)
        ensures
            match r {
                Some(s) => self.last_states().contains_key(player_id) && *s == self.last_states()[player_id],
                None => !self.last_states().contains_key(player_id),
            },
    {
        self.player_positions.get(&player_id)
    }

    /// Remembers that `player_id` was at `position` at tick `tick`.
    pub fn record_position(&mut self, player_id: EntityId, position: P, tick: u64)
        ensures
            final(self).last_states() == old(self).last_states().insert(player_id, PlayerState { position, last_tick: tick }),
            final(self).recorded() == old(self).recorded(),
            final(self).thresholds() == old(self).thresholds(),
    {
        self.player_positions.insert(player_id, PlayerState { position, last_tick: tick });
    }

    /// The recorded violations, oldest first.
    pub fn get_violations(&self) -> (r: &[Violation])
        ensures
            r@ == self.recorded(),
    {
        self.violations.as_slice()
    }

    /// Forgets every violation of `player_id`, keeping the others in order.
    pub fn clear_violations(&mut self, player_id: EntityId)
        ensures
            final(self).recorded() == old(self).recorded().filter(|v: Violation| v.player_id != player_id),
            final(self).last_states() == old(self).last_states(),
            final(self).thresholds() == old(self).thresholds(),
    {
        clear_player_violations(&mut self.violations, player_id);
    }
}

/// Whether a move recorded `elapsed` ticks after the previous one is checked
/// for speed: only when time has passed.
pub open spec fn checks_speed(elapsed: int) -> bool {
    elapsed > 0
}

/// Whether a long move made `elapsed` ticks after the previous one counts as
/// a teleport: when it took less than 60 ticks.
pub open spec fn within_teleport_window(elapsed: int) -> bool {
    elapsed < 60
}

/// The ticks between a player's previous update at `last_tick` and one at
/// `tick`, with whether the move is checked for speed and whether a long
/// move counts as a teleport.
pub fn move_timing(last_tick: u64, tick: u64) -> (r: (u64, bool, bool))
    requires
        last_tick <= tick,
    ensures
        r.0 == tick - last_tick,
        r.1 == checks_speed(tick - last_tick),
        r.2 == within_teleport_window(tick - last_tick),
{
    let elapsed = tick - last_tick;
    (elapsed, elapsed > 0, elapsed < 60)
}

} // verus!
