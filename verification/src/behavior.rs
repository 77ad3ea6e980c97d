//! The behaviour state machines of passive, neutral and hostile mobs.

use vstd::prelude::*;
use crate::ai::MobState;
use crate::entity::{EntityId, MobType};
use crate::math::BlockPos;

verus! {

/// What a mob's behaviour keeps track of: where it is (`V`, the game's
/// vector type), whom it targets, its home, its state and how long it has
/// been in it (in milliseconds), and how angry it is.
#[derive(Debug, Clone)]
pub struct MobContext<V> {
    pub position: V,
    pub target: Option<EntityId>,
    pub home_position: BlockPos,
    pub state: MobState,
    pub state_time_ms: u64,
    pub attack_target: Option<EntityId>,
    pub wander_target: Option<V>,
    pub anger_level: u32,
}

impl<V> MobContext<V> {
    /// An idle, calm mob at `position` without targets, at home at `home`.
    pub fn new(position: V, home: BlockPos) -> (c: Self)
        ensures
            c.position == position,
            c.target is None,
            c.home_position == home,
            c.state == MobState::Idle,
            c.state_time_ms == 0,
            c.attack_target is None,
            c.wander_target is None,
            c.anger_level == 0,
    {
        MobContext {
            position,
            target: None,
            home_position: home,
            state: MobState::Idle,
            state_time_ms: 0,
            attack_target: None,
            wander_target: None,
            anger_level: 0,
        }
    }
}

/// `t + d`, or the largest `u64` where that overflows.
pub open spec fn add_ms(t: u64, d: u64) -> u64 {
    if t + d <= u64::MAX { (t + d) as u64 } else { u64::MAX }
}

/// Anger after `delta_ms` milliseconds of calming down at `decay` points per
/// second: the fractional loss rounds the anger down, so any time at all
/// costs at least one point, and anger stops at zero.
pub open spec fn decayed(anger: u32, decay: u32, delta_ms: u64) -> u32 {
    let loss = decay * delta_ms;
    let whole = loss / 1000 + if loss % 1000 == 0 { 0int } else { 1int };
    if whole >= anger { 0 } else { (anger - whole) as u32 }
}

/// What the game does to the mob itself during a behaviour update.
#[derive(Debug, Clone, Copy, PartialEq, Eq, Structural)]
pub struct BehaviorAction {
    /// Run down the mob's attack cooldown before it is consulted.
    pub tick_mob: bool,
    /// The mob attacks: its cooldown starts over.
    pub attack: bool,
}

/// What every behaviour does.
pub trait MobBehavior {
    /// One update `delta_ms` milliseconds after the last; `can_attack` says
    /// whether the mob's cooldown, once run down, lets it attack.
    fn update<V>(&mut self, context: &mut MobContext<V>, delta_ms: u64, can_attack: bool) -> BehaviorAction;

    /// The mob was hit by `attacker`.
    fn on_damage<V>(&mut self, context: &mut MobContext<V>, attacker: EntityId);

    /// The mob's target died.
    fn on_target_died<V>(&mut self, context: &mut MobContext<V>);
}

/// Cows, sheep, chickens: idle three seconds, wander five, and run from
/// whoever hits them.
#[derive(Debug, Clone, Copy, PartialEq, Eq, Structural)]
pub struct PassiveBehavior {
    /// In blocks.
    pub detection_range: u32,
    /// In blocks.
    pub flee_range: u32,
}

impl PassiveBehavior {
    pub fn new() -> (b: Self)
        ensures
            b == (PassiveBehavior { detection_range: 8, flee_range: 6 }),
    {
        PassiveBehavior { detection_range: 8, flee_range: 6 }
    }
}

impl Default for PassiveBehavior {
    fn default() -> (b: Self)
        ensures
            b == (PassiveBehavior { detection_range: 8, flee_range: 6 }),
    {
        Self::new()
    }
}

impl MobBehavior for PassiveBehavior {
    fn update<V>(&mut self, context: &mut MobContext<V>, delta_ms: u64, can_attack: bool) -> (a: BehaviorAction)
        ensures
            *final(self) == *old(self),
            a == (BehaviorAction { tick_mob: false, attack: false }),
            ({
                let t = add_ms(old(context).state_time_ms, delta_ms);
                let c = *old(context);
                if c.state == MobState::Idle && t > 3000 {
                    *final(context) == (MobContext { state: MobState::Wandering, state_time_ms: 0, ..c })
                } else if c.state == MobState::Wandering && t > 5000 {
                    *final(context) == (MobContext { state: MobState::Idle, state_time_ms: 0, ..c })
                } else {
                    *final(context) == (MobContext { state_time_ms: t, ..c })
                }
            }),
    {
        context.state_time_ms = context.state_time_ms.saturating_add(delta_ms);
        match context.state {
            MobState::Idle => {
                if context.state_time_ms > 3000 {
                    context.state = MobState::Wandering;
                    context.state_time_ms = 0;
                }
            },
            MobState::Wandering => {
                if context.state_time_ms > 5000 {
                    context.state = MobState::Idle;
                    context.state_time_ms = 0;
                }
            },
            _ => {},
        }
        BehaviorAction { tick_mob: false, attack: false }
    }

    fn on_damage<V>(&mut self, context: &mut MobContext<V>, attacker: EntityId)
        ensures
            *final(self) == *old(self),
            *final(context) == (MobContext { anger_level: 100, state: MobState::Fleeing, state_time_ms: 0, ..*old(context) }),
    {
        context.anger_level = 100;
        context.state = MobState::Fleeing;
        context.state_time_ms = 0;
    }

    fn on_target_died<V>(&mut self, context: &mut MobContext<V>)
        ensures
            *final(self) == *old(self),
            *final(context) == (MobContext { state: MobState::Idle, target: None, ..*old(context) }),
    {
        context.state = MobState::Idle;
        context.target = None;
    }
}

/// Wolves: calm down one anger point a second, chase when angrier than 50,
/// give up below 10, and idle and wander five seconds at a time.
#[derive(Debug, Clone, Copy, PartialEq, Eq, Structural)]
pub struct NeutralBehavior {
    /// In blocks.
    pub detection_range: u32,
    /// Anger points lost per second.
    pub anger_decay: u32,
}

impl NeutralBehavior {
    pub fn new() -> (b: Self)
        ensures
            b == (NeutralBehavior { detection_range: 16, anger_decay: 1 }),
    {
        NeutralBehavior { detection_range: 16, anger_decay: 1 }
    }

    /// The anger left after `delta_ms` milliseconds.
    fn decay(&self, anger: u32, delta_ms: u64) -> (r: u32)
        ensures
            r == decayed(anger, self.anger_decay, delta_ms),
    {
        let a: u128 = self.anger_decay as u128;
        let d: u128 = delta_ms as u128;
        assert(a * d <= 0xffff_ffffu128 * 0xffff_ffff_ffff_ffffu128) by (nonlinear_arith)
            requires
                a <= 0xffff_ffffu128,
                d <= 0xffff_ffff_ffff_ffffu128;
        let loss: u128 = a * d;
        let whole: u128 = loss / 1000 + if loss % 1000 == 0 { 0 } else { 1 };
        if whole >= anger as u128 {
            0
        } else {
            anger - (whole as u32)
        }
    }
}

impl Default for NeutralBehavior {
    fn default() -> (b: Self)
        ensures
            b == (NeutralBehavior { detection_range: 16, anger_decay: 1 }),
    {
        Self::new()
    }
}

impl MobBehavior for NeutralBehavior {
    fn update<V>(&mut self, context: &mut MobContext<V>, delta_ms: u64, can_attack: bool) -> (a: BehaviorAction)
        ensures
            *final(self) == *old(self),
            a == (BehaviorAction { tick_mob: false, attack: false }),
            ({
                let t = add_ms(old(context).state_time_ms, delta_ms);
                let anger = if old(context).anger_level > 0 {
                    decayed(old(context).anger_level, old(self).anger_decay, delta_ms)
                } else {
                    0u32
                };
                let c = MobContext { state_time_ms: t, anger_level: anger, ..*old(context) };
                if (c.state == MobState::Idle || c.state == MobState::Wandering) && anger > 50 {
                    *final(context) == (MobContext { state: MobState::Chasing, state_time_ms: 0, ..c })
                } else if c.state == MobState::Idle && t > 5000 {
                    *final(context) == (MobContext { state: MobState::Wandering, state_time_ms: 0, ..c })
                } else if c.state == MobState::Wandering && t > 5000 {
                    *final(context) == (MobContext { state: MobState::Idle, state_time_ms: 0, ..c })
                } else if c.state == MobState::Chasing && anger < 10 {
                    *final(context) == (MobContext { state: MobState::Idle, target: None, ..c })
                } else {
                    *final(context) == c
                }
            }),
    {
        context.state_time_ms = context.state_time_ms.saturating_add(delta_ms);
        if context.anger_level > 0 {
            context.anger_level = self.decay(context.anger_level, delta_ms);
        }
        match context.state {
            MobState::Idle => {
                if context.anger_level > 50 {
                    context.state = MobState::Chasing;
                    context.state_time_ms = 0;
                } else if context.state_time_ms > 5000 {
                    context.state = MobState::Wandering;
                    context.state_time_ms = 0;
                }
            },
            MobState::Chasing => {
                if context.anger_level < 10 {
                    context.state = MobState::Idle;
                    context.target = None;
                }
            },
            MobState::Wandering => {
                if context.anger_level > 50 {
                    context.state = MobState::Chasing;
                    context.state_time_ms = 0;
                } else if context.state_time_ms > 5000 {
                    context.state = MobState::Idle;
                    context.state_time_ms = 0;
                }
            },
            _ => {},
        }
        BehaviorAction { tick_mob: false, attack: false }
    }

    fn on_damage<V>(&mut self, context: &mut MobContext<V>, attacker: EntityId)
        ensures
            *final(self) == *old(self),
            *final(context) == (MobContext {
                anger_level: 1000,
                target: Some(attacker),
                state: MobState::Chasing,
                state_time_ms: 0,
                ..*old(context)
            }),
    {
        context.anger_level = 1000;
        context.target = Some(attacker);
        context.state = MobState::Chasing;
        context.state_time_ms = 0;
    }

    fn on_target_died<V>(&mut self, context: &mut MobContext<V>)
        ensures
            *final(self) == *old(self),
            *final(context) == (MobContext { state: MobState::Idle, target: None, ..*old(context) }),
    {
        context.state = MobState::Idle;
        context.target = None;
    }
}

/// Zombies and skeletons: chase any target, attack when the mob's cooldown
/// allows and the chase has lasted longer than the attack cooldown, and go
/// back to chasing half a second after each attack. Hits change nothing.
#[derive(Debug, Clone, Copy, PartialEq, Eq, Structural)]
pub struct HostileBehavior {
    /// In blocks.
    pub detection_range: u32,
    /// In blocks.
    pub attack_range: u32,
    pub attack_cooldown_ms: u64,
}

impl HostileBehavior {
    pub fn new() -> (b: Self)
        ensures
            b == (HostileBehavior { detection_range: 32, attack_range: 2, attack_cooldown_ms: 1500 }),
    {
        HostileBehavior { detection_range: 32, attack_range: 2, attack_cooldown_ms: 1500 }
    }
}

impl Default for HostileBehavior {
    fn default() -> (b: Self)
        ensures
            b == (HostileBehavior { detection_range: 32, attack_range: 2, attack_cooldown_ms: 1500 }),
    {
        Self::new()
    }
}

impl MobBehavior for HostileBehavior {
    fn update<V>(&mut self, context: &mut MobContext<V>, delta_ms: u64, can_attack: bool) -> (a: BehaviorAction)
        ensures
            *final(self) == *old(self),
            ({
                let t = add_ms(old(context).state_time_ms, delta_ms);
                let c = MobContext { state_time_ms: t, ..*old(context) };
                let chasing_target = c.state == MobState::Chasing && c.target is Some;
                let strikes = chasing_target && can_attack && t > old(self).attack_cooldown_ms;
                &&& a == (BehaviorAction { tick_mob: chasing_target, attack: strikes })
                &&& if c.state == MobState::Idle && c.target is Some {
                        *final(context) == (MobContext { state: MobState::Chasing, state_time_ms: 0, ..c })
                    } else if strikes {
                        *final(context) == (MobContext { state: MobState::Attacking, ..c })
                    } else if c.state == MobState::Attacking && t > 500 {
                        *final(context) == (MobContext { state: MobState::Chasing, state_time_ms: 0, ..c })
                    } else {
                        *final(context) == c
                    }
            }),
    {
        context.state_time_ms = context.state_time_ms.saturating_add(delta_ms);
        let mut action = BehaviorAction { tick_mob: false, attack: false };
        match context.state {
            MobState::Idle => {
                if context.target.is_some() {
                    context.state = MobState::Chasing;
                    context.state_time_ms = 0;
                }
            },
            MobState::Chasing => {
                if context.target.is_some() {
                    action.tick_mob = true;
                    if can_attack && context.state_time_ms > self.attack_cooldown_ms {
                        context.state = MobState::Attacking;
                        action.attack = true;
                    }
                }
            },
            MobState::Attacking => {
                if context.state_time_ms > 500 {
                    context.state = MobState::Chasing;
                    context.state_time_ms = 0;
                }
            },
            _ => {},
        }
        action
    }

    fn on_damage<V>(&mut self, context: &mut MobContext<V>, attacker: EntityId)
        ensures
            *final(self) == *old(self),
            *final(context) == *old(context),
    {
    }

    fn on_target_died<V>(&mut self, context: &mut MobContext<V>)
        ensures
            *final(self) == *old(self),
            *final(context) == (MobContext { state: MobState::Idle, target: None, ..*old(context) }),
    {
        context.state = MobState::Idle;
        context.target = None;
    }
}

/// The behaviour a mob of type `mob_type` gets.
#[derive(Debug, Clone, Copy, PartialEq, Eq, Structural)]
pub enum Behavior {
    Passive(PassiveBehavior),
    Neutral(NeutralBehavior),
    Hostile(HostileBehavior),
}

/// The behaviour for mobs of type `mob_type`, in its starting settings.
pub fn create_behavior(mob_type: MobType) -> (b: Behavior)
    ensures
        b == (match mob_type {
            MobType::Passive => Behavior::Passive(PassiveBehavior { detection_range: 8, flee_range: 6 }),
            MobType::Neutral => Behavior::Neutral(NeutralBehavior { detection_range: 16, anger_decay: 1 }),
            MobType::Hostile => Behavior::Hostile(HostileBehavior { detection_range: 32, attack_range: 2, attack_cooldown_ms: 1500 }),
        }),
{
    match mob_type {
        MobType::Passive => Behavior::Passive(PassiveBehavior::new()),
        MobType::Neutral => Behavior::Neutral(NeutralBehavior::new()),
        MobType::Hostile => Behavior::Hostile(HostileBehavior::new()),
    }
}

} // verus!
