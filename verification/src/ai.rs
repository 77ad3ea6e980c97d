//! Mob kinds and the states of mob behaviour.

use vstd::prelude::*;

verus! {

/// What a mob is doing.
#[derive(Debug, Clone, Copy, PartialEq, Eq, Structural)]
pub enum MobState {
    Idle,
    Wandering,
    Chasing,
    Attacking,
    Fleeing,
    Dead,
}

/// Mob species.
#[derive(Debug, Clone, Copy, PartialEq, Eq, Structural)]
pub enum MobType {
    // Passive
    Sheep,
    Cow,
    Pig,
    Chicken,
    Rabbit,
    Horse,
    Dog,
    Cat,
    // Neutral
    Wolf,
    Dolphin,
    Panda,
    Bee,
    // Hostile
    Zombie,
    Skeleton,
    Spider,
    Creeper,
    Enderman,
    Blaze,
    Ghast,
    // Aquatic
    Squid,
    Salmon,
    Pufferfish,
    TropicalFish,
    Turtle,
    // Flying
    Bat,
    Parrot,
    Phantom,
}

/// Where a mob spawns.
#[derive(Debug, Clone, Copy, PartialEq, Eq, Structural)]
pub enum SpawnType {
    /// Anywhere.
    Any,
    /// Only in the overworld.
    Overworld,
    /// Only in the nether.
    Nether,
    /// Only in the end.
    End,
    /// Only in water.
    Aquatic,
    /// Only on celestial bodies.
    Celestial,
}

/// States of the mob AI.
#[allow(non_camel_case_types)]
#[derive(Debug, Clone, Copy, PartialEq, Eq, Structural)]
pub enum AIState {
    Idle,
    Wander,
    FollowTarget,
    Attack,
    Flee,
    pathfind_to,
    Dead,
}

/// How a mob treats players.
#[derive(Debug, Clone, Copy, PartialEq, Eq, Structural)]
pub enum MobBehavior {
    /// Runs away when a player comes close.
    Passive,
    /// Follows a player that comes within its range.
    Neutral,
    /// Follows and attacks players.
    Hostile,
}

impl MobType {
    /// How mobs of this kind treat players: zombies, skeletons, spiders,
    /// creepers, endermen, blazes and ghasts are hostile; wolves, dolphins,
    /// pandas and bees are neutral; every other kind is passive.
    pub open spec fn spec_behavior(self) -> MobBehavior {
        match self {
            MobType::Zombie | MobType::Skeleton | MobType::Spider | MobType::Creeper | MobType::Enderman
            | MobType::Blaze | MobType::Ghast => MobBehavior::Hostile,
            MobType::Wolf | MobType::Dolphin | MobType::Panda | MobType::Bee => MobBehavior::Neutral,
            _ => MobBehavior::Passive,
        }
    }

    /// Where mobs of this kind spawn: endermen in the end, blazes and ghasts
    /// in the nether, every other kind in the overworld.
    pub open spec fn spec_spawn_type(self) -> SpawnType {
        match self {
            MobType::Enderman => SpawnType::End,
            MobType::Blaze | MobType::Ghast => SpawnType::Nether,
            _ => SpawnType::Overworld,
        }
    }

    pub fn behavior(&self) -> (b: MobBehavior)
        ensures
            b == self.spec_behavior(),
    {
        match self {
            MobType::Zombie | MobType::Skeleton | MobType::Spider | MobType::Creeper | MobType::Enderman
            | MobType::Blaze | MobType::Ghast => MobBehavior::Hostile,
            MobType::Wolf | MobType::Dolphin | MobType::Panda | MobType::Bee => MobBehavior::Neutral,
            _ => MobBehavior::Passive,
        }
    }

    pub fn spawn_type(&self) -> (t: SpawnType)
        ensures
            t == self.spec_spawn_type(),
    {
        match self {
            MobType::Enderman => SpawnType::End,
            MobType::Blaze | MobType::Ghast => SpawnType::Nether,
            _ => SpawnType::Overworld,
        }
    }
}

/// The items a dead mob of kind `t` leaves, as (item id, count): wool from
/// sheep, leather from cows and pigs, feathers from chickens, bones from
/// zombies and skeletons (with an iron sword when `equipment_roll` came up),
/// gunpowder from creepers, string from spiders, ender pearls from endermen,
/// nothing from the rest.
pub open spec fn spec_drops(t: MobType, equipment_roll: bool) -> Seq<(u16, u8)> {
    match t {
        MobType::Sheep => seq![(61u16, 1u8)],
        MobType::Cow | MobType::Pig => seq![(62u16, 1u8)],
        MobType::Chicken => seq![(64u16, 1u8)],
        MobType::Zombie | MobType::Skeleton => if equipment_roll {
            seq![(65u16, 1u8), (267u16, 1u8)]
        } else {
            seq![(65u16, 1u8)]
        },
        MobType::Creeper => seq![(69u16, 1u8)],
        MobType::Spider => seq![(70u16, 1u8)],
        MobType::Enderman => seq![(71u16, 1u8)],
        _ => seq![],
    }
}

/// The drops of a dead mob of kind `mob_type`; `equipment_roll` says whether
/// the one-in-ten chance of a zombie or skeleton dropping its sword came up.
pub fn drops_for(mob_type: MobType, equipment_roll: bool) -> (d: Vec<(u16, u8)>)
    ensures
        d@ == spec_drops(mob_type, equipment_roll),
{
    let mut drops: Vec<(u16, u8)> = Vec::new();
    match mob_type {
        MobType::Sheep => drops.push((61, 1)),
        MobType::Cow | MobType::Pig => drops.push((62, 1)),
        MobType::Chicken => drops.push((64, 1)),
        MobType::Zombie | MobType::Skeleton => {
            drops.push((65, 1));
            if equipment_roll {
                drops.push((267, 1));
            }
        },
        MobType::Creeper => drops.push((69, 1)),
        MobType::Spider => drops.push((70, 1)),
        MobType::Enderman => drops.push((71, 1)),
        _ => {},
    }
    assert(drops@ =~= spec_drops(mob_type, equipment_roll));
    drops
}

/// What a mob perceives in one update, as the game measures it in its own
/// units: distances to the player and to the mob's target against the mob's
/// ranges, how long it has been in its state, and the outcome of its random
/// rolls.
#[derive(Debug, Clone, Copy, PartialEq, Eq, Structural)]
pub struct AiSenses {
    /// A player is known to be around.
    pub player_seen: bool,
    /// That player is closer than 5 blocks.
    pub player_close: bool,
    /// That player is within the mob's follow range.
    pub player_in_follow_range: bool,
    /// That player is farther than 10 blocks.
    pub player_far: bool,
    /// The mob has idled longer than its random idle time.
    pub idle_over: bool,
    /// The roll that sends an idle mob wandering came up.
    pub wander_roll: bool,
    /// The mob has a target position.
    pub has_target: bool,
    /// The target is within one block.
    pub target_reached: bool,
    /// The target is within the mob's attack range.
    pub target_in_attack_range: bool,
    /// The target is beyond one and a half times the follow range.
    pub target_lost: bool,
    /// The mob has been in its state over a second.
    pub attack_due: bool,
    /// The target is beyond one and a half times the attack range.
    pub target_out_of_reach: bool,
}

/// What becomes of a mob's target position.
#[derive(Debug, Clone, Copy, PartialEq, Eq, Structural)]
pub enum TargetChange {
    Keep,
    /// Aim at the player's position.
    Player,
    /// Aim at a random point nearby.
    Wander,
    Clear,
}

/// One decision of the mob AI: the next state, the target, and whether the
/// state timer starts over.
#[derive(Debug, Clone, Copy, PartialEq, Eq, Structural)]
pub struct AiStep {
    pub state: AIState,
    pub target: TargetChange,
    pub restart_timer: bool,
}

/// The AI's decision for a mob in `state` that behaves as `behavior` and
/// senses `s`. An idle mob flees a close player if passive, follows a player
/// in range otherwise, and may start wandering once its idle time is over; a
/// wandering or path-following mob stops at its target; a following mob
/// attacks a target in range and gives up one it lost; an attacking mob
/// strikes each second and goes back to following a target out of reach; a
/// fleeing mob calms down once the player is far; a dead mob stays dead.
pub open spec fn spec_ai_step(state: AIState, behavior: MobBehavior, s: AiSenses) -> AiStep {
    let keep = AiStep { state, target: TargetChange::Keep, restart_timer: false };
    match state {
        AIState::Idle => {
            if s.player_seen && behavior == MobBehavior::Passive && s.player_close {
                AiStep { state: AIState::Flee, target: TargetChange::Player, restart_timer: false }
            } else if s.player_seen && behavior != MobBehavior::Passive && s.player_in_follow_range {
                AiStep { state: AIState::FollowTarget, target: TargetChange::Player, restart_timer: false }
            } else if s.idle_over && s.wander_roll {
                AiStep { state: AIState::Wander, target: TargetChange::Wander, restart_timer: true }
            } else {
                keep
            }
        },
        AIState::Wander => {
            if !s.has_target {
                AiStep { state: AIState::Idle, target: TargetChange::Keep, restart_timer: false }
            } else if s.target_reached {
                AiStep { state: AIState::Idle, target: TargetChange::Clear, restart_timer: true }
            } else {
                keep
            }
        },
        AIState::FollowTarget => {
            if s.has_target && s.target_in_attack_range {
                AiStep { state: AIState::Attack, target: TargetChange::Keep, restart_timer: true }
            } else if s.has_target && s.target_lost {
                AiStep { state: AIState::Idle, target: TargetChange::Clear, restart_timer: false }
            } else {
                keep
            }
        },
        AIState::Attack => {
            if s.attack_due && s.has_target && s.target_out_of_reach {
                AiStep { state: AIState::FollowTarget, target: TargetChange::Keep, restart_timer: true }
            } else if s.attack_due {
                AiStep { state: AIState::Attack, target: TargetChange::Keep, restart_timer: true }
            } else {
                keep
            }
        },
        AIState::Flee => {
            if s.player_seen && s.player_far {
                AiStep { state: AIState::Idle, target: TargetChange::Clear, restart_timer: false }
            } else {
                keep
            }
        },
        AIState::pathfind_to => {
            if s.has_target && s.target_reached {
                AiStep { state: AIState::Idle, target: TargetChange::Clear, restart_timer: false }
            } else {
                keep
            }
        },
        AIState::Dead => keep,
    }
}

pub fn ai_step(state: AIState, behavior: MobBehavior, s: AiSenses) -> (r: AiStep)
    ensures
        r == spec_ai_step(state, behavior, s),
{
    let keep = AiStep { state, target: TargetChange::Keep, restart_timer: false };
    match state {
        AIState::Idle => {
            let passive = match behavior {
                MobBehavior::Passive => true,
                _ => false,
            };
            if s.player_seen && passive && s.player_close {
                AiStep { state: AIState::Flee, target: TargetChange::Player, restart_timer: false }
            } else if s.player_seen && !passive && s.player_in_follow_range {
                AiStep { state: AIState::FollowTarget, target: TargetChange::Player, restart_timer: false }
            } else if s.idle_over && s.wander_roll {
                AiStep { state: AIState::Wander, target: TargetChange::Wander, restart_timer: true }
            } else {
                keep
            }
        },
        AIState::Wander => {
            if !s.has_target {
                AiStep { state: AIState::Idle, target: TargetChange::Keep, restart_timer: false }
            } else if s.target_reached {
                AiStep { state: AIState::Idle, target: TargetChange::Clear, restart_timer: true }
            } else {
                keep
            }
        },
        AIState::FollowTarget => {
            if s.has_target && s.target_in_attack_range {
                AiStep { state: AIState::Attack, target: TargetChange::Keep, restart_timer: true }
            } else if s.has_target && s.target_lost {
                AiStep { state: AIState::Idle, target: TargetChange::Clear, restart_timer: false }
            } else {
                keep
            }
        },
        AIState::Attack => {
            if s.attack_due && s.has_target && s.target_out_of_reach {
                AiStep { state: AIState::FollowTarget, target: TargetChange::Keep, restart_timer: true }
            } else if s.attack_due {
                AiStep { state: AIState::Attack, target: TargetChange::Keep, restart_timer: true }
            } else {
                keep
            }
        },
        AIState::Flee => {
            if s.player_seen && s.player_far {
                AiStep { state: AIState::Idle, target: TargetChange::Clear, restart_timer: false }
            } else {
                keep
            }
        },
        AIState::pathfind_to => {
            if s.has_target && s.target_reached {
                AiStep { state: AIState::Idle, target: TargetChange::Clear, restart_timer: false }
            } else {
                keep
            }
        },
        AIState::Dead => keep,
    }
}

/// A dead mob stays dead and keeps its target, whatever it senses.
pub proof fn law_dead_stays_dead(behavior: MobBehavior, s: AiSenses)
    ensures
        spec_ai_step(AIState::Dead, behavior, s) == (AiStep { state: AIState::Dead, target: TargetChange::Keep, restart_timer: false }),
{
}

/// Passive mobs never start following or attacking: from any state but
/// following or attacking, a passive mob's next state is neither.
pub proof fn law_passive_never_hunts(state: AIState, s: AiSenses)
    requires
        state != AIState::FollowTarget,
        state != AIState::Attack,
    ensures
        spec_ai_step(state, MobBehavior::Passive, s).state != AIState::FollowTarget,
        spec_ai_step(state, MobBehavior::Passive, s).state != AIState::Attack,
{
}

/// A mob only starts attacking out of following its target, and an attack
/// only ends by going back to following.
pub proof fn law_attack_follows_following(state: AIState, behavior: MobBehavior, s: AiSenses)
    ensures
        spec_ai_step(state, behavior, s).state == AIState::Attack ==> state == AIState::FollowTarget || state == AIState::Attack,
        state == AIState::Attack ==> spec_ai_step(state, behavior, s).state == AIState::Attack
            || spec_ai_step(state, behavior, s).state == AIState::FollowTarget,
{
}

/// A fleeing mob calms down once the player it sees is more than ten blocks
/// away: it goes back to idling and forgets its target; until then it keeps
/// fleeing, whatever kind of mob it is.
pub proof fn law_flee_ends_when_player_far(behavior: MobBehavior, s: AiSenses)
    ensures
        s.player_seen && s.player_far ==> spec_ai_step(AIState::Flee, behavior, s)
            == (AiStep { state: AIState::Idle, target: TargetChange::Clear, restart_timer: false }),
        !(s.player_seen && s.player_far) ==> spec_ai_step(AIState::Flee, behavior, s).state == AIState::Flee,
        spec_ai_step(AIState::Flee, behavior, s).state == AIState::Flee || spec_ai_step(AIState::Flee, behavior, s).state == AIState::Idle,
{
}

/// An idle mob reacts to a player it sees: a passive one flees a player
/// closer than five blocks, aiming away from that player; any other kind
/// follows a player in its follow range, aiming at it.
pub proof fn law_idle_reacts_to_player(behavior: MobBehavior, s: AiSenses)
    requires
        s.player_seen,
    ensures
        behavior == MobBehavior::Passive && s.player_close ==> spec_ai_step(AIState::Idle, behavior, s)
            == (AiStep { state: AIState::Flee, target: TargetChange::Player, restart_timer: false }),
        behavior != MobBehavior::Passive && s.player_in_follow_range ==> spec_ai_step(AIState::Idle, behavior, s)
            == (AiStep { state: AIState::FollowTarget, target: TargetChange::Player, restart_timer: false }),
{
}

/// A mob walking somewhere stops on arrival: a wandering mob that reaches
/// its target idles, forgets the target and restarts its timer; one with no
/// target idles; a mob following a path idles on arrival.
pub proof fn law_walks_end_on_arrival(behavior: MobBehavior, s: AiSenses)
    ensures
        !s.has_target ==> spec_ai_step(AIState::Wander, behavior, s).state == AIState::Idle,
        s.has_target && s.target_reached ==> spec_ai_step(AIState::Wander, behavior, s)
            == (AiStep { state: AIState::Idle, target: TargetChange::Clear, restart_timer: true }),
        s.has_target && s.target_reached ==> spec_ai_step(AIState::pathfind_to, behavior, s)
            == (AiStep { state: AIState::Idle, target: TargetChange::Clear, restart_timer: false }),
{
}

/// A following mob attacks once its target is in attack range (restarting
/// its timer) and gives up, forgetting the target, once it is lost; an
/// attacking mob strikes each time its attack is due and goes back to
/// following when the target has moved out of reach.
pub proof fn law_follow_and_attack(behavior: MobBehavior, s: AiSenses)
    requires
        s.has_target,
    ensures
        s.target_in_attack_range ==> spec_ai_step(AIState::FollowTarget, behavior, s)
            == (AiStep { state: AIState::Attack, target: TargetChange::Keep, restart_timer: true }),
        !s.target_in_attack_range && s.target_lost ==> spec_ai_step(AIState::FollowTarget, behavior, s)
            == (AiStep { state: AIState::Idle, target: TargetChange::Clear, restart_timer: false }),
        s.attack_due && s.target_out_of_reach ==> spec_ai_step(AIState::Attack, behavior, s)
            == (AiStep { state: AIState::FollowTarget, target: TargetChange::Keep, restart_timer: true }),
        s.attack_due && !s.target_out_of_reach ==> spec_ai_step(AIState::Attack, behavior, s)
            == (AiStep { state: AIState::Attack, target: TargetChange::Keep, restart_timer: true }),
        !s.attack_due ==> spec_ai_step(AIState::Attack, behavior, s).state == AIState::Attack
            && !spec_ai_step(AIState::Attack, behavior, s).restart_timer,
{
}

} // verus!
