//! The timed status effects of a player: poison, wither and regeneration.

use vstd::prelude::*;

verus! {

/// How many more ticks each effect lasts.
#[derive(Debug, Clone, Copy, PartialEq, Eq, Structural)]
pub struct StatusEffects {
    pub poison_ticks: u32,
    pub wither_ticks: u32,
    pub regeneration_ticks: u32,
}

/// What the effects do in one tick: regeneration heals, poison and wither
/// hurt, each one point every tenth tick of the effect.
#[derive(Debug, Clone, Copy, PartialEq, Eq, Structural)]
pub struct EffectTick {
    pub heal: bool,
    pub poison_damage: bool,
    pub wither_damage: bool,
}

/// One tick of an effect with `t` ticks left: the ticks left after it, and
/// whether it acts (when the count it drops to is a multiple of ten).
pub open spec fn countdown(t: u32) -> (u32, bool) {
    if t > 0 { ((t - 1) as u32, (t - 1) % 10 == 0) } else { (0u32, false) }
}

fn count_down(t: u32) -> (r: (u32, bool))
    ensures
        r == countdown(t),
{
    if t > 0 {
        let left = t - 1;
        (left, left % 10 == 0)
    } else {
        (0, false)
    }
}

impl StatusEffects {
    /// No effects.
    pub fn new() -> (e: Self)
        ensures
            e == (StatusEffects { poison_ticks: 0, wither_ticks: 0, regeneration_ticks: 0 }),
    {
        StatusEffects { poison_ticks: 0, wither_ticks: 0, regeneration_ticks: 0 }
    }

    /// Advances every effect by one tick.
    pub fn tick(&mut self) -> (r: EffectTick)
        ensures
            (final(self).regeneration_ticks, r.heal) == countdown(old(self).regeneration_ticks),
            (final(self).poison_ticks, r.poison_damage) == countdown(old(self).poison_ticks),
            (final(self).wither_ticks, r.wither_damage) == countdown(old(self).wither_ticks),
    {
        let (regeneration, heal) = count_down(self.regeneration_ticks);
        let (poison, poison_damage) = count_down(self.poison_ticks);
        let (wither, wither_damage) = count_down(self.wither_ticks);
        self.regeneration_ticks = regeneration;
        self.poison_ticks = poison;
        self.wither_ticks = wither;
        EffectTick { heal, poison_damage, wither_damage }
    }

    /// Poisons for `ticks` ticks, unless a longer poisoning is under way.
    pub fn apply_poison(&mut self, ticks: u32)
        ensures
            final(self).poison_ticks == (if old(self).poison_ticks >= ticks { old(self).poison_ticks } else { ticks }),
            final(self).wither_ticks == old(self).wither_ticks,
            final(self).regeneration_ticks == old(self).regeneration_ticks,
    {
        if ticks > self.poison_ticks {
            self.poison_ticks = ticks;
        }
    }

    /// Withers for `ticks` ticks, unless a longer withering is under way.
    pub fn apply_wither(&mut self, ticks: u32)
        ensures
            final(self).wither_ticks == (if old(self).wither_ticks >= ticks { old(self).wither_ticks } else { ticks }),
            final(self).poison_ticks == old(self).poison_ticks,
            final(self).regeneration_ticks == old(self).regeneration_ticks,
    {
        if ticks > self.wither_ticks {
            self.wither_ticks = ticks;
        }
    }

    /// Regenerates for `ticks` ticks, unless a longer regeneration is under
    /// way.
    pub fn apply_regeneration(&mut self, ticks: u32)
        ensures
            final(self).regeneration_ticks == (if old(self).regeneration_ticks >= ticks { old(self).regeneration_ticks } else { ticks }),
            final(self).poison_ticks == old(self).poison_ticks,
            final(self).wither_ticks == old(self).wither_ticks,
    {
        if ticks > self.regeneration_ticks {
            self.regeneration_ticks = ticks;
        }
    }
}

impl Default for StatusEffects {
    fn default() -> (e: Self)
        ensures
            e == (StatusEffects { poison_ticks: 0, wither_ticks: 0, regeneration_ticks: 0 }),
    {
        Self::new()
    }
}

/// How many of the ticks of an effect lasting `t` more ticks it acts on.
pub open spec fn acts(t: nat) -> nat
    decreases t,
{
    if t == 0 {
        0
    } else {
        acts((t - 1) as nat) + if (t - 1) % 10 == 0 { 1nat } else { 0nat }
    }
}

/// An effect applied for `t` ticks acts on one tick in ten, the last tick
/// included: `t / 10` times, rounded up, before it runs out.
pub proof fn law_effect_acts_every_tenth_tick(t: nat)
    ensures
        acts(t) == (t + 9) / 10,
    decreases t,
{
    if t > 0 {
        law_effect_acts_every_tenth_tick((t - 1) as nat);
    }
}

} // verus!
