//! Water and lava: fluid kinds and the flow simulation tick.

use vstd::prelude::*;

verus! {

/// Fluid kind.
#[derive(Debug, Clone, Copy, PartialEq, Eq, Structural)]
pub enum FluidType {
    Water,
    Lava,
    Milk,
    Potion,
}

/// A water source block.
#[derive(Debug, Clone, Copy)]
pub struct WaterSource {
    pub position: [i32; 3],
    pub level: u8,
    pub flowing: bool,
}

/// A lava source block.
#[derive(Debug, Clone, Copy)]
pub struct LavaSource {
    pub position: [i32; 3],
    pub level: u8,
    pub flowing: bool,
}

/// One tick of a source that drains every `period` ticks: a flowing source
/// loses a level (never going below zero) and stops flowing at level zero.
pub open spec fn drain(level: u8, flowing: bool, tick: u64, period: u64) -> (u8, bool) {
    if flowing && tick % period == 0 {
        let l: u8 = if level > 0 { (level - 1) as u8 } else { 0 };
        (l, if l == 0 { false } else { flowing })
    } else {
        (level, flowing)
    }
}

pub open spec fn water_tick(s: WaterSource, tick: u64) -> WaterSource {
    WaterSource { level: drain(s.level, s.flowing, tick, 5).0, flowing: drain(s.level, s.flowing, tick, 5).1, ..s }
}

pub open spec fn lava_tick(s: LavaSource, tick: u64) -> LavaSource {
    LavaSource { level: drain(s.level, s.flowing, tick, 20).0, flowing: drain(s.level, s.flowing, tick, 20).1, ..s }
}

/// Every water source after one tick.
pub open spec fn ticked_water(v: Seq<WaterSource>, tick: u64) -> Seq<WaterSource> {
    v.map_values(|s: WaterSource| water_tick(s, tick))
}

/// Every lava source after one tick.
pub open spec fn ticked_lava(v: Seq<LavaSource>, tick: u64) -> Seq<LavaSource> {
    v.map_values(|s: LavaSource| lava_tick(s, tick))
}

/// The water sources that still flow, in order.
pub open spec fn flowing_water(v: Seq<WaterSource>) -> Seq<WaterSource> {
    v.filter(|s: WaterSource| s.flowing)
}

/// The lava sources that still flow, in order.
pub open spec fn flowing_lava(v: Seq<LavaSource>) -> Seq<LavaSource> {
    v.filter(|s: LavaSource| s.flowing)
}

/// Fluid flow state: the sources and the tick counter.
#[derive(Debug, Clone)]
pub struct FluidSimulation {
    pub water_sources: Vec<WaterSource>,
    pub lava_sources: Vec<LavaSource>,
    pub tick_counter: u64,
}

impl FluidSimulation {
    pub fn new() -> (f: Self)
        ensures
            f.water_sources@.len() == 0,
            f.lava_sources@.len() == 0,
            f.tick_counter == 0,
    {
        FluidSimulation { water_sources: Vec::new(), lava_sources: Vec::new(), tick_counter: 0 }
    }

    /// Adds a flowing water source.
    pub fn add_water(&mut self, x: i32, y: i32, z: i32, level: u8)
        ensures
            final(self).water_sources@ == old(self).water_sources@.push(WaterSource { position: [x, y, z], level, flowing: true }),
            final(self).lava_sources@ == old(self).lava_sources@,
            final(self).tick_counter == old(self).tick_counter,
    {
        self.water_sources.push(WaterSource { position: [x, y, z], level, flowing: true });
    }

    /// Adds a flowing lava source.
    pub fn add_lava(&mut self, x: i32, y: i32, z: i32, level: u8)
        ensures
            final(self).lava_sources@ == old(self).lava_sources@.push(LavaSource { position: [x, y, z], level, flowing: true }),
            final(self).water_sources@ == old(self).water_sources@,
            final(self).tick_counter == old(self).tick_counter,
    {
        self.lava_sources.push(LavaSource { position: [x, y, z], level, flowing: true });
    }

    /// One simulation tick: water drains a level every 5 ticks, lava every
    /// 20; every 100 ticks the sources that stopped flowing are dropped.
    pub fn simulate(&mut self)
        requires
            old(self).tick_counter < u64::MAX,
        ensures
            final(self).tick_counter == old(self).tick_counter + 1,
            ({
                let t = final(self).tick_counter;
                let w = ticked_water(old(self).water_sources@, t);
                let l = ticked_lava(old(self).lava_sources@, t);
                &&& final(self).water_sources@ == (if t % 100 == 0 { flowing_water(w) } else { w })
                &&& final(self).lava_sources@ == (if t % 100 == 0 { flowing_lava(l) } else { l })
            }),
    {
        self.tick_counter = self.tick_counter + 1;
        let t = self.tick_counter;
        let ghost w0 = self.water_sources@;
        let n = self.water_sources.len();
        let mut i: usize = 0;
        while i < n
            invariant
                n == self.water_sources@.len(),
                n == w0.len(),
                i <= n,
                w0 == old(self).water_sources@,
                self.lava_sources@ == old(self).lava_sources@,
                t == self.tick_counter,
                forall|j: int| 0 <= j < i ==> #[trigger] self.water_sources@[j] == water_tick(w0[j], t),
                forall|j: int| i <= j < n ==> #[trigger] self.water_sources@[j] == w0[j],
            decreases n - i,
        {
            let mut src = self.water_sources[i];
            if src.flowing && t % 5 == 0 {
                src.level = src.level.saturating_sub(1);
                if src.level == 0 {
                    src.flowing = false;
                }
            }
            self.water_sources.set(i, src);
            i = i + 1;
        }
        let ghost w1 = self.water_sources@;
        let ghost l0 = self.lava_sources@;
        let m = self.lava_sources.len();
        let mut k: usize = 0;
        while k < m
            invariant
                m == self.lava_sources@.len(),
                m == l0.len(),
                k <= m,
                self.water_sources@ == w1,
                l0 == old(self).lava_sources@,
                t == self.tick_counter,
                forall|j: int| 0 <= j < k ==> #[trigger] self.lava_sources@[j] == lava_tick(l0[j], t),
                forall|j: int| k <= j < m ==> #[trigger] self.lava_sources@[j] == l0[j],
            decreases m - k,
        {
            let mut src = self.lava_sources[k];
            if src.flowing && t % 20 == 0 {
                src.level = src.level.saturating_sub(1);
                if src.level == 0 {
                    src.flowing = false;
                }
            }
            self.lava_sources.set(k, src);
            k = k + 1;
        }
        proof {
            assert(self.water_sources@ =~= ticked_water(w0, t));
            assert(self.lava_sources@ =~= ticked_lava(l0, t));
        }
        if t % 100 == 0 {
            self.water_sources = retain_flowing_water(&self.water_sources);
            self.lava_sources = retain_flowing_lava(&self.lava_sources);
        }
    }
}

impl Default for FluidSimulation {
    fn default() -> (f: Self)
        ensures
            f.water_sources@.len() == 0,
            f.lava_sources@.len() == 0,
            f.tick_counter == 0,
    {
        FluidSimulation::new()
    }
}

/// The water sources that still flow, in order.
fn retain_flowing_water(v: &Vec<WaterSource>) -> (r: Vec<WaterSource>)
    ensures
        r@ == flowing_water(v@),
{
    let mut r: Vec<WaterSource> = Vec::new();
    let n = v.len();
    let mut i: usize = 0;
    while i < n
        invariant
            n == v@.len(),
            i <= n,
            r@ == flowing_water(v@.take(i as int)),
        decreases n - i,
    {
        proof {
            reveal_with_fuel(Seq::filter, 1);
            assert(v@.take(i as int + 1).drop_last() =~= v@.take(i as int));
        }
        if v[i].flowing {
            r.push(v[i]);
        }
        i = i + 1;
    }
    proof {
        assert(v@.take(n as int) =~= v@);
    }
    r
}

/// The lava sources that still flow, in order.
fn retain_flowing_lava(v: &Vec<LavaSource>) -> (r: Vec<LavaSource>)
    ensures
        r@ == flowing_lava(v@),
{
    let mut r: Vec<LavaSource> = Vec::new();
    let n = v.len();
    let mut i: usize = 0;
    while i < n
        invariant
            n == v@.len(),
            i <= n,
            r@ == flowing_lava(v@.take(i as int)),
        decreases n - i,
    {
        proof {
            reveal_with_fuel(Seq::filter, 1);
            assert(v@.take(i as int + 1).drop_last() =~= v@.take(i as int));
        }
        if v[i].flowing {
            r.push(v[i]);
        }
        i = i + 1;
    }
    proof {
        assert(v@.take(n as int) =~= v@);
    }
    r
}

/// Levels never rise: after a tick every water source is at or below the
/// level it had, and a source that stopped flowing stays stopped.
pub proof fn law_water_never_rises(s: WaterSource, tick: u64)
    ensures
        water_tick(s, tick).level <= s.level,
        !s.flowing ==> water_tick(s, tick) == s,
        water_tick(s, tick).position == s.position,
{
}

} // verus!
