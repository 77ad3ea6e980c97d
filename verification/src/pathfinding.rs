//! A* pathfinding on the block grid, for mob navigation.

use vstd::prelude::*;
use crate::math::BlockPos;
use std::collections::{HashMap, HashSet};

verus! {

broadcast use vstd::std_specs::hash::group_hash_axioms;

/// Largest coordinate magnitude of a search's start and end.
pub const SEARCH_COORD_LIMIT: i32 = 268435456;

/// Largest iteration budget of a search.
pub const SEARCH_ITERATION_LIMIT: i32 = 268435456;

/// A pathfinding request.
#[derive(Debug, Clone, Copy)]
pub struct PathRequest {
    pub start: BlockPos,
    pub end: BlockPos,
    pub max_distance: i32,
}

/// A path: its waypoints, and whether it reaches the requested end.
#[derive(Debug, Clone)]
pub struct PathResult {
    pub waypoints: Vec<BlockPos>,
    pub reached: bool,
}

impl PathResult {
    pub fn empty() -> (r: Self)
        ensures
            r.waypoints@.len() == 0,
            !r.reached,
    {
        PathResult { waypoints: Vec::new(), reached: false }
    }

    pub fn success(waypoints: Vec<BlockPos>) -> (r: Self)
        ensures
            r.waypoints@ == waypoints@,
            r.reached,
    {
        PathResult { waypoints, reached: true }
    }

    pub fn partial(waypoints: Vec<BlockPos>) -> (r: Self)
        ensures
            r.waypoints@ == waypoints@,
            !r.reached,
    {
        PathResult { waypoints, reached: false }
    }
}

/// Two grid positions one step apart along one axis.
pub open spec fn adjacent(a: BlockPos, b: BlockPos) -> bool {
    let dx = a.x - b.x;
    let dy = a.y - b.y;
    let dz = a.z - b.z;
    (dx == 1 || dx == -1) && dy == 0 && dz == 0
        || dx == 0 && (dy == 1 || dy == -1) && dz == 0
        || dx == 0 && dy == 0 && (dz == 1 || dz == -1)
}

/// The squared straight-line distance between two positions.
pub open spec fn sq_dist(a: BlockPos, b: BlockPos) -> int {
    (a.x - b.x) * (a.x - b.x) + (a.y - b.y) * (a.y - b.y) + (a.z - b.z) * (a.z - b.z)
}

/// `w` is a walk on the grid from `start`: it begins there, every step moves
/// to an adjacent position, and the world checker `f` answered that every
/// position on it can be walked.
pub open spec fn valid_walk<F: Fn(BlockPos) -> bool>(f: F, w: Seq<BlockPos>, start: BlockPos) -> bool {
    &&& w.len() >= 1
    &&& w[0] == start
    &&& forall|i: int| 0 <= i < w.len() ==> call_ensures(f, (#[trigger] w[i],), true)
    &&& forall|i: int| 0 <= i < w.len() - 1 ==> adjacent(#[trigger] w[i], w[i + 1])
}

/// A* search over the grid, with a caller-supplied test of which positions
/// can be walked.
pub struct Pathfinder<F> {
    world_checker: F,
}

/// The key under which a position is filed: its three coordinates, as
/// 32-bit patterns, side by side.
pub open spec fn pos_key(p: BlockPos) -> u128 {
    ((p.x as u32 as u128) * 0x1_0000_0000_0000_0000 + (p.y as u32 as u128) * 0x1_0000_0000 + (p.z as u32 as u128)) as u128
}

fn key_of(p: BlockPos) -> (k: u128)
    ensures
        k == pos_key(p),
{
    let a: u128 = p.x as u32 as u128;
    let b: u128 = p.y as u32 as u128;
    let c: u128 = p.z as u32 as u128;
    assert(a * 0x1_0000_0000_0000_0000 + b * 0x1_0000_0000 + c <= u128::MAX) by (nonlinear_arith)
        requires
            a <= u32::MAX,
            b <= u32::MAX,
            c <= u32::MAX,
    ;
    a * 0x1_0000_0000_0000_0000 + b * 0x1_0000_0000 + c
}

proof fn lemma_u32_pattern_injective(p: i32, q: i32)
    ensures
        (p as u32) == (q as u32) ==> p == q,
{
    assert((p as u32) == (q as u32) ==> p == q) by (bit_vector);
}

/// Different positions are filed under different keys.
pub proof fn law_pos_key_injective(p: BlockPos, q: BlockPos)
    ensures
        pos_key(p) == pos_key(q) ==> p == q,
{
    let a1 = p.x as u32 as u128;
    let b1 = p.y as u32 as u128;
    let c1 = p.z as u32 as u128;
    let a2 = q.x as u32 as u128;
    let b2 = q.y as u32 as u128;
    let c2 = q.z as u32 as u128;
    if pos_key(p) == pos_key(q) {
        assert(a1 == a2 && b1 == b2 && c1 == c2) by (nonlinear_arith)
            requires
                a1 * 0x1_0000_0000_0000_0000 + b1 * 0x1_0000_0000 + c1 == a2 * 0x1_0000_0000_0000_0000 + b2 * 0x1_0000_0000 + c2,
                a1 <= u32::MAX,
                b1 <= u32::MAX,
                c1 <= u32::MAX,
                a2 <= u32::MAX,
                b2 <= u32::MAX,
                c2 <= u32::MAX,
        ;
        lemma_u32_pattern_injective(p.x, q.x);
        lemma_u32_pattern_injective(p.y, q.y);
        lemma_u32_pattern_injective(p.z, q.z);
    }
}

/// `g1 + sqrt(s1) < g2 + sqrt(s2)` over the reals, decided on integers: with
/// `d = g2 - g1`, compare `sqrt(s1) - sqrt(s2)` with `d` by squaring both
/// sides where their signs allow it.
pub open spec fn f_cost_less(g1: int, s1: int, g2: int, s2: int) -> bool {
    let d = g2 - g1;
    if d >= 0 {
        let e = s1 - s2 - d * d;
        e < 0 || e * e < 4 * d * d * s2
    } else {
        let c = -d;
        let e = s2 - s1 - c * c;
        e > 0 && 4 * c * c * s1 < e * e
    }
}

/// An entry of the open set: a position, the cost of the walk that reached
/// it, and its squared distance to the goal.
#[derive(Debug, Clone, Copy)]
struct OpenNode {
    pos: BlockPos,
    g: u32,
    s: u64,
}

/// Bound on every squared distance a search computes.
spec fn sq_bound() -> int {
    0x4000_0000_0000_0000
}

fn f_less(g1: u32, s1: u64, g2: u32, s2: u64) -> (b: bool)
    requires
        g1 <= 0x2000_0000,
        g2 <= 0x2000_0000,
        s1 < sq_bound(),
        s2 < sq_bound(),
    ensures
        b == f_cost_less(g1 as int, s1 as int, g2 as int, s2 as int),
{
    let s1i = s1 as i128;
    let s2i = s2 as i128;
    if g2 >= g1 {
        let d = (g2 - g1) as i128;
        assert(d * d <= 0x0400_0000_0000_0000) by (nonlinear_arith)
            requires
                0 <= d <= 0x2000_0000,
        ;
        let dd = d * d;
        let e = s1i - s2i - dd;
        if e < 0 {
            true
        } else {
            assert(e * e <= 0x1000_0000_0000_0000_0000_0000_0000_0000) by (nonlinear_arith)
                requires
                    0 <= e < 0x4000_0000_0000_0000,
            ;
            assert(4 * dd * s2i <= 0x1000_0000_0000_0000_0000_0000_0000_0000) by (nonlinear_arith)
                requires
                    0 <= dd <= 0x0400_0000_0000_0000,
                    0 <= s2i < 0x4000_0000_0000_0000,
            ;
            assert(4 * dd * s2i == 4 * d * d * s2i) by (nonlinear_arith)
                requires
                    dd == d * d,
            ;
            e * e < 4 * dd * s2i
        }
    } else {
        let c = (g1 - g2) as i128;
        assert(c * c <= 0x0400_0000_0000_0000) by (nonlinear_arith)
            requires
                0 <= c <= 0x2000_0000,
        ;
        let cc = c * c;
        let e = s2i - s1i - cc;
        if e <= 0 {
            false
        } else {
            assert(e * e <= 0x1000_0000_0000_0000_0000_0000_0000_0000) by (nonlinear_arith)
                requires
                    0 < e < 0x4000_0000_0000_0000,
            ;
            assert(4 * cc * s1i <= 0x1000_0000_0000_0000_0000_0000_0000_0000) by (nonlinear_arith)
                requires
                    0 <= cc <= 0x0400_0000_0000_0000,
                    0 <= s1i < 0x4000_0000_0000_0000,
            ;
            assert(4 * cc * s1i == 4 * c * c * s1i) by (nonlinear_arith)
                requires
                    cc == c * c,
            ;
            4 * cc * s1i < e * e
        }
    }
}

spec fn coord_bound() -> int {
    0x2000_0002
}

/// Every position in `g` is walkable, the start has cost 0 and no parent,
/// every other position has a parent that is adjacent, known, and cheaper.
#[verifier::opaque]
spec fn tree_ok<F: Fn(BlockPos) -> bool>(f: F, start: BlockPos, g: Map<u128, u32>, came: Map<u128, BlockPos>) -> bool {
    &&& g.contains_key(pos_key(start))
    &&& g[pos_key(start)] == 0
    &&& !came.contains_key(pos_key(start))
    &&& forall|p: BlockPos| #[trigger] g.contains_key(pos_key(p)) ==>
            call_ensures(f, (p,), true) && (p == start || came.contains_key(pos_key(p)))
    &&& forall|p: BlockPos| #[trigger] came.contains_key(pos_key(p)) ==> {
            &&& g.contains_key(pos_key(p))
            &&& g.contains_key(pos_key(came[pos_key(p)]))
            &&& g[pos_key(came[pos_key(p)])] < g[pos_key(p)]
            &&& adjacent(came[pos_key(p)], p)
        }
}

/// What the parent structure says about one known position.
proof fn lemma_tree_at<F: Fn(BlockPos) -> bool>(f: F, start: BlockPos, g: Map<u128, u32>, came: Map<u128, BlockPos>, p: BlockPos)
    requires
        tree_ok(f, start, g, came),
        g.contains_key(pos_key(p)),
    ensures
        call_ensures(f, (p,), true),
        g.contains_key(pos_key(start)),
        g[pos_key(start)] == 0,
        !came.contains_key(pos_key(start)),
        !came.contains_key(pos_key(p)) ==> p == start,
        came.contains_key(pos_key(p)) ==> {
            &&& g.contains_key(pos_key(came[pos_key(p)]))
            &&& g[pos_key(came[pos_key(p)])] < g[pos_key(p)]
            &&& adjacent(came[pos_key(p)], p)
        },
{
    reveal(tree_ok);
}

/// Recording a cheaper walk to `nb` through `cur` keeps the search state
/// consistent.
proof fn lemma_relax<F: Fn(BlockPos) -> bool>(
    f: F,
    start: BlockPos,
    end: BlockPos,
    g: Map<u128, u32>,
    came: Map<u128, BlockPos>,
    open: Seq<OpenNode>,
    iters: int,
    cur: OpenNode,
    nb: BlockPos,
    t: u32,
)
    requires
        tree_ok(f, start, g, came),
        bounds_ok(start, g, iters),
        open_ok(open, g, end, iters),
        g.contains_key(pos_key(cur.pos)),
        g[pos_key(cur.pos)] <= cur.g,
        cur.g + 1 == t,
        t <= iters,
        adjacent(cur.pos, nb),
        call_ensures(f, (nb,), true),
        g.contains_key(pos_key(nb)) ==> t < g[pos_key(nb)],
    ensures
        tree_ok(f, start, g.insert(pos_key(nb), t), came.insert(pos_key(nb), cur.pos)),
        bounds_ok(start, g.insert(pos_key(nb), t), iters),
        open_ok(open.push(OpenNode { pos: nb, g: t, s: sq_dist(nb, end) as u64 }), g.insert(pos_key(nb), t), end, iters)
            || !(0 <= sq_dist(nb, end) <= u64::MAX),
        g.insert(pos_key(nb), t).contains_key(pos_key(cur.pos)),
        g.insert(pos_key(nb), t)[pos_key(cur.pos)] <= cur.g,
{
    reveal(tree_ok);
    let g2 = g.insert(pos_key(nb), t);
    let c2 = came.insert(pos_key(nb), cur.pos);
    law_pos_key_injective(cur.pos, nb);
    law_pos_key_injective(start, nb);
    assert forall|p: BlockPos| #[trigger] g2.contains_key(pos_key(p)) implies
        call_ensures(f, (p,), true) && (p == start || c2.contains_key(pos_key(p))) by {
        law_pos_key_injective(p, nb);
    }
    assert forall|p: BlockPos| #[trigger] c2.contains_key(pos_key(p)) implies {
        &&& g2.contains_key(pos_key(p))
        &&& g2.contains_key(pos_key(c2[pos_key(p)]))
        &&& g2[pos_key(c2[pos_key(p)])] < g2[pos_key(p)]
        &&& adjacent(c2[pos_key(p)], p)
    } by {
        law_pos_key_injective(p, nb);
        if pos_key(p) != pos_key(nb) {
            let q = came[pos_key(p)];
            law_pos_key_injective(q, nb);
        }
    }
    assert forall|p: BlockPos| #[trigger] g2.contains_key(pos_key(p)) implies {
        &&& g2[pos_key(p)] <= iters
        &&& -(g2[pos_key(p)] as int) <= p.x - start.x <= g2[pos_key(p)]
        &&& -(g2[pos_key(p)] as int) <= p.y - start.y <= g2[pos_key(p)]
        &&& -(g2[pos_key(p)] as int) <= p.z - start.z <= g2[pos_key(p)]
    } by {
        law_pos_key_injective(p, nb);
        assert(g.contains_key(pos_key(cur.pos)));
    }
    let open2 = open.push(OpenNode { pos: nb, g: t, s: sq_dist(nb, end) as u64 });
    if 0 <= sq_dist(nb, end) <= u64::MAX {
        assert forall|i: int| 0 <= i < open2.len() implies {
            &&& g2.contains_key(pos_key(#[trigger] open2[i].pos))
            &&& g2[pos_key(open2[i].pos)] <= open2[i].g
            &&& open2[i].g <= iters
            &&& open2[i].s == sq_dist(open2[i].pos, end)
        } by {
            if i < open.len() {
                assert(open2[i] == open[i]);
                law_pos_key_injective(open[i].pos, nb);
            }
        }
    }
    assert(tree_ok(f, start, g2, c2)) by {
        reveal(tree_ok);
    }
}

/// A known position lies inside the coordinate box of the search.
proof fn lemma_known_in_box(start: BlockPos, g: Map<u128, u32>, iters: int, p: BlockPos)
    requires
        bounds_ok(start, g, iters),
        iters <= SEARCH_ITERATION_LIMIT + 1,
        -SEARCH_COORD_LIMIT <= start.x <= SEARCH_COORD_LIMIT,
        -SEARCH_COORD_LIMIT <= start.y <= SEARCH_COORD_LIMIT,
        -SEARCH_COORD_LIMIT <= start.z <= SEARCH_COORD_LIMIT,
        g.contains_key(pos_key(p)),
    ensures
        in_box(p),
        -0x3000_0002 <= p.x <= 0x3000_0002,
        -0x3000_0002 <= p.y <= 0x3000_0002,
        -0x3000_0002 <= p.z <= 0x3000_0002,
{
}

/// Every known position lies within its cost of the start on each axis, and
/// no cost exceeds the iterations so far.
spec fn bounds_ok(start: BlockPos, g: Map<u128, u32>, iters: int) -> bool {
    forall|p: BlockPos| #[trigger] g.contains_key(pos_key(p)) ==> {
        &&& g[pos_key(p)] <= iters
        &&& -(g[pos_key(p)] as int) <= p.x - start.x <= g[pos_key(p)]
        &&& -(g[pos_key(p)] as int) <= p.y - start.y <= g[pos_key(p)]
        &&& -(g[pos_key(p)] as int) <= p.z - start.z <= g[pos_key(p)]
    }
}

spec fn open_ok(open: Seq<OpenNode>, g: Map<u128, u32>, end: BlockPos, iters: int) -> bool {
    forall|i: int| 0 <= i < open.len() ==> {
        &&& g.contains_key(pos_key(#[trigger] open[i].pos))
        &&& g[pos_key(open[i].pos)] <= open[i].g
        &&& open[i].g <= iters
        &&& open[i].s == sq_dist(open[i].pos, end)
    }
}

spec fn explored_ok(explored: Seq<BlockPos>, g: Map<u128, u32>, start: BlockPos) -> bool {
    &&& explored.len() >= 1
    &&& explored[0] == start
    &&& forall|i: int| 0 <= i < explored.len() ==> g.contains_key(pos_key(#[trigger] explored[i]))
}

spec fn in_box(p: BlockPos) -> bool {
    -coord_bound() <= p.x <= coord_bound() && -coord_bound() <= p.y <= coord_bound() && -coord_bound() <= p.z <= coord_bound()
}

proof fn lemma_sq_dist_bound(a: BlockPos, b: BlockPos)
    requires
        in_box(a),
        in_box(b),
    ensures
        0 <= sq_dist(a, b) < sq_bound(),
{
    let dx = a.x - b.x;
    let dy = a.y - b.y;
    let dz = a.z - b.z;
    assert(dx * dx <= 0x1000_0002_0000_0010) by (nonlinear_arith)
        requires
            -0x4000_0004 <= dx <= 0x4000_0004,
    ;
    assert(dy * dy <= 0x1000_0002_0000_0010) by (nonlinear_arith)
        requires
            -0x4000_0004 <= dy <= 0x4000_0004,
    ;
    assert(dz * dz <= 0x1000_0002_0000_0010) by (nonlinear_arith)
        requires
            -0x4000_0004 <= dz <= 0x4000_0004,
    ;
    assert(0 <= dx * dx && 0 <= dy * dy && 0 <= dz * dz) by (nonlinear_arith);
}

fn squared_distance(a: BlockPos, b: BlockPos) -> (s: u64)
    requires
        in_box(a),
        in_box(b),
    ensures
        s == sq_dist(a, b),
        s < sq_bound(),
{
    let dx = a.x as i64 - b.x as i64;
    let dy = a.y as i64 - b.y as i64;
    let dz = a.z as i64 - b.z as i64;
    assert(dx * dx <= 0x1000_0002_0000_0010) by (nonlinear_arith)
        requires
            -0x4000_0004 <= dx <= 0x4000_0004,
    ;
    assert(dy * dy <= 0x1000_0002_0000_0010) by (nonlinear_arith)
        requires
            -0x4000_0004 <= dy <= 0x4000_0004,
    ;
    assert(dz * dz <= 0x1000_0002_0000_0010) by (nonlinear_arith)
        requires
            -0x4000_0004 <= dz <= 0x4000_0004,
    ;
    assert(0 <= dx * dx && 0 <= dy * dy && 0 <= dz * dz) by (nonlinear_arith);
    (dx * dx + dy * dy + dz * dz) as u64
}

/// The entry of smallest estimated total cost (cost so far plus straight-line
/// distance to the goal): a scan that moves to each later entry that is
/// strictly cheaper, so no entry after the chosen one is cheaper than it.
fn min_index(open: &Vec<OpenNode>) -> (idx: usize)
    requires
        open@.len() > 0,
        forall|i: int| 0 <= i < open@.len() ==> (#[trigger] open@[i]).g <= 0x2000_0000 && open@[i].s < sq_bound(),
    ensures
        idx < open@.len(),
        forall|j: int| idx < j < open@.len() ==> !f_cost_less((#[trigger] open@[j]).g as int, open@[j].s as int, open@[idx as int].g as int, open@[idx as int].s as int),
{
    let mut best: usize = 0;
    let mut i: usize = 1;
    while i < open.len()
        invariant
            0 < open@.len(),
            forall|k: int| 0 <= k < open@.len() ==> (#[trigger] open@[k]).g <= 0x2000_0000 && open@[k].s < sq_bound(),
            best < i <= open@.len(),
            forall|j: int| best < j < i ==> !f_cost_less((#[trigger] open@[j]).g as int, open@[j].s as int, open@[best as int].g as int, open@[best as int].s as int),
        decreases open@.len() - i,
    {
        if f_less(open[i].g, open[i].s, open[best].g, open[best].s) {
            best = i;
        }
        i = i + 1;
    }
    best
}

/// The step of neighbour `d` (0 to 5): up, down, left, right, forward, back.
pub open spec fn neighbor_step(d: int) -> (int, int, int) {
    if d == 0 { (0, 1, 0) } else if d == 1 { (0, -1, 0) } else if d == 2 { (-1, 0, 0) }
    else if d == 3 { (1, 0, 0) } else if d == 4 { (0, 0, 1) } else { (0, 0, -1) }
}

/// Neighbour `d` of `pos`.
pub open spec fn neighbor_at(pos: BlockPos, d: int) -> BlockPos {
    BlockPos {
        x: (pos.x + neighbor_step(d).0) as i32,
        y: (pos.y + neighbor_step(d).1) as i32,
        z: (pos.z + neighbor_step(d).2) as i32,
    }
}

/// The neighbours of `pos`, in order, kept where `answers` says true.
pub open spec fn kept_neighbors(pos: BlockPos, answers: Seq<bool>) -> Seq<BlockPos>
    decreases answers.len(),
{
    if answers.len() == 0 {
        Seq::empty()
    } else {
        let rest = kept_neighbors(pos, answers.drop_last());
        if answers.last() { rest.push(neighbor_at(pos, answers.len() - 1)) } else { rest }
    }
}

/// Every answer the checker can give about `p` is yes.
pub open spec fn surely_ok<F: Fn(BlockPos) -> bool>(f: F, p: BlockPos) -> bool {
    forall|b: bool| call_ensures(f, (p,), b) ==> b
}

/// `w` walks from `start` to `end` in unit steps through positions the
/// checker always accepts.
pub open spec fn sure_walk<F: Fn(BlockPos) -> bool>(f: F, w: Seq<BlockPos>, start: BlockPos, end: BlockPos) -> bool {
    &&& w.len() >= 1
    &&& w[0] == start
    &&& w.last() == end
    &&& forall|i: int| 0 <= i < w.len() ==> surely_ok(f, #[trigger] w[i])
    &&& forall|i: int| 0 <= i < w.len() - 1 ==> adjacent(#[trigger] w[i], w[i + 1])
}

/// The end can be reached from the start through positions the checker
/// always accepts.
pub open spec fn surely_reachable<F: Fn(BlockPos) -> bool>(f: F, start: BlockPos, end: BlockPos) -> bool {
    exists|w: Seq<BlockPos>| #[trigger] sure_walk(f, w, start, end)
}

/// Some walk from `start` through accepted positions ends at `p`.
pub open spec fn walk_reaches<F: Fn(BlockPos) -> bool>(f: F, start: BlockPos, p: BlockPos) -> bool {
    exists|w: Seq<BlockPos>| #[trigger] valid_walk(f, w, start) && w.last() == p
}

/// What a search that did not fail outright explored: a finite set `e` of
/// positions, each reached from the start by a walk through accepted
/// positions and the start among them; when the end was not reached, the
/// path leads to the explored position nearest the end, and if the end could
/// be reached through positions the checker always accepts, the search
/// explored so much that its budget of `max_iterations` entries could not
/// cover six per explored position; and when the budget could cover that,
/// every neighbour the checker always accepts of an explored position was
/// explored too.
pub open spec fn explored_summary<F: Fn(BlockPos) -> bool>(
    f: F, e: Set<BlockPos>, start: BlockPos, end: BlockPos, max_iterations: int, r: PathResult,
) -> bool {
    &&& e.finite()
    &&& e.contains(start)
    &&& forall|p: BlockPos| #[trigger] e.contains(p) ==> walk_reaches(f, start, p)
    &&& !r.reached ==> e.contains(r.waypoints@.last())
    &&& !r.reached ==> forall|p: BlockPos| #[trigger] e.contains(p) ==> sq_dist(r.waypoints@.last(), end) <= sq_dist(p, end)
    &&& !r.reached && surely_reachable(f, start, end) ==> max_iterations <= 6 * e.len()
    &&& !r.reached && 6 * e.len() < max_iterations ==> forall|p: BlockPos, d: int|
        #![trigger e.contains(p), surely_ok(f, neighbor_at(p, d))]
        e.contains(p) && 0 <= d < 6 && surely_ok(f, neighbor_at(p, d)) ==> e.contains(neighbor_at(p, d))
}

/// The explored positions form a finite set holding the start, each reached
/// by a walk through accepted positions.
proof fn lemma_explored_set<F: Fn(BlockPos) -> bool>(
    f: F, start: BlockPos, g: Map<u128, u32>, came: Map<u128, BlockPos>, explored: Seq<BlockPos>,
)
    requires
        tree_ok(f, start, g, came),
        explored_ok(explored, g, start),
    ensures
        explored.to_set().finite(),
        explored.to_set().contains(start),
        forall|p: BlockPos| #[trigger] explored.to_set().contains(p) ==> walk_reaches(f, start, p),
{
    broadcast use vstd::seq_lib::seq_to_set_is_finite;
    assert(explored.to_set().contains(explored[0]));
    assert forall|p: BlockPos| #[trigger] explored.to_set().contains(p) implies walk_reaches(f, start, p) by {
        let k = choose|k: int| 0 <= k < explored.len() && explored[k] == p;
        assert(g.contains_key(pos_key(explored[k])));
        lemma_walk_to(f, start, g, came, p);
    }
}

proof fn lemma_kept_len(pos: BlockPos, answers: Seq<bool>)
    ensures
        kept_neighbors(pos, answers).len() <= answers.len(),
    decreases answers.len(),
{
    if answers.len() > 0 {
        lemma_kept_len(pos, answers.drop_last());
    }
}

/// Every known position is reached from the start by a walk through
/// accepted positions.
proof fn lemma_walk_to<F: Fn(BlockPos) -> bool>(f: F, start: BlockPos, g: Map<u128, u32>, came: Map<u128, BlockPos>, p: BlockPos)
    requires
        tree_ok(f, start, g, came),
        g.contains_key(pos_key(p)),
    ensures
        walk_reaches(f, start, p),
    decreases g[pos_key(p)],
{
    lemma_tree_at(f, start, g, came, p);
    if !came.contains_key(pos_key(p)) {
        let w = seq![start];
        assert(valid_walk(f, w, start));
    } else {
        let q = came[pos_key(p)];
        lemma_walk_to(f, start, g, came, q);
        let w = choose|w: Seq<BlockPos>| #[trigger] valid_walk(f, w, start) && w.last() == q;
        let w2 = w.push(p);
        assert forall|i: int| 0 <= i < w2.len() implies call_ensures(f, (#[trigger] w2[i],), true) by {
            if i < w.len() {
                assert(w2[i] == w[i]);
            }
        }
        assert forall|i: int| 0 <= i < w2.len() - 1 implies adjacent(#[trigger] w2[i], w2[i + 1]) by {
            if i < w.len() - 1 {
                assert(w2[i] == w[i] && w2[i + 1] == w[i + 1]);
            } else {
                assert(w2[i] == q && w2[i + 1] == p);
            }
        }
        assert(valid_walk(f, w2, start));
    }
}

/// Every neighbour of `p` that the checker always accepts is known.
spec fn fully_expanded<F: Fn(BlockPos) -> bool>(f: F, g: Map<u128, u32>, p: BlockPos) -> bool {
    forall|d: int| 0 <= d < 6 && #[trigger] surely_ok(f, neighbor_at(p, d)) ==> g.contains_key(pos_key(neighbor_at(p, d)))
}

/// The search's bookkeeping: closed positions are known, the end is never
/// closed, every known open position has an entry to be popped, and every
/// closed position (but `skip`) has had its neighbours looked at.
spec fn search_ok<F: Fn(BlockPos) -> bool>(
    f: F, g: Map<u128, u32>, closed: Set<u128>, open: Seq<OpenNode>, end: BlockPos, skip: Option<BlockPos>,
) -> bool {
    &&& forall|p: BlockPos| #[trigger] closed.contains(pos_key(p)) ==> g.contains_key(pos_key(p))
    &&& !closed.contains(pos_key(end))
    &&& forall|p: BlockPos| #[trigger] g.contains_key(pos_key(p)) && !closed.contains(pos_key(p))
        ==> exists|i: int| 0 <= i < open.len() && (#[trigger] open[i]).pos == p
    &&& forall|p: BlockPos| #[trigger] closed.contains(pos_key(p)) && skip != Some(p) ==> fully_expanded(f, g, p)
}

proof fn lemma_kept_contains(pos: BlockPos, answers: Seq<bool>, d: int)
    requires
        0 <= d < answers.len(),
        answers[d],
    ensures
        kept_neighbors(pos, answers).contains(neighbor_at(pos, d)),
    decreases answers.len(),
{
    let rest = kept_neighbors(pos, answers.drop_last());
    if d == answers.len() - 1 {
        assert(kept_neighbors(pos, answers) == rest.push(neighbor_at(pos, d)));
        assert(kept_neighbors(pos, answers)[rest.len() as int] == neighbor_at(pos, d));
    } else {
        lemma_kept_contains(pos, answers.drop_last(), d);
        let k = choose|k: int| 0 <= k < rest.len() && rest[k] == neighbor_at(pos, d);
        if answers.last() {
            assert(kept_neighbors(pos, answers)[k] == rest[k]);
        }
    }
}

proof fn lemma_adjacent_neighbor(p: BlockPos, q: BlockPos)
    requires
        adjacent(p, q),
    ensures
        exists|d: int| 0 <= d < 6 && neighbor_at(p, d) == q,
{
    if q.y == p.y + 1 {
        assert(neighbor_at(p, 0) == q);
    } else if q.y == p.y - 1 {
        assert(neighbor_at(p, 1) == q);
    } else if q.x == p.x - 1 {
        assert(neighbor_at(p, 2) == q);
    } else if q.x == p.x + 1 {
        assert(neighbor_at(p, 3) == q);
    } else if q.z == p.z + 1 {
        assert(neighbor_at(p, 4) == q);
    } else {
        assert(neighbor_at(p, 5) == q);
    }
}

/// When the search has no entry left, every position on a sure walk from a
/// known start is closed.
proof fn lemma_walk_closed<F: Fn(BlockPos) -> bool>(
    f: F, g: Map<u128, u32>, closed: Set<u128>, open: Seq<OpenNode>, end: BlockPos,
    w: Seq<BlockPos>, start: BlockPos, k: int,
)
    requires
        search_ok(f, g, closed, open, end, None),
        open.len() == 0,
        g.contains_key(pos_key(start)),
        sure_walk(f, w, start, end),
        0 <= k < w.len(),
    ensures
        closed.contains(pos_key(w[k])),
    decreases k,
{
    if k == 0 {
        assert(w[0] == start);
        if !closed.contains(pos_key(start)) {
            assert(g.contains_key(pos_key(start)) && !closed.contains(pos_key(start)));
        }
    } else {
        lemma_walk_closed(f, g, closed, open, end, w, start, k - 1);
        let p = w[k - 1];
        let q = w[k];
        assert(adjacent(w[k - 1], w[k - 1 + 1]));
        lemma_adjacent_neighbor(p, q);
        let d = choose|d: int| 0 <= d < 6 && neighbor_at(p, d) == q;
        assert(closed.contains(pos_key(p)) && None::<BlockPos> != Some(p));
        assert(fully_expanded(f, g, p));
        assert(surely_ok(f, w[k]));
        assert(surely_ok(f, neighbor_at(p, d)));
        assert(g.contains_key(pos_key(q)));
        if !closed.contains(pos_key(q)) {
            assert(g.contains_key(pos_key(q)) && !closed.contains(pos_key(q)));
        }
    }
}

/// A search that ran out of entries without closing the end shows that no
/// sure walk leads there.
proof fn lemma_unreachable<F: Fn(BlockPos) -> bool>(
    f: F, g: Map<u128, u32>, closed: Set<u128>, open: Seq<OpenNode>, end: BlockPos, start: BlockPos,
)
    requires
        search_ok(f, g, closed, open, end, None),
        open.len() == 0,
        g.contains_key(pos_key(start)),
    ensures
        !surely_reachable(f, start, end),
{
    if surely_reachable(f, start, end) {
        let w = choose|w: Seq<BlockPos>| #[trigger] sure_walk(f, w, start, end);
        lemma_walk_closed(f, g, closed, open, end, w, start, w.len() - 1);
    }
}

/// The position `p` moved by one step `(dx, dy, dz)`.
spec fn moved(p: BlockPos, dx: int, dy: int, dz: int) -> BlockPos {
    BlockPos { x: (p.x + dx) as i32, y: (p.y + dy) as i32, z: (p.z + dz) as i32 }
}

impl<F: Fn(BlockPos) -> bool> Pathfinder<F> {
    /// The caller's test of which positions can be walked.
    pub closed spec fn checker(&self) -> F {
        self.world_checker
    }

    pub fn new(world_checker: F) -> (p: Self)
        ensures
            p.checker() == world_checker,
    {
        Pathfinder { world_checker }
    }

    /// The walkable positions next to `pos`: up, down, left, right, forward,
    /// back, in that order, keeping those the checker accepts. The checker is
    /// asked once about each of the six, and the result keeps exactly those
    /// for which it answered true.
    fn get_neighbors(&self, pos: BlockPos) -> (r: Vec<BlockPos>)
        requires
            forall|p: BlockPos| call_requires(self.world_checker, (p,)),
            -0x4000_0000 <= pos.x <= 0x4000_0000,
            -0x4000_0000 <= pos.y <= 0x4000_0000,
            -0x4000_0000 <= pos.z <= 0x4000_0000,
        ensures
            forall|i: int| 0 <= i < r@.len() ==> adjacent(pos, #[trigger] r@[i]) && call_ensures(self.world_checker, (r@[i],), true),
            exists|answers: Seq<bool>| {
                &&& #[trigger] answers.len() == 6
                &&& forall|d: int| 0 <= d < 6 ==> call_ensures(self.world_checker, (#[trigger] neighbor_at(pos, d),), answers[d])
                &&& r@ == kept_neighbors(pos, answers)
            },
    {
        let mut neighbors: Vec<BlockPos> = Vec::new();
        let dirs: [(i32, i32, i32); 6] = [(0, 1, 0), (0, -1, 0), (-1, 0, 0), (1, 0, 0), (0, 0, 1), (0, 0, -1)];
        let mut d: usize = 0;
        let ghost mut answers: Seq<bool> = Seq::empty();
        while d < 6
            invariant
                forall|p: BlockPos| call_requires(self.world_checker, (p,)),
                -0x4000_0000 <= pos.x <= 0x4000_0000,
                -0x4000_0000 <= pos.y <= 0x4000_0000,
                -0x4000_0000 <= pos.z <= 0x4000_0000,
                dirs@ == seq![(0i32, 1i32, 0i32), (0i32, -1i32, 0i32), (-1i32, 0i32, 0i32), (1i32, 0i32, 0i32), (0i32, 0i32, 1i32), (0i32, 0i32, -1i32)],
                d <= 6,
                answers.len() == d,
                forall|e: int| 0 <= e < d ==> call_ensures(self.world_checker, (#[trigger] neighbor_at(pos, e),), answers[e]),
                neighbors@ == kept_neighbors(pos, answers),
                forall|i: int| 0 <= i < neighbors@.len() ==> adjacent(pos, #[trigger] neighbors@[i]) && call_ensures(self.world_checker, (neighbors@[i],), true),
            decreases 6 - d,
        {
            let (dx, dy, dz) = dirs[d];
            let new_pos = BlockPos { x: pos.x + dx, y: pos.y + dy, z: pos.z + dz };
            assert(new_pos == neighbor_at(pos, d as int));
            let ok = (self.world_checker)(new_pos);
            let ghost before = answers;
            proof {
                answers = answers.push(ok);
                assert(answers.drop_last() =~= before);
            }
            if ok {
                neighbors.push(new_pos);
            }
            assert(neighbors@ =~= kept_neighbors(pos, answers));
            d = d + 1;
        }
        neighbors
    }

    /// The walk to `target` that follows the recorded parents back to the
    /// start, in walking order.
    fn reconstruct_path(&self, came_from: &HashMap<u128, BlockPos>, target: BlockPos, Ghost(g): Ghost<Map<u128, u32>>, Ghost(start): Ghost<BlockPos>) -> (w: Vec<BlockPos>)
        requires
            tree_ok(self.world_checker, start, g, came_from@),
            g.contains_key(pos_key(target)),
        ensures
            valid_walk(self.world_checker, w@, start),
            w@.last() == target,
            target == start ==> w@ == seq![start],
    {
        let mut rev: Vec<BlockPos> = Vec::new();
        rev.push(target);
        let mut current = target;
        proof {
            lemma_tree_at(self.world_checker, start, g, came_from@, target);
        }
        loop
            invariant
                tree_ok(self.world_checker, start, g, came_from@),
                g.contains_key(pos_key(current)),
                rev@.len() >= 1,
                rev@[0] == target,
                rev@.last() == current,
                forall|i: int| 0 <= i < rev@.len() ==> call_ensures(self.world_checker, (#[trigger] rev@[i],), true),
                forall|i: int| 0 <= i < rev@.len() - 1 ==> adjacent(#[trigger] rev@[i + 1], rev@[i]),
                target == start ==> rev@ == seq![target],
            ensures
                target == start ==> rev@ == seq![target],
                current == start,
                rev@.len() >= 1,
                rev@[0] == target,
                rev@.last() == current,
                forall|i: int| 0 <= i < rev@.len() ==> call_ensures(self.world_checker, (#[trigger] rev@[i],), true),
                forall|i: int| 0 <= i < rev@.len() - 1 ==> adjacent(#[trigger] rev@[i + 1], rev@[i]),
            decreases g[pos_key(current)],
        {
            let k = key_of(current);
            proof {
                lemma_tree_at(self.world_checker, start, g, came_from@, current);
            }
            match came_from.get(&k) {
                Some(parent) => {
                    let p = *parent;
                    proof {
                        lemma_tree_at(self.world_checker, start, g, came_from@, p);
                    }
                    let ghost old_rev = rev@;
                    current = p;
                    rev.push(current);
                    proof {
                        assert forall|i: int| 0 <= i < rev@.len() - 1 implies adjacent(#[trigger] rev@[i + 1], rev@[i]) by {
                            if i < old_rev.len() - 1 {
                                assert(rev@[i + 1] == old_rev[i + 1]);
                            }
                        }
                    }
                },
                None => {
                    break;
                },
            }
        }
        let w = reversed(&rev);
        proof {
            let n = rev@.len();
            if target == start {
                assert(w@ =~= seq![start]);
            }
            assert forall|j: int| 0 <= j < w@.len() implies call_ensures(self.world_checker, (#[trigger] w@[j],), true) by {
                assert(w@[j] == rev@[n - 1 - j]);
            }
            assert forall|j: int| 0 <= j < w@.len() - 1 implies adjacent(#[trigger] w@[j], w@[j + 1]) by {
                assert(w@[j] == rev@[n - 1 - j]);
                assert(w@[j + 1] == rev@[n - 2 - j]);
                assert(adjacent(rev@[(n - 2 - j) + 1], rev@[n - 2 - j]));
            }
        }
        w
    }

    /// A* search from the request's start to its end, with unit-cost steps
    /// between adjacent positions and the straight-line distance to the end
    /// as the estimate; gives up after `max_distance² · 10` iterations.
    ///
    /// Start or end rejected by the checker: no waypoints. End reached: the
    /// walk from start to end. Otherwise, as best effort: the walk from the
    /// start to the explored position nearest to the end.
    ///
    /// Also returns how many entries the search took from its open set; when
    /// that stayed within the budget and the end was not reached, no walk
    /// through positions the checker always accepts leads from the start to
    /// the end.
    #[verifier::rlimit(80)]
    pub fn find_path_counted(&self, request: &PathRequest) -> (res: (PathResult, i32))
        requires
            forall|p: BlockPos| call_requires(self.checker(), (p,)),
            -SEARCH_COORD_LIMIT <= request.start.x <= SEARCH_COORD_LIMIT,
            -SEARCH_COORD_LIMIT <= request.start.y <= SEARCH_COORD_LIMIT,
            -SEARCH_COORD_LIMIT <= request.start.z <= SEARCH_COORD_LIMIT,
            -SEARCH_COORD_LIMIT <= request.end.x <= SEARCH_COORD_LIMIT,
            -SEARCH_COORD_LIMIT <= request.end.y <= SEARCH_COORD_LIMIT,
            -SEARCH_COORD_LIMIT <= request.end.z <= SEARCH_COORD_LIMIT,
            request.max_distance * request.max_distance * 10 <= SEARCH_ITERATION_LIMIT,
        ensures
            ({
                let r = res.0;
                let max_iterations = request.max_distance * request.max_distance * 10;
                &&& r.waypoints@.len() == 0 ==> !r.reached
                    && (call_ensures(self.checker(), (request.start,), false) || call_ensures(self.checker(), (request.end,), false))
                &&& r.waypoints@.len() > 0 ==> valid_walk(self.checker(), r.waypoints@, request.start)
                &&& r.reached ==> r.waypoints@.len() > 0 && r.waypoints@.last() == request.end
            &&& !r.reached && r.waypoints@.len() > 0 ==> sq_dist(r.waypoints@.last(), request.end) <= sq_dist(request.start, request.end)
                &&& 0 <= res.1 <= max_iterations + 1
                &&& !r.reached && r.waypoints@.len() > 0 && res.1 <= max_iterations
                    ==> !surely_reachable(self.checker(), request.start, request.end)
                &&& request.start == request.end && request.max_distance != 0 && r.waypoints@.len() > 0
                    ==> r.reached && r.waypoints@ == seq![request.start]
                &&& r.waypoints@.len() > 0 ==> exists|e: Set<BlockPos>|
                    #[trigger] explored_summary(self.checker(), e, request.start, request.end, max_iterations, r)
            }),
    {
        let start = request.start;
        let end = request.end;
        proof {
            assert(call_requires(self.checker(), (start,)));
            assert(call_requires(self.checker(), (end,)));
            assert forall|p: BlockPos| call_requires(self.world_checker, (p,)) by {
                assert(call_requires(self.checker(), (p,)));
            }
        }
        proof {
            assert(request.max_distance * request.max_distance >= 0) by (nonlinear_arith);
        }
        let start_ok = (self.world_checker)(start);
        if !start_ok {
            return (PathResult::empty(), 0);
        }
        let end_ok = (self.world_checker)(end);
        if !end_ok {
            return (PathResult::empty(), 0);
        }
        proof {
            assert(request.max_distance * request.max_distance >= 0) by (nonlinear_arith);
        }
        let max_iterations: i32 = request.max_distance * request.max_distance * 10;
        let mut open: Vec<OpenNode> = Vec::new();
        let mut came_from: HashMap<u128, BlockPos> = HashMap::new();
        let mut g_score: HashMap<u128, u32> = HashMap::new();
        let mut closed: HashSet<u128> = HashSet::new();
        let mut explored: Vec<BlockPos> = Vec::new();
        let start_key = key_of(start);
        g_score.insert(start_key, 0);
        explored.push(start);
        let start_s = squared_distance(start, end);
        open.push(OpenNode { pos: start, g: 0, s: start_s });
        let ghost mut pushes: int = 1;
        let ghost mut closed_seq: Seq<BlockPos> = Seq::empty();
        let mut iterations: i32 = 0;
        proof {
            reveal(tree_ok);
            assert forall|p: BlockPos| #[trigger] g_score@.contains_key(pos_key(p)) implies
                call_ensures(self.world_checker, (p,), true) && (p == start || came_from@.contains_key(pos_key(p))) by {
                law_pos_key_injective(p, start);
            }
            assert(tree_ok(self.world_checker, start, g_score@, came_from@));
            assert(open@[0].pos == start);
        }
        proof {
            assert forall|p: BlockPos| #[trigger] g_score@.contains_key(pos_key(p)) && !closed@.contains(pos_key(p))
                implies exists|i: int| 0 <= i < open@.len() && (#[trigger] open@[i]).pos == p by {
                law_pos_key_injective(p, start);
                assert(open@[0].pos == p);
            }
            assert(search_ok(self.world_checker, g_score@, closed@, open@, end, None));
        }
        loop
            invariant_except_break
                iterations <= max_iterations,
                search_ok(self.world_checker, g_score@, closed@, open@, end, None),
                start == end ==> iterations == 0 && open@.len() == 1 && open@[0].pos == start,
            invariant
                forall|p: BlockPos| call_requires(self.world_checker, (p,)),
                -SEARCH_COORD_LIMIT <= start.x <= SEARCH_COORD_LIMIT,
                -SEARCH_COORD_LIMIT <= start.y <= SEARCH_COORD_LIMIT,
                -SEARCH_COORD_LIMIT <= start.z <= SEARCH_COORD_LIMIT,
                -SEARCH_COORD_LIMIT <= end.x <= SEARCH_COORD_LIMIT,
                -SEARCH_COORD_LIMIT <= end.y <= SEARCH_COORD_LIMIT,
                -SEARCH_COORD_LIMIT <= end.z <= SEARCH_COORD_LIMIT,
                start == request.start,
                end == request.end,
                0 <= max_iterations <= SEARCH_ITERATION_LIMIT,
                max_iterations == request.max_distance * request.max_distance * 10,
                0 <= iterations <= max_iterations + 1,
                tree_ok(self.world_checker, start, g_score@, came_from@),
                bounds_ok(start, g_score@, iterations as int),
                open_ok(open@, g_score@, end, iterations as int),
                explored_ok(explored@, g_score@, start),
                open@.len() + iterations == pushes,
                pushes <= 1 + 6 * closed_seq.len(),
                closed_seq.no_duplicates(),
                forall|i: int| 0 <= i < closed_seq.len() ==> closed@.contains(pos_key(#[trigger] closed_seq[i])),
                forall|p: BlockPos| #[trigger] g_score@.contains_key(pos_key(p)) ==> explored@.contains(p),
                forall|p: BlockPos| #[trigger] closed@.contains(pos_key(p)) ==> g_score@.contains_key(pos_key(p)),
            ensures
                iterations > max_iterations || (open@.len() == 0 && search_ok(self.world_checker, g_score@, closed@, open@, end, None)),
                start == end ==> max_iterations == 0,
            decreases max_iterations + 1 - iterations,
        {
            if open.len() == 0 {
                break;
            }
            proof {
                assert forall|i: int| 0 <= i < open@.len() implies (#[trigger] open@[i]).g <= 0x2000_0000 && open@[i].s < sq_bound() by {
                    assert(g_score@.contains_key(pos_key(open@[i].pos)));
                    lemma_known_in_box(start, g_score@, iterations as int, open@[i].pos);
                    lemma_sq_dist_bound(open@[i].pos, end);
                }
            }
            let idx = min_index(&open);
            let ghost before = open@;
            let current = open.remove(idx);
            proof {
                assert(current == before[idx as int]);
                assert forall|i: int| 0 <= i < open@.len() implies {
                    &&& g_score@.contains_key(pos_key(#[trigger] open@[i].pos))
                    &&& g_score@[pos_key(open@[i].pos)] <= open@[i].g
                    &&& open@[i].g <= iterations + 1
                    &&& open@[i].s == sq_dist(open@[i].pos, end)
                } by {
                    if i < idx {
                        assert(open@[i] == before[i]);
                    } else {
                        assert(open@[i] == before[i + 1]);
                    }
                }
            }
            proof {
                assert forall|p: BlockPos| #[trigger] g_score@.contains_key(pos_key(p)) && !closed@.contains(pos_key(p)) && p != current.pos
                    implies exists|i: int| 0 <= i < open@.len() && (#[trigger] open@[i]).pos == p by {
                    let i = choose|i: int| 0 <= i < before.len() && (#[trigger] before[i]).pos == p;
                    if i < idx {
                        assert(open@[i] == before[i]);
                    } else {
                        assert(i != idx);
                        assert(open@[i - 1] == before[i]);
                    }
                }
            }
            iterations = iterations + 1;
            if iterations > max_iterations {
                break;
            }
            if current.pos == end {
                let w = self.reconstruct_path(&came_from, current.pos, Ghost(g_score@), Ghost(start));
                let r = PathResult::success(w);
                proof {
                    lemma_explored_set(self.world_checker, start, g_score@, came_from@, explored@);
                    assert(explored_summary(self.world_checker, explored@.to_set(), start, end, max_iterations as int, r));
                    assert(explored_summary(self.checker(), explored@.to_set(), request.start, request.end,
                        request.max_distance * request.max_distance * 10, r));
                    assert(0 <= iterations <= max_iterations);
                    assert(max_iterations == request.max_distance * request.max_distance * 10);
                    if start == end {
                        assert(w@ == seq![start]);
                        assert(r.waypoints@ == seq![request.start]);
                    }
                }
                return (r, iterations);
            }
            let ck = key_of(current.pos);
            if closed.contains(&ck) {
                continue;
            }
            let ghost closed_before = closed@;
            closed.insert(ck);
            proof {
                assert forall|i: int| 0 <= i < closed_seq.len() implies closed_seq[i] != current.pos by {
                    assert(closed_before.contains(pos_key(closed_seq[i])));
                }
                let old_seq = closed_seq;
                closed_seq = closed_seq.push(current.pos);
                assert forall|i: int| 0 <= i < closed_seq.len() implies closed@.contains(pos_key(#[trigger] closed_seq[i])) by {
                    if i < old_seq.len() {
                        assert(closed_seq[i] == old_seq[i]);
                    }
                }
            }
            proof {
                assert forall|p: BlockPos| #[trigger] closed@.contains(pos_key(p)) implies g_score@.contains_key(pos_key(p)) by {
                    law_pos_key_injective(p, current.pos);
                }
                assert forall|p: BlockPos| #[trigger] g_score@.contains_key(pos_key(p)) && !closed@.contains(pos_key(p))
                    implies exists|i: int| 0 <= i < open@.len() && (#[trigger] open@[i]).pos == p by {
                    law_pos_key_injective(p, current.pos);
                }
                assert forall|p: BlockPos| #[trigger] closed@.contains(pos_key(p)) && Some(current.pos) != Some(p)
                    implies fully_expanded(self.world_checker, g_score@, p) by {
                    law_pos_key_injective(p, current.pos);
                }
                law_pos_key_injective(end, current.pos);
                assert(search_ok(self.world_checker, g_score@, closed@, open@, end, Some(current.pos)));
            }
            proof {
                lemma_known_in_box(start, g_score@, iterations as int, current.pos);
                lemma_tree_at(self.world_checker, start, g_score@, came_from@, current.pos);
            }
            let neighbors = self.get_neighbors(current.pos);
            proof {
                let answers = choose|answers: Seq<bool>| {
                    &&& #[trigger] answers.len() == 6
                    &&& forall|d: int| 0 <= d < 6 ==> call_ensures(self.world_checker, (#[trigger] neighbor_at(current.pos, d),), answers[d])
                    &&& neighbors@ == kept_neighbors(current.pos, answers)
                };
                lemma_kept_len(current.pos, answers);
                assert forall|d: int| 0 <= d < 6 && #[trigger] surely_ok(self.world_checker, neighbor_at(current.pos, d))
                    implies neighbors@.contains(neighbor_at(current.pos, d)) by {
                    assert(call_ensures(self.world_checker, (neighbor_at(current.pos, d),), answers[d]));
                    lemma_kept_contains(current.pos, answers, d);
                }
            }
            let mut j: usize = 0;
            while j < neighbors.len()
                invariant
                    forall|p: BlockPos| call_requires(self.world_checker, (p,)),
                    -SEARCH_COORD_LIMIT <= start.x <= SEARCH_COORD_LIMIT,
                    -SEARCH_COORD_LIMIT <= start.y <= SEARCH_COORD_LIMIT,
                    -SEARCH_COORD_LIMIT <= start.z <= SEARCH_COORD_LIMIT,
                    -SEARCH_COORD_LIMIT <= end.x <= SEARCH_COORD_LIMIT,
                    -SEARCH_COORD_LIMIT <= end.y <= SEARCH_COORD_LIMIT,
                    -SEARCH_COORD_LIMIT <= end.z <= SEARCH_COORD_LIMIT,
                    start == request.start,
                    end == request.end,
                    0 <= max_iterations <= SEARCH_ITERATION_LIMIT,
                    1 <= iterations <= max_iterations,
                    j <= neighbors@.len(),
                    forall|i: int| 0 <= i < neighbors@.len() ==> adjacent(current.pos, #[trigger] neighbors@[i])
                        && call_ensures(self.world_checker, (neighbors@[i],), true),
                    g_score@.contains_key(pos_key(current.pos)),
                    g_score@[pos_key(current.pos)] <= current.g,
                    current.g + 1 <= iterations,
                    tree_ok(self.world_checker, start, g_score@, came_from@),
                    bounds_ok(start, g_score@, iterations as int),
                    open_ok(open@, g_score@, end, iterations as int),
                    explored_ok(explored@, g_score@, start),
                    open@.len() + iterations == pushes,
                    closed_seq.len() >= 1,
                    pushes <= 1 + 6 * (closed_seq.len() - 1) + j,
                    neighbors@.len() <= 6,
                    closed_seq.no_duplicates(),
                    forall|i: int| 0 <= i < closed_seq.len() ==> closed@.contains(pos_key(#[trigger] closed_seq[i])),
                    forall|p: BlockPos| #[trigger] g_score@.contains_key(pos_key(p)) ==> explored@.contains(p),
                    search_ok(self.world_checker, g_score@, closed@, open@, end, Some(current.pos)),
                    closed@.contains(pos_key(current.pos)),
                    forall|i: int| 0 <= i < j ==> g_score@.contains_key(pos_key(#[trigger] neighbors@[i])),
                    forall|d: int| 0 <= d < 6 && #[trigger] surely_ok(self.world_checker, neighbor_at(current.pos, d))
                        ==> neighbors@.contains(neighbor_at(current.pos, d)),
                decreases neighbors@.len() - j,
            {
                let nb = neighbors[j];
                let nk = key_of(nb);
                if !closed.contains(&nk) {
                    let tentative: u32 = current.g + 1;
                    let existing: Option<u32> = match g_score.get(&nk) {
                        Some(v) => Some(*v),
                        None => None,
                    };
                    let better = match existing {
                        Some(v) => tentative < v,
                        None => true,
                    };
                    if better {
                        proof {
                            lemma_known_in_box(start, g_score@, iterations as int, current.pos);
                            lemma_relax(self.world_checker, start, end, g_score@, came_from@, open@, iterations as int, current, nb, tentative);
                        }
                        let ghost g_old = g_score@;
                        let ghost open_old = open@;
                        came_from.insert(nk, current.pos);
                        g_score.insert(nk, tentative);
                        proof {
                            lemma_known_in_box(start, g_score@, iterations as int, nb);
                        }
                        let ghost ex_old = explored@;
                        if existing.is_none() {
                            explored.push(nb);
                        }
                        let nb_s = squared_distance(nb, end);
                        open.push(OpenNode { pos: nb, g: tentative, s: nb_s });
                        proof {
                            pushes = pushes + 1;
                            assert forall|p: BlockPos| #[trigger] g_score@.contains_key(pos_key(p)) implies explored@.contains(p) by {
                                law_pos_key_injective(p, nb);
                                if p == nb {
                                    if existing.is_none() {
                                        assert(explored@[explored@.len() - 1] == nb);
                                    } else {
                                        assert(g_old.contains_key(pos_key(nb)));
                                    }
                                } else {
                                    assert(g_old.contains_key(pos_key(p)));
                                    assert(ex_old.contains(p));
                                    let k = choose|k: int| 0 <= k < ex_old.len() && ex_old[k] == p;
                                    assert(explored@[k] == ex_old[k]);
                                }
                            }
                        }
                        proof {
                            assert forall|p: BlockPos| #[trigger] g_score@.contains_key(pos_key(p)) && !closed@.contains(pos_key(p))
                                implies exists|i: int| 0 <= i < open@.len() && (#[trigger] open@[i]).pos == p by {
                                law_pos_key_injective(p, nb);
                                if p == nb {
                                    assert(open@[open_old.len() as int].pos == p);
                                } else {
                                    assert(g_old.contains_key(pos_key(p)));
                                    let i = choose|i: int| 0 <= i < open_old.len() && (#[trigger] open_old[i]).pos == p;
                                    assert(open@[i] == open_old[i]);
                                }
                            }
                            assert forall|p: BlockPos| #[trigger] closed@.contains(pos_key(p)) && Some(current.pos) != Some(p)
                                implies fully_expanded(self.world_checker, g_score@, p) by {
                                assert(fully_expanded(self.world_checker, g_old, p));
                            }
                            assert(search_ok(self.world_checker, g_score@, closed@, open@, end, Some(current.pos)));
                            assert forall|i: int| 0 <= i < j + 1 implies g_score@.contains_key(pos_key(#[trigger] neighbors@[i])) by {
                                if i < j {
                                    assert(g_old.contains_key(pos_key(neighbors@[i])));
                                }
                            }
                            assert forall|i: int| 0 <= i < explored@.len() implies g_score@.contains_key(pos_key(#[trigger] explored@[i])) by {
                                if pos_key(explored@[i]) != nk {
                                    assert(g_old.contains_key(pos_key(explored@[i])) || explored@[i] == nb);
                                }
                            }
                        }
                    }
                }
                proof {
                    if closed@.contains(nk) {
                        assert(closed@.contains(pos_key(nb)));
                    }
                }
                j = j + 1;
            }
            proof {
                assert forall|d: int| 0 <= d < 6 && #[trigger] surely_ok(self.world_checker, neighbor_at(current.pos, d))
                    implies g_score@.contains_key(pos_key(neighbor_at(current.pos, d))) by {
                    let i = choose|i: int| 0 <= i < neighbors@.len() && neighbors@[i] == neighbor_at(current.pos, d);
                    assert(g_score@.contains_key(pos_key(neighbors@[i])));
                }
                assert(fully_expanded(self.world_checker, g_score@, current.pos));
                assert forall|p: BlockPos| #[trigger] closed@.contains(pos_key(p)) && None::<BlockPos> != Some(p)
                    implies fully_expanded(self.world_checker, g_score@, p) by {
                    if p != current.pos {
                        assert(closed@.contains(pos_key(p)) && Some(current.pos) != Some(p));
                    }
                }
                assert(search_ok(self.world_checker, g_score@, closed@, open@, end, None));
            }
        }
        proof {
            assert forall|i: int| 0 <= i < explored@.len() implies in_box(#[trigger] explored@[i]) by {
                lemma_known_in_box(start, g_score@, iterations as int, explored@[i]);
            }
        }
        proof {
            lemma_tree_at(self.world_checker, start, g_score@, came_from@, start);
            if iterations <= max_iterations {
                lemma_unreachable(self.world_checker, g_score@, closed@, open@, end, start);
            }
            if start == end {
                let md = request.max_distance as int;
                assert(md == 0) by (nonlinear_arith)
                    requires
                        md * md * 10 == 0,
                ;
            }
        }
        let last = nearest(&explored, end);
        let ghost e = explored@.to_set();
        proof {
            lemma_explored_set(self.world_checker, start, g_score@, came_from@, explored@);
            closed_seq.unique_seq_to_set();
            assert(closed_seq.to_set().subset_of(e)) by {
                assert forall|p: BlockPos| closed_seq.to_set().contains(p) implies e.contains(p) by {
                    let i = choose|i: int| 0 <= i < closed_seq.len() && closed_seq[i] == p;
                    assert(closed@.contains(pos_key(closed_seq[i])));
                }
            }
            vstd::set_lib::lemma_len_subset(closed_seq.to_set(), e);
            assert(e.contains(last));
            assert forall|p: BlockPos| #[trigger] e.contains(p) implies sq_dist(last, end) <= sq_dist(p, end) by {
                let k = choose|k: int| 0 <= k < explored@.len() && explored@[k] == p;
                assert(sq_dist(last, end) <= sq_dist(explored@[k], end));
            }
        }
        proof {
            let k = choose|k: int| 0 <= k < explored@.len() && explored@[k] == last;
            assert(g_score@.contains_key(pos_key(explored@[k])));
            assert(explored@[0] == start);
        }
        let w = self.reconstruct_path(&came_from, last, Ghost(g_score@), Ghost(start));
        let r = PathResult::partial(w);
        proof {
            if surely_reachable(self.world_checker, start, end) {
                assert(iterations > max_iterations);
                assert(max_iterations <= 6 * e.len());
            }
            if 6 * e.len() < max_iterations {
                assert(iterations <= max_iterations);
                assert forall|p: BlockPos, d: int|
                    #![trigger e.contains(p), surely_ok(self.world_checker, neighbor_at(p, d))]
                    e.contains(p) && 0 <= d < 6 && surely_ok(self.world_checker, neighbor_at(p, d))
                    implies e.contains(neighbor_at(p, d)) by {
                    let k = choose|k: int| 0 <= k < explored@.len() && explored@[k] == p;
                    assert(g_score@.contains_key(pos_key(explored@[k])));
                    if !closed@.contains(pos_key(p)) {
                        assert(g_score@.contains_key(pos_key(p)) && !closed@.contains(pos_key(p)));
                    }
                    assert(closed@.contains(pos_key(p)) && None::<BlockPos> != Some(p));
                    assert(fully_expanded(self.world_checker, g_score@, p));
                    assert(g_score@.contains_key(pos_key(neighbor_at(p, d))));
                    assert(explored@.contains(neighbor_at(p, d)));
                }
            }
            assert(explored_summary(self.world_checker, e, start, end, max_iterations as int, r));
        }
        (r, iterations)
    }

    /// A* search from the request's start to its end; see
    /// `find_path_counted`, which also reports how much of its budget the
    /// search used.
    ///
    /// Start or end rejected by the checker: no waypoints. End reached: the
    /// walk from start to end; a start equal to an accepted end gives the
    /// one-point walk (unless the budget is zero). Otherwise, as best effort:
    /// the walk from the start to the explored position nearest to the end.
    /// An end that positions the checker always accepts connect to the start
    /// is reached unless the search explored at least a sixth of its budget's
    /// worth of positions (`explored_summary`).
    pub fn find_path(&self, request: &PathRequest) -> (r: PathResult)
        requires
            forall|p: BlockPos| call_requires(self.checker(), (p,)),
            -SEARCH_COORD_LIMIT <= request.start.x <= SEARCH_COORD_LIMIT,
            -SEARCH_COORD_LIMIT <= request.start.y <= SEARCH_COORD_LIMIT,
            -SEARCH_COORD_LIMIT <= request.start.z <= SEARCH_COORD_LIMIT,
            -SEARCH_COORD_LIMIT <= request.end.x <= SEARCH_COORD_LIMIT,
            -SEARCH_COORD_LIMIT <= request.end.y <= SEARCH_COORD_LIMIT,
            -SEARCH_COORD_LIMIT <= request.end.z <= SEARCH_COORD_LIMIT,
            request.max_distance * request.max_distance * 10 <= SEARCH_ITERATION_LIMIT,
        ensures
            r.waypoints@.len() == 0 ==> !r.reached
                && (call_ensures(self.checker(), (request.start,), false) || call_ensures(self.checker(), (request.end,), false)),
            r.waypoints@.len() > 0 ==> valid_walk(self.checker(), r.waypoints@, request.start),
            r.reached ==> r.waypoints@.len() > 0 && r.waypoints@.last() == request.end,
            !r.reached && r.waypoints@.len() > 0 ==> sq_dist(r.waypoints@.last(), request.end) <= sq_dist(request.start, request.end),
            request.start == request.end && request.max_distance != 0 && r.waypoints@.len() > 0
                ==> r.reached && r.waypoints@ == seq![request.start],
            surely_ok(self.checker(), request.start) && surely_ok(self.checker(), request.end) ==> r.waypoints@.len() > 0,
            r.waypoints@.len() > 0 ==> exists|e: Set<BlockPos>| #[trigger] explored_summary(
                self.checker(), e, request.start, request.end, request.max_distance * request.max_distance * 10, r),
    {
        let res = self.find_path_counted(request);
        res.0
    }
}

/// The positions of `v` in reverse order.
fn reversed(v: &Vec<BlockPos>) -> (w: Vec<BlockPos>)
    ensures
        w@.len() == v@.len(),
        forall|j: int| 0 <= j < v@.len() ==> #[trigger] w@[j] == v@[v@.len() - 1 - j],
{
    let n = v.len();
    let mut w: Vec<BlockPos> = Vec::new();
    let mut i: usize = 0;
    while i < n
        invariant
            n == v@.len(),
            i <= n,
            w@.len() == i,
            forall|j: int| 0 <= j < i ==> #[trigger] w@[j] == v@[n - 1 - j],
        decreases n - i,
    {
        w.push(v[n - 1 - i]);
        i = i + 1;
    }
    w
}

/// The position among `explored` nearest to `end` (the first one, among
/// equally near ones).
fn nearest(explored: &Vec<BlockPos>, end: BlockPos) -> (r: BlockPos)
    requires
        explored@.len() >= 1,
        forall|i: int| 0 <= i < explored@.len() ==> in_box(#[trigger] explored@[i]),
        in_box(end),
    ensures
        explored@.contains(r),
        forall|i: int| 0 <= i < explored@.len() ==> sq_dist(r, end) <= sq_dist(#[trigger] explored@[i], end),
{
    let mut best = explored[0];
    let mut best_s = squared_distance(best, end);
    let mut i: usize = 1;
    while i < explored.len()
        invariant
            1 <= i <= explored@.len(),
            forall|k: int| 0 <= k < explored@.len() ==> in_box(#[trigger] explored@[k]),
            in_box(end),
            explored@.contains(best),
            best_s == sq_dist(best, end),
            forall|k: int| 0 <= k < i ==> sq_dist(best, end) <= sq_dist(#[trigger] explored@[k], end),
        decreases explored@.len() - i,
    {
        let s = squared_distance(explored[i], end);
        if s < best_s {
            best = explored[i];
            best_s = s;
        }
        i = i + 1;
    }
    best
}

/// Whether the path turns at waypoint `i`: the step into it and the step out
/// of it differ.
pub open spec fn turns_at(p: Seq<BlockPos>, i: int) -> bool {
    p[i].x - p[i - 1].x != p[i + 1].x - p[i].x
        || p[i].y - p[i - 1].y != p[i + 1].y - p[i].y
        || p[i].z - p[i - 1].z != p[i + 1].z - p[i].z
}

/// The waypoints among `p[1]` to `p[k - 1]` at which the path turns, in order.
pub open spec fn turn_points(p: Seq<BlockPos>, k: int) -> Seq<BlockPos>
    decreases k,
{
    if k <= 1 {
        Seq::empty()
    } else if turns_at(p, k - 1) {
        turn_points(p, k - 1).push(p[k - 1])
    } else {
        turn_points(p, k - 1)
    }
}

/// Drops the waypoints that lie straight on the line between their
/// neighbours: a path of fewer than three waypoints comes back as it is; a
/// longer one keeps its first and last waypoint and, between them, exactly
/// the waypoints where the step in differs from the step out (a repeated
/// waypoint is a step of zero, so repeats are not merged).
pub fn simplify_path(path: &[BlockPos]) -> (r: Vec<BlockPos>)
    requires
        forall|i: int| 0 <= i < path@.len() - 1 ==> {
            &&& crate::math::fits_i32(path@[i + 1].x - (#[trigger] path@[i]).x)
            &&& crate::math::fits_i32(path@[i + 1].y - path@[i].y)
            &&& crate::math::fits_i32(path@[i + 1].z - path@[i].z)
        },
    ensures
        r@ == (if path@.len() < 3 {
            path@
        } else {
            seq![path@[0]] + turn_points(path@, path@.len() - 1) + seq![path@[path@.len() - 1]]
        }),
{
    let n = path.len();
    if n < 3 {
        let mut out: Vec<BlockPos> = Vec::new();
        let mut i: usize = 0;
        while i < n
            invariant
                n == path@.len(),
                i <= n,
                out@ == path@.take(i as int),
            decreases n - i,
        {
            out.push(path[i]);
            proof {
                assert(path@.take(i as int + 1) =~= path@.take(i as int).push(path@[i as int]));
            }
            i = i + 1;
        }
        proof {
            assert(path@.take(n as int) =~= path@);
        }
        return out;
    }
    let mut simplified: Vec<BlockPos> = Vec::new();
    simplified.push(path[0]);
    let mut k: usize = 1;
    proof {
        assert(simplified@ =~= seq![path@[0]] + turn_points(path@, 1));
    }
    while k < n - 1
        invariant
            n == path@.len(),
            3 <= n,
            1 <= k <= n - 1,
            forall|i: int| 0 <= i < path@.len() - 1 ==> {
                &&& crate::math::fits_i32(path@[i + 1].x - (#[trigger] path@[i]).x)
                &&& crate::math::fits_i32(path@[i + 1].y - path@[i].y)
                &&& crate::math::fits_i32(path@[i + 1].z - path@[i].z)
            },
            simplified@ == seq![path@[0]] + turn_points(path@, k as int),
        decreases n - 1 - k,
    {
        let a = path[k - 1];
        let b = path[k];
        let c = path[k + 1];
        proof {
            assert(crate::math::fits_i32(path@[k as int].x - path@[k - 1].x));
            assert(crate::math::fits_i32(path@[k + 1].x - path@[k as int].x));
        }
        let turns = b.x - a.x != c.x - b.x || b.y - a.y != c.y - b.y || b.z - a.z != c.z - b.z;
        if turns {
            simplified.push(b);
        }
        proof {
            assert(turns == turns_at(path@, k as int));
            assert(simplified@ =~= seq![path@[0]] + turn_points(path@, k as int + 1));
        }
        k = k + 1;
    }
    simplified.push(path[n - 1]);
    simplified
}

} // verus!
