//! Waypoints: named places a player can travel back to.

use vstd::prelude::*;
use crate::audio::str_eq;
use crate::clock::{unix_millis_now, unix_seconds_now};
use crate::world_types::DimensionId;

verus! {

/// A named place. `P` is the position, which the waypoint only carries.
#[derive(Debug)]
pub struct Waypoint<P> {
    pub id: String,
    pub name: String,
    pub position: P,
    pub dimension: DimensionId,
    pub created_at: u64,
    pub icon: String,
}

/// The decimal digits of `n`, most significant first.
pub open spec fn decimal(n: nat) -> Seq<char>
    decreases n,
{
    if n < 10 {
        seq![digit_char(n)]
    } else {
        decimal(n / 10).push(digit_char(n % 10))
    }
}

/// The character of decimal digit `d`.
pub open spec fn digit_char(d: nat) -> char {
    seq!['0', '1', '2', '3', '4', '5', '6', '7', '8', '9'][d as int]
}

/// `s` with every space turned into an underscore.
pub open spec fn underscored(s: Seq<char>) -> Seq<char> {
    s.map_values(|c: char| if c == ' ' { '_' } else { c })
}

/// What `str::to_lowercase` gives for `s`: its Unicode lower-case mapping.
pub uninterp spec fn lowercase(s: Seq<char>) -> Seq<char>;

/// The id of a waypoint named `name` made at `millis` milliseconds after the
/// epoch: `wp_`, the milliseconds, `_`, and the name with spaces turned into
/// underscores, in lower case.
pub open spec fn waypoint_id(millis: u128, name: Seq<char>) -> Seq<char> {
    seq!['w', 'p', '_'] + decimal(millis as nat) + seq!['_'] + lowercase(underscored(name))
}

/// The lower-case form of `s`, from `str::to_lowercase`.
#[verifier::external_body]
pub(crate) fn to_lowercase(s: &str) -> (r: String)
    ensures
        r@ == lowercase(s@),
{
    s.to_lowercase()
}

/// The decimal digits of `n`.
fn decimal_string(n: u128) -> (s: String)
    ensures
        s@ == decimal(n as nat),
    decreases n,
{
    let digits = "0123456789";
    proof {
        reveal_strlit("0123456789");
        assert(digits@ =~= seq!['0', '1', '2', '3', '4', '5', '6', '7', '8', '9']);
    }
    let d = (n % 10) as usize;
    let ch = digits.substring_char(d, d + 1);
    assert(ch@ =~= seq![digit_char(n as nat % 10)]);
    if n < 10 {
        let mut s = String::new();
        s.append(ch);
        assert(s@ =~= decimal(n as nat));
        s
    } else {
        let mut s = decimal_string(n / 10);
        s.append(ch);
        assert(s@ =~= decimal(n as nat));
        s
    }
}

/// `name` with every space turned into an underscore.
fn underscore_spaces(name: &str) -> (s: String)
    ensures
        s@ == underscored(name@),
{
    let mut s = String::new();
    let n = name.unicode_len();
    let mut i: usize = 0;
    proof {
        reveal_strlit("_");
    }
    while i < n
        invariant
            n == name@.len(),
            i <= n,
            "_"@ == seq!['_'],
            s@ == underscored(name@).take(i as int),
        decreases n - i,
    {
        if name.get_char(i) == ' ' {
            s.append("_");
        } else {
            let c = name.substring_char(i, i + 1);
            s.append(c);
        }
        proof {
            assert(s@ =~= underscored(name@).take(i as int + 1));
        }
        i = i + 1;
    }
    assert(underscored(name@).take(n as int) =~= underscored(name@));
    s
}

/// The id of a waypoint named `name` made at `millis`.
pub fn make_waypoint_id(millis: u128, name: &str) -> (id: String)
    ensures
        id@ == waypoint_id(millis, name@),
{
    let mut id = String::new();
    proof {
        reveal_strlit("wp_");
        reveal_strlit("_");
    }
    id.append("wp_");
    let digits = decimal_string(millis);
    id.append(digits.as_str());
    id.append("_");
    let under = underscore_spaces(name);
    let lower = to_lowercase(under.as_str());
    id.append(lower.as_str());
    assert(id@ =~= waypoint_id(millis, name@));
    id
}

/// Whether a waypoint's id differs from `id`.
pub open spec fn id_differs<P>(id: Seq<char>) -> spec_fn(Waypoint<P>) -> bool {
    |w: Waypoint<P>| w.id@ != id
}

/// The waypoints of `s` whose id is not `id`, in order.
pub open spec fn without_id<P>(s: Seq<Waypoint<P>>, id: Seq<char>) -> Seq<Waypoint<P>> {
    s.filter(id_differs(id))
}

/// The saved waypoints, oldest first, and how many there may be.
pub struct WaypointManager<P> {
    pub waypoints: Vec<Waypoint<P>>,
    pub max_waypoints: usize,
}

impl<P> WaypointManager<P> {
    /// No waypoints, room for 20.
    pub fn new() -> (m: Self)
        ensures
            m.waypoints@.len() == 0,
            m.max_waypoints == 20,
    {
        WaypointManager { waypoints: Vec::new(), max_waypoints: 20 }
    }

    /// Adds a waypoint named `name` at `position`, with an id made from the
    /// current time and the name, and the current time as its creation time;
    /// refused when the limit is reached.
    pub fn add_waypoint(&mut self, name: &str, position: P, dimension: DimensionId) -> (r: Option<&Waypoint<P>>)
        ensures
            old(self).waypoints@.len() >= old(self).max_waypoints ==> r is None
                && final(self).waypoints@ == old(self).waypoints@,
            old(self).waypoints@.len() < old(self).max_waypoints ==> {
                &&& final(self).waypoints@.len() == old(self).waypoints@.len() + 1
                &&& final(self).waypoints@.take(old(self).waypoints@.len() as int) == old(self).waypoints@
                &&& r == Some(&final(self).waypoints@.last())
                &&& exists|t: u128| #[trigger] waypoint_id(t, name@) == final(self).waypoints@.last().id@
                &&& final(self).waypoints@.last().name@ == name@
                &&& final(self).waypoints@.last().position == position
                &&& final(self).waypoints@.last().dimension == dimension
                &&& final(self).waypoints@.last().icon@ == "waypoint"@
            },
            final(self).max_waypoints == old(self).max_waypoints,
    {
        if self.waypoints.len() >= self.max_waypoints {
            return None;
        }
        let millis = unix_millis_now();
        let id = make_waypoint_id(millis, name);
        let waypoint = Waypoint {
            id,
            name: name.to_owned(),
            position,
            dimension,
            created_at: unix_seconds_now(),
            icon: "waypoint".to_owned(),
        };
        let ghost before = self.waypoints@;
        self.waypoints.push(waypoint);
        proof {
            assert(self.waypoints@.take(before.len() as int) =~= before);
            assert(waypoint_id(millis, name@) == self.waypoints@.last().id@);
        }
        let n = self.waypoints.len();
        Some(&self.waypoints[n - 1])
    }

    /// Removes every waypoint with id `id`; returns whether one was there.
    pub fn remove_waypoint(&mut self, id: &str) -> (removed: bool)
        ensures
            final(self).waypoints@ == without_id(old(self).waypoints@, id@),
            removed == (final(self).waypoints@.len() < old(self).waypoints@.len()),
            final(self).max_waypoints == old(self).max_waypoints,
    {
        let ghost pred = id_differs::<P>(id@);
        let ghost orig = self.waypoints@;
        let initial_len = self.waypoints.len();
        let mut kept: Vec<Waypoint<P>> = Vec::new();
        while self.waypoints.len() > 0
            invariant
                pred == id_differs::<P>(id@),
                orig == old(self).waypoints@,
                initial_len == orig.len(),
                self.max_waypoints == old(self).max_waypoints,
                kept@ + self.waypoints@.filter(pred) == orig.filter(pred),
            decreases self.waypoints@.len(),
        {
            let ghost rest = self.waypoints@;
            let w = self.waypoints.remove(0);
            proof {
                assert(rest =~= seq![w] + self.waypoints@);
                Seq::filter_distributes_over_add(seq![w], self.waypoints@, pred);
                assert(seq![w].filter(pred) =~= (if pred(w) { seq![w] } else { Seq::empty() })) by {
                    reveal_with_fuel(Seq::filter, 2);
                    assert(seq![w].drop_last() =~= Seq::<Waypoint<P>>::empty());
                }
            }
            if !str_eq(w.id.as_str(), id) {
                kept.push(w);
                proof {
                    assert(kept@ + self.waypoints@.filter(pred) =~= orig.filter(pred));
                }
            } else {
                proof {
                    assert(kept@ + self.waypoints@.filter(pred) =~= orig.filter(pred));
                }
            }
        }
        proof {
            assert(self.waypoints@.filter(pred) =~= Seq::<Waypoint<P>>::empty()) by {
                reveal_with_fuel(Seq::filter, 1);
            }
            assert(kept@ =~= orig.filter(pred));
        }
        self.waypoints = kept;
        self.waypoints.len() < initial_len
    }

    /// The first waypoint with id `id`.
    pub fn get_waypoint(&self, id: &str) -> (r: Option<&Waypoint<P>>)
        ensures
            match r {
                Some(w) => exists|i: int| 0 <= i < self.waypoints@.len() && self.waypoints@[i] == *w
                    && w.id@ == id@
                    && forall|j: int| 0 <= j < i ==> (#[trigger] self.waypoints@[j]).id@ != id@,
                None => forall|j: int| 0 <= j < self.waypoints@.len() ==> (#[trigger] self.waypoints@[j]).id@ != id@,
            },
    {
        let n = self.waypoints.len();
        let mut i: usize = 0;
        while i < n
            invariant
                n == self.waypoints@.len(),
                i <= n,
                forall|j: int| 0 <= j < i ==> (#[trigger] self.waypoints@[j]).id@ != id@,
            decreases n - i,
        {
            if str_eq(self.waypoints[i].id.as_str(), id) {
                return Some(&self.waypoints[i]);
            }
            i = i + 1;
        }
        None
    }

    /// The waypoints in dimension `dimension`, oldest first.
    pub fn get_waypoints_in_dimension(&self, dimension: DimensionId) -> (r: Vec<&Waypoint<P>>)
        ensures
            r@.map_values(|w: &Waypoint<P>| *w) == self.waypoints@.filter(|w: Waypoint<P>| w.dimension == dimension),
    {
        let ghost pred = |w: Waypoint<P>| w.dimension == dimension;
        let mut out: Vec<&Waypoint<P>> = Vec::new();
        let n = self.waypoints.len();
        let mut i: usize = 0;
        while i < n
            invariant
                n == self.waypoints@.len(),
                i <= n,
                pred == (|w: Waypoint<P>| w.dimension == dimension),
                out@.map_values(|w: &Waypoint<P>| *w) == self.waypoints@.take(i as int).filter(pred),
            decreases n - i,
        {
            let w = &self.waypoints[i];
            proof {
                reveal_with_fuel(Seq::filter, 1);
                assert(self.waypoints@.take(i as int + 1).drop_last() =~= self.waypoints@.take(i as int));
            }
            if w.dimension == dimension {
                out.push(w);
                proof {
                    assert(out@.map_values(|w: &Waypoint<P>| *w) =~= self.waypoints@.take(i as int + 1).filter(pred));
                }
            } else {
                proof {
                    assert(out@.map_values(|w: &Waypoint<P>| *w) =~= self.waypoints@.take(i as int + 1).filter(pred));
                }
            }
            i = i + 1;
        }
        assert(self.waypoints@.take(n as int) =~= self.waypoints@);
        out
    }
}

impl<P> Default for WaypointManager<P> {
    fn default() -> (m: Self)
        ensures
            m.waypoints@.len() == 0,
            m.max_waypoints == 20,
    {
        WaypointManager::new()
    }
}

/// After a waypoint is removed by id, no waypoint with that id is left, and
/// when none had that id, every waypoint stays.
pub proof fn law_removed_waypoint_gone<P>(s: Seq<Waypoint<P>>, id: Seq<char>)
    ensures
        forall|i: int| 0 <= i < without_id(s, id).len() ==> (#[trigger] without_id(s, id)[i]).id@ != id,
        (forall|i: int| 0 <= i < s.len() ==> (#[trigger] s[i]).id@ != id) ==> without_id(s, id) == s,
{
    let pred = id_differs::<P>(id);
    assert forall|i: int| 0 <= i < without_id(s, id).len() implies (#[trigger] without_id(s, id)[i]).id@ != id by {
        s.lemma_filter_pred(pred, i);
    }
    if forall|i: int| 0 <= i < s.len() ==> (#[trigger] s[i]).id@ != id {
        lemma_filter_all(s, pred);
    }
}

proof fn lemma_filter_all<A>(s: Seq<A>, pred: spec_fn(A) -> bool)
    requires
        forall|i: int| 0 <= i < s.len() ==> pred(s[i]),
    ensures
        s.filter(pred) == s,
    decreases s.len(),
{
    reveal_with_fuel(Seq::filter, 1);
    if s.len() > 0 {
        lemma_filter_all(s.drop_last(), pred);
        assert(s.drop_last().push(s.last()) =~= s);
    } else {
        assert(s.filter(pred) =~= s);
    }
}

} // verus!
