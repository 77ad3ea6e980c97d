//! Client/server multiplayer: who is connected and to whom messages go. The
//! players' records (their positions and timing) are the caller's.

use vstd::prelude::*;
use crate::entity::EntityId;
use std::collections::HashMap;
use vstd::std_specs::hash::spec_hash_map_iter;
use vstd::std_specs::iter::IteratorSpec;

verus! {

broadcast use vstd::std_specs::hash::group_hash_axioms;

/// A server: whether it runs, its players by id, and its limits.
pub struct Server<Pl> {
    pub running: bool,
    pub players: HashMap<EntityId, Pl>,
    pub max_players: u32,
    pub tick_rate: u32,
}

impl<Pl> Server<Pl> {
    /// A stopped server with no player.
    pub fn new(max_players: u32, tick_rate: u32) -> (s: Self)
        ensures
            !s.running,
            s.players@ == Map::<EntityId, Pl>::empty(),
            s.max_players == max_players,
            s.tick_rate == tick_rate,
    {
        Server { running: false, players: HashMap::new(), max_players, tick_rate }
    }

    /// The number of players.
    pub fn player_count(&self) -> (n: usize)
        ensures
            n == self.players@.len(),
    {
        self.players.len()
    }

    /// The players a broadcast goes to: every player but `exclude`, each
    /// once, in no particular order.
    pub fn broadcast_targets(&self, exclude: Option<EntityId>) -> (r: Vec<EntityId>)
        ensures
            r@.no_duplicates(),
            r@.to_set() == self.players@.dom().filter(|k: EntityId| exclude != Some(k)),
    {
        let ghost m = self.players@;
        let ghost sq = spec_hash_map_iter(&self.players).remaining();
        let ghost mut seen: int = 0;
        let mut r: Vec<EntityId> = Vec::new();
        for kv in it: self.players.iter()
            invariant
                m == self.players@,
                sq == spec_hash_map_iter(&self.players).remaining(),
                it.seq() == sq,
                sq.no_duplicates(),
                seen == it.index(),
                r@.no_duplicates(),
                forall|i: int| 0 <= i < r.len() ==> #[trigger] m.contains_key(r@[i]) && exclude != Some(r@[i]),
                forall|i: int| #![trigger r@[i]] 0 <= i < r.len() ==> exists|j: int| 0 <= j < seen && #[trigger] sq[j].0 == r@[i],
                forall|j: int| 0 <= j < seen && exclude != Some(*(#[trigger] sq[j]).0) ==> r@.contains(*sq[j].0),
        {
            let (k, _p) = kv;
            proof {
                assert(sq[seen] == kv);
                assert(m.contains_key(*k));
            }
            let ghost old_r = r@;
            if exclude != Some(*k) {
                proof {
                    assert forall|i: int| 0 <= i < old_r.len() implies old_r[i] != *k by {
                        let j = choose|j: int| 0 <= j < seen && #[trigger] sq[j].0 == old_r[i];
                        if old_r[i] == *k {
                            assert(m[*sq[j].0] == *sq[j].1);
                            assert(sq[j] == sq[seen]);
                        }
                    }
                }
                r.push(*k);
            }
            proof {
                seen = seen + 1;
                assert forall|i: int| #![trigger r@[i]] 0 <= i < r.len() implies exists|j: int| 0 <= j < seen && #[trigger] sq[j].0 == r@[i] by {
                    if i == r.len() - 1 && exclude != Some(*k) {
                        assert(sq[seen - 1].0 == r@[i]);
                    } else {
                        assert(r@[i] == old_r[i]);
                        let j = choose|j: int| 0 <= j < seen - 1 && #[trigger] sq[j].0 == old_r[i];
                        assert(sq[j].0 == r@[i]);
                    }
                }
                assert forall|j: int| 0 <= j < seen && exclude != Some(*(#[trigger] sq[j]).0) implies r@.contains(*sq[j].0) by {
                    if j == seen - 1 {
                        assert(r@[r.len() - 1] == *k);
                    } else {
                        assert(old_r.contains(*sq[j].0));
                        let x = choose|x: int| 0 <= x < old_r.len() && old_r[x] == *sq[j].0;
                        assert(r@[x] == old_r[x]);
                    }
                }
            }
        }
        proof {
            let want = m.dom().filter(|k: EntityId| exclude != Some(k));
            assert forall|k: EntityId| want.contains(k) implies r@.contains(k) by {
                assert(sq.contains((&k, &m[k])));
                let j = choose|j: int| 0 <= j < sq.len() && sq[j] == (&k, &m[k]);
                assert(*sq[j].0 == k);
            }
            assert forall|k: EntityId| r@.contains(k) implies want.contains(k) by {
                let i = choose|i: int| 0 <= i < r.len() && r@[i] == k;
                assert(m.contains_key(r@[i]));
            }
            assert(r@.to_set() =~= want);
        }
        r
    }
}

/// A client: whether it is connected, to which server and as which player,
/// the other players it knows, and its latency.
pub struct Client<Pl> {
    pub connected: bool,
    pub server_addr: String,
    pub player_id: Option<EntityId>,
    pub players: HashMap<EntityId, Pl>,
    pub latency: u32,
}

/// Why a client cannot send.
#[derive(Debug, Clone, Copy, PartialEq, Eq, Structural)]
pub enum ClientError {
    NotConnected,
}

impl ClientError {
    /// The error's message.
    pub fn message(&self) -> (s: &'static str)
        ensures
            s@ == "Not connected"@,
    {
        "Not connected"
    }
}

impl<Pl> Client<Pl> {
    /// A client connected to nothing.
    pub fn new() -> (c: Self)
        ensures
            !c.connected,
            c.server_addr@ == Seq::<char>::empty(),
            c.player_id is None,
            c.players@ == Map::<EntityId, Pl>::empty(),
            c.latency == 0,
    {
        Client { connected: false, server_addr: String::new(), player_id: None, players: HashMap::new(), latency: 0 }
    }

    /// Records that the server at `addr` accepted this client as `player_id`.
    pub fn accept_handshake(&mut self, addr: &str, player_id: EntityId)
        ensures
            final(self).connected,
            final(self).server_addr@ == addr@,
            final(self).player_id == Some(player_id),
            final(self).players@ == old(self).players@,
            final(self).latency == old(self).latency,
    {
        self.player_id = Some(player_id);
        self.connected = true;
        self.server_addr = addr.to_owned();
    }

    /// Leaves the server and forgets its players.
    pub fn disconnect(&mut self)
        ensures
            !final(self).connected,
            final(self).player_id is None,
            final(self).server_addr@ == Seq::<char>::empty(),
            final(self).players@ == Map::<EntityId, Pl>::empty(),
            final(self).latency == old(self).latency,
    {
        self.connected = false;
        self.player_id = None;
        self.server_addr = String::new();
        self.players = HashMap::new();
    }

    /// The id to send messages under: an error when not connected, else the
    /// id the server gave, or 0 when it gave none.
    pub fn sender_id(&self) -> (r: Result<EntityId, ClientError>)
        ensures
            !self.connected ==> r == Err::<EntityId, ClientError>(ClientError::NotConnected),
            self.connected ==> r == Ok::<EntityId, ClientError>(match self.player_id { Some(id) => id, None => 0 }),
    {
        if !self.connected {
            return Err(ClientError::NotConnected);
        }
        match self.player_id {
            Some(id) => Ok(id),
            None => Ok(0),
        }
    }
}

impl<Pl> Default for Client<Pl> {
    fn default() -> (c: Self)
        ensures
            !c.connected,
            c.player_id is None,
            c.players@ == Map::<EntityId, Pl>::empty(),
    {
        Client::new()
    }
}

} // verus!
