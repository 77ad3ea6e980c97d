//! Peer-to-peer sessions: peer states and session codes.

use vstd::prelude::*;
use crate::clock::unix_nanos_now;
use crate::entity::EntityId;
use std::collections::HashMap;
use std::collections::hash_map::Entry;
use vstd::std_specs::hash::spec_hash_map_iter;
use vstd::std_specs::iter::IteratorSpec;

verus! {

broadcast use vstd::std_specs::hash::group_hash_axioms;

/// Connection state of a peer.
#[derive(Debug, Clone, Copy, PartialEq, Eq, Structural)]
pub enum PeerState {
    Disconnected,
    Connecting,
    Handshaking,
    Connected,
    Migrating,
}

/// The characters of a session code: capital letters and digits, without
/// the easily confused I, O, 0 and 1.
pub open spec fn code_alphabet() -> Seq<char> {
    seq!['A', 'B', 'C', 'D', 'E', 'F', 'G', 'H', 'J', 'K', 'L', 'M', 'N', 'P', 'Q', 'R',
         'S', 'T', 'U', 'V', 'W', 'X', 'Y', 'Z', '2', '3', '4', '5', '6', '7', '8', '9']
}

/// The code characters from position `i` (of 12) on, when the value left to
/// spell is `v`: each character is `v` mod 32 in the alphabet, `v` is then
/// divided by 32, and a dash goes before positions 4 and 8.
pub open spec fn code_from(v: nat, i: nat) -> Seq<char>
    decreases 12 - i,
{
    if i >= 12 {
        Seq::empty()
    } else {
        let sep: Seq<char> = if i > 0 && i % 4 == 0 { seq!['-'] } else { Seq::empty() };
        sep + seq![code_alphabet()[(v % 32) as int]] + code_from(v / 32, i + 1)
    }
}

/// The session code spelled from a clock reading `t`: the 12 lowest base-32
/// digits of `t`, least significant first, in groups of four joined by dashes.
pub open spec fn spec_session_code(t: u128) -> Seq<char> {
    code_from(t as nat, 0)
}

/// The session code spelled from clock reading `t`.
pub fn session_code_from(t: u128) -> (code: String)
    ensures
        code@ == spec_session_code(t),
{
    let alphabet = "ABCDEFGHJKLMNPQRSTUVWXYZ23456789";
    proof {
        reveal_strlit("ABCDEFGHJKLMNPQRSTUVWXYZ23456789");
        reveal_strlit("-");
        assert(alphabet@ =~= code_alphabet());
    }
    let mut code = String::new();
    let mut value: u128 = t;
    let mut i: usize = 0;
    while i < 12
        invariant
            i <= 12,
            alphabet@ == code_alphabet(),
            "-"@ == seq!['-'],
            code@ + code_from(value as nat, i as nat) == spec_session_code(t),
        decreases 12 - i,
    {
        let ghost before = code@;
        if i > 0 && i % 4 == 0 {
            code.append("-");
        }
        let idx = (value % 32) as usize;
        let ch = alphabet.substring_char(idx, idx + 1);
        code.append(ch);
        proof {
            let sep: Seq<char> = if i > 0 && i % 4 == 0 { seq!['-'] } else { Seq::empty() };
            assert(ch@ =~= seq![code_alphabet()[idx as int]]);
            assert(code@ =~= before + sep + seq![code_alphabet()[(value as nat % 32) as int]]);
            assert(code_from(value as nat, i as nat)
                == sep + seq![code_alphabet()[(value as nat % 32) as int]] + code_from(value as nat / 32, (i + 1) as nat));
            assert(code@ + code_from(value as nat / 32, (i + 1) as nat)
                =~= before + code_from(value as nat, i as nat));
        }
        value = value / 32;
        i = i + 1;
    }
    assert(code@ =~= code@ + code_from(value as nat, 12));
    code
}

/// A fresh session code spelled from the current time.
pub fn generate_session_code() -> (code: String)
    ensures
        exists|t: u128| code@ == spec_session_code(t),
{
    let t = unix_nanos_now();
    let code = session_code_from(t);
    assert(code@ == spec_session_code(t));
    code
}

/// Every session code reads `XXXX-XXXX-XXXX`: fourteen characters, dashes at
/// positions 4 and 9, and alphabet characters everywhere else.
pub proof fn law_session_code_shape(t: u128)
    ensures
        spec_session_code(t).len() == 14,
        spec_session_code(t)[4] == '-',
        spec_session_code(t)[9] == '-',
        forall|i: int| 0 <= i < 14 && i != 4 && i != 9
            ==> code_alphabet().contains(#[trigger] spec_session_code(t)[i]),
{
    lemma_code_from_shape(t as nat, 0);
}

proof fn lemma_code_from_shape(v: nat, i: nat)
    requires
        i <= 12,
    ensures
        code_from(v, i).len() == (12 - i) + (if i == 0 { 2int } else if i <= 4 { 2int } else if i <= 8 { 1int } else { 0int }),
        forall|j: int| 0 <= j < code_from(v, i).len() ==>
            (#[trigger] code_from(v, i)[j] == '-' <==> is_dash_at(i as int, j)),
        forall|j: int| 0 <= j < code_from(v, i).len() && !is_dash_at(i as int, j) ==>
            code_alphabet().contains(#[trigger] code_from(v, i)[j]),
    decreases 12 - i,
{
    if i < 12 {
        lemma_code_from_shape(v / 32, i + 1);
        let c = code_alphabet()[(v % 32) as int];
        assert(code_alphabet().contains(c)) by {
            assert(code_alphabet()[(v % 32) as int] == c);
        }
        assert(c != '-');
    }
}

/// In the code characters from position `i` on, index `j` holds a dash.
spec fn is_dash_at(i: int, j: int) -> bool {
    if i == 0 {
        j == 4 || j == 9
    } else if i <= 4 {
        (i == 4 && j == 0) || j == 4 - i || j == 9 - i
    } else if i <= 8 {
        (i == 8 && j == 0) || j == 8 - i
    } else {
        false
    }
}


/// A peer of a session. `last_update` is the time of its last update, in
/// milliseconds.
#[derive(Debug, Clone)]
pub struct Peer {
    pub id: EntityId,
    pub state: PeerState,
    pub address: Option<String>,
    pub is_host: bool,
    pub latency_ms: u32,
    pub last_update: u64,
    pub username: String,
}

impl Peer {
    /// A disconnected peer with no address, no latency and no update yet.
    pub fn new(id: EntityId, username: String, is_host: bool) -> (p: Self)
        ensures
            p == (Peer {
                id,
                state: PeerState::Disconnected,
                address: None,
                is_host,
                latency_ms: 0,
                last_update: 0,
                username,
            }),
    {
        Peer { id, state: PeerState::Disconnected, address: None, is_host, latency_ms: 0, last_update: 0, username }
    }

    /// Sets the peer's address.
    pub fn set_address(&mut self, addr: String)
        ensures
            *final(self) == (Peer { address: Some(addr), ..*old(self) }),
    {
        self.address = Some(addr);
    }

    /// Whether the peer is connected.
    pub fn is_connected(&self) -> (b: bool)
        ensures
            b == (self.state == PeerState::Connected),
    {
        self.state == PeerState::Connected
    }
}

/// A copy of a peer.
fn copy_peer(p: &Peer) -> (r: Peer)
    ensures
        r == *p,
{
    let address = match &p.address {
        Some(a) => Some(a.clone()),
        None => None,
    };
    Peer {
        id: p.id,
        state: p.state,
        address,
        is_host: p.is_host,
        latency_ms: p.latency_ms,
        last_update: p.last_update,
        username: p.username.clone(),
    }
}

/// Whether some peer of `peers` is a host.
pub open spec fn has_host(peers: Map<EntityId, Peer>) -> bool {
    exists|k: EntityId| #[trigger] peers.contains_key(k) && peers[k].is_host
}

/// The peers after host migration: every peer keeps its fields but its host
/// flag; `new_host` (when present) becomes host, the former host `cleared`
/// (when there was one) stops being host, and the other flags stay.
pub open spec fn migrated(old_peers: Map<EntityId, Peer>, new_peers: Map<EntityId, Peer>, cleared: Option<EntityId>, new_host: EntityId) -> bool {
    &&& new_peers.dom() == old_peers.dom()
    &&& match cleared {
        Some(c) => old_peers.contains_key(c) && old_peers[c].is_host,
        None => !has_host(old_peers),
    }
    &&& forall|k: EntityId| #[trigger] old_peers.contains_key(k) ==> new_peers[k] == (Peer {
        is_host: if k == new_host { true } else if cleared == Some(k) { false } else { old_peers[k].is_host },
        ..old_peers[k]
    })
}

/// `r` lists the connected peers of `peers`, one per id, in some order.
pub open spec fn lists_connected(peers: Map<EntityId, Peer>, r: Seq<Peer>) -> bool {
    exists|ks: Seq<EntityId>| {
        &&& #[trigger] ks.len() == r.len()
        &&& ks.no_duplicates()
        &&& ks.to_set() == peers.dom().filter(|k: EntityId| peers[k].state == PeerState::Connected)
        &&& forall|i: int| 0 <= i < ks.len() ==> r[i] == peers[#[trigger] ks[i]]
    }
}

/// The peers of the session this host takes part in, its own peer id, the
/// session code and whether this host hosts the session.
pub struct P2PNetwork {
    peers: HashMap<EntityId, Peer>,
    local_peer_id: EntityId,
    session_code: Option<String>,
    is_host: bool,
}

impl P2PNetwork {
    /// The peers, by id.
    pub closed spec fn peers(&self) -> Map<EntityId, Peer> {
        self.peers@
    }

    /// This host's own peer id.
    pub closed spec fn local_id(&self) -> EntityId {
        self.local_peer_id
    }

    /// The session code, if in a session.
    pub closed spec fn code(&self) -> Option<Seq<char>> {
        match self.session_code {
            Some(c) => Some(c@),
            None => None,
        }
    }

    /// Whether this host hosts the session.
    pub closed spec fn hosting(&self) -> bool {
        self.is_host
    }

    /// A network in no session, with no peers, whose own peer id is 1.
    pub fn new() -> (n: Self)
        ensures
            n.peers() == Map::<EntityId, Peer>::empty(),
            n.local_id() == 1,
            n.code() is None,
            !n.hosting(),
    {
        P2PNetwork { peers: HashMap::new(), local_peer_id: 1, session_code: None, is_host: false }
    }

    /// Hosts a new session under code `code`: this host's own peer joins as
    /// connected host with the code as its address.
    pub fn create_session_with_code(&mut self, username: String, code: String) -> (r: String)
        ensures
            r == code,
            final(self).hosting(),
            final(self).code() == Some(code@),
            final(self).local_id() == old(self).local_id(),
            final(self).peers() == old(self).peers().insert(old(self).local_id(), Peer {
                id: old(self).local_id(),
                state: PeerState::Connected,
                address: Some(code),
                is_host: true,
                latency_ms: 0,
                last_update: 0,
                username,
            }),
    {
        self.is_host = true;
        let mut peer = Peer::new(self.local_peer_id, username, true);
        peer.state = PeerState::Connected;
        peer.set_address(code.clone());
        self.peers.insert(self.local_peer_id, peer);
        self.session_code = Some(code.clone());
        code
    }

    /// Hosts a new session under a fresh code, which it returns.
    pub fn create_session(&mut self, username: String) -> (r: String)
        ensures
            exists|t: u128| r@ == spec_session_code(t),
            final(self).hosting(),
            final(self).code() == Some(r@),
            final(self).local_id() == old(self).local_id(),
            final(self).peers() == old(self).peers().insert(old(self).local_id(), Peer {
                id: old(self).local_id(),
                state: PeerState::Connected,
                address: Some(r),
                is_host: true,
                latency_ms: 0,
                last_update: 0,
                username,
            }),
    {
        let code = generate_session_code();
        self.create_session_with_code(username, code)
    }

    /// Joins the session with code `code`: this host's own peer is added as
    /// connecting, not host, with the code as its address.
    pub fn join_session(&mut self, code: &str, username: String) -> (joined: bool)
        ensures
            joined,
            !final(self).hosting(),
            final(self).code() == Some(code@),
            final(self).local_id() == old(self).local_id(),
            final(self).peers().dom() == old(self).peers().dom().insert(old(self).local_id()),
            forall|k: EntityId| k != old(self).local_id() && #[trigger] old(self).peers().contains_key(k)
                ==> final(self).peers()[k] == old(self).peers()[k],
            ({
                let p = final(self).peers()[old(self).local_id()];
                &&& p.id == old(self).local_id()
                &&& p.state == PeerState::Connecting
                &&& p.address matches Some(a) && a@ == code@
                &&& !p.is_host
                &&& p.latency_ms == 0
                &&& p.last_update == 0
                &&& p.username == username
            }),
    {
        self.is_host = false;
        let mut peer = Peer::new(self.local_peer_id, username, false);
        peer.state = PeerState::Connecting;
        peer.set_address(code.to_owned());
        self.peers.insert(self.local_peer_id, peer);
        self.session_code = Some(code.to_owned());
        true
    }

    /// Adds `peer` under id `id`, replacing any peer there.
    pub fn add_peer(&mut self, id: EntityId, peer: Peer)
        ensures
            final(self).peers() == old(self).peers().insert(id, peer),
            final(self).local_id() == old(self).local_id(),
            final(self).code() == old(self).code(),
            final(self).hosting() == old(self).hosting(),
    {
        self.peers.insert(id, peer);
    }

    /// Removes the peer with id `id`, if there is one.
    pub fn remove_peer(&mut self, id: EntityId)
        ensures
            final(self).peers() == old(self).peers().remove(id),
            final(self).local_id() == old(self).local_id(),
            final(self).code() == old(self).code(),
            final(self).hosting() == old(self).hosting(),
    {
        self.peers.remove(&id);
    }

    /// A copy of the peer with id `id`, if there is one.
    pub fn get_peer(&self, id: EntityId) -> (r: Option<Peer>)
        ensures
            r == (if self.peers().contains_key(id) { Some(self.peers()[id]) } else { None }),
    {
        match self.peers.get(&id) {
            Some(p) => Some(copy_peer(p)),
            None => None,
        }
    }

    /// A copy of every peer, by id.
    pub fn get_peers(&self) -> (r: HashMap<EntityId, Peer>)
        ensures
            r@ == self.peers(),
    {
        self.peers.clone()
    }

    /// The connected peers, one copy per id, in no particular order.
    pub fn connected_peers(&self) -> (r: Vec<Peer>)
        ensures
            lists_connected(self.peers(), r@),
    {
        let ghost m = self.peers@;
        let ghost sq = spec_hash_map_iter(&self.peers).remaining();
        let ghost mut seen: int = 0;
        let ghost mut ks: Seq<EntityId> = Seq::empty();
        let mut r: Vec<Peer> = Vec::new();
        for kv in it: self.peers.iter()
            invariant
                m == self.peers@,
                sq == spec_hash_map_iter(&self.peers).remaining(),
                it.seq() == sq,
                sq.no_duplicates(),
                seen == it.index(),
                ks.len() == r.len(),
                ks.no_duplicates(),
                forall|i: int| 0 <= i < ks.len() ==> #[trigger] m.contains_key(ks[i])
                    && m[ks[i]].state == PeerState::Connected && r@[i] == m[ks[i]],
                forall|i: int| #![trigger ks[i]] 0 <= i < ks.len() ==> exists|j: int| 0 <= j < seen && #[trigger] sq[j].0 == ks[i],
                forall|j: int| 0 <= j < seen && (*(#[trigger] sq[j]).1).state == PeerState::Connected
                    ==> ks.contains(*sq[j].0),
        {
            let (k, p) = kv;
            proof {
                assert(sq[seen] == kv);
                assert(m.contains_key(*k) && m[*k] == *p);
            }
            let ghost old_ks = ks;
            if p.state == PeerState::Connected {
                proof {
                    assert forall|i: int| 0 <= i < ks.len() implies ks[i] != *k by {
                        let j = choose|j: int| 0 <= j < seen && #[trigger] sq[j].0 == ks[i];
                        if ks[i] == *k {
                            assert(m[*sq[j].0] == *sq[j].1);
                            assert(sq[j] == sq[seen]);
                        }
                    }
                    ks = ks.push(*k);
                }
                r.push(copy_peer(p));
            }
            proof {
                seen = seen + 1;
                assert forall|i: int| #![trigger ks[i]] 0 <= i < ks.len() implies exists|j: int| 0 <= j < seen && #[trigger] sq[j].0 == ks[i] by {
                    if i == ks.len() - 1 && p.state == PeerState::Connected {
                        assert(sq[seen - 1].0 == ks[i]);
                    } else {
                        let j = choose|j: int| 0 <= j < seen - 1 && #[trigger] sq[j].0 == ks[i];
                        assert(sq[j].0 == ks[i]);
                    }
                }
                assert forall|j: int| 0 <= j < seen && (*(#[trigger] sq[j]).1).state == PeerState::Connected
                    implies ks.contains(*sq[j].0) by {
                    if j == seen - 1 {
                        assert(ks[ks.len() - 1] == *k);
                    } else {
                        assert(old_ks.contains(*sq[j].0));
                        let x = choose|x: int| 0 <= x < old_ks.len() && old_ks[x] == *sq[j].0;
                        assert(ks[x] == old_ks[x]);
                    }
                }
            }
        }
        proof {
            let conn = m.dom().filter(|k: EntityId| m[k].state == PeerState::Connected);
            assert forall|k: EntityId| conn.contains(k) implies ks.contains(k) by {
                assert(sq.contains((&k, &m[k])));
                let j = choose|j: int| 0 <= j < sq.len() && sq[j] == (&k, &m[k]);
                assert((*sq[j].1).state == PeerState::Connected);
            }
            assert forall|k: EntityId| ks.contains(k) implies conn.contains(k) by {
                let i = choose|i: int| 0 <= i < ks.len() && ks[i] == k;
                assert(m.contains_key(ks[i]));
            }
            assert(ks.to_set() =~= conn);
        }
        r
    }

    /// The session code, if in a session.
    pub fn session_code(&self) -> (r: Option<String>)
        ensures
            match r {
                Some(c) => self.code() == Some(c@),
                None => self.code() is None,
            },
    {
        match &self.session_code {
            Some(c) => Some(c.clone()),
            None => None,
        }
    }

    /// Whether this host hosts the session.
    pub fn is_host(&self) -> (b: bool)
        ensures
            b == self.hosting(),
    {
        self.is_host
    }

    /// A copy of a peer that is host, if there is one.
    pub fn get_host(&self) -> (r: Option<Peer>)
        ensures
            match r {
                Some(p) => exists|k: EntityId| #[trigger] self.peers().contains_key(k) && self.peers()[k] == p && p.is_host,
                None => !has_host(self.peers()),
            },
    {
        match self.find_host() {
            Some(k) => {
                let p = self.peers.get(&k);
                match p {
                    Some(p) => Some(copy_peer(p)),
                    None => None,
                }
            },
            None => None,
        }
    }

    /// Hands hosting to peer `new_host_id`. Only the host may do so: a
    /// network that does not host changes nothing and answers false. The
    /// host clears the host flag of the peer that has it (one of them, if
    /// several have), then sets it on `new_host_id` and answers true, or
    /// answers false when there is no such peer.
    pub fn migrate_host(&mut self, new_host_id: EntityId) -> (ok: bool)
        ensures
            ok == (old(self).hosting() && old(self).peers().contains_key(new_host_id)),
            final(self).local_id() == old(self).local_id(),
            final(self).code() == old(self).code(),
            final(self).hosting() == old(self).hosting(),
            !old(self).hosting() ==> final(self).peers() == old(self).peers(),
            old(self).hosting() ==> exists|c: Option<EntityId>| #[trigger] migrated(old(self).peers(), final(self).peers(), c, new_host_id),
    {
        if !self.is_host {
            return false;
        }
        let ghost m0 = self.peers@;
        let cleared = self.find_host();
        if let Some(c) = cleared {
            match self.peers.entry(c) {
                Entry::Occupied(o) => {
                    let p = o.into_mut();
                    p.is_host = false;
                },
                Entry::Vacant(_) => {},
            }
        }
        let ghost m1 = self.peers@;
        let ok = match self.peers.entry(new_host_id) {
            Entry::Occupied(o) => {
                let p = o.into_mut();
                p.is_host = true;
                true
            },
            Entry::Vacant(_) => false,
        };
        proof {
            assert(self.peers@.dom() =~= m0.dom());
            assert(match cleared {
                Some(c) => m0.contains_key(c) && m0[c].is_host,
                None => !has_host(m0),
            });
            assert forall|k: EntityId| #[trigger] m0.contains_key(k) implies self.peers@[k] == (Peer {
                is_host: if k == new_host_id { true } else if cleared == Some(k) { false } else { m0[k].is_host },
                ..m0[k]
            }) by {
                if k == new_host_id {
                } else if cleared == Some(k) {
                } else {
                }
            }
            assert(migrated(m0, self.peers@, cleared, new_host_id));
            assert(m0 == old(self).peers());
            assert(self.peers@ == self.peers());
            assert(migrated(old(self).peers(), self.peers(), cleared, new_host_id));
        }
        ok
    }

    /// Leaves the session: this host's own peer goes, and with it the code
    /// and hosting.
    pub fn disconnect(&mut self)
        ensures
            final(self).peers() == old(self).peers().remove(old(self).local_id()),
            final(self).local_id() == old(self).local_id(),
            final(self).code() is None,
            !final(self).hosting(),
    {
        let local_id = self.local_peer_id;
        self.peers.remove(&local_id);
        self.session_code = None;
        self.is_host = false;
    }

    /// The id of some host among the peers, if there is one.
    fn find_host(&self) -> (r: Option<EntityId>)
        ensures
            match r {
                Some(k) => self.peers().contains_key(k) && self.peers()[k].is_host,
                None => !has_host(self.peers()),
            },
    {
        let ghost m = self.peers@;
        let ghost sq = spec_hash_map_iter(&self.peers).remaining();
        let ghost mut seen: int = 0;
        for kv in it: self.peers.iter()
            invariant
                m == self.peers@,
                sq == spec_hash_map_iter(&self.peers).remaining(),
                it.seq() == sq,
                seen == it.index(),
                forall|i: int| 0 <= i < seen ==> !(*(#[trigger] sq[i]).1).is_host,
        {
            let (k, p) = kv;
            if p.is_host {
                return Some(*k);
            }
            proof {
                seen = seen + 1;
            }
        }
        proof {
            assert forall|k: EntityId| #[trigger] m.contains_key(k) implies !m[k].is_host by {
                assert(sq.contains((&k, &m[k])));
            }
        }
        None
    }
}

impl Default for P2PNetwork {
    fn default() -> (n: Self)
        ensures
            n.peers() == Map::<EntityId, Peer>::empty(),
            n.local_id() == 1,
            n.code() is None,
            !n.hosting(),
    {
        P2PNetwork::new()
    }
}

/// At most one peer of `peers` is host.
pub open spec fn at_most_one_host(peers: Map<EntityId, Peer>) -> bool {
    forall|a: EntityId, b: EntityId|
        #[trigger] peers.contains_key(a) && #[trigger] peers.contains_key(b) && peers[a].is_host && peers[b].is_host
            ==> a == b
}

/// Handing hosting to a peer of a session that had at most one host leaves
/// exactly one host: that peer.
pub proof fn law_migration_leaves_one_host(
    old_peers: Map<EntityId, Peer>,
    new_peers: Map<EntityId, Peer>,
    cleared: Option<EntityId>,
    new_host: EntityId,
)
    requires
        at_most_one_host(old_peers),
        old_peers.contains_key(new_host),
        migrated(old_peers, new_peers, cleared, new_host),
    ensures
        new_peers.contains_key(new_host) && new_peers[new_host].is_host,
        forall|k: EntityId| #[trigger] new_peers.contains_key(k) && new_peers[k].is_host ==> k == new_host,
{
    assert(new_peers[new_host] == (Peer { is_host: true, ..old_peers[new_host] }));
    assert forall|k: EntityId| #[trigger] new_peers.contains_key(k) && new_peers[k].is_host implies k == new_host by {
        assert(old_peers.contains_key(k));
        if k != new_host && cleared != Some(k) {
            assert(old_peers[k].is_host);
            assert(has_host(old_peers));
            let c = cleared.unwrap();
            assert(old_peers.contains_key(c) && old_peers[c].is_host);
        }
    }
}

} // verus!
