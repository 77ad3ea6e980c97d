//! STUN (RFC 5389) messages for NAT traversal, and the TURN relay client.

use vstd::prelude::*;
use crate::clock::unix_nanos_now;

verus! {

/// NAT kinds.
#[derive(Debug, Clone, Copy, PartialEq, Eq, Structural)]
pub enum NatType {
    /// Open internet, no NAT.
    Open,
    /// Full cone NAT: anyone outside can connect.
    FullCone,
    /// Restricted cone: the outside host must have been sent to first.
    RestrictedCone,
    /// Port restricted cone: the same, port included.
    PortRestrictedCone,
    /// Symmetric NAT: a different mapping per destination.
    Symmetric,
    /// Could not be determined.
    Unknown,
}

impl NatType {
    /// Peers behind this NAT can be reached directly.
    pub fn can_direct_connect(&self) -> (b: bool)
        ensures
            b <==> (*self == NatType::Open || *self == NatType::FullCone),
    {
        match self {
            NatType::Open | NatType::FullCone => true,
            _ => false,
        }
    }

    /// Peers behind this NAT need a relay.
    pub fn requires_relay(&self) -> (b: bool)
        ensures
            b <==> *self == NatType::Symmetric,
    {
        match self {
            NatType::Symmetric => true,
            _ => false,
        }
    }
}

/// The STUN magic cookie.
pub const MAGIC_COOKIE: u32 = 0x2112A442;

/// Big-endian value of two bytes.
pub open spec fn be16(a: u8, b: u8) -> int {
    a * 256 + b
}

/// Big-endian value of four bytes.
pub open spec fn be32(a: u8, b: u8, c: u8, d: u8) -> int {
    a * 16777216 + b * 65536 + c * 256 + d
}

/// `p` rounded up to a multiple of 4.
pub open spec fn align4(p: int) -> int {
    p + (4 - p % 4) % 4
}

/// What the attribute scan of a binding response finds from `pos` on.
#[derive(Debug, Clone, Copy, PartialEq, Eq, Structural)]
pub enum AttrScan {
    /// An XOR-MAPPED-ADDRESS attribute: the IPv4 address and the port, both
    /// unmasked.
    Mapped(u32, u16),
    /// No such attribute.
    Absent,
    /// Such an attribute whose address runs past the end of the message.
    Truncated,
}

/// The attribute scan: attributes are a 2-byte type, a 2-byte length and the
/// value, padded to 4 bytes; the scan goes on while at least five bytes are
/// left and stops at the first XOR-MAPPED-ADDRESS (type 0x0020) whose length
/// is at least 8, whose port sits at bytes 6..8 and address at 8..12.
pub open spec fn scan_attrs(d: Seq<u8>, pos: int) -> AttrScan
    decreases d.len() + 65545 - pos,
{
    if pos < 0 || pos >= d.len() - 4 {
        AttrScan::Absent
    } else {
        let attr_type = be16(d[pos], d[pos + 1]);
        let attr_len = be16(d[pos + 2], d[pos + 3]);
        if attr_type == 0x0020 && attr_len >= 8 {
            if pos + 11 < d.len() {
                AttrScan::Mapped(
                    (be32(d[pos + 8], d[pos + 9], d[pos + 10], d[pos + 11]) as u32) ^ MAGIC_COOKIE,
                    (be16(d[pos + 6], d[pos + 7]) as u16) ^ 0x2112u16,
                )
            } else {
                AttrScan::Truncated
            }
        } else {
            proof {
                assert(0 <= attr_len <= 65535);
                assert(pos + 4 + attr_len <= align4(pos + 4 + attr_len) <= pos + 4 + attr_len + 3);
            }
            scan_attrs(d, align4(pos + 4 + attr_len))
        }
    }
}

/// The scan steps over an attribute that is not a usable XOR-MAPPED-ADDRESS:
/// from an attribute at `pos` of length `len`, the next attribute is read at
/// `next`, the first multiple of four at or after the attribute's end
/// (`pos + 4 + len`), whatever the bytes in between.
pub proof fn law_scan_steps_to_next_attribute(d: Seq<u8>, pos: int, len: int, next: int)
    requires
        0 <= pos,
        pos + 4 < d.len(),
        len == be16(d[pos + 2], d[pos + 3]),
        !(be16(d[pos], d[pos + 1]) == 0x0020 && len >= 8),
        next % 4 == 0,
        pos + 4 + len <= next < pos + 8 + len,
    ensures
        scan_attrs(d, pos) == scan_attrs(d, next),
{
    let e = pos + 4 + len;
    assert(align4(e) == next) by {
        assert(0 <= e % 4 < 4);
        assert(next - e == (4 - e % 4) % 4) by (nonlinear_arith)
            requires
                next % 4 == 0,
                e <= next < e + 4,
                e >= 0,
        ;
    }
}

/// A binding response whose attributes hold, first, an attribute of another
/// kind at byte 20 and then, at the next 4-byte boundary, an XOR-MAPPED-
/// ADDRESS of length at least 8, gives that attribute's port and address,
/// unmasked by the magic cookie.
pub proof fn law_response_yields_later_mapped_address(d: Seq<u8>, len: int, next: int)
    requires
        d.len() >= 20,
        be16(d[0], d[1]) == 0x0101,
        24 < d.len(),
        len == be16(d[22], d[23]),
        be16(d[20], d[21]) != 0x0020,
        next % 4 == 0,
        24 + len <= next < 28 + len,
        next + 11 < d.len(),
        be16(d[next], d[next + 1]) == 0x0020,
        be16(d[next + 2], d[next + 3]) >= 8,
    ensures
        spec_parse_response(d) == Ok::<Option<(u32, u16)>, StunError>(Some((
            (be32(d[next + 8], d[next + 9], d[next + 10], d[next + 11]) as u32) ^ MAGIC_COOKIE,
            (be16(d[next + 6], d[next + 7]) as u16) ^ 0x2112u16,
        ))),
{
    law_scan_steps_to_next_attribute(d, 20, len, next);
}

/// Why a binding response was refused.
#[derive(Debug, Clone, Copy, PartialEq, Eq, Structural)]
pub enum StunError {
    /// Shorter than the 20-byte header.
    TooShort,
    /// The message type is not Binding Success Response (0x0101).
    NotBindingResponse,
}

/// What a binding response gives: the mapped address when the response holds
/// one, `None` when the sender's own address is to be used.
pub open spec fn spec_parse_response(d: Seq<u8>) -> Result<Option<(u32, u16)>, StunError> {
    if d.len() < 20 {
        Err(StunError::TooShort)
    } else if be16(d[0], d[1]) != 0x0101 {
        Err(StunError::NotBindingResponse)
    } else {
        match scan_attrs(d, 20) {
            AttrScan::Mapped(a, p) => Ok(Some((a, p))),
            _ => Ok(None),
        }
    }
}

/// The 12 transaction-id bytes taken from a clock reading: byte `i` is byte
/// `i` of the reading, least significant first.
pub open spec fn spec_transaction_id(timestamp: u128) -> Seq<u8> {
    Seq::new(12, |i: int| ((timestamp >> ((i * 8) as u128)) & 0xFFu128) as u8)
}

/// A binding request with transaction id `tid`: type 0x0001, length 0, the
/// magic cookie, then the id.
pub open spec fn spec_binding_request(tid: Seq<u8>) -> Seq<u8> {
    seq![0x00u8, 0x01, 0x00, 0x00, 0x21, 0x12, 0xA4, 0x42] + tid
}

/// Transaction id bytes from a clock reading.
pub fn transaction_id_from(timestamp: u128) -> (tid: [u8; 12])
    ensures
        tid@ == spec_transaction_id(timestamp),
{
    let mut tid = [0u8; 12];
    let mut i: usize = 0;
    while i < 12
        invariant
            i <= 12,
            tid@.len() == 12,
            forall|j: int| 0 <= j < i ==> tid@[j] == spec_transaction_id(timestamp)[j],
        decreases 12 - i,
    {
        let shift: u128 = (i as u128) * 8;
        let b = ((timestamp >> shift) & 0xFF) as u8;
        tid[i] = b;
        i = i + 1;
    }
    assert(tid@ =~= spec_transaction_id(timestamp));
    tid
}

/// A binding request carrying transaction id `tid`.
pub fn binding_request(tid: &[u8; 12]) -> (msg: Vec<u8>)
    ensures
        msg@ == spec_binding_request(tid@),
{
    let mut msg: Vec<u8> = Vec::new();
    msg.push(0x00);
    msg.push(0x01);
    msg.push(0x00);
    msg.push(0x00);
    msg.push(0x21);
    msg.push(0x12);
    msg.push(0xA4);
    msg.push(0x42);
    let mut i: usize = 0;
    while i < 12
        invariant
            i <= 12,
            tid@.len() == 12,
            msg@ == seq![0x00u8, 0x01, 0x00, 0x00, 0x21, 0x12, 0xA4, 0x42] + tid@.take(i as int),
        decreases 12 - i,
    {
        msg.push(tid[i]);
        proof {
            assert(tid@.take(i as int + 1) =~= tid@.take(i as int).push(tid@[i as int]));
        }
        i = i + 1;
    }
    assert(tid@.take(12) =~= tid@);
    msg
}

/// Big-endian `u16` of two bytes.
fn read_be16(a: u8, b: u8) -> (v: u16)
    ensures
        v == be16(a, b),
{
    (a as u16) * 256 + (b as u16)
}

/// Big-endian `u32` of four bytes.
fn read_be32(a: u8, b: u8, c: u8, d: u8) -> (v: u32)
    ensures
        v == be32(a, b, c, d),
{
    (a as u32) * 16777216 + (b as u32) * 65536 + (c as u32) * 256 + (d as u32)
}

/// Rounds `p` up to a multiple of 4.
fn round_up4(p: usize) -> (r: usize)
    requires
        p + 3 <= usize::MAX,
    ensures
        r == align4(p as int),
{
    let q = p + 3;
    let r = q & !3usize;
    assert(q & !3usize == q - q % 4) by (bit_vector);
    assert(q - q % 4 == p + (4 - p % 4) % 4);
    r
}

/// The attribute scan of a binding response from byte `start` on.
pub fn scan_attributes(data: &[u8], start: usize) -> (r: AttrScan)
    requires
        data@.len() + 70000 <= usize::MAX,
        start <= data@.len(),
    ensures
        r == scan_attrs(data@, start as int),
{
    let n = data.len();
    if n < 5 {
        return AttrScan::Absent;
    }
    let mut pos = start;
    while pos < n - 4
        invariant
            n == data@.len(),
            n >= 5,
            n + 70000 <= usize::MAX,
            pos <= n + 65542,
            scan_attrs(data@, pos as int) == scan_attrs(data@, start as int),
        decreases n + 65542 - pos,
    {
        let attr_type = read_be16(data[pos], data[pos + 1]);
        let attr_len = read_be16(data[pos + 2], data[pos + 3]);
        if attr_type == 0x0020 && attr_len >= 8 {
            if pos + 11 < n {
                let xport = read_be16(data[pos + 6], data[pos + 7]);
                let xaddr = read_be32(data[pos + 8], data[pos + 9], data[pos + 10], data[pos + 11]);
                return AttrScan::Mapped(xaddr ^ MAGIC_COOKIE, xport ^ 0x2112u16);
            } else {
                return AttrScan::Truncated;
            }
        }
        let next = pos + 4 + (attr_len as usize);
        pos = round_up4(next);
    }
    AttrScan::Absent
}

/// A STUN client for one server.
#[derive(Debug, Clone)]
pub struct StunClient {
    server: String,
    timeout_secs: u64,
}

impl StunClient {
    /// The server address.
    pub closed spec fn server_addr(&self) -> Seq<char> {
        self.server@
    }

    /// The reply timeout in seconds.
    pub closed spec fn timeout(&self) -> u64 {
        self.timeout_secs
    }

    /// A client for `server`, waiting at most 5 seconds for replies.
    pub fn new(server: &str) -> (c: Self)
        ensures
            c.server_addr() == server@,
            c.timeout() == 5,
    {
        StunClient { server: server.to_owned(), timeout_secs: 5 }
    }

    /// The server address, as given.
    pub fn server(&self) -> (s: &String)
        ensures
            s@ == self.server_addr(),
    {
        &self.server
    }

    /// How long to wait for a reply, in seconds.
    pub fn timeout_secs(&self) -> (t: u64)
        ensures
            t == self.timeout(),
    {
        self.timeout_secs
    }

    /// A binding request with a fresh transaction id taken from the clock.
    pub fn build_binding_request(&self) -> (msg: Vec<u8>)
        ensures
            exists|t: u128| msg@ == spec_binding_request(spec_transaction_id(t)),
    {
        let t = unix_nanos_now();
        let tid = transaction_id_from(t);
        let msg = binding_request(&tid);
        assert(msg@ == spec_binding_request(spec_transaction_id(t)));
        msg
    }

    /// Reads a binding response: its mapped address when it holds an
    /// XOR-MAPPED-ADDRESS attribute, `None` when the sender's address is to be
    /// used instead.
    pub fn parse_binding_response(&self, data: &[u8]) -> (r: Result<Option<(u32, u16)>, StunError>)
        requires
            data@.len() + 70000 <= usize::MAX,
            data@.len() >= 20 && be16(data@[0], data@[1]) == 0x0101 ==> scan_attrs(data@, 20) != AttrScan::Truncated,
        ensures
            r == spec_parse_response(data@),
    {
        if data.len() < 20 {
            return Err(StunError::TooShort);
        }
        let msg_type = read_be16(data[0], data[1]);
        if msg_type != 0x0101 {
            return Err(StunError::NotBindingResponse);
        }
        match scan_attributes(data, 20) {
            AttrScan::Mapped(addr, port) => Ok(Some((addr, port))),
            _ => Ok(None),
        }
    }
}

/// Why a TURN operation failed.
#[derive(Debug, Clone, Copy, PartialEq, Eq, Structural)]
pub enum TurnError {
    /// Relaying needs an outside TURN service, which is not available.
    Unsupported,
}

/// The NAT type a STUN probe suggests: a reply from the server's own
/// address (`Some(true)`) means a port-restricted cone; a reply from
/// elsewhere (`Some(false)`) or none at all (`None`) means symmetric.
pub fn classify_nat(reply_from_server: Option<bool>) -> (t: NatType)
    ensures
        t == (if reply_from_server == Some(true) { NatType::PortRestrictedCone } else { NatType::Symmetric }),
{
    match reply_from_server {
        Some(true) => NatType::PortRestrictedCone,
        _ => NatType::Symmetric,
    }
}

/// A TURN relay client (RFC 5766) for peers that cannot connect directly.
#[derive(Debug, Clone)]
pub struct TurnClient {
    server: String,
    username: Option<String>,
    password: Option<String>,
}

impl TurnClient {
    /// The relay server address.
    pub closed spec fn server_addr(&self) -> Seq<char> {
        self.server@
    }

    /// The user name and password, when they were given.
    pub closed spec fn credentials(&self) -> Option<(Seq<char>, Seq<char>)> {
        match (&self.username, &self.password) {
            (Some(u), Some(p)) => Some((u@, p@)),
            _ => None,
        }
    }

    /// A client for `server`, without credentials.
    pub fn new(server: &str) -> (c: Self)
        ensures
            c.server_addr() == server@,
            c.credentials() is None,
    {
        TurnClient { server: server.to_owned(), username: None, password: None }
    }

    /// The same client with the given credentials.
    pub fn with_credentials(self, username: &str, password: &str) -> (c: Self)
        ensures
            c.server_addr() == self.server_addr(),
            c.credentials() == Some((username@, password@)),
    {
        TurnClient { server: self.server, username: Some(username.to_owned()), password: Some(password.to_owned()) }
    }

    /// Allocating a relay address always fails: no TURN service is available.
    pub fn allocate(&self) -> (r: Result<String, TurnError>)
        ensures
            r == Err::<String, TurnError>(TurnError::Unsupported),
    {
        Err(TurnError::Unsupported)
    }
}

} // verus!
