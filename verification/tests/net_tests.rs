use voxelnaut::stun::classify_nat;
use voxelnaut::anti_cheat::{chunk_request_out_of_range, clear_player_violations, move_timing, AntiCheat, Violation, ViolationType};
use voxelnaut::chat::{ChatChannel, ChatManager};
use voxelnaut::networking::{Client, ClientError, Server};
use voxelnaut::p2p::{generate_session_code, session_code_from, P2PNetwork, Peer, PeerState};
use voxelnaut::protocol::{Packet, PacketHeader, PacketType, ProtocolHandler, PROTOCOL_VERSION};
use voxelnaut::stun::{
    binding_request, scan_attributes, transaction_id_from, AttrScan, NatType, StunClient, StunError, TurnClient,
    TurnError, MAGIC_COOKIE,
};

#[test]
fn packets_and_ticks() {
    assert_eq!(PROTOCOL_VERSION, 1);
    let p = Packet::new(PacketType::PlayerChat, 9, 42);
    assert_eq!(p.header, PacketHeader { packet_type: PacketType::PlayerChat, tick: 42, sender_id: 9 });
    assert!(p.payload.is_empty());
    let mut h = ProtocolHandler::new();
    assert_eq!(h.current_tick(), 0);
    assert_eq!(h.next_tick(), 1);
    assert_eq!(h.next_tick(), 2);
    assert_eq!(h.current_tick(), 2);
    assert_eq!(ProtocolHandler::default().current_tick(), 0);
}

#[test]
fn nat_kinds() {
    assert!(NatType::Open.can_direct_connect());
    assert!(NatType::FullCone.can_direct_connect());
    assert!(!NatType::Symmetric.can_direct_connect());
    assert!(NatType::Symmetric.requires_relay());
    assert!(!NatType::PortRestrictedCone.requires_relay());
}

#[test]
fn binding_request_layout() {
    let tid = transaction_id_from(0x0102_0304_0506_0708_090A_0B0C_0D0E_0F10u128);
    assert_eq!(tid, [0x10, 0x0F, 0x0E, 0x0D, 0x0C, 0x0B, 0x0A, 0x09, 0x08, 0x07, 0x06, 0x05]);
    let msg = binding_request(&tid);
    assert_eq!(&msg[..8], &[0x00, 0x01, 0x00, 0x00, 0x21, 0x12, 0xA4, 0x42]);
    assert_eq!(&msg[8..], &tid[..]);
    let client = StunClient::new("stun.example.org:3478");
    assert_eq!(client.server(), "stun.example.org:3478");
    assert_eq!(client.timeout_secs(), 5);
    let fresh = client.build_binding_request();
    assert_eq!(fresh.len(), 20);
    assert_eq!(&fresh[..8], &[0x00, 0x01, 0x00, 0x00, 0x21, 0x12, 0xA4, 0x42]);
}

fn response_with(attrs: &[u8]) -> Vec<u8> {
    let mut v = vec![0x01, 0x01, 0x00, attrs.len() as u8, 0x21, 0x12, 0xA4, 0x42];
    v.extend_from_slice(&[0u8; 12]);
    v.extend_from_slice(attrs);
    v
}

#[test]
fn binding_response_mapped_address() {
    let client = StunClient::new("s:1");
    // 203.0.113.5:40000, masked
    let port: u16 = 40000 ^ 0x2112;
    let addr: u32 = 0xCB00_7105 ^ MAGIC_COOKIE;
    let mut attr = vec![0x00, 0x20, 0x00, 0x08, 0x00, 0x01];
    attr.extend_from_slice(&port.to_be_bytes());
    attr.extend_from_slice(&addr.to_be_bytes());
    let data = response_with(&attr);
    assert_eq!(client.parse_binding_response(&data), Ok(Some((0xCB00_7105, 40000))));
    assert_eq!(scan_attributes(&data, 20), AttrScan::Mapped(0xCB00_7105, 40000));
}

#[test]
fn binding_response_skips_other_attributes() {
    let client = StunClient::new("s:1");
    // a SOFTWARE attribute of length 3 (padded to 4), then the address
    let mut attr = vec![0x80, 0x22, 0x00, 0x03, b'a', b'b', b'c', 0x00];
    attr.extend_from_slice(&[0x00, 0x20, 0x00, 0x08, 0x00, 0x01, 0x21, 0x13, 0x21, 0x12, 0xA4, 0x43]);
    let data = response_with(&attr);
    assert_eq!(client.parse_binding_response(&data), Ok(Some((1, 1))));
}

#[test]
fn binding_response_errors_and_fallback() {
    let client = StunClient::new("s:1");
    assert_eq!(client.parse_binding_response(&[0u8; 19]), Err(StunError::TooShort));
    let mut wrong = response_with(&[]);
    wrong[1] = 0x11;
    assert_eq!(client.parse_binding_response(&wrong), Err(StunError::NotBindingResponse));
    // no mapped address: the sender's address is used
    assert_eq!(client.parse_binding_response(&response_with(&[])), Ok(None));
    let short_attr = response_with(&[0x00, 0x20, 0x00, 0x04, 1, 2, 3, 4]);
    assert_eq!(client.parse_binding_response(&short_attr), Ok(None));
    // an address attribute cut short is reported by the scan
    let cut = response_with(&[0x00, 0x20, 0x00, 0x08, 0x00, 0x01, 0x00]);
    assert_eq!(scan_attributes(&cut, 20), AttrScan::Truncated);
}

#[test]
fn turn_relay_is_unsupported() {
    let c = TurnClient::new("turn:1").with_credentials("u", "p");
    assert_eq!(c.allocate(), Err(TurnError::Unsupported));
}

#[test]
fn chat_log_is_bounded() {
    let mut chat = ChatManager::new();
    assert_eq!(chat.max_messages, 100);
    chat.max_messages = 3;
    for i in 0..5u64 {
        chat.add_message_at("bob", &format!("m{}", i), ChatChannel::Global, i);
    }
    assert_eq!(chat.messages.len(), 3);
    let texts: Vec<&str> = chat.messages.iter().map(|m| m.content.as_str()).collect();
    assert_eq!(texts, vec!["m2", "m3", "m4"]);
    assert_eq!(chat.messages[2].timestamp, 4);
    chat.add_message("amy", "hello", ChatChannel::Team);
    assert_eq!(chat.messages.len(), 3);
    let last = chat.messages.last().unwrap();
    assert_eq!((last.sender.as_str(), last.content.as_str(), last.channel), ("amy", "hello", ChatChannel::Team));
    assert!(last.timestamp > 0);
}

#[test]
fn chat_log_with_zero_limit_keeps_nothing() {
    let mut chat = ChatManager::default();
    chat.max_messages = 0;
    chat.add_message_at("a", "b", ChatChannel::Local, 1);
    assert!(chat.messages.is_empty());
}

#[test]
fn session_codes() {
    assert_eq!(session_code_from(0), "AAAA-AAAA-AAAA");
    assert_eq!(session_code_from(1), "BAAA-AAAA-AAAA");
    assert_eq!(session_code_from(31), "9AAA-AAAA-AAAA");
    assert_eq!(session_code_from(32 * 32 * 32 * 32), "AAAA-BAAA-AAAA");
    let code = generate_session_code();
    assert_eq!(code.len(), 14);
    let alphabet = "ABCDEFGHJKLMNPQRSTUVWXYZ23456789";
    for (i, c) in code.chars().enumerate() {
        if i == 4 || i == 9 {
            assert_eq!(c, '-');
        } else {
            assert!(alphabet.contains(c));
        }
    }
    assert_ne!(PeerState::Connected, PeerState::Migrating);
}

#[test]
fn anti_cheat_checks() {
    assert!(!chunk_request_out_of_range(5, 5, 0, 0, 8));
    assert!(!chunk_request_out_of_range(10, -10, 0, 0, 8));
    assert!(chunk_request_out_of_range(11, 0, 0, 0, 8));
    assert!(chunk_request_out_of_range(0, -11, 0, 0, 8));
    let v = |p: u32, t: u64| Violation { player_id: p, violation_type: ViolationType::SpeedHack, details: String::new(), tick: t };
    let mut all = vec![v(1, 1), v(2, 2), v(1, 3), v(3, 4)];
    clear_player_violations(&mut all, 1);
    let left: Vec<(u32, u64)> = all.iter().map(|x| (x.player_id, x.tick)).collect();
    assert_eq!(left, vec![(2, 2), (3, 4)]);
}

use voxelnaut::math::{BlockPos, ChunkPos};
use voxelnaut::sync::SyncManager;

#[test]
fn sync_queue_and_versions() {
    let mut s: SyncManager<&str> = SyncManager::new();
    s.queue("a");
    s.queue("b");
    assert_eq!(s.get_pending(), vec!["a", "b"]);
    assert!(s.get_pending().is_empty());
    let c = ChunkPos::new(2, -3);
    assert_eq!(s.get_chunk_version(&c), 0);
    s.update_chunk_version(c);
    s.apply(Some(ChunkPos::from_block(&BlockPos::new(70, 5, -80))));
    assert_eq!(s.get_chunk_version(&c), 2);
    s.apply(None);
    assert_eq!(s.get_chunk_version(&c), 2);
    assert_eq!(s.get_chunk_version(&ChunkPos::new(-3, 2)), 0);
}

#[test]
fn p2p_create_session_makes_local_host() {
    let mut net = P2PNetwork::new();
    assert!(!net.is_host());
    assert!(net.session_code().is_none());
    let code = net.create_session_with_code("alice".to_string(), "ABCD-EFGH-JKLM".to_string());
    assert_eq!(code, "ABCD-EFGH-JKLM");
    assert!(net.is_host());
    assert_eq!(net.session_code(), Some("ABCD-EFGH-JKLM".to_string()));
    let me = net.get_peer(1).unwrap();
    assert!(me.is_host);
    assert!(me.is_connected());
    assert_eq!(me.address, Some("ABCD-EFGH-JKLM".to_string()));
    assert_eq!(me.username, "alice");
    assert_eq!(net.get_host().unwrap().id, 1);
    let fresh = net.create_session("bob".to_string());
    assert_eq!(fresh.len(), 14);
    assert_eq!(net.session_code(), Some(fresh));
}

#[test]
fn p2p_join_session_connects_as_guest() {
    let mut net = P2PNetwork::default();
    assert!(net.join_session("WXYZ-2345-6789", "carol".to_string()));
    assert!(!net.is_host());
    let me = net.get_peer(1).unwrap();
    assert_eq!(me.state, PeerState::Connecting);
    assert!(!me.is_host);
    assert_eq!(me.address, Some("WXYZ-2345-6789".to_string()));
    assert!(net.get_host().is_none());
    assert!(net.connected_peers().is_empty());
}

#[test]
fn p2p_peers_add_remove_and_connected() {
    let mut net = P2PNetwork::new();
    let mut a = Peer::new(5, "a".to_string(), false);
    a.state = PeerState::Connected;
    let b = Peer::new(6, "b".to_string(), false);
    net.add_peer(5, a);
    net.add_peer(6, b);
    assert_eq!(net.get_peers().len(), 2);
    let connected = net.connected_peers();
    assert_eq!(connected.len(), 1);
    assert_eq!(connected[0].id, 5);
    net.remove_peer(5);
    assert!(net.get_peer(5).is_none());
    assert_eq!(net.get_peers().len(), 1);
    let mut p = Peer::new(7, "c".to_string(), false);
    p.set_address("10.0.0.1:4000".to_string());
    assert_eq!(p.address, Some("10.0.0.1:4000".to_string()));
}

#[test]
fn p2p_migrate_host_hands_over() {
    let mut net = P2PNetwork::new();
    assert!(!net.migrate_host(1));
    net.create_session_with_code("host".to_string(), "AAAA-BBBB-CCCC".to_string());
    net.add_peer(9, Peer::new(9, "next".to_string(), false));
    assert!(!net.migrate_host(42));
    assert!(net.get_host().is_none());
    assert!(net.migrate_host(9));
    assert!(net.get_peer(9).unwrap().is_host);
    assert!(!net.get_peer(1).unwrap().is_host);
    assert_eq!(net.get_host().unwrap().id, 9);
    net.disconnect();
    assert!(net.get_peer(1).is_none());
    assert!(!net.is_host());
    assert!(net.session_code().is_none());
}

#[test]
fn anti_cheat_remembers_last_position() {
    let mut ac: AntiCheat<u64, (i32, i32, i32)> = AntiCheat::new(20);
    assert_eq!(*ac.config(), 20);
    assert!(ac.last_state(7).is_none());
    ac.record_position(7, (1, 2, 3), 100);
    ac.record_position(7, (4, 5, 6), 120);
    let last = ac.last_state(7).unwrap();
    assert_eq!(last.position, (4, 5, 6));
    assert_eq!(last.last_tick, 120);
    assert!(ac.get_violations().is_empty());
    ac.clear_violations(7);
    assert!(ac.get_violations().is_empty());
}

#[test]
fn anti_cheat_move_timing() {
    assert_eq!(move_timing(100, 100), (0, false, true));
    assert_eq!(move_timing(100, 159), (59, true, true));
    assert_eq!(move_timing(100, 160), (60, true, false));
}

#[test]
fn server_counts_players_and_broadcast_skips_excluded() {
    let mut server: Server<&str> = Server::new(8, 20);
    assert!(!server.running);
    assert_eq!(server.player_count(), 0);
    server.players.insert(1, "a");
    server.players.insert(2, "b");
    server.players.insert(3, "c");
    assert_eq!(server.player_count(), 3);
    let mut all = server.broadcast_targets(None);
    all.sort();
    assert_eq!(all, vec![1, 2, 3]);
    let mut some = server.broadcast_targets(Some(2));
    some.sort();
    assert_eq!(some, vec![1, 3]);
}

#[test]
fn client_needs_connection_to_send() {
    let mut client: Client<()> = Client::new();
    assert_eq!(client.sender_id(), Err(ClientError::NotConnected));
    assert_eq!(ClientError::NotConnected.message(), "Not connected");
    client.accept_handshake("127.0.0.1:25565", 42);
    assert!(client.connected);
    assert_eq!(client.server_addr, "127.0.0.1:25565");
    assert_eq!(client.sender_id(), Ok(42));
    client.disconnect();
    assert!(!client.connected);
    assert!(client.player_id.is_none());
    assert!(client.server_addr.is_empty());
    assert_eq!(client.sender_id(), Err(ClientError::NotConnected));
}

#[test]
fn nat_classification() {
    assert_eq!(classify_nat(Some(true)), NatType::PortRestrictedCone);
    assert_eq!(classify_nat(Some(false)), NatType::Symmetric);
    assert_eq!(classify_nat(None), NatType::Symmetric);
}
