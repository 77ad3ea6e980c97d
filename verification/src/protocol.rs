//! Packets of the multiplayer protocol and the tick counter that stamps them.

use vstd::prelude::*;
use crate::entity::EntityId;

verus! {

/// Protocol version.
pub const PROTOCOL_VERSION: u32 = 1;

/// Packet kinds.
#[derive(Debug, Clone, Copy, PartialEq, Eq, Structural)]
pub enum PacketType {
    // Connection
    Handshake,
    HandshakeAck,
    Disconnect,
    // World
    ChunkRequest,
    ChunkData,
    BlockUpdate,
    // Entities
    EntitySpawn,
    EntityDespawn,
    EntityPosUpdate,
    EntityDataUpdate,
    // Players
    PlayerJoin,
    PlayerLeave,
    PlayerPos,
    PlayerChat,
    // Game
    InventoryUpdate,
    CraftingRequest,
    CraftingResult,
    UseItem,
    Interact,
    // Time
    TimeSync,
    WeatherUpdate,
    // Host
    MigrateHost,
    HostAck,
}

/// Packet header.
#[derive(Debug, Clone, Copy, PartialEq, Eq, Structural)]
pub struct PacketHeader {
    pub packet_type: PacketType,
    pub tick: u64,
    pub sender_id: EntityId,
}

/// A network packet: a header and an encoded payload.
#[derive(Debug, Clone)]
pub struct Packet {
    pub header: PacketHeader,
    pub payload: Vec<u8>,
}

impl Packet {
    /// A packet with an empty payload.
    pub fn new(packet_type: PacketType, sender_id: EntityId, tick: u64) -> (p: Self)
        ensures
            p.header == (PacketHeader { packet_type, tick, sender_id }),
            p.payload@.len() == 0,
    {
        Packet { header: PacketHeader { packet_type, tick, sender_id }, payload: Vec::new() }
    }
}

/// The tick counter of a connection.
#[derive(Debug)]
pub struct ProtocolHandler {
    tick: u64,
}

impl View for ProtocolHandler {
    type V = u64;

    /// The current tick.
    closed spec fn view(&self) -> u64 {
        self.tick
    }
}

impl ProtocolHandler {
    /// A handler at tick 0.
    pub fn new() -> (h: Self)
        ensures
            h@ == 0,
    {
        ProtocolHandler { tick: 0 }
    }

    /// Advances the tick by one and returns the new tick.
    pub fn next_tick(&mut self) -> (t: u64)
        requires
            old(self)@ < u64::MAX,
        ensures
            t == old(self)@ + 1,
            final(self)@ == t,
    {
        self.tick = self.tick + 1;
        self.tick
    }

    /// The current tick.
    pub fn current_tick(&self) -> (t: u64)
        ensures
            t == self@,
    {
        self.tick
    }
}

impl Default for ProtocolHandler {
    fn default() -> (h: Self)
        ensures
            h@ == 0,
    {
        ProtocolHandler::new()
    }
}

} // verus!
