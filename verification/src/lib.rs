//! VoxelNaut: the verified core of a voxel sandbox game.
//!
//! Block and chunk coordinates, dimensions and biomes, items, the player
//! inventory, crafting, dimensional portals, A* pathfinding, fluid ticks,
//! chunk storage, menus, and the byte-level pieces of the network layer.

mod clock;
pub mod math;
pub mod entity;
pub mod block;
pub mod events;
pub mod logging;
pub mod config;
pub mod item;
pub mod inventory;
pub mod crafting;
pub mod world_types;
pub mod dimensional;
pub mod dimensions;
pub mod pathfinding;
pub mod fluid;
pub mod biome;
pub mod chunk;
pub mod generator;
pub mod chunk_file;
pub mod chunk_manager;
pub mod persistence;
pub mod waypoints;
pub mod protocol;
pub mod stun;
pub mod chat;
pub mod p2p;
pub mod networking;
pub mod sync;
pub mod anti_cheat;
pub mod audio;
pub mod ui;
pub mod menu;
pub mod physics;
pub mod survival;
pub mod ai;
pub mod behavior;
pub mod mobs;
pub mod render;
pub mod mesh;
pub mod worldgen;
