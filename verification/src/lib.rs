//! Zone-server session layer for a multiplayer game server: a binary packet
//! codec (framing, compression, obfuscation) and the per-client session
//! engine that consumes decoded commands and emits outbound segments.

use vstd::prelude::*;

pub mod bytes;
pub mod common;
pub mod compress;
pub mod connection;
pub mod dispatch;
pub mod frame;
pub mod gamedata;
pub mod ipc;
pub mod inventory;
pub mod social_list;
pub mod status;
pub mod transform;
pub mod zone;

verus! {

/// Size in bytes of the general unlock bitmap.
pub const UNLOCK_BITMASK_SIZE: usize = 64;
/// Size in bytes of the aetheryte unlock bitmap; holds one bit per aetheryte id.
pub const AETHERYTE_UNLOCK_BITMASK_SIZE: usize = 30;
/// Size in bytes of the completed-quest bitmap.
pub const COMPLETED_QUEST_BITMASK_SIZE: usize = 512;
/// Size in bytes of the completed-levequest bitmap.
pub const COMPLETED_LEVEQUEST_BITMASK_SIZE: usize = 64;
pub const RAID_ARRAY_SIZE: usize = 16;
pub const DUNGEON_ARRAY_SIZE: usize = 16;
pub const GUILDHEST_ARRAY_SIZE: usize = 16;
pub const TRIAL_ARRAY_SIZE: usize = 16;
pub const PVP_ARRAY_SIZE: usize = 16;
/// Number of per-job slots in the level and experience arrays.
pub const CLASSJOB_ARRAY_SIZE: usize = 32;

} // verus!
