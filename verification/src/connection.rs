//! The per-client session engine: one client's live state (identity,
//! position, actor roster, inventory, status effects, unlock bitmaps,
//! zone and event context), the decoded commands and queued tasks it
//! consumes, and the outbound segments and coordinator messages it emits.
//! Socket reads and writes, the durable store, the scripting engine and
//! the reference-data archive live outside; the engine sees plain values
//! and fills ordered queues that the surrounding process drains.

use vstd::prelude::*;

use crate::common::{
    flag_index_of, flag_value_of, value_to_flag_byte_index_value, ObjectId, ObjectTypeId, Position,
};
use crate::gamedata::GameData;
use crate::inventory::{BuyBackList, Inventory, Item};
use crate::ipc::{
    ActorControl, ActorControlCategory, ActorControlSelf, ActorControlTarget, Config, EventScene,
    EventStart, InitZone, ServerZoneIpcData, ServerZoneIpcSegment, ServerZoneIpcType, UpdateClassInfo,
    Warp, WeatherChange,
};
use crate::status::StatusEffects;
use crate::transform::{generate_keys, key_schedule, ScramblerKeys, OBFUSCATION_ENABLED_MODE};
use crate::zone::Zone;
use crate::{
    AETHERYTE_UNLOCK_BITMASK_SIZE, CLASSJOB_ARRAY_SIZE, COMPLETED_LEVEQUEST_BITMASK_SIZE,
    COMPLETED_QUEST_BITMASK_SIZE, DUNGEON_ARRAY_SIZE, GUILDHEST_ARRAY_SIZE, PVP_ARRAY_SIZE,
    RAID_ARRAY_SIZE, TRIAL_ARRAY_SIZE, UNLOCK_BITMASK_SIZE,
};

verus! {

/// The keep-alive probe id the engine sends while initializing.
pub const KEEP_ALIVE_PROBE_ID: u32 = 0xE0037603;

/// The raw 32-bit word of the one-second weather transition time.
pub const WEATHER_TRANSITION_TIME_BITS: u32 = 0x3F800000;

/// The message sent to the player when an item grant fails.
pub const ERR_INVENTORY_ADD_FAILED: &'static str = "Failed to add item to inventory!";

/// The message sent to the player when a warp's reference-data row is
/// absent; the request fails gracefully and the session continues.
pub const ERR_WARP_NOT_FOUND: &'static str = "Failed to find the warp!";

/// The message sent to the player when an aetheryte's reference-data row
/// is absent; the request fails gracefully and the session continues.
pub const ERR_AETHERYTE_NOT_FOUND: &'static str = "Failed to find the aetheryte!";

/// The scripts loaded for each hook, owned by the process around the
/// engine and consulted when commands arrive.
#[derive(Default)]
pub struct ExtraLuaState {
    pub action_scripts: std::collections::HashMap<u32, String>,
    pub event_scripts: std::collections::HashMap<u32, String>,
    pub command_scripts: std::collections::HashMap<String, String>,
    pub gm_command_scripts: std::collections::HashMap<u32, String>,
    pub effect_scripts: std::collections::HashMap<u32, String>,
    pub zone_eobj_scripts: std::collections::HashMap<u32, String>,
}

/// A pending teleport target.
#[derive(Debug, Clone, Copy, PartialEq, Eq, Structural, Default)]
pub struct TeleportQuery {
    pub aetheryte_id: u16,
}

/// The player's unlock bitmaps, each addressed by
/// `(value, index) = split(id)`.
#[derive(Debug, Clone, PartialEq, Eq)]
pub struct UnlockData {
    pub unlocks: Vec<u8>,
    pub aetherytes: Vec<u8>,
    pub completed_quests: Vec<u8>,
    pub unlocked_raids: Vec<u8>,
    pub unlocked_dungeons: Vec<u8>,
    pub unlocked_guildhests: Vec<u8>,
    pub unlocked_trials: Vec<u8>,
    pub unlocked_pvp: Vec<u8>,
    pub cleared_raids: Vec<u8>,
    pub cleared_dungeons: Vec<u8>,
    pub cleared_guildhests: Vec<u8>,
    pub cleared_trials: Vec<u8>,
    pub cleared_pvp: Vec<u8>,
}

/// Well-formedness of the unlock bitmaps: each has its fixed size.
pub open spec fn unlocks_wf(u: UnlockData) -> bool {
    &&& u.unlocks@.len() == UNLOCK_BITMASK_SIZE
    &&& u.aetherytes@.len() == AETHERYTE_UNLOCK_BITMASK_SIZE
    &&& u.completed_quests@.len() == COMPLETED_QUEST_BITMASK_SIZE
    &&& u.unlocked_raids@.len() == RAID_ARRAY_SIZE
    &&& u.unlocked_dungeons@.len() == DUNGEON_ARRAY_SIZE
    &&& u.unlocked_guildhests@.len() == GUILDHEST_ARRAY_SIZE
    &&& u.unlocked_trials@.len() == TRIAL_ARRAY_SIZE
    &&& u.unlocked_pvp@.len() == PVP_ARRAY_SIZE
    &&& u.cleared_raids@.len() == RAID_ARRAY_SIZE
    &&& u.cleared_dungeons@.len() == DUNGEON_ARRAY_SIZE
    &&& u.cleared_guildhests@.len() == GUILDHEST_ARRAY_SIZE
    &&& u.cleared_trials@.len() == TRIAL_ARRAY_SIZE
    &&& u.cleared_pvp@.len() == PVP_ARRAY_SIZE
}

/// Builds a zeroed bitmap of a fixed size.
fn zero_bitmap(n: usize) -> (r: Vec<u8>)
    ensures
        r@ == crate::bytes::zeros(n as nat),
{
    let mut r: Vec<u8> = Vec::new();
    let mut i: usize = 0;
    while i < n
        invariant
            i <= n,
            r@ == crate::bytes::zeros(i as nat),
        decreases n - i,
    {
        r.push(0);
        assert(r@ =~= crate::bytes::zeros((i + 1) as nat));
        i = i + 1;
    }
    r
}

impl Default for UnlockData {
    /// All bitmaps zeroed, at their fixed sizes.
    fn default() -> (r: Self)
        ensures
            unlocks_wf(r),
            r.unlocks@ == crate::bytes::zeros(UNLOCK_BITMASK_SIZE as nat),
            r.aetherytes@ == crate::bytes::zeros(AETHERYTE_UNLOCK_BITMASK_SIZE as nat),
            r.completed_quests@ == crate::bytes::zeros(COMPLETED_QUEST_BITMASK_SIZE as nat),
            r.unlocked_raids@ == crate::bytes::zeros(RAID_ARRAY_SIZE as nat),
            r.unlocked_dungeons@ == crate::bytes::zeros(DUNGEON_ARRAY_SIZE as nat),
            r.unlocked_guildhests@ == crate::bytes::zeros(GUILDHEST_ARRAY_SIZE as nat),
            r.unlocked_trials@ == crate::bytes::zeros(TRIAL_ARRAY_SIZE as nat),
            r.unlocked_pvp@ == crate::bytes::zeros(PVP_ARRAY_SIZE as nat),
            r.cleared_raids@ == crate::bytes::zeros(RAID_ARRAY_SIZE as nat),
            r.cleared_dungeons@ == crate::bytes::zeros(DUNGEON_ARRAY_SIZE as nat),
            r.cleared_guildhests@ == crate::bytes::zeros(GUILDHEST_ARRAY_SIZE as nat),
            r.cleared_trials@ == crate::bytes::zeros(TRIAL_ARRAY_SIZE as nat),
            r.cleared_pvp@ == crate::bytes::zeros(PVP_ARRAY_SIZE as nat),
    {
        UnlockData {
            unlocks: zero_bitmap(UNLOCK_BITMASK_SIZE),
            aetherytes: zero_bitmap(AETHERYTE_UNLOCK_BITMASK_SIZE),
            completed_quests: zero_bitmap(COMPLETED_QUEST_BITMASK_SIZE),
            unlocked_raids: zero_bitmap(RAID_ARRAY_SIZE),
            unlocked_dungeons: zero_bitmap(DUNGEON_ARRAY_SIZE),
            unlocked_guildhests: zero_bitmap(GUILDHEST_ARRAY_SIZE),
            unlocked_trials: zero_bitmap(TRIAL_ARRAY_SIZE),
            unlocked_pvp: zero_bitmap(PVP_ARRAY_SIZE),
            cleared_raids: zero_bitmap(RAID_ARRAY_SIZE),
            cleared_dungeons: zero_bitmap(DUNGEON_ARRAY_SIZE),
            cleared_guildhests: zero_bitmap(GUILDHEST_ARRAY_SIZE),
            cleared_trials: zero_bitmap(TRIAL_ARRAY_SIZE),
            cleared_pvp: zero_bitmap(PVP_ARRAY_SIZE),
        }
    }
}

/// The session-owned, mutable player record.
#[derive(Debug, Clone, PartialEq)]
pub struct PlayerData {
    pub actor_id: u32,
    pub content_id: u64,
    pub account_id: u32,
    pub classjob_id: u8,
    /// Per-job levels, indexed through the job's experience-array index.
    pub classjob_levels: Vec<i32>,
    /// Per-job experience, indexed the same way.
    pub classjob_exp: Vec<u32>,
    pub curr_hp: u32,
    pub max_hp: u32,
    pub curr_mp: u16,
    pub max_mp: u16,
    pub position: Position,
    /// Facing, as a raw 32-bit word (radians on the wire).
    pub rotation: u32,
    pub zone_id: u16,
    pub inventory: Inventory,
    pub teleport_query: TeleportQuery,
    pub gm_rank: u8,
    pub gm_invisible: bool,
    /// Monotonically increasing counter correlating item transactions.
    pub item_sequence: u32,
    /// Monotonically increasing counter correlating shop transactions.
    pub shop_sequence: u32,
    /// The target actor for the purpose of chaining cutscenes.
    pub target_actorid: ObjectTypeId,
    /// The server-side copy of NPC shop buyback lists.
    pub buyback_list: BuyBackList,
    pub unlocks: UnlockData,
    pub saw_inn_wakeup: bool,
}

/// Well-formedness of the player record: fixed array sizes and the fixed
/// inventory layout.
pub open spec fn player_data_wf(pd: PlayerData) -> bool {
    &&& pd.classjob_levels@.len() == CLASSJOB_ARRAY_SIZE
    &&& pd.classjob_exp@.len() == CLASSJOB_ARRAY_SIZE
    &&& crate::inventory::inventory_wf(pd.inventory)
    &&& unlocks_wf(pd.unlocks)
}

impl Default for PlayerData {
    /// A zeroed record with the fixed layout.
    fn default() -> (r: Self)
        ensures
            player_data_wf(r),
    {
        let mut classjob_levels: Vec<i32> = Vec::new();
        let mut classjob_exp: Vec<u32> = Vec::new();
        let mut i: usize = 0;
        while i < CLASSJOB_ARRAY_SIZE
            invariant
                classjob_levels@.len() == i,
                classjob_exp@.len() == i,
                i <= CLASSJOB_ARRAY_SIZE,
            decreases CLASSJOB_ARRAY_SIZE - i,
        {
            classjob_levels.push(0);
            classjob_exp.push(0);
            i = i + 1;
        }
        PlayerData {
            actor_id: 0,
            content_id: 0,
            account_id: 0,
            classjob_id: 0,
            classjob_levels,
            classjob_exp,
            curr_hp: 0,
            max_hp: 0,
            curr_mp: 0,
            max_mp: 0,
            position: Position { x: 0, y: 0, z: 0 },
            rotation: 0,
            zone_id: 0,
            inventory: Inventory::default(),
            teleport_query: TeleportQuery { aetheryte_id: 0 },
            gm_rank: 0,
            gm_invisible: false,
            item_sequence: 0,
            shop_sequence: 0,
            target_actorid: ObjectTypeId { object_id: ObjectId(0), object_type: 0 },
            buyback_list: BuyBackList::default(),
            unlocks: UnlockData::default(),
            saw_inn_wakeup: false,
        }
    }
}

/// The obfuscation seeds and the key material derived from them for one
/// zone's lifetime; regenerated at every zone transition.
#[derive(Debug, Clone, PartialEq, Eq)]
pub struct ObsfucationData {
    pub keys: Option<ScramblerKeys>,
    pub seed1: u8,
    pub seed2: u8,
    pub seed3: u32,
}

impl Default for ObsfucationData {
    /// No key material and zero seeds.
    fn default() -> (r: Self)
        ensures
            r.keys is None,
            r.seed1 == 0 && r.seed2 == 0 && r.seed3 == 0,
    {
        ObsfucationData { keys: None, seed1: 0, seed2: 0, seed3: 0 }
    }
}

/// Per-connection switches negotiated at startup.
#[derive(Debug, Clone, Copy, PartialEq, Eq, Structural)]
pub struct WorldConfig {
    pub enable_packet_compression: bool,
    pub enable_packet_obsfucation: bool,
}

impl Default for WorldConfig {
    fn default() -> (r: Self)
        ensures
            !r.enable_packet_compression,
            !r.enable_packet_obsfucation,
    {
        WorldConfig { enable_packet_compression: false, enable_packet_obsfucation: false }
    }
}

/// A session-local visibility record of another actor.
#[derive(Debug, Clone, Copy, PartialEq, Eq, Structural, Default)]
pub struct Actor {
    pub id: ObjectId,
    pub hp: u32,
    /// The small per-session slot the wire protocol addresses this actor
    /// by, distinct from its global id.
    pub spawn_index: u32,
}

/// An identifier of this connection among all sessions of the process.
#[derive(Debug, Clone, Copy, PartialEq, Eq, Structural, Default)]
pub struct ClientId(pub u64);

/// A message to the world coordinator, delivered in send order.
#[derive(Debug, Clone, PartialEq)]
pub enum ToServer {
    /// The session's actor left a zone.
    LeftZone(ClientId, u32, u16),
    /// The session's actor changed equipped models.
    Equip(ClientId, u32, u64, Vec<u32>),
    /// The session's actor gained a status effect.
    GainEffect(ClientId, u32, u16, u32, u16, ObjectId),
    /// The session asks for a packet replay.
    BeginReplay(ClientId, String),
}

/// A request to the durable player-record store, performed outside the
/// engine.
#[derive(Debug, Clone, PartialEq)]
pub enum SessionAction {
    /// Write the player record back to the durable store.
    CommitPlayerData,
    /// Record the character-remake mode for a content id.
    SetRemakeMode(u64, i32),
    /// Reload the scripting engine's init script.
    ReloadScripts,
}

/// An active event: its id and the script resolved for it.
#[derive(Debug, Clone, PartialEq, Eq)]
pub struct Event {
    pub id: u32,
    pub script: String,
}

impl Event {
    pub fn new(id: u32, script: &String) -> (r: Event)
        ensures
            r.id == id,
            r.script@ == script@,
    {
        Event { id, script: script.clone() }
    }
}

/// How an event was finished.
#[derive(Debug, Clone, Copy, PartialEq, Eq, Structural)]
pub enum EventFinishType {
    Normal,
    Jumping,
}

/// One effect produced by an action script.
#[derive(Debug, Clone, Copy, PartialEq, Eq, Structural)]
pub enum EffectKind {
    /// Damage applied to the target.
    Damage { amount: u16 },
    /// A status application; the duration is a raw 32-bit word.
    Unk1 { effect_id: u16, duration: u32, param: u16, source_actor_id: ObjectId },
}

/// The structured effect list an action script returns.
#[derive(Debug, Clone, PartialEq, Eq)]
pub struct EffectsBuilder {
    pub effects: Vec<EffectKind>,
}

/// A pending session mutation produced by the scripting collaborator and
/// applied exactly once, in enqueue order.
#[derive(Debug, Clone, PartialEq)]
pub enum Task {
    ChangeTerritory { zone_id: u16 },
    SetRemakeMode(i32),
    Warp { warp_id: u32 },
    BeginLogOut,
    FinishEvent { handler_id: u32, arg: u32, finish_type: EventFinishType },
    SetClassJob { classjob_id: u8 },
    WarpAetheryte { aetheryte_id: u32 },
    ReloadScripts,
    ToggleInvisibility { invisible: bool },
    Unlock { id: u32 },
    UnlockAetheryte { id: u32, on: bool },
    SetLevel { level: i32 },
    ChangeWeather { id: u16 },
    AddGil { amount: u32 },
    RemoveGil { amount: u32, send_client_update: bool },
    UnlockOrchestrion { id: u16, on: bool },
    AddItem { id: u32, quantity: u32, send_client_update: bool },
    CompleteAllQuests {},
    UnlockContent { id: u16 },
    UpdateBuyBackList { list: BuyBackList },
    AddExp { amount: u32 },
    StartEvent { actor_id: ObjectTypeId, event_id: u32, event_type: u8, event_arg: u32 },
    SetInnWakeup { watched: bool },
}

/// The payload of one queued zone-channel segment.
#[derive(Debug, Clone, PartialEq)]
pub enum ZoneSegmentData {
    KeepAliveRequest { id: u32, timestamp: u32 },
    KeepAliveResponse { id: u32, timestamp: u32 },
    Initialize { actor_id: u32, timestamp: u32 },
    Ipc { data: ServerZoneIpcSegment },
}

/// One queued zone-channel segment.
#[derive(Debug, Clone, PartialEq)]
pub struct ZoneSegment {
    pub source_actor: u32,
    pub target_actor: u32,
    pub data: ZoneSegmentData,
}

/// One queued chat-channel segment.
#[derive(Debug, Clone, PartialEq)]
pub struct ChatSegment {
    pub source_actor: u32,
    pub target_actor: u32,
    pub data: crate::ipc::ServerChatIpcSegment,
}

/// Segments and tasks queued by scripts on behalf of the player, drained
/// by the engine once per tick.
#[derive(Debug, Default)]
pub struct LuaZoneData {
    pub queued_segments: Vec<ZoneSegment>,
}

/// The session-scoped context handed to script invocations.
#[derive(Debug, Default)]
pub struct LuaPlayer {
    pub player_data: PlayerData,
    pub queued_segments: Vec<ZoneSegment>,
    pub queued_tasks: Vec<Task>,
    pub zone_data: LuaZoneData,
}

// ---------------------------------------------------------------------------
// The session engine
// ---------------------------------------------------------------------------

/// One client's session: its state and the queues it fills. The process
/// around it performs the socket, store and script work.
pub struct ZoneConnection {
    pub config: WorldConfig,
    pub player_data: PlayerData,
    /// The active zone's static layout.
    pub zone: Option<Zone>,
    /// The last spawn-index slot handed out; a bounded per-session resource.
    pub spawn_index: u8,
    pub status_effects: StatusEffects,
    pub event: Option<Event>,
    pub event_type: u8,
    /// The actor roster, unique by actor id.
    pub actors: Vec<Actor>,
    pub id: ClientId,
    /// The reference-data tables, loaded outside and read here.
    pub gamedata: GameData,
    pub exit_position: Option<Position>,
    /// Facing after a zone change, as a raw 32-bit word.
    pub exit_rotation: Option<u32>,
    pub gracefully_logged_out: bool,
    pub weather_id: u16,
    pub obsfucation_data: ObsfucationData,
    pub queued_content: Option<u16>,
    /// Wall-clock seconds, set by the driving process before each tick.
    pub now: u32,
    /// Outbound zone-channel segments, flushed to the socket in order.
    pub outbound: Vec<ZoneSegment>,
    /// Outbound chat-channel segments.
    pub chat_outbound: Vec<ChatSegment>,
    /// The ordered mailbox to the world coordinator.
    pub server_messages: Vec<ToServer>,
    /// Requests to the durable player-record store.
    pub actions: Vec<SessionAction>,
}

/// Whether a job id has a usable experience-array index in the tables.
pub open spec fn exp_index_ok(gd: GameData, job: u8) -> bool {
    &&& (job as int) < gd.classjob_exp_indexes@.len()
    &&& 0 <= gd.classjob_exp_indexes@[job as int] < CLASSJOB_ARRAY_SIZE
}

/// The experience-array index of a job id.
pub open spec fn exp_index_of(gd: GameData, job: u8) -> int {
    gd.classjob_exp_indexes@[job as int] as int
}

/// A segment the engine sends to itself: both actors are the player, the
/// timestamp is the current tick's clock.
pub open spec fn self_ipc(
    c: ZoneConnection,
    op: ServerZoneIpcType,
    data: ServerZoneIpcData,
) -> ZoneSegment {
    ZoneSegment {
        source_actor: c.player_data.actor_id,
        target_actor: c.player_data.actor_id,
        data: ZoneSegmentData::Ipc {
            data: ServerZoneIpcSegment { op_code: op, option: 0, timestamp: c.now, data },
        },
    }
}

/// A segment from another actor to the player.
pub open spec fn actor_ipc(
    c: ZoneConnection,
    source_actor: u32,
    op: ServerZoneIpcType,
    data: ServerZoneIpcData,
) -> ZoneSegment {
    ZoneSegment {
        source_actor,
        target_actor: c.player_data.actor_id,
        data: ZoneSegmentData::Ipc {
            data: ServerZoneIpcSegment { op_code: op, option: 0, timestamp: c.now, data },
        },
    }
}

/// Everything but the outbound queue is unchanged.
pub open spec fn only_outbound_changed(a: ZoneConnection, b: ZoneConnection) -> bool {
    b == (ZoneConnection { outbound: b.outbound, ..a })
}

/// The method queued exactly one self-addressed command and changed
/// nothing else.
pub open spec fn sends_self_ipc(
    a: ZoneConnection,
    b: ZoneConnection,
    op: ServerZoneIpcType,
    data: ServerZoneIpcData,
) -> bool {
    &&& b.outbound@ == a.outbound@.push(self_ipc(a, op, data))
    &&& only_outbound_changed(a, b)
}

impl ZoneConnection {
    /// Queues one zone-channel segment for delivery.
    pub fn send_segment(&mut self, segment: ZoneSegment)
        ensures
            final(self).outbound@ == old(self).outbound@.push(segment),
            only_outbound_changed(*old(self), *final(self)),
    {
        self.outbound.push(segment);
    }

    /// Queues one chat-channel segment for delivery.
    pub fn send_chat_segment(&mut self, segment: ChatSegment)
        ensures
            final(self).chat_outbound@ == old(self).chat_outbound@.push(segment),
            *final(self) == (ZoneConnection { chat_outbound: final(self).chat_outbound, ..*old(self) }),
    {
        self.chat_outbound.push(segment);
    }

    /// Queues a self-addressed command.
    fn send_self_ipc(&mut self, op: ServerZoneIpcType, data: ServerZoneIpcData)
        ensures
            sends_self_ipc(*old(self), *final(self), op, data),
    {
        let segment = ZoneSegment {
            source_actor: self.player_data.actor_id,
            target_actor: self.player_data.actor_id,
            data: ZoneSegmentData::Ipc {
                data: ServerZoneIpcSegment { op_code: op, option: 0, timestamp: self.now, data },
            },
        };
        self.outbound.push(segment);
    }

    /// Queues a command whose source is another actor.
    fn send_actor_ipc(&mut self, source_actor: u32, op: ServerZoneIpcType, data: ServerZoneIpcData)
        ensures
            final(self).outbound@ == old(self).outbound@.push(
                actor_ipc(*old(self), source_actor, op, data),
            ),
            only_outbound_changed(*old(self), *final(self)),
    {
        let segment = ZoneSegment {
            source_actor,
            target_actor: self.player_data.actor_id,
            data: ZoneSegmentData::Ipc {
                data: ServerZoneIpcSegment { op_code: op, option: 0, timestamp: self.now, data },
            },
        };
        self.outbound.push(segment);
    }
}


/// What finishing an event does: the cutscene-chaining target is cleared
/// and the finish segment goes out followed by the control-return segment.
pub open spec fn event_finish_post(
    a: ZoneConnection,
    handler_id: u32,
    arg: u32,
    finish_type: EventFinishType,
    b: ZoneConnection,
) -> bool {
    &&& b.player_data == (PlayerData {
        target_actorid: ObjectTypeId { object_id: ObjectId(0), object_type: 0 },
        ..a.player_data
    })
    &&& b.outbound@ == a.outbound@.push(
        self_ipc(
            a,
            ServerZoneIpcType::EventFinish,
            ServerZoneIpcData::EventFinish { handler_id, event: a.event_type, result: 1, arg },
        ),
    ).push(
        self_ipc(
            a,
            ServerZoneIpcType::Unk18,
            ServerZoneIpcData::Unk18 {
                unk: (if finish_type is Jumping {
                    [0u8, 0, 0, 0, 1, 0, 0, 0, 0, 0, 0, 0, 0, 0, 0, 0]
                } else {
                    [0u8, 0, 0, 0, 0, 0, 0, 0, 0, 0, 0, 0, 0, 0, 0, 0]
                }),
            },
        ),
    )
    &&& b == (ZoneConnection {
        player_data: b.player_data,
        outbound: b.outbound,
        ..a
    })
}

/// The index of the first roster entry with the given actor id.
pub open spec fn find_actor_idx(actors: Seq<Actor>, id: u32) -> Option<int>
    decreases actors.len(),
{
    if actors.len() == 0 {
        None
    } else if actors[0].id.0 == id {
        Some(0int)
    } else {
        match find_actor_idx(actors.subrange(1, actors.len() as int), id) {
            Some(i) => Some(i + 1),
            None => None,
        }
    }
}

/// The player's level in the active job.
pub open spec fn current_level_spec(pd: PlayerData, gd: GameData) -> i32 {
    pd.classjob_levels@[exp_index_of(gd, pd.classjob_id)]
}

/// The player's experience in the active job.
pub open spec fn current_exp_spec(pd: PlayerData, gd: GameData) -> u32 {
    pd.classjob_exp@[exp_index_of(gd, pd.classjob_id)]
}

/// The class-info update pushed after level, job or experience changes.
pub open spec fn class_info_data(pd: PlayerData, gd: GameData) -> ServerZoneIpcData {
    ServerZoneIpcData::UpdateClassInfo(
        UpdateClassInfo {
            class_id: pd.classjob_id,
            synced_level: current_level_spec(pd, gd) as u16,
            class_level: current_level_spec(pd, gd) as u16,
            current_level: current_level_spec(pd, gd) as u16,
            current_exp: current_exp_spec(pd, gd),
        },
    )
}

/// Copies a byte vector.
fn copy_bytes(v: &Vec<u8>) -> (r: Vec<u8>)
    ensures
        r@ == v@,
{
    let n = v.len();
    let mut r: Vec<u8> = Vec::new();
    let mut i: usize = 0;
    while i < n
        invariant
            i <= n,
            n == v@.len(),
            r@ == v@.subrange(0, i as int),
        decreases n - i,
    {
        r.push(v[i]);
        assert(r@ =~= v@.subrange(0, i as int + 1));
        i = i + 1;
    }
    proof {
        assert(v@.subrange(0, n as int) =~= v@);
    }
    r
}

/// A byte vector of `n` copies of one value.
fn filled_bytes(n: usize, value: u8) -> (r: Vec<u8>)
    ensures
        r@ == Seq::new(n as nat, |i: int| value),
{
    let mut r: Vec<u8> = Vec::new();
    let mut i: usize = 0;
    while i < n
        invariant
            i <= n,
            r@ == Seq::new(i as nat, |j: int| value),
        decreases n - i,
    {
        r.push(value);
        assert(r@ =~= Seq::new((i + 1) as nat, |j: int| value));
        i = i + 1;
    }
    r
}

/// Copies a status-effect vector.
fn copy_status_effects(v: &Vec<crate::status::StatusEffect>) -> (r: Vec<crate::status::StatusEffect>)
    ensures
        r@ == v@,
{
    let n = v.len();
    let mut r: Vec<crate::status::StatusEffect> = Vec::new();
    let mut i: usize = 0;
    while i < n
        invariant
            i <= n,
            n == v@.len(),
            r@ == v@.subrange(0, i as int),
        decreases n - i,
    {
        r.push(v[i]);
        assert(r@ =~= v@.subrange(0, i as int + 1));
        i = i + 1;
    }
    proof {
        assert(v@.subrange(0, n as int) =~= v@);
    }
    r
}

impl ZoneConnection {
    /// Begins zone-session initialization: resets the volatile vitals and
    /// sequence counters, probes the client with a keep-alive request and
    /// sends the `Initialize` segment carrying the actor id.
    pub fn initialize(&mut self, actor_id: u32)
        ensures
            final(self).player_data == (PlayerData {
                curr_hp: 100,
                max_hp: 100,
                curr_mp: 10000,
                max_mp: 10000,
                item_sequence: 0,
                shop_sequence: 0,
                ..old(self).player_data
            }),
            final(self).outbound@ == old(self).outbound@.push(
                ZoneSegment {
                    source_actor: 0,
                    target_actor: 0,
                    data: ZoneSegmentData::KeepAliveRequest {
                        id: KEEP_ALIVE_PROBE_ID,
                        timestamp: old(self).now,
                    },
                },
            ).push(
                ZoneSegment {
                    source_actor: 0,
                    target_actor: 0,
                    data: ZoneSegmentData::Initialize {
                        actor_id: old(self).player_data.actor_id,
                        timestamp: old(self).now,
                    },
                },
            ),
            *final(self) == (ZoneConnection {
                player_data: final(self).player_data,
                outbound: final(self).outbound,
                ..*old(self)
            }),
    {
        let _ = actor_id;
        self.player_data.curr_hp = 100;
        self.player_data.max_hp = 100;
        self.player_data.curr_mp = 10000;
        self.player_data.max_mp = 10000;
        self.player_data.item_sequence = 0;
        self.player_data.shop_sequence = 0;
        let now = self.now;
        self.send_segment(
            ZoneSegment {
                source_actor: 0,
                target_actor: 0,
                data: ZoneSegmentData::KeepAliveRequest { id: KEEP_ALIVE_PROBE_ID, timestamp: now },
            },
        );
        let actor = self.player_data.actor_id;
        self.send_segment(
            ZoneSegment {
                source_actor: 0,
                target_actor: 0,
                data: ZoneSegmentData::Initialize { actor_id: actor, timestamp: now },
            },
        );
    }

    /// Mirrors a keep-alive request with a response in the same round trip.
    pub fn handle_keep_alive(&mut self, id: u32, timestamp: u32)
        ensures
            final(self).outbound@ == old(self).outbound@.push(
                ZoneSegment {
                    source_actor: 0,
                    target_actor: 0,
                    data: ZoneSegmentData::KeepAliveResponse { id, timestamp },
                },
            ),
            only_outbound_changed(*old(self), *final(self)),
    {
        self.send_segment(
            ZoneSegment {
                source_actor: 0,
                target_actor: 0,
                data: ZoneSegmentData::KeepAliveResponse { id, timestamp },
            },
        );
    }

    /// Forces the player to a position.
    pub fn set_player_position(&mut self, position: Position)
        ensures
            sends_self_ipc(
                *old(self),
                *final(self),
                ServerZoneIpcType::Warp,
                ServerZoneIpcData::Warp(
                    Warp { dir: 0, warp_type: 0, warp_type_arg: 0, layer_set: 0, position },
                ),
            ),
    {
        self.send_self_ipc(
            ServerZoneIpcType::Warp,
            ServerZoneIpcData::Warp(
                Warp { dir: 0, warp_type: 0, warp_type_arg: 0, layer_set: 0, position },
            ),
        );
    }

    /// Moves another actor for this client.
    pub fn set_actor_position(&mut self, actor_id: u32, position: Position, rotation: u32)
        ensures
            final(self).outbound@ == old(self).outbound@.push(
                ZoneSegment {
                    source_actor: actor_id,
                    target_actor: actor_id,
                    data: ZoneSegmentData::Ipc {
                        data: ServerZoneIpcSegment {
                            op_code: ServerZoneIpcType::Move,
                            option: 0,
                            timestamp: old(self).now,
                            data: ServerZoneIpcData::Move(
                                crate::ipc::Move { rotation, flag1: 128, flag2: 60, position },
                            ),
                        },
                    },
                },
            ),
            only_outbound_changed(*old(self), *final(self)),
    {
        let now = self.now;
        self.send_segment(
            ZoneSegment {
                source_actor: actor_id,
                target_actor: actor_id,
                data: ZoneSegmentData::Ipc {
                    data: ServerZoneIpcSegment {
                        op_code: ServerZoneIpcType::Move,
                        option: 0,
                        timestamp: now,
                        data: ServerZoneIpcData::Move(
                            crate::ipc::Move { rotation, flag1: 128, flag2: 60, position },
                        ),
                    },
                },
            },
        );
    }

    /// Hands out the next spawn-index slot; slots are a bounded resource
    /// and are not reused within a session's lifetime.
    pub fn get_free_spawn_index(&mut self) -> (r: u8)
        requires
            old(self).spawn_index < 255,
        ensures
            r == old(self).spawn_index + 1,
            final(self).spawn_index == old(self).spawn_index + 1,
            *final(self) == (ZoneConnection { spawn_index: final(self).spawn_index, ..*old(self) }),
    {
        self.spawn_index = self.spawn_index + 1;
        self.spawn_index
    }

    /// Reports an actor entering the client's view: assigns the next free
    /// spawn-index slot, notifies the client and records the actor.
    pub fn spawn_actor(&mut self, actor: Actor, spawn: crate::ipc::NpcSpawn)
        requires
            actor.id.0 != old(self).player_data.actor_id,
            old(self).spawn_index < 255,
        ensures
            final(self).spawn_index == old(self).spawn_index + 1,
            final(self).actors@ == old(self).actors@.push(
                Actor { spawn_index: (old(self).spawn_index + 1) as u32, ..actor },
            ),
            final(self).outbound@ == old(self).outbound@.push(
                ZoneSegment {
                    source_actor: actor.id.0,
                    target_actor: old(self).player_data.actor_id,
                    data: ZoneSegmentData::Ipc {
                        data: ServerZoneIpcSegment {
                            op_code: ServerZoneIpcType::NpcSpawn,
                            option: 0,
                            timestamp: old(self).now,
                            data: ServerZoneIpcData::NpcSpawn(
                                crate::ipc::NpcSpawn {
                                    common: crate::ipc::CommonSpawn {
                                        spawn_index: (old(self).spawn_index + 1) as u8,
                                        target_id: ObjectTypeId {
                                            object_id: actor.id,
                                            object_type: 0,
                                        },
                                        ..spawn.common
                                    },
                                },
                            ),
                        },
                    },
                },
            ),
            *final(self) == (ZoneConnection {
                spawn_index: final(self).spawn_index,
                actors: final(self).actors,
                outbound: final(self).outbound,
                ..*old(self)
            }),
    {
        let index = self.get_free_spawn_index();
        let mut actor = actor;
        actor.spawn_index = index as u32;
        let mut common = spawn.common;
        common.spawn_index = index;
        common.target_id = ObjectTypeId { object_id: actor.id, object_type: 0 };
        let now = self.now;
        let target = self.player_data.actor_id;
        self.send_segment(
            ZoneSegment {
                source_actor: actor.id.0,
                target_actor: target,
                data: ZoneSegmentData::Ipc {
                    data: ServerZoneIpcSegment {
                        op_code: ServerZoneIpcType::NpcSpawn,
                        option: 0,
                        timestamp: now,
                        data: ServerZoneIpcData::NpcSpawn(crate::ipc::NpcSpawn { common }),
                    },
                },
            },
        );
        self.actors.push(actor);
    }

    /// Reports an actor leaving the client's view: the client is addressed
    /// by the actor's spawn index, and the roster entry is removed.
    pub fn remove_actor(&mut self, actor_id: u32)
        ensures
            (match find_actor_idx(old(self).actors@, actor_id) {
                Some(i) => {
                    &&& final(self).actors@ == old(self).actors@.remove(i)
                    &&& final(self).outbound@ == old(self).outbound@.push(
                        ZoneSegment {
                            source_actor: actor_id,
                            target_actor: old(self).player_data.actor_id,
                            data: ZoneSegmentData::Ipc {
                                data: ServerZoneIpcSegment {
                                    op_code: ServerZoneIpcType::Delete,
                                    option: 0,
                                    timestamp: old(self).now,
                                    data: ServerZoneIpcData::Delete {
                                        spawn_index: old(self).actors@[i].spawn_index as u8,
                                        actor_id,
                                    },
                                },
                            },
                        },
                    )
                    &&& *final(self) == (ZoneConnection {
                        actors: final(self).actors,
                        outbound: final(self).outbound,
                        ..*old(self)
                    })
                },
                None => *final(self) == *old(self),
            }),
    {
        let n = self.actors.len();
        let mut i: usize = 0;
        assert(self.actors@.subrange(0, n as int) =~= self.actors@);
        while i < n
            invariant
                i <= n,
                n == self.actors@.len(),
                *self == *old(self),
                (match find_actor_idx(self.actors@.subrange(i as int, n as int), actor_id) {
                    Some(k) => find_actor_idx(self.actors@, actor_id) == Some(k + i as int),
                    None => find_actor_idx(self.actors@, actor_id) is None,
                }),
                forall|j: int| 0 <= j < i ==> (#[trigger] self.actors@[j]).id.0 != actor_id,
            decreases n - i,
        {
            let ghost t = self.actors@.subrange(i as int, n as int);
            proof {
                assert(t[0] == self.actors@[i as int]);
                assert(t.subrange(1, t.len() as int) =~= self.actors@.subrange(
                    i as int + 1,
                    n as int,
                ));
            }
            if self.actors[i].id.0 == actor_id {
                let spawn_index = self.actors[i].spawn_index;
                let now = self.now;
                let target = self.player_data.actor_id;
                proof {
                    assert(find_actor_idx(self.actors@, actor_id) == Some(i as int));
                }
                self.send_segment(
                    ZoneSegment {
                        source_actor: actor_id,
                        target_actor: target,
                        data: ZoneSegmentData::Ipc {
                            data: ServerZoneIpcSegment {
                                op_code: ServerZoneIpcType::Delete,
                                option: 0,
                                timestamp: now,
                                data: ServerZoneIpcData::Delete {
                                    spawn_index: spawn_index as u8,
                                    actor_id,
                                },
                            },
                        },
                    },
                );
                self.actors.remove(i);
                return ;
            }
            i = i + 1;
        }
        proof {
            assert(self.actors@.subrange(n as int, n as int) =~= Seq::<Actor>::empty());
        }
    }

    /// The player's level in the active job, through the job's
    /// experience-array index.
    pub fn current_level(&self, game_data: &GameData) -> (r: i32)
        requires
            player_data_wf(self.player_data),
            exp_index_ok(*game_data, self.player_data.classjob_id),
        ensures
            r == current_level_spec(self.player_data, *game_data),
    {
        let index = match game_data.get_exp_array_index(self.player_data.classjob_id as u16) {
            Some(i) => i,
            None => 0,
        };
        self.player_data.classjob_levels[index as usize]
    }

    /// Sets the player's level in the active job.
    pub fn set_current_level(&mut self, level: i32)
        requires
            player_data_wf(old(self).player_data),
            exp_index_ok(old(self).gamedata, old(self).player_data.classjob_id),
        ensures
            final(self).player_data.classjob_levels@ == old(
                self,
            ).player_data.classjob_levels@.update(
                exp_index_of(old(self).gamedata, old(self).player_data.classjob_id),
                level,
            ),
            final(self).player_data == (PlayerData {
                classjob_levels: final(self).player_data.classjob_levels,
                ..old(self).player_data
            }),
            *final(self) == (ZoneConnection { player_data: final(self).player_data, ..*old(self) }),
    {
        let index = match self.gamedata.get_exp_array_index(self.player_data.classjob_id as u16) {
            Some(i) => i,
            None => 0,
        };
        self.player_data.classjob_levels.set(index as usize, level);
    }

    /// The player's experience in the active job.
    pub fn current_exp(&self, game_data: &GameData) -> (r: u32)
        requires
            player_data_wf(self.player_data),
            exp_index_ok(*game_data, self.player_data.classjob_id),
        ensures
            r == current_exp_spec(self.player_data, *game_data),
    {
        let index = match game_data.get_exp_array_index(self.player_data.classjob_id as u16) {
            Some(i) => i,
            None => 0,
        };
        self.player_data.classjob_exp[index as usize]
    }

    /// Sets the player's experience in the active job.
    pub fn set_current_exp(&mut self, exp: u32)
        requires
            player_data_wf(old(self).player_data),
            exp_index_ok(old(self).gamedata, old(self).player_data.classjob_id),
        ensures
            final(self).player_data.classjob_exp@ == old(self).player_data.classjob_exp@.update(
                exp_index_of(old(self).gamedata, old(self).player_data.classjob_id),
                exp,
            ),
            final(self).player_data == (PlayerData {
                classjob_exp: final(self).player_data.classjob_exp,
                ..old(self).player_data
            }),
            *final(self) == (ZoneConnection { player_data: final(self).player_data, ..*old(self) }),
    {
        let index = match self.gamedata.get_exp_array_index(self.player_data.classjob_id as u16) {
            Some(i) => i,
            None => 0,
        };
        self.player_data.classjob_exp.set(index as usize, exp);
    }

    /// Pushes the class-info update for the active job.
    pub fn update_class_info(&mut self)
        requires
            player_data_wf(old(self).player_data),
            exp_index_ok(old(self).gamedata, old(self).player_data.classjob_id),
        ensures
            sends_self_ipc(
                *old(self),
                *final(self),
                ServerZoneIpcType::UpdateClassInfo,
                class_info_data(old(self).player_data, old(self).gamedata),
            ),
    {
        let level = self.current_level(&self.gamedata);
        let exp = self.current_exp(&self.gamedata);
        let class_id = self.player_data.classjob_id;
        self.send_self_ipc(
            ServerZoneIpcType::UpdateClassInfo,
            ServerZoneIpcData::UpdateClassInfo(
                UpdateClassInfo {
                    class_id,
                    synced_level: level as u16,
                    class_level: level as u16,
                    current_level: level as u16,
                    current_exp: exp,
                },
            ),
        );
    }

    /// Announces a weather change.
    pub fn change_weather(&mut self, new_weather_id: u16)
        ensures
            final(self).weather_id == new_weather_id,
            final(self).outbound@ == old(self).outbound@.push(
                self_ipc(
                    *old(self),
                    ServerZoneIpcType::WeatherId,
                    ServerZoneIpcData::WeatherId(
                        WeatherChange {
                            weather_id: new_weather_id,
                            transistion_time: WEATHER_TRANSITION_TIME_BITS,
                        },
                    ),
                ),
            ),
            *final(self) == (ZoneConnection {
                weather_id: new_weather_id,
                outbound: final(self).outbound,
                ..*old(self)
            }),
    {
        self.weather_id = new_weather_id;
        self.send_self_ipc(
            ServerZoneIpcType::WeatherId,
            ServerZoneIpcData::WeatherId(
                WeatherChange {
                    weather_id: new_weather_id,
                    transistion_time: WEATHER_TRANSITION_TIME_BITS,
                },
            ),
        );
    }

    /// Informs all clients, this one included, that the player changed
    /// equipped models; the coordinator fans the notice out.
    pub fn inform_equip(&mut self)
        requires
            player_data_wf(old(self).player_data),
        ensures
            final(self).server_messages@.len() == old(self).server_messages@.len() + 1,
            final(self).server_messages@ == old(self).server_messages@.push(
                final(self).server_messages@.last(),
            ),
            (final(self).server_messages@.last() matches ToServer::Equip(cid, aid, weapon, models)
                && cid == old(self).id && aid == old(self).player_data.actor_id && weapon
                == crate::inventory::main_weapon_model_of(
                old(self).player_data.inventory,
                old(self).gamedata,
            ) && models@ == crate::inventory::model_ids_of(
                old(self).player_data.inventory,
                old(self).gamedata,
            )),
            *final(self) == (ZoneConnection {
                server_messages: final(self).server_messages,
                ..*old(self)
            }),
    {
        let main_weapon_id = self.player_data.inventory.get_main_weapon_id(&self.gamedata);
        let model_ids = self.player_data.inventory.get_model_ids(&self.gamedata);
        let id = self.id;
        let actor_id = self.player_data.actor_id;
        self.server_messages.push(ToServer::Equip(id, actor_id, main_weapon_id, model_ids));
    }

    /// Broadcasts an actor's equipped models to this client.
    pub fn update_equip(&mut self, actor_id: u32, main_weapon_id: u64, model_ids: Vec<u32>)
        ensures
            final(self).outbound@ == old(self).outbound@.push(
                actor_ipc(
                    *old(self),
                    actor_id,
                    ServerZoneIpcType::Equip,
                    ServerZoneIpcData::Equip(crate::ipc::Equip { main_weapon_id, model_ids }),
                ),
            ),
            only_outbound_changed(*old(self), *final(self)),
    {
        self.send_actor_ipc(
            actor_id,
            ServerZoneIpcType::Equip,
            ServerZoneIpcData::Equip(crate::ipc::Equip { main_weapon_id, model_ids }),
        );
    }

    /// Sends the player a server chat message.
    pub fn send_message(&mut self, message: &str)
        ensures
            final(self).outbound@.len() == old(self).outbound@.len() + 1,
            final(self).outbound@ == old(self).outbound@.push(final(self).outbound@.last()),
            (final(self).outbound@.last() == self_ipc(
                *old(self),
                ServerZoneIpcType::ServerChatMessage,
                final(self).outbound@.last().data->Ipc_data.data,
            )),
            (final(self).outbound@.last().data->Ipc_data.data matches
                ServerZoneIpcData::ServerChatMessage { message: m, param } && m@ == message@
                && param == 0),
            only_outbound_changed(*old(self), *final(self)),
    {
        let text: String = message.to_owned();
        self.send_self_ipc(
            ServerZoneIpcType::ServerChatMessage,
            ServerZoneIpcData::ServerChatMessage { message: text, param: 0 },
        );
    }

    /// Toggles the player's GM invisibility.
    pub fn toggle_invisibility(&mut self, invisible: bool)
        ensures
            final(self).player_data == (PlayerData {
                gm_invisible: invisible,
                ..old(self).player_data
            }),
            final(self).outbound@ == old(self).outbound@.push(
                self_ipc(
                    *old(self),
                    ServerZoneIpcType::ActorControlSelf,
                    ServerZoneIpcData::ActorControlSelf(
                        ActorControlSelf {
                            category: ActorControlCategory::ToggleInvisibility { invisible },
                        },
                    ),
                ),
            ),
            *final(self) == (ZoneConnection {
                player_data: final(self).player_data,
                outbound: final(self).outbound,
                ..*old(self)
            }),
    {
        self.player_data.gm_invisible = invisible;
        self.send_self_ipc(
            ServerZoneIpcType::ActorControlSelf,
            ServerZoneIpcData::ActorControlSelf(
                ActorControlSelf {
                    category: ActorControlCategory::ToggleInvisibility { invisible },
                },
            ),
        );
    }

    /// Returns control to the player after an event.
    pub fn send_unk18(&mut self, unk: [u8; 16])
        ensures
            sends_self_ipc(
                *old(self),
                *final(self),
                ServerZoneIpcType::Unk18,
                ServerZoneIpcData::Unk18 { unk },
            ),
    {
        self.send_self_ipc(ServerZoneIpcType::Unk18, ServerZoneIpcData::Unk18 { unk });
    }

    /// Acknowledges an inventory action and advances the item sequence.
    pub fn send_inventory_ack(&mut self, sequence: u32, action_type: u16)
        ensures
            final(self).player_data == (PlayerData {
                item_sequence: ((old(self).player_data.item_sequence as int + 1)
                    % 4294967296) as u32,
                ..old(self).player_data
            }),
            final(self).outbound@ == old(self).outbound@.push(
                self_ipc(
                    *old(self),
                    ServerZoneIpcType::InventoryActionAck,
                    ServerZoneIpcData::InventoryActionAck { sequence, action_type },
                ),
            ),
            *final(self) == (ZoneConnection {
                player_data: final(self).player_data,
                outbound: final(self).outbound,
                ..*old(self)
            }),
    {
        self.send_self_ipc(
            ServerZoneIpcType::InventoryActionAck,
            ServerZoneIpcData::InventoryActionAck { sequence, action_type },
        );
        self.player_data.item_sequence = self.player_data.item_sequence.wrapping_add(1);
    }

    /// Reports a shop transaction in the player's log.
    pub fn send_gilshop_ack(
        &mut self,
        event_id: u32,
        item_id: u32,
        item_quantity: u32,
        price_per_item: u32,
        message_type: u32,
    )
        requires
            item_quantity * price_per_item <= u32::MAX,
        ensures
            sends_self_ipc(
                *old(self),
                *final(self),
                ServerZoneIpcType::ShopLogMessage,
                ServerZoneIpcData::ShopLogMessage {
                    event_id,
                    message_type,
                    params_count: 3,
                    item_id,
                    item_quantity,
                    total_sale_cost: (item_quantity * price_per_item) as u32,
                },
            ),
    {
        let total_sale_cost = item_quantity * price_per_item;
        self.send_self_ipc(
            ServerZoneIpcType::ShopLogMessage,
            ServerZoneIpcData::ShopLogMessage {
                event_id,
                message_type,
                params_count: 3,
                item_id,
                item_quantity,
                total_sale_cost,
            },
        );
    }

    /// Pushes a shop-driven inventory slot update and advances the shop
    /// sequence.
    pub fn send_gilshop_item_update(
        &mut self,
        dst_storage_id: u16,
        dst_container_index: u16,
        dst_stack: u32,
        dst_catalog_id: u32,
    )
        ensures
            final(self).player_data == (PlayerData {
                shop_sequence: ((old(self).player_data.shop_sequence as int + 1)
                    % 4294967296) as u32,
                ..old(self).player_data
            }),
            final(self).outbound@ == old(self).outbound@.push(
                self_ipc(
                    *old(self),
                    ServerZoneIpcType::UpdateInventorySlot,
                    ServerZoneIpcData::UpdateInventorySlot {
                        sequence: old(self).player_data.shop_sequence,
                        dst_storage_id,
                        dst_container_index,
                        dst_stack,
                        dst_catalog_id,
                        unk1: 0x7530_0000,
                    },
                ),
            ),
            *final(self) == (ZoneConnection {
                player_data: final(self).player_data,
                outbound: final(self).outbound,
                ..*old(self)
            }),
    {
        let sequence = self.player_data.shop_sequence;
        self.send_self_ipc(
            ServerZoneIpcType::UpdateInventorySlot,
            ServerZoneIpcData::UpdateInventorySlot {
                sequence,
                dst_storage_id,
                dst_container_index,
                dst_stack,
                dst_catalog_id,
                unk1: 0x7530_0000,
            },
        );
        self.player_data.shop_sequence = self.player_data.shop_sequence.wrapping_add(1);
    }

    /// Finishes an inventory transaction, echoing the item sequence.
    pub fn send_inventory_transaction_finish(&mut self, unk1: u32, unk2: u32)
        ensures
            sends_self_ipc(
                *old(self),
                *final(self),
                ServerZoneIpcType::InventoryTransactionFinish,
                ServerZoneIpcData::InventoryTransactionFinish {
                    sequence: old(self).player_data.item_sequence,
                    sequence_repeat: old(self).player_data.item_sequence,
                    unk1,
                    unk2,
                },
            ),
    {
        let sequence = self.player_data.item_sequence;
        self.send_self_ipc(
            ServerZoneIpcType::InventoryTransactionFinish,
            ServerZoneIpcData::InventoryTransactionFinish {
                sequence,
                sequence_repeat: sequence,
                unk1,
                unk2,
            },
        );
    }

    /// Begins a graceful logout: requests the durable commit, flags the
    /// session and tells the client it may disconnect at any moment.
    pub fn begin_log_out(&mut self)
        ensures
            final(self).gracefully_logged_out,
            final(self).actions@ == old(self).actions@.push(SessionAction::CommitPlayerData),
            final(self).outbound@ == old(self).outbound@.push(
                self_ipc(
                    *old(self),
                    ServerZoneIpcType::LogOutComplete,
                    ServerZoneIpcData::LogOutComplete { unk: [0u8, 0, 0, 0, 0, 0, 0, 0] },
                ),
            ),
            *final(self) == (ZoneConnection {
                gracefully_logged_out: true,
                actions: final(self).actions,
                outbound: final(self).outbound,
                ..*old(self)
            }),
    {
        self.gracefully_logged_out = true;
        self.actions.push(SessionAction::CommitPlayerData);
        self.send_self_ipc(
            ServerZoneIpcType::LogOutComplete,
            ServerZoneIpcData::LogOutComplete { unk: [0u8, 0, 0, 0, 0, 0, 0, 0] },
        );
    }

    /// Sends the status-effect refresh when, and only when, the list is
    /// dirty; the flag is cleared after the send so an unchanged list
    /// produces no further traffic.
    pub fn process_effects_list(&mut self)
        requires
            player_data_wf(old(self).player_data),
            exp_index_ok(old(self).gamedata, old(self).player_data.classjob_id),
        ensures
            status_refresh_rel(*old(self), *final(self)),
            !old(self).status_effects.dirty ==> *final(self) == *old(self),
            old(self).status_effects.dirty ==> {
                &&& !final(self).status_effects.dirty
                &&& final(self).status_effects.status_effects@ == old(
                    self,
                ).status_effects.status_effects@
                &&& final(self).outbound@ == old(self).outbound@.push(
                    final(self).outbound@.last(),
                )
                &&& (final(self).outbound@.last() == self_ipc(
                    *old(self),
                    ServerZoneIpcType::StatusEffectList,
                    final(self).outbound@.last().data->Ipc_data.data,
                ))
                &&& (final(self).outbound@.last().data->Ipc_data.data matches
                    ServerZoneIpcData::StatusEffectList(s) && s.statues@ == old(
                    self,
                ).status_effects.status_effects@ && s.classjob_id == old(
                    self,
                ).player_data.classjob_id && s.level == current_level_spec(
                    old(self).player_data,
                    old(self).gamedata,
                ) as u8 && s.curr_hp == old(self).player_data.curr_hp && s.max_hp == old(
                    self,
                ).player_data.max_hp && s.curr_mp == old(self).player_data.curr_mp && s.max_mp
                    == old(self).player_data.max_mp)
                &&& *final(self) == (ZoneConnection {
                    status_effects: final(self).status_effects,
                    outbound: final(self).outbound,
                    ..*old(self)
                })
            },
    {
        if self.status_effects.dirty {
            let statues = copy_status_effects(&self.status_effects.status_effects);
            let level = self.current_level(&self.gamedata);
            let classjob_id = self.player_data.classjob_id;
            let curr_hp = self.player_data.curr_hp;
            let max_hp = self.player_data.max_hp;
            let curr_mp = self.player_data.curr_mp;
            let max_mp = self.player_data.max_mp;
            self.send_self_ipc(
                ServerZoneIpcType::StatusEffectList,
                ServerZoneIpcData::StatusEffectList(
                    crate::ipc::StatusEffectList {
                        statues,
                        classjob_id,
                        level: level as u8,
                        curr_hp,
                        max_hp,
                        curr_mp,
                        max_mp,
                    },
                ),
            );
            self.status_effects.dirty = false;
        }
    }

    /// Reports an actor's vitals.
    pub fn update_hp_mp(&mut self, actor_id: ObjectId, hp: u32, mp: u16)
        ensures
            final(self).outbound@ == old(self).outbound@.push(
                actor_ipc(
                    *old(self),
                    actor_id.0,
                    ServerZoneIpcType::UpdateHpMpTp,
                    ServerZoneIpcData::UpdateHpMpTp { hp, mp, unk: 0 },
                ),
            ),
            only_outbound_changed(*old(self), *final(self)),
    {
        self.send_actor_ipc(
            actor_id.0,
            ServerZoneIpcType::UpdateHpMpTp,
            ServerZoneIpcData::UpdateHpMpTp { hp, mp, unk: 0 },
        );
    }

    /// The roster entry of an actor, if it is in the client's view.
    pub fn get_actor(&self, id: ObjectId) -> (r: Option<&Actor>)
        ensures
            (match find_actor_idx(self.actors@, id.0) {
                Some(i) => r is Some && *r->0 == self.actors@[i],
                None => r is None,
            }),
    {
        let n = self.actors.len();
        let mut i: usize = 0;
        assert(self.actors@.subrange(0, n as int) =~= self.actors@);
        while i < n
            invariant
                i <= n,
                n == self.actors@.len(),
                (match find_actor_idx(self.actors@.subrange(i as int, n as int), id.0) {
                    Some(k) => find_actor_idx(self.actors@, id.0) == Some(k + i as int),
                    None => find_actor_idx(self.actors@, id.0) is None,
                }),
            decreases n - i,
        {
            let ghost t = self.actors@.subrange(i as int, n as int);
            proof {
                assert(t[0] == self.actors@[i as int]);
                assert(t.subrange(1, t.len() as int) =~= self.actors@.subrange(
                    i as int + 1,
                    n as int,
                ));
            }
            if self.actors[i].id.0 == id.0 {
                return Some(&self.actors[i]);
            }
            i = i + 1;
        }
        proof {
            assert(self.actors@.subrange(n as int, n as int) =~= Seq::<Actor>::empty());
        }
        None
    }

    /// Sends a control notification about the player's own actor.
    pub fn actor_control_self(&mut self, actor_control: ActorControlSelf)
        ensures
            sends_self_ipc(
                *old(self),
                *final(self),
                ServerZoneIpcType::ActorControlSelf,
                ServerZoneIpcData::ActorControlSelf(actor_control),
            ),
    {
        self.send_self_ipc(
            ServerZoneIpcType::ActorControlSelf,
            ServerZoneIpcData::ActorControlSelf(actor_control),
        );
    }

    /// Sends a control notification about another actor.
    pub fn actor_control(&mut self, actor_id: u32, actor_control: ActorControl)
        ensures
            final(self).outbound@ == old(self).outbound@.push(
                actor_ipc(
                    *old(self),
                    actor_id,
                    ServerZoneIpcType::ActorControl,
                    ServerZoneIpcData::ActorControl(actor_control),
                ),
            ),
            only_outbound_changed(*old(self), *final(self)),
    {
        self.send_actor_ipc(
            actor_id,
            ServerZoneIpcType::ActorControl,
            ServerZoneIpcData::ActorControl(actor_control),
        );
    }

    /// Sends a targeted control notification.
    pub fn actor_control_target(&mut self, actor_id: u32, actor_control: ActorControlTarget)
        ensures
            final(self).outbound@ == old(self).outbound@.push(
                actor_ipc(
                    *old(self),
                    actor_id,
                    ServerZoneIpcType::ActorControlTarget,
                    ServerZoneIpcData::ActorControlTarget(actor_control),
                ),
            ),
            only_outbound_changed(*old(self), *final(self)),
    {
        self.send_actor_ipc(
            actor_id,
            ServerZoneIpcType::ActorControlTarget,
            ServerZoneIpcData::ActorControlTarget(actor_control),
        );
    }

    /// Forwards another client's configuration words.
    pub fn update_config(&mut self, actor_id: u32, config: Config)
        ensures
            final(self).outbound@ == old(self).outbound@.push(
                actor_ipc(
                    *old(self),
                    actor_id,
                    ServerZoneIpcType::Config,
                    ServerZoneIpcData::Config(config),
                ),
            ),
            only_outbound_changed(*old(self), *final(self)),
    {
        self.send_actor_ipc(actor_id, ServerZoneIpcType::Config, ServerZoneIpcData::Config(config));
    }

    /// Cancels the player's current cast.
    pub fn cancel_action(&mut self)
        ensures
            sends_self_ipc(
                *old(self),
                *final(self),
                ServerZoneIpcType::ActorControlSelf,
                ServerZoneIpcData::ActorControlSelf(
                    ActorControlSelf { category: ActorControlCategory::CancelCast {  } },
                ),
            ),
    {
        self.actor_control_self(
            ActorControlSelf { category: ActorControlCategory::CancelCast {  } },
        );
    }

    /// Asks the coordinator to replay captured packets to this session.
    pub fn replay_packets(&mut self, path: &str)
        ensures
            final(self).server_messages@.len() == old(self).server_messages@.len() + 1,
            final(self).server_messages@ == old(self).server_messages@.push(
                final(self).server_messages@.last(),
            ),
            (final(self).server_messages@.last() matches ToServer::BeginReplay(cid, p) && cid == old(
                self,
            ).id && p@ == path@),
            *final(self) == (ZoneConnection {
                server_messages: final(self).server_messages,
                ..*old(self)
            }),
    {
        let id = self.id;
        self.server_messages.push(ToServer::BeginReplay(id, path.to_owned()));
    }

    /// Notifies the client that the player lost a status effect.
    pub fn lose_effect(
        &mut self,
        effect_id: u16,
        effect_param: u16,
        effect_source_actor_id: ObjectId,
    )
        ensures
            sends_self_ipc(
                *old(self),
                *final(self),
                ServerZoneIpcType::ActorControlSelf,
                ServerZoneIpcData::ActorControlSelf(
                    ActorControlSelf {
                        category: ActorControlCategory::LoseEffect {
                            effect_id: effect_id as u32,
                            unk2: effect_param as u32,
                            source_actor_id: effect_source_actor_id,
                        },
                    },
                ),
            ),
    {
        self.actor_control_self(
            ActorControlSelf {
                category: ActorControlCategory::LoseEffect {
                    effect_id: effect_id as u32,
                    unk2: effect_param as u32,
                    source_actor_id: effect_source_actor_id,
                },
            },
        );
    }

    /// Finishes the active event and returns control to the player.
    pub fn event_finish(&mut self, handler_id: u32, arg: u32, finish_type: EventFinishType)
        ensures
            event_finish_post(*old(self), handler_id, arg, finish_type, *final(self)),
    {
        self.player_data.target_actorid = ObjectTypeId { object_id: ObjectId(0), object_type: 0 };
        let event = self.event_type;
        self.send_self_ipc(
            ServerZoneIpcType::EventFinish,
            ServerZoneIpcData::EventFinish { handler_id, event, result: 1, arg },
        );
        let unk: [u8; 16] = match finish_type {
            EventFinishType::Normal => [0, 0, 0, 0, 0, 0, 0, 0, 0, 0, 0, 0, 0, 0, 0, 0],
            EventFinishType::Jumping => [0, 0, 0, 0, 1, 0, 0, 0, 0, 0, 0, 0, 0, 0, 0, 0],
        };
        self.send_unk18(unk);
    }
}

// ---------------------------------------------------------------------------
// Zone transitions
// ---------------------------------------------------------------------------

/// Relies on fastrand::u8 over the full range: a random byte. The full
/// range is never empty, so the call does not panic. Nothing can be
/// promised of the value.
#[verifier::external_body]
fn random_u8() -> u8 {
    fastrand::u8(..)
}

/// Relies on fastrand::u32 over the full range: a random 32-bit word. The
/// full range is never empty, so the call does not panic. Nothing can be
/// promised of the value.
#[verifier::external_body]
fn random_u32() -> u32 {
    fastrand::u32(..)
}

/// The layout the engine adopts for a zone id: the registered layout, or
/// an empty one when reference data has no row for it.
pub open spec fn dest_zone_model(gd: GameData, zone_id: u16) -> crate::zone::ZoneModel {
    match crate::gamedata::find_zone_idx(gd.zones@, zone_id) {
        Some(i) => gd.zones@[i]@,
        None => crate::zone::ZoneModel { id: zone_id, pop_ranges: Seq::empty() },
    }
}

/// The weather pushed on entering a zone: the deterministic selection from
/// the zone's table, or weather one when the zone has no table.
pub open spec fn weather_for_zone(gd: GameData, zone_id: u16, now: u32) -> u16 {
    match crate::gamedata::zone_weather_at(gd.weather@, zone_id as u32, now as u64) {
        Some(w) => w as u16,
        None => 1u16,
    }
}

/// The five segments a zone transition emits, in their strict order:
/// the fade-out, the class info, the repeated `Initialize`, the `InitZone`
/// carrying the bit-inverted seeds, and the item-level recompute.
pub open spec fn change_zone_segs(
    a: ZoneConnection,
    zone_id: u16,
    s1: u8,
    s2: u8,
    s3: u32,
) -> Seq<ZoneSegment> {
    seq![
        self_ipc(
            a,
            ServerZoneIpcType::PrepareZoning,
            ServerZoneIpcData::PrepareZoning {
                log_message: 0,
                target_zone: zone_id,
                animation: 0,
                param4: 0,
                hide_character: 0,
                fade_out: 1,
                param_7: 1,
                fade_out_time: 1,
                unk1: 8,
                unk2: 0,
            },
        ),
        self_ipc(
            a,
            ServerZoneIpcType::UpdateClassInfo,
            class_info_data(a.player_data, a.gamedata),
        ),
        ZoneSegment {
            source_actor: 0,
            target_actor: 0,
            data: ZoneSegmentData::Initialize {
                actor_id: a.player_data.actor_id,
                timestamp: a.now,
            },
        },
        self_ipc(
            a,
            ServerZoneIpcType::InitZone,
            ServerZoneIpcData::InitZone(
                InitZone {
                    territory_type: zone_id,
                    weather_id: weather_for_zone(a.gamedata, zone_id, a.now),
                    obsfucation_mode: (if a.config.enable_packet_obsfucation {
                        OBFUSCATION_ENABLED_MODE
                    } else {
                        0u8
                    }),
                    seed1: !s1,
                    seed2: !s2,
                    seed3: !s3,
                },
            ),
        ),
        self_ipc(
            a,
            ServerZoneIpcType::ActorControlSelf,
            ServerZoneIpcData::ActorControlSelf(
                ActorControlSelf {
                    category: ActorControlCategory::SetItemLevel {
                        level: (crate::inventory::item_level_sum(
                            a.player_data.inventory.equipped.slots@,
                        ) / (crate::inventory::EQUIPPED_SLOTS as nat)) as u32,
                    },
                },
            ),
        ),
    ]
}

/// What a zone transition does, for the seed triple that was drawn: the
/// new layout is adopted, the buyback shadow list is cleared, fresh key
/// material is derived when obfuscation is configured (the old material is
/// kept otherwise), the weather is resolved, the coordinator learns the
/// old zone was left, and the five transition segments go out in order.
pub open spec fn change_zone_post(
    a: ZoneConnection,
    zone_id: u16,
    s1: u8,
    s2: u8,
    s3: u32,
    b: ZoneConnection,
) -> bool {
    &&& (b.zone matches Some(z) && z@ == dest_zone_model(a.gamedata, zone_id))
    &&& b.player_data.zone_id == zone_id
    &&& b.player_data.buyback_list.entries@.len() == 0
    &&& b.player_data == (PlayerData {
        zone_id: zone_id,
        buyback_list: b.player_data.buyback_list,
        ..a.player_data
    })
    &&& (if a.config.enable_packet_obsfucation {
        &&& b.obsfucation_data.seed1 == s1
        &&& b.obsfucation_data.seed2 == s2
        &&& b.obsfucation_data.seed3 == s3
        &&& (b.obsfucation_data.keys matches Some(k) && k.keys@ == key_schedule(s1, s2, s3))
    } else {
        &&& b.obsfucation_data == a.obsfucation_data
        &&& s1 == a.obsfucation_data.seed1
        &&& s2 == a.obsfucation_data.seed2
        &&& s3 == a.obsfucation_data.seed3
    })
    &&& b.weather_id == weather_for_zone(a.gamedata, zone_id, a.now)
    &&& b.server_messages@ == a.server_messages@ + (match a.zone {
        Some(z) => seq![ToServer::LeftZone(a.id, a.player_data.actor_id, z.id)],
        None => Seq::<ToServer>::empty(),
    })
    &&& b.outbound@ == a.outbound@ + change_zone_segs(a, zone_id, s1, s2, s3)
    &&& b == (ZoneConnection {
        player_data: b.player_data,
        zone: b.zone,
        weather_id: b.weather_id,
        obsfucation_data: b.obsfucation_data,
        outbound: b.outbound,
        server_messages: b.server_messages,
        ..a
    })
}

/// What a warp does: the destination anchor is resolved in the new zone's
/// layout, with a fall-back to the origin when it is absent, and the zone
/// transition then runs against the warp row's zone.
pub open spec fn warp_post(
    a: ZoneConnection,
    row_pop_range_id: u32,
    row_zone_id: u16,
    s1: u8,
    s2: u8,
    s3: u32,
    b: ZoneConnection,
) -> bool {
    let dest = dest_zone_model(a.gamedata, row_zone_id);
    let exit = (match crate::zone::find_pop_range_in(dest.pop_ranges, row_pop_range_id) {
        Some(p) => Some(p.position),
        None => None,
    });
    &&& b.exit_position == exit
    &&& change_zone_post(
        ZoneConnection { exit_position: exit, ..a },
        row_zone_id,
        s1,
        s2,
        s3,
        b,
    )
}

impl ZoneConnection {
    /// Runs a zone transition, in the strict protocol order: the leaving
    /// notice to the coordinator, the new layout, the fade-out segment, a
    /// class-info update, fresh obfuscation key material when configured,
    /// the repeated `Initialize` segment, the cleared buyback list, the
    /// resolved weather in the `InitZone` segment carrying the inverted
    /// seeds, and the self-directed item-level recompute.
    pub fn change_zone(&mut self, new_zone_id: u16)
        requires
            player_data_wf(old(self).player_data),
            exp_index_ok(old(self).gamedata, old(self).player_data.classjob_id),
        ensures
            change_zone_post(
                *old(self),
                new_zone_id,
                final(self).obsfucation_data.seed1,
                final(self).obsfucation_data.seed2,
                final(self).obsfucation_data.seed3,
                *final(self),
            ),
    {
        let ghost a = *old(self);
        match &self.zone {
            Some(z) => {
                let id = self.id;
                let actor = self.player_data.actor_id;
                let zone_id = z.id;
                self.server_messages.push(ToServer::LeftZone(id, actor, zone_id));
            },
            None => {},
        }
        let zone: Zone = match self.gamedata.find_zone(new_zone_id) {
            Some(z) => z.clone(),
            None => Zone { id: new_zone_id, pop_ranges: Vec::new() },
        };
        proof {
            assert(zone@ =~= dest_zone_model(a.gamedata, new_zone_id));
        }
        self.zone = Some(zone);
        self.player_data.zone_id = new_zone_id;
        self.send_self_ipc(
            ServerZoneIpcType::PrepareZoning,
            ServerZoneIpcData::PrepareZoning {
                log_message: 0,
                target_zone: new_zone_id,
                animation: 0,
                param4: 0,
                hide_character: 0,
                fade_out: 1,
                param_7: 1,
                fade_out_time: 1,
                unk1: 8,
                unk2: 0,
            },
        );
        self.update_class_info();
        if self.config.enable_packet_obsfucation {
            let seed1 = random_u8();
            let seed2 = random_u8();
            let seed3 = random_u32();
            let keys = generate_keys(seed1, seed2, seed3);
            self.obsfucation_data = ObsfucationData { keys: Some(keys), seed1, seed2, seed3 };
        }
        let actor_id = self.player_data.actor_id;
        let timestamp = self.now;
        self.send_segment(
            ZoneSegment {
                source_actor: 0,
                target_actor: 0,
                data: ZoneSegmentData::Initialize { actor_id, timestamp },
            },
        );
        self.player_data.buyback_list = BuyBackList::default();
        let weather = self.gamedata.get_weather(new_zone_id as u32, self.now as u64);
        self.weather_id = match weather {
            Some(w) => w as u16,
            None => 1,
        };
        let seed1 = self.obsfucation_data.seed1;
        let seed2 = self.obsfucation_data.seed2;
        let seed3 = self.obsfucation_data.seed3;
        let obsfucation_mode: u8 = if self.config.enable_packet_obsfucation {
            OBFUSCATION_ENABLED_MODE
        } else {
            0
        };
        let weather_id = self.weather_id;
        self.send_self_ipc(
            ServerZoneIpcType::InitZone,
            ServerZoneIpcData::InitZone(
                InitZone {
                    territory_type: new_zone_id,
                    weather_id,
                    obsfucation_mode,
                    seed1: !seed1,
                    seed2: !seed2,
                    seed3: !seed3,
                },
            ),
        );
        let level = self.player_data.inventory.calculate_equipped_item_level();
        self.actor_control_self(
            ActorControlSelf { category: ActorControlCategory::SetItemLevel { level } },
        );
        proof {
            assert(self.outbound@ =~= a.outbound@ + change_zone_segs(
                a,
                new_zone_id,
                self.obsfucation_data.seed1,
                self.obsfucation_data.seed2,
                self.obsfucation_data.seed3,
            ));
            assert(self.server_messages@ =~= a.server_messages@ + (match a.zone {
                Some(z) => seq![ToServer::LeftZone(a.id, a.player_data.actor_id, z.id)],
                None => Seq::<ToServer>::empty(),
            }));
        }
    }

    /// Warps the player: resolves the destination anchor in the target
    /// zone's layout, falling back to the origin when the anchor is absent
    /// rather than failing the transition, then changes zone. A warp id
    /// with no reference-data row is a recoverable miss: the player is
    /// told by chat message and nothing else changes.
    pub fn warp(&mut self, warp_id: u32)
        requires
            player_data_wf(old(self).player_data),
            exp_index_ok(old(self).gamedata, old(self).player_data.classjob_id),
        ensures
            (match crate::gamedata::find_warp(old(self).gamedata.warps@, warp_id) {
                Some(row) => warp_post(
                    *old(self),
                    row.pop_range_id,
                    row.zone_id,
                    final(self).obsfucation_data.seed1,
                    final(self).obsfucation_data.seed2,
                    final(self).obsfucation_data.seed3,
                    *final(self),
                ),
                None => chat_failure_post(*old(self), ERR_WARP_NOT_FOUND@, *final(self)),
            }),
    {
        let (pop_range_id, territory_type): (u32, u16) = match self.gamedata.get_warp(warp_id) {
            Some(t) => t,
            None => {
                self.send_message(ERR_WARP_NOT_FOUND);
                proof {
                    assert(self.outbound@.subrange(0, old(self).outbound@.len() as int) =~= old(
                        self,
                    ).outbound@);
                }
                return ;
            },
        };
        let new_zone: Zone = match self.gamedata.find_zone(territory_type) {
            Some(z) => z.clone(),
            None => Zone { id: territory_type, pop_ranges: Vec::new() },
        };
        proof {
            assert(new_zone@ =~= dest_zone_model(self.gamedata, territory_type));
        }
        self.exit_position = match new_zone.find_pop_range(pop_range_id) {
            Some(p) => Some(p.position),
            None => None,
        };
        self.change_zone(territory_type);
    }

    /// Teleports the player to an aetheryte, with the same anchor
    /// resolution and origin fall-back as a warp; an aetheryte id with no
    /// reference-data row is the same recoverable miss.
    pub fn warp_aetheryte(&mut self, aetheryte_id: u32)
        requires
            player_data_wf(old(self).player_data),
            exp_index_ok(old(self).gamedata, old(self).player_data.classjob_id),
        ensures
            (match crate::gamedata::find_aetheryte(old(self).gamedata.aetherytes@, aetheryte_id) {
                Some(row) => warp_post(
                    *old(self),
                    row.pop_range_id,
                    row.zone_id,
                    final(self).obsfucation_data.seed1,
                    final(self).obsfucation_data.seed2,
                    final(self).obsfucation_data.seed3,
                    *final(self),
                ),
                None => chat_failure_post(*old(self), ERR_AETHERYTE_NOT_FOUND@, *final(self)),
            }),
    {
        let (pop_range_id, territory_type): (u32, u16) = match self.gamedata.get_aetheryte(
            aetheryte_id,
        ) {
            Some(t) => t,
            None => {
                self.send_message(ERR_AETHERYTE_NOT_FOUND);
                proof {
                    assert(self.outbound@.subrange(0, old(self).outbound@.len() as int) =~= old(
                        self,
                    ).outbound@);
                }
                return ;
            },
        };
        let new_zone: Zone = match self.gamedata.find_zone(territory_type) {
            Some(z) => z.clone(),
            None => Zone { id: territory_type, pop_ranges: Vec::new() },
        };
        proof {
            assert(new_zone@ =~= dest_zone_model(self.gamedata, territory_type));
        }
        self.exit_position = match new_zone.find_pop_range(pop_range_id) {
            Some(p) => Some(p.position),
            None => None,
        };
        self.change_zone(territory_type);
    }
}

// ---------------------------------------------------------------------------
// Events, quest information and character stats
// ---------------------------------------------------------------------------

/// The message sent when an event has no script, so the client is never
/// left waiting for a nonexistent cutscene.
pub const EVENT_UNSCRIPTED_MESSAGE: &'static str =
    "Event tried to start, but it doesn't have a script associated with it!";

/// A decoded action request from the client.
#[derive(Debug, Clone, Copy, PartialEq, Eq, Structural)]
pub struct ActionRequest {
    pub action_key: u32,
    pub target: ObjectTypeId,
}

/// The character record resolved from the durable store at login.
#[derive(Debug, Clone, PartialEq)]
pub struct CharacterData {
    pub name: String,
    pub subrace: u8,
    pub voice_id: u8,
    pub customize: Vec<u8>,
}


/// What starting a scripted event does: the target actor and event-type
/// byte are recorded, the event is announced, and the script is resolved.
pub open spec fn start_event_scripted_post(
    a: ZoneConnection,
    actor_id: ObjectTypeId,
    event_id: u32,
    event_type: u8,
    event_arg: u32,
    script: Seq<char>,
    b: ZoneConnection,
) -> bool {
    &&& b.player_data == (PlayerData { target_actorid: actor_id, ..a.player_data })
    &&& b.event_type == event_type
    &&& (b.event matches Some(e) && e.id == event_id && e.script@ == script)
    &&& b.outbound@ == a.outbound@.push(
        event_start_seg(a, actor_id, event_id, event_type, event_arg),
    )
    &&& b == (ZoneConnection {
        player_data: b.player_data,
        event_type: event_type,
        event: b.event,
        outbound: b.outbound,
        ..a
    })
}

/// What starting an unscripted event does: the event is announced and
/// immediately auto-finished with a normal completion, and the player is
/// told by chat message.
pub open spec fn start_event_unscripted_post(
    a: ZoneConnection,
    actor_id: ObjectTypeId,
    event_id: u32,
    event_type: u8,
    event_arg: u32,
    b: ZoneConnection,
) -> bool {
    &&& b.player_data == (PlayerData {
        target_actorid: ObjectTypeId { object_id: ObjectId(0), object_type: 0 },
        ..a.player_data
    })
    &&& b.event_type == event_type
    &&& b.event == a.event
    &&& b.outbound@.len() == a.outbound@.len() + 4
    &&& b.outbound@.subrange(0, a.outbound@.len() as int) == a.outbound@
    &&& b.outbound@[a.outbound@.len() as int] == event_start_seg(
        a,
        actor_id,
        event_id,
        event_type,
        event_arg,
    )
    &&& b.outbound@[a.outbound@.len() as int + 1] == self_ipc(
        a,
        ServerZoneIpcType::EventFinish,
        ServerZoneIpcData::EventFinish { handler_id: event_id, event: event_type, result: 1, arg: 0 },
    )
    &&& b.outbound@[a.outbound@.len() as int + 2] == self_ipc(
        a,
        ServerZoneIpcType::Unk18,
        ServerZoneIpcData::Unk18 { unk: [0u8, 0, 0, 0, 0, 0, 0, 0, 0, 0, 0, 0, 0, 0, 0, 0] },
    )
    &&& (b.outbound@.last() == self_ipc(
        a,
        ServerZoneIpcType::ServerChatMessage,
        b.outbound@.last().data->Ipc_data.data,
    ))
    &&& (b.outbound@.last().data->Ipc_data.data matches ServerZoneIpcData::ServerChatMessage {
        message: m,
        param,
    } && m@ == EVENT_UNSCRIPTED_MESSAGE@ && param == 0)
    &&& b == (ZoneConnection {
        player_data: b.player_data,
        event_type: event_type,
        outbound: b.outbound,
        ..a
    })
}

/// The event-start segment.
pub open spec fn event_start_seg(
    a: ZoneConnection,
    actor_id: ObjectTypeId,
    event_id: u32,
    event_type: u8,
    event_arg: u32,
) -> ZoneSegment {
    self_ipc(
        a,
        ServerZoneIpcType::EventStart,
        ServerZoneIpcData::EventStart(
            EventStart { target_id: actor_id, event_id, event_type, event_arg },
        ),
    )
}

/// The segment bucket an event scene's parameter count selects.
pub open spec fn scene_bucket(n: nat) -> Option<(ServerZoneIpcType, nat)> {
    if n <= 2 {
        Some((ServerZoneIpcType::EventScene2, 2nat))
    } else if n <= 4 {
        Some((ServerZoneIpcType::EventScene4, 4nat))
    } else if n <= 8 {
        Some((ServerZoneIpcType::EventScene8, 8nat))
    } else if n <= 16 {
        Some((ServerZoneIpcType::EventScene16, 16nat))
    } else if n <= 32 {
        Some((ServerZoneIpcType::EventScene32, 32nat))
    } else {
        None
    }
}

impl ZoneConnection {
    /// Starts an event: records the target actor and event-type byte,
    /// announces the event to the client, and resolves the event script.
    /// An unscripted event is auto-finished with a normal completion and
    /// the player is told by chat message, so the client is never left
    /// awaiting a cutscene that cannot come.
    #[verifier::rlimit(50)]
    pub fn start_event(
        &mut self,
        actor_id: ObjectTypeId,
        event_id: u32,
        event_type: u8,
        event_arg: u32,
        event_script: Option<&String>,
    )
        ensures
            (match event_script {
                Some(script) => start_event_scripted_post(
                    *old(self),
                    actor_id,
                    event_id,
                    event_type,
                    event_arg,
                    script@,
                    *final(self),
                ),
                None => start_event_unscripted_post(
                    *old(self),
                    actor_id,
                    event_id,
                    event_type,
                    event_arg,
                    *final(self),
                ),
            }),
    {
        self.player_data.target_actorid = actor_id;
        self.event_type = event_type;
        self.send_self_ipc(
            ServerZoneIpcType::EventStart,
            ServerZoneIpcData::EventStart(
                EventStart { target_id: actor_id, event_id, event_type, event_arg },
            ),
        );
        match event_script {
            Some(script) => {
                self.event = Some(Event::new(event_id, script));
            },
            None => {
                self.event_finish(event_id, 0, EventFinishType::Normal);
                self.send_message(EVENT_UNSCRIPTED_MESSAGE);
                proof {
                    assert(self.outbound@.subrange(0, old(self).outbound@.len() as int) =~= old(
                        self,
                    ).outbound@);
                }
            },
        }
    }

    /// Plays a scene of the active event. The parameter list is padded to
    /// the smallest bucket that holds it; a list too long for any bucket
    /// cannot be played, and the event is finished normally instead.
    pub fn event_scene(
        &mut self,
        target: &ObjectTypeId,
        event_id: u32,
        scene: u16,
        scene_flags: u32,
        params: Vec<u32>,
    )
        ensures
            (match scene_bucket(params@.len()) {
                Some(ob) => {
                    &&& final(self).outbound@.len() == old(self).outbound@.len() + 1
                    &&& final(self).outbound@ == old(self).outbound@.push(
                        final(self).outbound@.last(),
                    )
                    &&& (final(self).outbound@.last() == self_ipc(
                        *old(self),
                        ob.0,
                        final(self).outbound@.last().data->Ipc_data.data,
                    ))
                    &&& (final(self).outbound@.last().data->Ipc_data.data matches
                        ServerZoneIpcData::EventScene { data } && data.actor_id == *target
                        && data.event_id == event_id && data.scene == scene && data.scene_flags
                        == scene_flags && data.params_count == params@.len() as u8 && data.params@
                        == crate::ipc::pad_list(params@, ob.1, 0u32))
                    &&& only_outbound_changed(*old(self), *final(self))
                },
                None => {
                    &&& final(self).player_data == (PlayerData {
                        target_actorid: ObjectTypeId { object_id: ObjectId(0), object_type: 0 },
                        ..old(self).player_data
                    })
                    &&& final(self).outbound@ == old(self).outbound@.push(
                        self_ipc(
                            *old(self),
                            ServerZoneIpcType::EventFinish,
                            ServerZoneIpcData::EventFinish {
                                handler_id: event_id,
                                event: old(self).event_type,
                                result: 1,
                                arg: 0,
                            },
                        ),
                    ).push(
                        self_ipc(
                            *old(self),
                            ServerZoneIpcType::Unk18,
                            ServerZoneIpcData::Unk18 {
                                unk: [0u8, 0, 0, 0, 0, 0, 0, 0, 0, 0, 0, 0, 0, 0, 0, 0],
                            },
                        ),
                    )
                    &&& *final(self) == (ZoneConnection {
                        player_data: final(self).player_data,
                        outbound: final(self).outbound,
                        ..*old(self)
                    })
                },
            }),
    {
        let count = params.len();
        let (op_code, bucket): (ServerZoneIpcType, usize) = if count <= 2 {
            (ServerZoneIpcType::EventScene2, 2)
        } else if count <= 4 {
            (ServerZoneIpcType::EventScene4, 4)
        } else if count <= 8 {
            (ServerZoneIpcType::EventScene8, 8)
        } else if count <= 16 {
            (ServerZoneIpcType::EventScene16, 16)
        } else if count <= 32 {
            (ServerZoneIpcType::EventScene32, 32)
        } else {
            self.event_finish(event_id, 0, EventFinishType::Normal);
            return ;
        };
        let mut padded: Vec<u32> = Vec::new();
        let mut i: usize = 0;
        while i < bucket
            invariant
                i <= bucket,
                count == params@.len(),
                count <= bucket,
                padded@ == crate::ipc::pad_list(params@, bucket as nat, 0u32).subrange(0, i as int),
            decreases bucket - i,
        {
            let x: u32 = if i < count {
                params[i]
            } else {
                0
            };
            padded.push(x);
            proof {
                assert(padded@ =~= crate::ipc::pad_list(params@, bucket as nat, 0u32).subrange(
                    0,
                    i as int + 1,
                ));
            }
            i = i + 1;
        }
        proof {
            assert(crate::ipc::pad_list(params@, bucket as nat, 0u32).subrange(
                0,
                bucket as int,
            ) =~= crate::ipc::pad_list(params@, bucket as nat, 0u32));
        }
        let data = EventScene {
            actor_id: *target,
            event_id,
            scene,
            scene_flags,
            params_count: count as u8,
            params: padded,
        };
        self.send_self_ipc(op_code, ServerZoneIpcData::EventScene { data });
    }

    /// Pushes the player's quest information: the active list, the
    /// completed-quest bitmap, and the levequest list (all levequests are
    /// unlocked).
    pub fn send_quest_information(&mut self)
        ensures
            final(self).outbound@.len() == old(self).outbound@.len() + 3,
            final(self).outbound@.subrange(0, old(self).outbound@.len() as int) == old(
                self,
            ).outbound@,
            final(self).outbound@[old(self).outbound@.len() as int] == self_ipc(
                *old(self),
                ServerZoneIpcType::QuestActiveList,
                ServerZoneIpcData::QuestActiveList {  },
            ),
            (final(self).outbound@[old(self).outbound@.len() as int + 1] == self_ipc(
                *old(self),
                ServerZoneIpcType::QuestCompleteList,
                final(self).outbound@[old(self).outbound@.len() as int + 1].data->Ipc_data.data,
            )),
            (final(self).outbound@[old(self).outbound@.len() as int + 1].data->Ipc_data.data
                matches ServerZoneIpcData::QuestCompleteList { completed_quests, unk2 }
                && completed_quests@ == old(self).player_data.unlocks.completed_quests@ && unk2@
                == Seq::new(69nat, |i: int| 0xFFu8)),
            (final(self).outbound@.last() == self_ipc(
                *old(self),
                ServerZoneIpcType::LevequestCompleteList,
                final(self).outbound@.last().data->Ipc_data.data,
            )),
            (final(self).outbound@.last().data->Ipc_data.data matches
                ServerZoneIpcData::LevequestCompleteList { completed_levequests, unk2 }
                && completed_levequests@ == Seq::new(
                COMPLETED_LEVEQUEST_BITMASK_SIZE as nat,
                |i: int| 0xFFu8,
            ) && unk2@.len() == 0),
            only_outbound_changed(*old(self), *final(self)),
    {
        self.send_self_ipc(
            ServerZoneIpcType::QuestActiveList,
            ServerZoneIpcData::QuestActiveList {  },
        );
        let completed_quests = copy_bytes(&self.player_data.unlocks.completed_quests);
        let unk2 = filled_bytes(69, 0xFF);
        self.send_self_ipc(
            ServerZoneIpcType::QuestCompleteList,
            ServerZoneIpcData::QuestCompleteList { completed_quests, unk2 },
        );
        let completed_levequests = filled_bytes(COMPLETED_LEVEQUEST_BITMASK_SIZE, 0xFF);
        self.send_self_ipc(
            ServerZoneIpcType::LevequestCompleteList,
            ServerZoneIpcData::LevequestCompleteList { completed_levequests, unk2: Vec::new() },
        );
    }

    /// Pushes the player's attribute sheet, resolved from the tribe's
    /// racial deltas.
    pub fn send_stats(&mut self, chara_details: &CharacterData)
        requires
            (chara_details.subrace as int) < old(self).gamedata.tribes@.len(),
        ensures
            sends_self_ipc(
                *old(self),
                *final(self),
                ServerZoneIpcType::PlayerStats,
                ServerZoneIpcData::PlayerStats(
                    crate::ipc::PlayerStats {
                        strength: crate::gamedata::racial_attributes(
                            old(self).gamedata.tribes@[chara_details.subrace as int],
                        ).strength,
                        dexterity: crate::gamedata::racial_attributes(
                            old(self).gamedata.tribes@[chara_details.subrace as int],
                        ).dexterity,
                        vitality: crate::gamedata::racial_attributes(
                            old(self).gamedata.tribes@[chara_details.subrace as int],
                        ).vitality,
                        intelligence: crate::gamedata::racial_attributes(
                            old(self).gamedata.tribes@[chara_details.subrace as int],
                        ).intelligence,
                        mind: crate::gamedata::racial_attributes(
                            old(self).gamedata.tribes@[chara_details.subrace as int],
                        ).mind,
                        hp: old(self).player_data.max_hp,
                        mp: old(self).player_data.max_mp as u32,
                    },
                ),
            ),
    {
        let attributes = match self.gamedata.get_racial_base_attributes(chara_details.subrace) {
            Some(a) => a,
            None => crate::common::Attributes {
                strength: 0,
                dexterity: 0,
                vitality: 0,
                intelligence: 0,
                mind: 0,
            },
        };
        let hp = self.player_data.max_hp;
        let mp = self.player_data.max_mp as u32;
        self.send_self_ipc(
            ServerZoneIpcType::PlayerStats,
            ServerZoneIpcData::PlayerStats(
                crate::ipc::PlayerStats {
                    strength: attributes.strength,
                    dexterity: attributes.dexterity,
                    vitality: attributes.vitality,
                    intelligence: attributes.intelligence,
                    mind: attributes.mind,
                    hp,
                    mp,
                },
            ),
        );
    }

    /// Builds the common spawn body for the player from the character
    /// record, the reference data and the session state.
    pub fn get_player_common_spawn(
        &self,
        chara_details: &CharacterData,
        exit_position: Option<Position>,
        exit_rotation: Option<u32>,
    ) -> (r: crate::ipc::CommonSpawn)
        requires
            player_data_wf(self.player_data),
            exp_index_ok(self.gamedata, self.player_data.classjob_id),
        ensures
            r.class_job == self.player_data.classjob_id,
            r.name@ == chara_details.name@,
            r.hp_curr == self.player_data.curr_hp,
            r.hp_max == self.player_data.max_hp,
            r.mp_curr == self.player_data.curr_mp,
            r.mp_max == self.player_data.max_mp,
            r.level == current_level_spec(self.player_data, self.gamedata) as u8,
            r.object_kind == PLAYER_OBJECT_KIND,
            r.look@ == chara_details.customize@,
            r.display_flags == DISPLAY_FLAG_UNK,
            r.main_weapon_model == crate::inventory::main_weapon_model_of(
                self.player_data.inventory,
                self.gamedata,
            ),
            r.models@ == crate::inventory::model_ids_of(self.player_data.inventory, self.gamedata),
            r.pos == (match exit_position {
                Some(p) => p,
                None => Position { x: 0, y: 0, z: 0 },
            }),
            r.rotation == (match exit_rotation {
                Some(rot) => rot,
                None => 0u32,
            }),
            r.voice == chara_details.voice_id,
            r.spawn_index == 0,
            r.target_id == (ObjectTypeId { object_id: ObjectId(0), object_type: 0 }),
    {
        let level = self.current_level(&self.gamedata);
        let main_weapon_model = self.player_data.inventory.get_main_weapon_id(&self.gamedata);
        let models = self.player_data.inventory.get_model_ids(&self.gamedata);
        crate::ipc::CommonSpawn {
            class_job: self.player_data.classjob_id,
            level: level as u8,
            hp_curr: self.player_data.curr_hp,
            hp_max: self.player_data.max_hp,
            mp_curr: self.player_data.curr_mp,
            mp_max: self.player_data.max_mp,
            spawn_index: 0,
            target_id: ObjectTypeId { object_id: ObjectId(0), object_type: 0 },
            object_kind: PLAYER_OBJECT_KIND,
            display_flags: DISPLAY_FLAG_UNK,
            main_weapon_model,
            models,
            pos: match exit_position {
                Some(p) => p,
                None => Position { x: 0, y: 0, z: 0 },
            },
            rotation: match exit_rotation {
                Some(rot) => rot,
                None => 0,
            },
            voice: chara_details.voice_id,
            name: chara_details.name.clone(),
            look: copy_bytes(&chara_details.customize),
        }
    }
}

/// The object-kind byte of a player spawn.
pub const PLAYER_OBJECT_KIND: u8 = 1;

/// The display flag word the engine spawns players with.
pub const DISPLAY_FLAG_UNK: u32 = 262144;

// ---------------------------------------------------------------------------
// Inventory synchronization
// ---------------------------------------------------------------------------

/// A self-addressed command built from an actor id and a tick clock.
pub open spec fn self_ipc_at(
    actor_id: u32,
    now: u32,
    op: ServerZoneIpcType,
    data: ServerZoneIpcData,
) -> ZoneSegment {
    ZoneSegment {
        source_actor: actor_id,
        target_actor: actor_id,
        data: ZoneSegmentData::Ipc {
            data: ServerZoneIpcSegment { op_code: op, option: 0, timestamp: now, data },
        },
    }
}

/// The per-slot update for one item slot.
pub open spec fn item_slot_seg(
    actor_id: u32,
    now: u32,
    ct: crate::inventory::ContainerType,
    seq_no: u32,
    slot: int,
    item: Item,
) -> ZoneSegment {
    self_ipc_at(
        actor_id,
        now,
        ServerZoneIpcType::UpdateItem,
        ServerZoneIpcData::UpdateItem(
            crate::ipc::ItemSlotInfo {
                sequence: seq_no,
                container: ct,
                slot: slot as u16,
                quantity: item.quantity,
                catalog_id: item.id,
                condition: item.condition,
                glamour_catalog_id: item.glamour_catalog_id,
            },
        ),
    )
}

/// The per-slot update for one currency slot.
pub open spec fn currency_slot_seg(
    actor_id: u32,
    now: u32,
    ct: crate::inventory::ContainerType,
    seq_no: u32,
    item: Item,
) -> ZoneSegment {
    self_ipc_at(
        actor_id,
        now,
        ServerZoneIpcType::CurrencyCrystalInfo,
        ServerZoneIpcData::CurrencyCrystalInfo(
            crate::ipc::CurrencyInfo {
                sequence: seq_no,
                container: ct,
                quantity: item.quantity,
                catalog_id: item.id,
                unk1: 1,
            },
        ),
    )
}

/// The summary segment closing one container's updates.
pub open spec fn container_summary_seg(
    actor_id: u32,
    now: u32,
    ct: crate::inventory::ContainerType,
    seq_no: u32,
    num_items: u32,
) -> ZoneSegment {
    self_ipc_at(
        actor_id,
        now,
        ServerZoneIpcType::ContainerInfo,
        ServerZoneIpcData::ContainerInfo(
            crate::ipc::ContainerInfo { container: ct, num_items, sequence: seq_no },
        ),
    )
}

/// The slot updates of an item container from a slot index on: a
/// zero-quantity slot produces no segment only on the very first
/// synchronization after login; later synchronizations always report it so
/// the client can clear stale slots.
pub open spec fn item_slots_segs(
    actor_id: u32,
    now: u32,
    ct: crate::inventory::ContainerType,
    seq_no: u32,
    slots: Seq<Item>,
    from: int,
    first_update: bool,
) -> Seq<ZoneSegment>
    decreases slots.len() - from,
{
    if from < 0 || from >= slots.len() {
        Seq::empty()
    } else {
        (if slots[from].quantity == 0 && first_update {
            Seq::empty()
        } else {
            seq![item_slot_seg(actor_id, now, ct, seq_no, from, slots[from])]
        }) + item_slots_segs(actor_id, now, ct, seq_no, slots, from + 1, first_update)
    }
}

/// The slot updates of the currency container from a slot index on, with
/// the same first-synchronization suppression.
pub open spec fn currency_slots_segs(
    actor_id: u32,
    now: u32,
    ct: crate::inventory::ContainerType,
    seq_no: u32,
    slots: Seq<Item>,
    from: int,
    first_update: bool,
) -> Seq<ZoneSegment>
    decreases slots.len() - from,
{
    if from < 0 || from >= slots.len() {
        Seq::empty()
    } else {
        (if slots[from].quantity == 0 && first_update {
            Seq::empty()
        } else {
            seq![currency_slot_seg(actor_id, now, ct, seq_no, slots[from])]
        }) + currency_slots_segs(actor_id, now, ct, seq_no, slots, from + 1, first_update)
    }
}

/// One item container's updates followed by its summary.
pub open spec fn item_container_segs(
    actor_id: u32,
    now: u32,
    ct: crate::inventory::ContainerType,
    seq_no: u32,
    slots: Seq<Item>,
    first_update: bool,
) -> Seq<ZoneSegment> {
    item_slots_segs(actor_id, now, ct, seq_no, slots, 0, first_update) + seq![
        container_summary_seg(
            actor_id,
            now,
            ct,
            seq_no,
            crate::inventory::num_occupied(slots) as u32,
        ),
    ]
}

/// The currency container's updates followed by its summary.
pub open spec fn currency_container_segs(
    actor_id: u32,
    now: u32,
    seq_no: u32,
    slots: Seq<Item>,
    first_update: bool,
) -> Seq<ZoneSegment> {
    currency_slots_segs(
        actor_id,
        now,
        crate::inventory::ContainerType::Currency,
        seq_no,
        slots,
        0,
        first_update,
    ) + seq![
        container_summary_seg(
            actor_id,
            now,
            crate::inventory::ContainerType::Currency,
            seq_no,
            crate::inventory::num_occupied(slots) as u32,
        ),
    ]
}

/// Every segment one full inventory synchronization emits, over the slot
/// lists of the containers: the item pages, the equipped container and the
/// currency container in the fixed stable order, then the empty summaries
/// of the containers not yet implemented.
pub open spec fn inventory_sync_segs(
    actor: u32,
    now: u32,
    p0: Seq<Item>,
    p1: Seq<Item>,
    p2: Seq<Item>,
    p3: Seq<Item>,
    eq: Seq<Item>,
    cur: Seq<Item>,
    first_update: bool,
) -> Seq<ZoneSegment> {
    item_container_segs(actor, now, crate::inventory::ContainerType::Inventory0, 0, p0, first_update)
        + item_container_segs(
        actor,
        now,
        crate::inventory::ContainerType::Inventory1,
        1,
        p1,
        first_update,
    ) + item_container_segs(
        actor,
        now,
        crate::inventory::ContainerType::Inventory2,
        2,
        p2,
        first_update,
    ) + item_container_segs(
        actor,
        now,
        crate::inventory::ContainerType::Inventory3,
        3,
        p3,
        first_update,
    ) + item_container_segs(
        actor,
        now,
        crate::inventory::ContainerType::Equipped,
        4,
        eq,
        first_update,
    ) + currency_container_segs(actor, now, 5, cur, first_update) + seq![
        container_summary_seg(actor, now, crate::inventory::ContainerType::Crystals, 6, 0),
        container_summary_seg(actor, now, crate::inventory::ContainerType::Mail, 7, 0),
        container_summary_seg(actor, now, crate::inventory::ContainerType::Unk2, 8, 0),
        container_summary_seg(actor, now, crate::inventory::ContainerType::ArmoryWaist, 9, 0),
    ]
}

/// The synchronization segments of a connection's own inventory.
pub open spec fn inventory_sync_of(a: ZoneConnection, first_update: bool) -> Seq<ZoneSegment> {
    inventory_sync_segs(
        a.player_data.actor_id,
        a.now,
        a.player_data.inventory.pages@[0].slots@,
        a.player_data.inventory.pages@[1].slots@,
        a.player_data.inventory.pages@[2].slots@,
        a.player_data.inventory.pages@[3].slots@,
        a.player_data.inventory.equipped.slots@,
        a.player_data.inventory.currency.slots@,
        first_update,
    )
}

/// Copies an item vector.
fn copy_items(v: &Vec<Item>) -> (r: Vec<Item>)
    ensures
        r@ == v@,
{
    let n = v.len();
    let mut r: Vec<Item> = Vec::new();
    let mut i: usize = 0;
    while i < n
        invariant
            i <= n,
            n == v@.len(),
            r@ == v@.subrange(0, i as int),
        decreases n - i,
    {
        r.push(v[i]);
        assert(r@ =~= v@.subrange(0, i as int + 1));
        i = i + 1;
    }
    proof {
        assert(v@.subrange(0, n as int) =~= v@);
    }
    r
}

impl ZoneConnection {
    /// Emits one item container's per-slot updates and summary.
    fn send_item_container_copy(
        &mut self,
        ct: crate::inventory::ContainerType,
        seq_no: u32,
        slots: Vec<Item>,
        first_update: bool,
    )
        requires
            slots@.len() <= 4294967295,
        ensures
            final(self).outbound@ == old(self).outbound@ + item_container_segs(
                old(self).player_data.actor_id,
                old(self).now,
                ct,
                seq_no,
                slots@,
                first_update,
            ),
            only_outbound_changed(*old(self), *final(self)),
    {
        let ghost actor = self.player_data.actor_id;
        let ghost now0 = self.now;
        let n = slots.len();
        let mut s: usize = 0;
        while s < n
            invariant
                s <= n,
                n == slots@.len(),
                actor == self.player_data.actor_id,
                now0 == self.now,
                only_outbound_changed(*old(self), *self),
                old(self).outbound@ + item_slots_segs(actor, now0, ct, seq_no, slots@, 0, first_update)
                    == self.outbound@ + item_slots_segs(
                    actor,
                    now0,
                    ct,
                    seq_no,
                    slots@,
                    s as int,
                    first_update,
                ),
            decreases n - s,
        {
            let item = slots[s];
            if !(item.quantity == 0 && first_update) {
                self.send_self_ipc(
                    ServerZoneIpcType::UpdateItem,
                    ServerZoneIpcData::UpdateItem(
                        crate::ipc::ItemSlotInfo {
                            sequence: seq_no,
                            container: ct,
                            slot: s as u16,
                            quantity: item.quantity,
                            catalog_id: item.id,
                            condition: item.condition,
                            glamour_catalog_id: item.glamour_catalog_id,
                        },
                    ),
                );
            }
            proof {
                assert(self.outbound@ + item_slots_segs(
                    actor,
                    now0,
                    ct,
                    seq_no,
                    slots@,
                    s as int + 1,
                    first_update,
                ) =~= old(self).outbound@ + item_slots_segs(
                    actor,
                    now0,
                    ct,
                    seq_no,
                    slots@,
                    0,
                    first_update,
                ));
            }
            s = s + 1;
        }
        let container = crate::inventory::Container { slots };
        let num_items = container.num_items();
        self.send_self_ipc(
            ServerZoneIpcType::ContainerInfo,
            ServerZoneIpcData::ContainerInfo(
                crate::ipc::ContainerInfo { container: ct, num_items, sequence: seq_no },
            ),
        );
        proof {
            assert(item_slots_segs(actor, now0, ct, seq_no, slots@, n as int, first_update)
                =~= Seq::<ZoneSegment>::empty());
            assert(self.outbound@ =~= old(self).outbound@ + item_container_segs(
                actor,
                now0,
                ct,
                seq_no,
                slots@,
                first_update,
            ));
        }
    }

    /// Emits the currency container's per-slot updates and summary.
    fn send_currency_container_copy(&mut self, seq_no: u32, slots: Vec<Item>, first_update: bool)
        requires
            slots@.len() <= 4294967295,
        ensures
            final(self).outbound@ == old(self).outbound@ + currency_container_segs(
                old(self).player_data.actor_id,
                old(self).now,
                seq_no,
                slots@,
                first_update,
            ),
            only_outbound_changed(*old(self), *final(self)),
    {
        let ghost actor = self.player_data.actor_id;
        let ghost now0 = self.now;
        let ghost ct = crate::inventory::ContainerType::Currency;
        let n = slots.len();
        let mut s: usize = 0;
        while s < n
            invariant
                s <= n,
                n == slots@.len(),
                actor == self.player_data.actor_id,
                now0 == self.now,
                ct == crate::inventory::ContainerType::Currency,
                only_outbound_changed(*old(self), *self),
                old(self).outbound@ + currency_slots_segs(
                    actor,
                    now0,
                    ct,
                    seq_no,
                    slots@,
                    0,
                    first_update,
                ) == self.outbound@ + currency_slots_segs(
                    actor,
                    now0,
                    ct,
                    seq_no,
                    slots@,
                    s as int,
                    first_update,
                ),
            decreases n - s,
        {
            let item = slots[s];
            if !(item.quantity == 0 && first_update) {
                self.send_self_ipc(
                    ServerZoneIpcType::CurrencyCrystalInfo,
                    ServerZoneIpcData::CurrencyCrystalInfo(
                        crate::ipc::CurrencyInfo {
                            sequence: seq_no,
                            container: crate::inventory::ContainerType::Currency,
                            quantity: item.quantity,
                            catalog_id: item.id,
                            unk1: 1,
                        },
                    ),
                );
            }
            proof {
                assert(self.outbound@ + currency_slots_segs(
                    actor,
                    now0,
                    ct,
                    seq_no,
                    slots@,
                    s as int + 1,
                    first_update,
                ) =~= old(self).outbound@ + currency_slots_segs(
                    actor,
                    now0,
                    ct,
                    seq_no,
                    slots@,
                    0,
                    first_update,
                ));
            }
            s = s + 1;
        }
        let container = crate::inventory::Container { slots };
        let num_items = container.num_items();
        self.send_self_ipc(
            ServerZoneIpcType::ContainerInfo,
            ServerZoneIpcData::ContainerInfo(
                crate::ipc::ContainerInfo {
                    container: crate::inventory::ContainerType::Currency,
                    num_items,
                    sequence: seq_no,
                },
            ),
        );
        proof {
            assert(currency_slots_segs(actor, now0, ct, seq_no, slots@, n as int, first_update)
                =~= Seq::<ZoneSegment>::empty());
            assert(self.outbound@ =~= old(self).outbound@ + currency_container_segs(
                actor,
                now0,
                seq_no,
                slots@,
                first_update,
            ));
        }
    }

    /// Synchronizes every storage container with the client, in the fixed
    /// stable order: per-slot updates, then one summary per container, then
    /// the empty summaries of the unimplemented containers. On the very
    /// first synchronization after login, zero-quantity slots produce no
    /// segment; on any later synchronization they do, so the client can
    /// clear stale slots.
    #[verifier::rlimit(50)]
    pub fn send_inventory(&mut self, first_update: bool)
        requires
            crate::inventory::inventory_wf(old(self).player_data.inventory),
        ensures
            final(self).outbound@ == old(self).outbound@ + inventory_sync_of(
                *old(self),
                first_update,
            ),
            only_outbound_changed(*old(self), *final(self)),
    {
        let s0 = copy_items(&self.player_data.inventory.pages[0].slots);
        self.send_item_container_copy(crate::inventory::ContainerType::Inventory0, 0, s0, first_update);
        let s1 = copy_items(&self.player_data.inventory.pages[1].slots);
        self.send_item_container_copy(crate::inventory::ContainerType::Inventory1, 1, s1, first_update);
        let s2 = copy_items(&self.player_data.inventory.pages[2].slots);
        self.send_item_container_copy(crate::inventory::ContainerType::Inventory2, 2, s2, first_update);
        let s3 = copy_items(&self.player_data.inventory.pages[3].slots);
        self.send_item_container_copy(crate::inventory::ContainerType::Inventory3, 3, s3, first_update);
        let se = copy_items(&self.player_data.inventory.equipped.slots);
        self.send_item_container_copy(crate::inventory::ContainerType::Equipped, 4, se, first_update);
        let sc = copy_items(&self.player_data.inventory.currency.slots);
        self.send_currency_container_copy(5, sc, first_update);
        self.send_self_ipc(
            ServerZoneIpcType::ContainerInfo,
            ServerZoneIpcData::ContainerInfo(
                crate::ipc::ContainerInfo {
                    container: crate::inventory::ContainerType::Crystals,
                    num_items: 0,
                    sequence: 6,
                },
            ),
        );
        self.send_self_ipc(
            ServerZoneIpcType::ContainerInfo,
            ServerZoneIpcData::ContainerInfo(
                crate::ipc::ContainerInfo {
                    container: crate::inventory::ContainerType::Mail,
                    num_items: 0,
                    sequence: 7,
                },
            ),
        );
        self.send_self_ipc(
            ServerZoneIpcType::ContainerInfo,
            ServerZoneIpcData::ContainerInfo(
                crate::ipc::ContainerInfo {
                    container: crate::inventory::ContainerType::Unk2,
                    num_items: 0,
                    sequence: 8,
                },
            ),
        );
        self.send_self_ipc(
            ServerZoneIpcType::ContainerInfo,
            ServerZoneIpcData::ContainerInfo(
                crate::ipc::ContainerInfo {
                    container: crate::inventory::ContainerType::ArmoryWaist,
                    num_items: 0,
                    sequence: 9,
                },
            ),
        );
        proof {
            assert(self.outbound@ =~= old(self).outbound@ + inventory_sync_of(
                *old(self),
                first_update,
            ));
        }
    }
}

// ---------------------------------------------------------------------------
// First-synchronization suppression, stated as laws
// ---------------------------------------------------------------------------

/// Whether a segment list contains a slot update for a given container
/// slot.
pub open spec fn has_slot_update(
    segs: Seq<ZoneSegment>,
    ct: crate::inventory::ContainerType,
    slot: int,
) -> bool {
    exists|k: int|
        0 <= k < segs.len() && (#[trigger] segs[k].data matches ZoneSegmentData::Ipc { data }
            && data.data matches ServerZoneIpcData::UpdateItem(u) && u.container == ct && u.slot
            == slot as u16)
}

/// On the first synchronization after login, a zero-quantity slot produces
/// no update segment for its container.
pub proof fn lemma_first_sync_suppresses_empty_slots(
    actor_id: u32,
    now: u32,
    ct: crate::inventory::ContainerType,
    seq_no: u32,
    slots: Seq<Item>,
    from: int,
    slot: int,
)
    requires
        0 <= slot < slots.len(),
        slots.len() <= 65535,
        slots[slot].quantity == 0,
    ensures
        !has_slot_update(item_slots_segs(actor_id, now, ct, seq_no, slots, from, true), ct, slot),
    decreases slots.len() - from,
{
    if 0 <= from && from < slots.len() {
        lemma_first_sync_suppresses_empty_slots(actor_id, now, ct, seq_no, slots, from + 1, slot);
        let rest = item_slots_segs(actor_id, now, ct, seq_no, slots, from + 1, true);
        let whole = item_slots_segs(actor_id, now, ct, seq_no, slots, from, true);
        if slots[from].quantity == 0 {
            assert(whole =~= Seq::<ZoneSegment>::empty() + rest);
            assert(whole =~= rest);
        } else {
            assert forall|k: int|
                0 <= k < whole.len() implies !(#[trigger] whole[k].data matches
                ZoneSegmentData::Ipc { data } && data.data matches ServerZoneIpcData::UpdateItem(u)
                && u.container == ct && u.slot == slot as u16) by {
                if k == 0 {
                    assert(whole[0] == item_slot_seg(actor_id, now, ct, seq_no, from, slots[from]));
                    assert(slots[slot].quantity == 0 && slots[from].quantity != 0);
                } else {
                    assert(whole[k] == rest[k - 1]);
                }
            }
        }
    }
}

/// On any later synchronization, every slot of the container, a
/// zero-quantity one included, produces its update segment.
pub proof fn lemma_later_sync_reports_all_slots(
    actor_id: u32,
    now: u32,
    ct: crate::inventory::ContainerType,
    seq_no: u32,
    slots: Seq<Item>,
    from: int,
    slot: int,
)
    requires
        0 <= from <= slot < slots.len(),
        slots.len() <= 65535,
    ensures
        has_slot_update(item_slots_segs(actor_id, now, ct, seq_no, slots, from, false), ct, slot),
    decreases slots.len() - from,
{
    let whole = item_slots_segs(actor_id, now, ct, seq_no, slots, from, false);
    let rest = item_slots_segs(actor_id, now, ct, seq_no, slots, from + 1, false);
    if from == slot {
        assert(whole[0] == item_slot_seg(actor_id, now, ct, seq_no, from, slots[from]));
        assert(whole[0].data matches ZoneSegmentData::Ipc { data } && data.data matches
            ServerZoneIpcData::UpdateItem(u) && u.container == ct && u.slot == slot as u16);
    } else {
        lemma_later_sync_reports_all_slots(actor_id, now, ct, seq_no, slots, from + 1, slot);
        let k = choose|k: int|
            0 <= k < rest.len() && (#[trigger] rest[k].data matches ZoneSegmentData::Ipc { data }
                && data.data matches ServerZoneIpcData::UpdateItem(u) && u.container == ct
                && u.slot == slot as u16);
        assert(whole[k + 1] == rest[k]);
    }
}

// ---------------------------------------------------------------------------
// Action execution
// ---------------------------------------------------------------------------

/// The raw 32-bit word of the 0.6-second animation lock.
pub const ANIMATION_LOCK_BITS: u32 = 0x3F19999A;

/// Whether an effect carries status-application data.
pub open spec fn is_status_effect(e: EffectKind) -> bool {
    e matches EffectKind::Unk1 { .. }
}

/// The target's cached hit points after every damage effect is applied in
/// order, saturating at zero.
pub open spec fn apply_damage(effects: Seq<EffectKind>, hp: u32) -> u32
    decreases effects.len(),
{
    if effects.len() == 0 {
        hp
    } else {
        let next = (match effects[0] {
            EffectKind::Damage { amount } => (if hp >= amount {
                (hp - amount) as u32
            } else {
                0u32
            }),
            EffectKind::Unk1 { .. } => hp,
        });
        apply_damage(effects.subrange(1, effects.len() as int), next)
    }
}

/// The wire form of one effect slot.
pub open spec fn effect_to_wire(e: EffectKind) -> crate::ipc::ActionEffect {
    match e {
        EffectKind::Damage { amount } => crate::ipc::ActionEffect {
            kind: 3,
            param0: 0,
            param1: 0,
            param2: 0,
            value: amount,
        },
        EffectKind::Unk1 { effect_id, .. } => crate::ipc::ActionEffect {
            kind: 14,
            param0: 0,
            param1: 0,
            param2: 0,
            value: effect_id,
        },
    }
}

/// The effect-result entry for the k-th status application.
pub open spec fn status_entry(k: int, e: EffectKind) -> crate::ipc::EffectEntry {
    crate::ipc::EffectEntry {
        index: k as u8,
        unk1: 0,
        id: e->Unk1_effect_id,
        param: e->Unk1_param,
        unk2: 0,
        duration: e->Unk1_duration,
        source_actor_id: ObjectId(crate::common::INVALID_OBJECT_ID),
    }
}

/// The coordinator message for one gained status.
pub open spec fn gain_effect_msg(a: ZoneConnection, e: EffectKind) -> ToServer {
    ToServer::GainEffect(
        a.id,
        a.player_data.actor_id,
        e->Unk1_effect_id,
        e->Unk1_duration,
        e->Unk1_param,
        e->Unk1_source_actor_id,
    )
}

/// A prefix has at most as many filtered elements as the whole.
proof fn lemma_filter_prefix_len<T>(s: Seq<T>, j: int, p: spec_fn(T) -> bool)
    requires
        0 <= j <= s.len(),
    ensures
        s.subrange(0, j).filter(p).len() <= s.filter(p).len(),
    decreases s.len() - j,
{
    if j == s.len() {
        assert(s.subrange(0, j) =~= s);
    } else {
        lemma_filter_prefix_len(s, j + 1, p);
        let a = s.subrange(0, j);
        let b = s.subrange(0, j + 1);
        assert(b =~= a.push(s[j]));
        a.lemma_filter_push(s[j], p);
    }
}

/// What executing a scripted action does: damage effects are applied to
/// the roster's cached copy of the target, the vitals update and the
/// action result (bounded to eight effect slots) go out, the effect result
/// carries one entry per status application (bounded to four), and each
/// status is forwarded to the coordinator.
pub open spec fn execute_action_post(
    a: ZoneConnection,
    request: ActionRequest,
    b: EffectsBuilder,
    post: ZoneConnection,
) -> bool {
    let found = find_actor_idx(a.actors@, request.target.object_id.0);
    let statuses = b.effects@.filter((|e: EffectKind| is_status_effect(e)));
    let base = a.outbound@.len() as int;
    let k = base + (if found is Some {
        1int
    } else {
        0int
    });
    &&& (match found {
        Some(i) => post.actors@ == a.actors@.update(
            i,
            Actor { hp: apply_damage(b.effects@, a.actors@[i].hp), ..a.actors@[i] },
        ),
        None => post.actors@ == a.actors@,
    })
    &&& post.outbound@.len() == k + 2
    &&& post.outbound@.subrange(0, base) == a.outbound@
    &&& (found matches Some(i) ==> post.outbound@[base] == actor_ipc(
        a,
        request.target.object_id.0,
        ServerZoneIpcType::UpdateHpMpTp,
        ServerZoneIpcData::UpdateHpMpTp {
            hp: apply_damage(b.effects@, a.actors@[i].hp),
            mp: 10000,
            unk: 0,
        },
    ))
    &&& (post.outbound@[k] == self_ipc(
        a,
        ServerZoneIpcType::ActionResult,
        post.outbound@[k].data->Ipc_data.data,
    ))
    &&& (post.outbound@[k].data->Ipc_data.data matches ServerZoneIpcData::ActionResult(ar)
        && ar.main_target == request.target && ar.target_id_again == request.target && ar.action_id
        == request.action_key && ar.animation_lock_time == ANIMATION_LOCK_BITS && ar.rotation
        == a.player_data.rotation && ar.action_animation_id == request.action_key as u16 && ar.flag
        == 1 && ar.effect_count == b.effects@.len() as u8 && ar.effects@ == b.effects@.map_values(
        (|e: EffectKind| effect_to_wire(e)),
    ) && ar.unk1 == 2662353 && ar.unk2 == 3758096384 && ar.hidden_animation == 1)
    &&& (post.outbound@[k + 1] == self_ipc(
        a,
        ServerZoneIpcType::EffectResult,
        post.outbound@[k + 1].data->Ipc_data.data,
    ))
    &&& (post.outbound@[k + 1].data->Ipc_data.data matches ServerZoneIpcData::EffectResult(er)
        && er.unk1 == 1 && er.unk2 == 776386 && er.target_id == request.target.object_id
        && er.current_hp == a.player_data.curr_hp && er.max_hp == a.player_data.max_hp
        && er.current_mp == a.player_data.curr_mp && er.unk3 == 0 && er.class_id
        == a.player_data.classjob_id && er.shield == 0 && er.entry_count == statuses.len() as u8
        && er.unk4 == 0 && er.statuses@ == statuses.map((|q: int, e: EffectKind| status_entry(q, e))))
    &&& post.server_messages@ == a.server_messages@ + statuses.map_values(
        (|e: EffectKind| gain_effect_msg(a, e)),
    )
    &&& post == (ZoneConnection {
        actors: post.actors,
        outbound: post.outbound,
        server_messages: post.server_messages,
        ..a
    })
}

impl ZoneConnection {
    /// Executes an action request against the effect list its script
    /// returned. An action whose id has no script is rejected with no
    /// effect applied.
    pub fn execute_action(&mut self, request: ActionRequest, effects: Option<EffectsBuilder>)
        requires
            (match effects {
                Some(b) => b.effects@.len() <= 8 && b.effects@.filter(
                    (|e: EffectKind| is_status_effect(e)),
                ).len() <= 4,
                None => true,
            }),
        ensures
            effects is None ==> *final(self) == *old(self),
            (effects matches Some(b) ==> execute_action_post(*old(self), request, b, *final(self))),
    {
        let builder = match effects {
            Some(b) => b,
            None => {
                return ;
            },
        };
        let ghost a = *old(self);
        let ghost pred = (|e: EffectKind| is_status_effect(e));
        let effect_count = builder.effects.len();
        // Find the target in the roster.
        let n = self.actors.len();
        let mut idx: usize = 0;
        let mut found: bool = false;
        assert(self.actors@.subrange(0, n as int) =~= self.actors@);
        while idx < n && !found
            invariant
                idx <= n,
                n == self.actors@.len(),
                *self == a,
                !found ==> (match find_actor_idx(
                    self.actors@.subrange(idx as int, n as int),
                    request.target.object_id.0,
                ) {
                    Some(q) => find_actor_idx(self.actors@, request.target.object_id.0) == Some(
                        q + idx as int,
                    ),
                    None => find_actor_idx(self.actors@, request.target.object_id.0) is None,
                }),
                found ==> idx < n && find_actor_idx(self.actors@, request.target.object_id.0)
                    == Some(idx as int) && self.actors@[idx as int].id.0
                    == request.target.object_id.0,
            decreases n - idx, (if found { 0int } else { 1int }),
        {
            let ghost t = self.actors@.subrange(idx as int, n as int);
            proof {
                assert(t[0] == self.actors@[idx as int]);
                assert(t.subrange(1, t.len() as int) =~= self.actors@.subrange(
                    idx as int + 1,
                    n as int,
                ));
            }
            if self.actors[idx].id.0 == request.target.object_id.0 {
                found = true;
            } else {
                idx = idx + 1;
            }
        }
        // Apply damage effects to the cached copy and report the vitals.
        if found {
            let mut hp = self.actors[idx].hp;
            let ghost hp0 = hp;
            let mut j: usize = 0;
            assert(builder.effects@.subrange(0, effect_count as int) =~= builder.effects@);
            while j < effect_count
                invariant
                    j <= effect_count,
                    effect_count == builder.effects@.len(),
                    apply_damage(builder.effects@, hp0) == apply_damage(
                        builder.effects@.subrange(j as int, effect_count as int),
                        hp,
                    ),
                decreases effect_count - j,
            {
                let ghost t = builder.effects@.subrange(j as int, effect_count as int);
                proof {
                    assert(t[0] == builder.effects@[j as int]);
                    assert(t.subrange(1, t.len() as int) =~= builder.effects@.subrange(
                        j as int + 1,
                        effect_count as int,
                    ));
                }
                match builder.effects[j] {
                    EffectKind::Damage { amount } => {
                        hp = if hp >= amount as u32 {
                            hp - amount as u32
                        } else {
                            0
                        };
                    },
                    EffectKind::Unk1 { .. } => {},
                }
                j = j + 1;
            }
            proof {
                assert(builder.effects@.subrange(
                    effect_count as int,
                    effect_count as int,
                ) =~= Seq::<EffectKind>::empty());
            }
            let prev = self.actors[idx];
            let updated = Actor { hp, ..prev };
            self.actors.set(idx, updated);
            self.update_hp_mp(updated.id, hp, 10000);
        }
        // The action result, bounded to eight effect slots.
        let mut wire_effects: Vec<crate::ipc::ActionEffect> = Vec::new();
        let mut j: usize = 0;
        while j < effect_count
            invariant
                j <= effect_count,
                effect_count == builder.effects@.len(),
                wire_effects@ == builder.effects@.subrange(0, j as int).map_values(
                    (|e: EffectKind| effect_to_wire(e)),
                ),
            decreases effect_count - j,
        {
            let wire = match builder.effects[j] {
                EffectKind::Damage { amount } => crate::ipc::ActionEffect {
                    kind: 3,
                    param0: 0,
                    param1: 0,
                    param2: 0,
                    value: amount,
                },
                EffectKind::Unk1 { effect_id, .. } => crate::ipc::ActionEffect {
                    kind: 14,
                    param0: 0,
                    param1: 0,
                    param2: 0,
                    value: effect_id,
                },
            };
            wire_effects.push(wire);
            proof {
                assert(wire_effects@ =~= builder.effects@.subrange(0, j as int + 1).map_values(
                    (|e: EffectKind| effect_to_wire(e)),
                ));
            }
            j = j + 1;
        }
        proof {
            assert(builder.effects@.subrange(0, effect_count as int) =~= builder.effects@);
        }
        let rotation = self.player_data.rotation;
        self.send_self_ipc(
            ServerZoneIpcType::ActionResult,
            ServerZoneIpcData::ActionResult(
                crate::ipc::ActionResult {
                    main_target: request.target,
                    target_id_again: request.target,
                    action_id: request.action_key,
                    animation_lock_time: ANIMATION_LOCK_BITS,
                    rotation,
                    action_animation_id: request.action_key as u16,
                    flag: 1,
                    effect_count: effect_count as u8,
                    effects: wire_effects,
                    unk1: 2662353,
                    unk2: 3758096384,
                    hidden_animation: 1,
                },
            ),
        );
        // The effect result, bounded to four status slots, each status also
        // forwarded to the coordinator.
        let mut entries: Vec<crate::ipc::EffectEntry> = Vec::new();
        let mut count: u8 = 0;
        let mut j: usize = 0;
        let ghost mid = *self;
        proof {
            assert(builder.effects@.subrange(0, 0).filter(pred)
                =~= Seq::<EffectKind>::empty().filter(pred));
            assert(Seq::<EffectKind>::empty().filter(pred) =~= Seq::<EffectKind>::empty());
        }
        while j < effect_count
            invariant
                j <= effect_count,
                effect_count == builder.effects@.len(),
                builder.effects@.filter(pred).len() <= 4,
                pred == (|e: EffectKind| is_status_effect(e)),
                count as int == builder.effects@.subrange(0, j as int).filter(pred).len(),
                entries@ == builder.effects@.subrange(0, j as int).filter(pred).map(
                    (|q: int, e: EffectKind| status_entry(q, e)),
                ),
                self.server_messages@ == a.server_messages@ + builder.effects@.subrange(
                    0,
                    j as int,
                ).filter(pred).map_values((|e: EffectKind| gain_effect_msg(a, e))),
                a.id == self.id,
                a.player_data == self.player_data,
                mid.server_messages@ == a.server_messages@,
                *self == (ZoneConnection { server_messages: self.server_messages, ..mid }),
            decreases effect_count - j,
        {
            let ghost prefix = builder.effects@.subrange(0, j as int);
            proof {
                assert(builder.effects@.subrange(0, j as int + 1) =~= prefix.push(
                    builder.effects@[j as int],
                ));
                prefix.lemma_filter_push(builder.effects@[j as int], pred);
                lemma_filter_prefix_len(builder.effects@, j as int + 1, pred);
            }
            match builder.effects[j] {
                EffectKind::Unk1 { effect_id, duration, param, source_actor_id } => {
                    entries.push(
                        crate::ipc::EffectEntry {
                            index: count,
                            unk1: 0,
                            id: effect_id,
                            param,
                            unk2: 0,
                            duration,
                            source_actor_id: ObjectId(crate::common::INVALID_OBJECT_ID),
                        },
                    );
                    let id = self.id;
                    let actor_id = self.player_data.actor_id;
                    self.server_messages.push(
                        ToServer::GainEffect(
                            id,
                            actor_id,
                            effect_id,
                            duration,
                            param,
                            source_actor_id,
                        ),
                    );
                    count = count + 1;
                    proof {
                        assert(entries@ =~= builder.effects@.subrange(0, j as int + 1).filter(
                            pred,
                        ).map((|q: int, e: EffectKind| status_entry(q, e))));
                        assert(self.server_messages@ =~= a.server_messages@
                            + builder.effects@.subrange(0, j as int + 1).filter(pred).map_values(
                            (|e: EffectKind| gain_effect_msg(a, e)),
                        ));
                    }
                },
                EffectKind::Damage { .. } => {
                    proof {
                        assert(entries@ =~= builder.effects@.subrange(0, j as int + 1).filter(
                            pred,
                        ).map((|q: int, e: EffectKind| status_entry(q, e))));
                        assert(self.server_messages@ =~= a.server_messages@
                            + builder.effects@.subrange(0, j as int + 1).filter(pred).map_values(
                            (|e: EffectKind| gain_effect_msg(a, e)),
                        ));
                    }
                },
            }
            j = j + 1;
        }
        proof {
            assert(builder.effects@.subrange(0, effect_count as int) =~= builder.effects@);
        }
        let curr_hp = self.player_data.curr_hp;
        let max_hp = self.player_data.max_hp;
        let curr_mp = self.player_data.curr_mp;
        let class_id = self.player_data.classjob_id;
        self.send_self_ipc(
            ServerZoneIpcType::EffectResult,
            ServerZoneIpcData::EffectResult(
                crate::ipc::EffectResult {
                    unk1: 1,
                    unk2: 776386,
                    target_id: request.target.object_id,
                    current_hp: curr_hp,
                    max_hp,
                    current_mp: curr_mp,
                    unk3: 0,
                    class_id,
                    shield: 0,
                    entry_count: count,
                    unk4: 0,
                    statuses: entries,
                },
            ),
        );
        proof {
            assert(self.outbound@.subrange(0, a.outbound@.len() as int) =~= a.outbound@);
        }
    }
}

// ---------------------------------------------------------------------------
// The task queue
// ---------------------------------------------------------------------------

/// Unsigned addition saturating at the maximum.
pub open spec fn add_sat(a: u32, b: u32) -> u32 {
    if a + b > u32::MAX {
        u32::MAX
    } else {
        (a + b) as u32
    }
}

/// Unsigned subtraction saturating at zero.
pub open spec fn sub_sat(a: u32, b: u32) -> u32 {
    if a >= b {
        (a - b) as u32
    } else {
        0u32
    }
}

/// The teleport-unlock notification for one aetheryte id.
pub open spec fn learn_teleport_seg(actor: u32, now: u32, id: u32, on: bool) -> ZoneSegment {
    self_ipc_at(
        actor,
        now,
        ServerZoneIpcType::ActorControlSelf,
        ServerZoneIpcData::ActorControlSelf(
            ActorControlSelf { category: ActorControlCategory::LearnTeleport { id, unlocked: on } },
        ),
    )
}

/// The aetheryte bitmap after the bulk unlock has processed ids one
/// through `i`: each id's bit is set when unlocking and toggled when not.
pub open spec fn bulk_aetherytes(bm: Seq<u8>, i: nat, on: bool) -> Seq<u8>
    decreases i,
{
    if i == 0 {
        bm
    } else {
        let prev = bulk_aetherytes(bm, (i - 1) as nat, on);
        let idx = flag_index_of(i as u32) as int;
        let v = flag_value_of(i as u32);
        prev.update(
            idx,
            (if on {
                prev[idx] | v
            } else {
                prev[idx] ^ v
            }),
        )
    }
}

/// A failure reported to the player as a single chat message, with no
/// other state change.
pub open spec fn chat_failure_post(a: ZoneConnection, text: Seq<char>, b: ZoneConnection) -> bool {
    &&& b.outbound@.len() == a.outbound@.len() + 1
    &&& b.outbound@.subrange(0, a.outbound@.len() as int) == a.outbound@
    &&& (b.outbound@.last() == self_ipc(
        a,
        ServerZoneIpcType::ServerChatMessage,
        b.outbound@.last().data->Ipc_data.data,
    ))
    &&& (b.outbound@.last().data->Ipc_data.data matches ServerZoneIpcData::ServerChatMessage {
        message: m,
        param,
    } && m@ == text && param == 0)
    &&& b == (ZoneConnection { outbound: b.outbound, ..a })
}

/// What a task needs before it can be applied: only that unlock ids
/// address their bitmaps. Reference-data misses (an unknown warp,
/// teleport or job) are handled as recoverable failures, not excluded.
pub open spec fn task_wf(t: Task, gd: GameData) -> bool {
    match t {
        Task::Unlock { id } => id < 8 * UNLOCK_BITMASK_SIZE,
        Task::UnlockAetheryte { id, on } => id == 0 || id < 8 * AETHERYTE_UNLOCK_BITMASK_SIZE,
        _ => true,
    }
}

/// One task's exact effect on the session.
pub open spec fn task_step(
    a: ZoneConnection,
    t: Task,
    scripts: Map<u32, String>,
    b: ZoneConnection,
) -> bool {
    match t {
        Task::ChangeTerritory { zone_id } => exists|s1: u8, s2: u8, s3: u32|
            #[trigger] change_zone_post(a, zone_id, s1, s2, s3, b),
        Task::SetRemakeMode(mode) => {
            &&& b.actions@ == a.actions@.push(
                SessionAction::SetRemakeMode(a.player_data.content_id, mode),
            )
            &&& b == (ZoneConnection { actions: b.actions, ..a })
        },
        Task::Warp { warp_id } => (match crate::gamedata::find_warp(a.gamedata.warps@, warp_id) {
            Some(row) => exists|s1: u8, s2: u8, s3: u32|
                #[trigger] warp_post(a, row.pop_range_id, row.zone_id, s1, s2, s3, b),
            None => chat_failure_post(a, ERR_WARP_NOT_FOUND@, b),
        }),
        Task::BeginLogOut => {
            &&& b.gracefully_logged_out
            &&& b.actions@ == a.actions@.push(SessionAction::CommitPlayerData)
            &&& b.outbound@ == a.outbound@.push(
                self_ipc(
                    a,
                    ServerZoneIpcType::LogOutComplete,
                    ServerZoneIpcData::LogOutComplete { unk: [0u8, 0, 0, 0, 0, 0, 0, 0] },
                ),
            )
            &&& b == (ZoneConnection {
                gracefully_logged_out: true,
                actions: b.actions,
                outbound: b.outbound,
                ..a
            })
        },
        Task::FinishEvent { handler_id, arg, finish_type } => event_finish_post(
            a,
            handler_id,
            arg,
            finish_type,
            b,
        ),
        Task::SetClassJob { classjob_id } => {
            if exp_index_ok(a.gamedata, classjob_id) {
                &&& b.player_data == (PlayerData { classjob_id, ..a.player_data })
                &&& b.outbound@ == a.outbound@.push(
                    self_ipc_at(
                        a.player_data.actor_id,
                        a.now,
                        ServerZoneIpcType::UpdateClassInfo,
                        class_info_data(b.player_data, a.gamedata),
                    ),
                )
                &&& b == (ZoneConnection { player_data: b.player_data, outbound: b.outbound, ..a })
            } else {
                b == a
            }
        },
        Task::WarpAetheryte { aetheryte_id } => (match crate::gamedata::find_aetheryte(
            a.gamedata.aetherytes@,
            aetheryte_id,
        ) {
            Some(row) => exists|s1: u8, s2: u8, s3: u32|
                #[trigger] warp_post(a, row.pop_range_id, row.zone_id, s1, s2, s3, b),
            None => chat_failure_post(a, ERR_AETHERYTE_NOT_FOUND@, b),
        }),
        Task::ReloadScripts => {
            &&& b.actions@ == a.actions@.push(SessionAction::ReloadScripts)
            &&& b == (ZoneConnection { actions: b.actions, ..a })
        },
        Task::ToggleInvisibility { invisible } => {
            &&& b.player_data == (PlayerData { gm_invisible: invisible, ..a.player_data })
            &&& b.outbound@ == a.outbound@.push(
                self_ipc(
                    a,
                    ServerZoneIpcType::ActorControlSelf,
                    ServerZoneIpcData::ActorControlSelf(
                        ActorControlSelf {
                            category: ActorControlCategory::ToggleInvisibility { invisible },
                        },
                    ),
                ),
            )
            &&& b == (ZoneConnection { player_data: b.player_data, outbound: b.outbound, ..a })
        },
        Task::Unlock { id } => {
            let idx = flag_index_of(id) as int;
            let v = flag_value_of(id);
            &&& b.player_data.unlocks.unlocks@ == a.player_data.unlocks.unlocks@.update(
                idx,
                (a.player_data.unlocks.unlocks@[idx] | v),
            )
            &&& b.player_data.unlocks == (UnlockData {
                unlocks: b.player_data.unlocks.unlocks,
                ..a.player_data.unlocks
            })
            &&& b.player_data == (PlayerData { unlocks: b.player_data.unlocks, ..a.player_data })
            &&& b.outbound@ == a.outbound@.push(
                self_ipc(
                    a,
                    ServerZoneIpcType::ActorControlSelf,
                    ServerZoneIpcData::ActorControlSelf(
                        ActorControlSelf {
                            category: ActorControlCategory::ToggleUnlock { id, unlocked: true },
                        },
                    ),
                ),
            )
            &&& b == (ZoneConnection { player_data: b.player_data, outbound: b.outbound, ..a })
        },
        Task::UnlockAetheryte { id, on } => {
            if id == 0 {
                &&& b.player_data.unlocks.aetherytes@ == bulk_aetherytes(
                    a.player_data.unlocks.aetherytes@,
                    238,
                    on,
                )
                &&& b.outbound@ == a.outbound@ + Seq::new(
                    238,
                    |k: int| learn_teleport_seg(a.player_data.actor_id, a.now, (k + 1) as u32, on),
                )
                &&& b.player_data.unlocks == (UnlockData {
                    aetherytes: b.player_data.unlocks.aetherytes,
                    ..a.player_data.unlocks
                })
                &&& b.player_data == (PlayerData {
                    unlocks: b.player_data.unlocks,
                    ..a.player_data
                })
                &&& b == (ZoneConnection { player_data: b.player_data, outbound: b.outbound, ..a })
            } else {
                let idx = flag_index_of(id) as int;
                let v = flag_value_of(id);
                &&& b.player_data.unlocks.aetherytes@ == a.player_data.unlocks.aetherytes@.update(
                    idx,
                    (if on {
                        (a.player_data.unlocks.aetherytes@[idx] | v)
                    } else {
                        (a.player_data.unlocks.aetherytes@[idx] ^ v)
                    }),
                )
                &&& b.player_data.unlocks == (UnlockData {
                    aetherytes: b.player_data.unlocks.aetherytes,
                    ..a.player_data.unlocks
                })
                &&& b.player_data == (PlayerData {
                    unlocks: b.player_data.unlocks,
                    ..a.player_data
                })
                &&& b.outbound@ == a.outbound@.push(
                    learn_teleport_seg(a.player_data.actor_id, a.now, id, on),
                )
                &&& b == (ZoneConnection { player_data: b.player_data, outbound: b.outbound, ..a })
            }
        },
        Task::SetLevel { level } => {
            &&& b.player_data.classjob_levels@ == a.player_data.classjob_levels@.update(
                exp_index_of(a.gamedata, a.player_data.classjob_id),
                level,
            )
            &&& b.player_data == (PlayerData {
                classjob_levels: b.player_data.classjob_levels,
                ..a.player_data
            })
            &&& b.outbound@ == a.outbound@.push(
                self_ipc_at(
                    a.player_data.actor_id,
                    a.now,
                    ServerZoneIpcType::UpdateClassInfo,
                    class_info_data(b.player_data, a.gamedata),
                ),
            )
            &&& b == (ZoneConnection { player_data: b.player_data, outbound: b.outbound, ..a })
        },
        Task::ChangeWeather { id } => {
            &&& b.weather_id == id
            &&& b.outbound@ == a.outbound@.push(
                self_ipc(
                    a,
                    ServerZoneIpcType::WeatherId,
                    ServerZoneIpcData::WeatherId(
                        WeatherChange {
                            weather_id: id,
                            transistion_time: WEATHER_TRANSITION_TIME_BITS,
                        },
                    ),
                ),
            )
            &&& b == (ZoneConnection { weather_id: id, outbound: b.outbound, ..a })
        },
        Task::AddGil { amount } => {
            let slots = a.player_data.inventory.currency.slots@;
            &&& b.player_data.inventory.currency.slots@ == slots.update(
                0,
                Item { quantity: add_sat(slots[0].quantity, amount), ..slots[0] },
            )
            &&& b.player_data.inventory == (Inventory {
                currency: b.player_data.inventory.currency,
                ..a.player_data.inventory
            })
            &&& b.player_data == (PlayerData {
                inventory: b.player_data.inventory,
                ..a.player_data
            })
            &&& b.outbound@ == a.outbound@ + inventory_sync_segs(
                a.player_data.actor_id,
                a.now,
                a.player_data.inventory.pages@[0].slots@,
                a.player_data.inventory.pages@[1].slots@,
                a.player_data.inventory.pages@[2].slots@,
                a.player_data.inventory.pages@[3].slots@,
                a.player_data.inventory.equipped.slots@,
                b.player_data.inventory.currency.slots@,
                false,
            )
            &&& b == (ZoneConnection { player_data: b.player_data, outbound: b.outbound, ..a })
        },
        Task::RemoveGil { amount, send_client_update } => {
            let slots = a.player_data.inventory.currency.slots@;
            &&& b.player_data.inventory.currency.slots@ == slots.update(
                0,
                Item { quantity: sub_sat(slots[0].quantity, amount), ..slots[0] },
            )
            &&& b.player_data.inventory == (Inventory {
                currency: b.player_data.inventory.currency,
                ..a.player_data.inventory
            })
            &&& b.player_data == (PlayerData {
                inventory: b.player_data.inventory,
                ..a.player_data
            })
            &&& b.outbound@ == a.outbound@ + (if send_client_update {
                inventory_sync_segs(
                    a.player_data.actor_id,
                    a.now,
                    a.player_data.inventory.pages@[0].slots@,
                    a.player_data.inventory.pages@[1].slots@,
                    a.player_data.inventory.pages@[2].slots@,
                    a.player_data.inventory.pages@[3].slots@,
                    a.player_data.inventory.equipped.slots@,
                    b.player_data.inventory.currency.slots@,
                    false,
                )
            } else {
                Seq::<ZoneSegment>::empty()
            })
            &&& b == (ZoneConnection { player_data: b.player_data, outbound: b.outbound, ..a })
        },
        Task::UnlockOrchestrion { id, on } => {
            if id == 0 {
                b == a
            } else {
                &&& b.outbound@ == a.outbound@.push(
                    self_ipc(
                        a,
                        ServerZoneIpcType::ActorControlSelf,
                        ServerZoneIpcData::ActorControlSelf(
                            ActorControlSelf {
                                category: ActorControlCategory::ToggleOrchestrionUnlock {
                                    song_id: id as u32,
                                    unlocked: on,
                                },
                            },
                        ),
                    ),
                )
                &&& b == (ZoneConnection { outbound: b.outbound, ..a })
            }
        },
        Task::AddItem { id, quantity, send_client_update } => (match crate::gamedata::find_item(
            a.gamedata.items@,
            crate::gamedata::ItemInfoQuery::ById(id),
        ) {
            Some(row) => (match crate::inventory::first_free_page_slot(
                a.player_data.inventory.pages@,
            ) {
                Some(ps) => {
                    let item = Item {
                        quantity,
                        id: row.id,
                        condition: 30000,
                        glamour_catalog_id: 0,
                        item_level: row.item_level,
                    };
                    &&& b.player_data.inventory.pages@.len()
                        == a.player_data.inventory.pages@.len()
                    &&& b.player_data.inventory.pages@[ps.0].slots@
                        == a.player_data.inventory.pages@[ps.0].slots@.update(ps.1, item)
                    &&& (forall|j: int|
                        0 <= j < a.player_data.inventory.pages@.len() && j != ps.0
                            ==> #[trigger] b.player_data.inventory.pages@[j]
                            == a.player_data.inventory.pages@[j])
                    &&& b.player_data.inventory == (Inventory {
                        pages: b.player_data.inventory.pages,
                        ..a.player_data.inventory
                    })
                    &&& b.player_data == (PlayerData {
                        inventory: b.player_data.inventory,
                        ..a.player_data
                    })
                    &&& b.outbound@ == a.outbound@ + (if send_client_update {
                        inventory_sync_segs(
                            a.player_data.actor_id,
                            a.now,
                            b.player_data.inventory.pages@[0].slots@,
                            b.player_data.inventory.pages@[1].slots@,
                            b.player_data.inventory.pages@[2].slots@,
                            b.player_data.inventory.pages@[3].slots@,
                            a.player_data.inventory.equipped.slots@,
                            a.player_data.inventory.currency.slots@,
                            false,
                        )
                    } else {
                        Seq::<ZoneSegment>::empty()
                    })
                    &&& b == (ZoneConnection {
                        player_data: b.player_data,
                        outbound: b.outbound,
                        ..a
                    })
                },
                None => chat_failure_post(a, ERR_INVENTORY_ADD_FAILED@, b),
            }),
            None => chat_failure_post(a, ERR_INVENTORY_ADD_FAILED@, b),
        }),
        Task::CompleteAllQuests {  } => {
            &&& b.player_data.unlocks.completed_quests@ == Seq::new(
                COMPLETED_QUEST_BITMASK_SIZE as nat,
                |i: int| 0xFFu8,
            )
            &&& b.player_data.unlocks == (UnlockData {
                completed_quests: b.player_data.unlocks.completed_quests,
                ..a.player_data.unlocks
            })
            &&& b.player_data == (PlayerData { unlocks: b.player_data.unlocks, ..a.player_data })
            &&& b.outbound@.len() == a.outbound@.len() + 3
            &&& b.outbound@.subrange(0, a.outbound@.len() as int) == a.outbound@
            &&& b.outbound@[a.outbound@.len() as int] == self_ipc(
                a,
                ServerZoneIpcType::QuestActiveList,
                ServerZoneIpcData::QuestActiveList {  },
            )
            &&& (b.outbound@[a.outbound@.len() as int + 1] == self_ipc(
                a,
                ServerZoneIpcType::QuestCompleteList,
                b.outbound@[a.outbound@.len() as int + 1].data->Ipc_data.data,
            ))
            &&& (b.outbound@[a.outbound@.len() as int + 1].data->Ipc_data.data matches
                ServerZoneIpcData::QuestCompleteList { completed_quests, unk2 } && completed_quests@
                == Seq::new(COMPLETED_QUEST_BITMASK_SIZE as nat, |i: int| 0xFFu8) && unk2@
                == Seq::new(69nat, |i: int| 0xFFu8))
            &&& (b.outbound@.last() == self_ipc(
                a,
                ServerZoneIpcType::LevequestCompleteList,
                b.outbound@.last().data->Ipc_data.data,
            ))
            &&& (b.outbound@.last().data->Ipc_data.data matches
                ServerZoneIpcData::LevequestCompleteList { completed_levequests, unk2 }
                && completed_levequests@ == Seq::new(
                COMPLETED_LEVEQUEST_BITMASK_SIZE as nat,
                |i: int| 0xFFu8,
            ) && unk2@.len() == 0)
            &&& b == (ZoneConnection { player_data: b.player_data, outbound: b.outbound, ..a })
        },
        Task::UnlockContent { id } => {
            &&& b.outbound@ == a.outbound@.push(
                self_ipc(
                    a,
                    ServerZoneIpcType::ActorControlSelf,
                    ServerZoneIpcData::ActorControlSelf(
                        ActorControlSelf {
                            category: ActorControlCategory::UnlockInstanceContent {
                                id: id as u32,
                                unlocked: true,
                            },
                        },
                    ),
                ),
            )
            &&& b == (ZoneConnection { outbound: b.outbound, ..a })
        },
        Task::UpdateBuyBackList { list } => {
            &&& b.player_data.buyback_list.entries@ == list.entries@
            &&& b.player_data == (PlayerData {
                buyback_list: b.player_data.buyback_list,
                ..a.player_data
            })
            &&& b == (ZoneConnection { player_data: b.player_data, ..a })
        },
        Task::AddExp { amount } => {
            &&& b.player_data.classjob_exp@ == a.player_data.classjob_exp@.update(
                exp_index_of(a.gamedata, a.player_data.classjob_id),
                add_sat(current_exp_spec(a.player_data, a.gamedata), amount),
            )
            &&& b.player_data == (PlayerData {
                classjob_exp: b.player_data.classjob_exp,
                ..a.player_data
            })
            &&& b.outbound@ == a.outbound@.push(
                self_ipc_at(
                    a.player_data.actor_id,
                    a.now,
                    ServerZoneIpcType::UpdateClassInfo,
                    class_info_data(b.player_data, a.gamedata),
                ),
            )
            &&& b == (ZoneConnection { player_data: b.player_data, outbound: b.outbound, ..a })
        },
        Task::StartEvent { actor_id, event_id, event_type, event_arg } => {
            if scripts.contains_key(event_id) {
                start_event_scripted_post(
                    a,
                    actor_id,
                    event_id,
                    event_type,
                    event_arg,
                    scripts[event_id]@,
                    b,
                )
            } else {
                start_event_unscripted_post(a, actor_id, event_id, event_type, event_arg, b)
            }
        },
        Task::SetInnWakeup { watched } => {
            &&& b.player_data == (PlayerData { saw_inn_wakeup: watched, ..a.player_data })
            &&& b == (ZoneConnection { player_data: b.player_data, ..a })
        },
    }
}

/// A task list's exact effect: each task applied exactly once, in enqueue
/// order.
pub open spec fn tasks_apply(
    a: ZoneConnection,
    tasks: Seq<Task>,
    scripts: Map<u32, String>,
    b: ZoneConnection,
) -> bool
    decreases tasks.len(),
{
    if tasks.len() == 0 {
        b == a
    } else {
        exists|mid: ZoneConnection|
            #[trigger] task_step(a, tasks[0], scripts, mid) && tasks_apply(
                mid,
                tasks.subrange(1, tasks.len() as int),
                scripts,
                b,
            )
    }
}

/// Extending an applied task list by one applied task.
pub proof fn lemma_tasks_apply_snoc(
    a: ZoneConnection,
    ts: Seq<Task>,
    scripts: Map<u32, String>,
    m: ZoneConnection,
    t: Task,
    b: ZoneConnection,
)
    requires
        tasks_apply(a, ts, scripts, m),
        task_step(m, t, scripts, b),
    ensures
        tasks_apply(a, ts.push(t), scripts, b),
    decreases ts.len(),
{
    if ts.len() == 0 {
        assert(m == a);
        assert(ts.push(t)[0] == t);
        assert(ts.push(t).subrange(1, 1) =~= Seq::<Task>::empty());
        assert(tasks_apply(b, ts.push(t).subrange(1, 1), scripts, b));
        assert(task_step(a, ts.push(t)[0], scripts, b) && tasks_apply(
            b,
            ts.push(t).subrange(1, ts.push(t).len() as int),
            scripts,
            b,
        ));
    } else {
        let tail = ts.subrange(1, ts.len() as int);
        let mid = choose|mid: ZoneConnection|
            #[trigger] task_step(a, ts[0], scripts, mid) && tasks_apply(mid, tail, scripts, m);
        lemma_tasks_apply_snoc(mid, tail, scripts, m, t, b);
        assert(ts.push(t)[0] == ts[0]);
        assert(ts.push(t).subrange(1, ts.push(t).len() as int) =~= tail.push(t));
        assert(task_step(a, ts.push(t)[0], scripts, mid) && tasks_apply(
            mid,
            ts.push(t).subrange(1, ts.push(t).len() as int),
            scripts,
            b,
        ));
    }
}

/// Zone-data segments retargeted at the player.
pub open spec fn retargeted(segs: Seq<ZoneSegment>, actor: u32) -> Seq<ZoneSegment> {
    segs.map_values((|s: ZoneSegment| ZoneSegment { target_actor: actor, ..s }))
}

impl ZoneConnection {
    /// Drains everything scripts queued on the player's behalf, in order:
    /// first the player-addressed segments, then the zone segments
    /// retargeted at the player, then the pending task list, each task
    /// applied exactly once in enqueue order; all three queues are empty
    /// afterwards.
    #[verifier::rlimit(100)]
    pub fn process_lua_player(
        &mut self,
        player: &mut LuaPlayer,
        event_scripts: &std::collections::HashMap<u32, String>,
    )
        requires
            player_data_wf(old(self).player_data),
            exp_index_ok(old(self).gamedata, old(self).player_data.classjob_id),
            forall|j: int|
                0 <= j < old(player).queued_tasks@.len() ==> task_wf(
                    #[trigger] old(player).queued_tasks@[j],
                    old(self).gamedata,
                ),
        ensures
            final(player).queued_segments@.len() == 0,
            final(player).zone_data.queued_segments@.len() == 0,
            final(player).queued_tasks@.len() == 0,
            final(player).player_data == old(player).player_data,
            player_data_wf(final(self).player_data),
            exists|mid: ZoneConnection|
                {
                    &&& #[trigger] tasks_apply(
                        mid,
                        old(player).queued_tasks@,
                        event_scripts@,
                        *final(self),
                    )
                    &&& mid == (ZoneConnection { outbound: mid.outbound, ..*old(self) })
                    &&& mid.outbound@ == old(self).outbound@ + old(player).queued_segments@
                        + retargeted(
                        old(player).zone_data.queued_segments@,
                        old(player).player_data.actor_id,
                    )
                },
    {
        broadcast use vstd::std_specs::hash::group_hash_axioms;

        let ghost a = *old(self);
        let ghost opq = old(player).queued_segments@;
        let ghost ozq = old(player).zone_data.queued_segments@;
        let ghost scripts = event_scripts@;
        // First, send the player-addressed segments.
        while player.queued_segments.len() > 0
            invariant
                only_outbound_changed(a, *self),
                self.outbound@ + player.queued_segments@ == a.outbound@ + opq,
                *player == (LuaPlayer { queued_segments: player.queued_segments, ..*old(player) }),
            decreases player.queued_segments@.len(),
        {
            let seg = player.queued_segments.remove(0);
            self.send_segment(seg);
            proof {
                assert(self.outbound@ + player.queued_segments@ =~= a.outbound@ + opq);
            }
        }
        // Second, send the zone segments, retargeted at the player.
        let target = player.player_data.actor_id;
        while player.zone_data.queued_segments.len() > 0
            invariant
                target == old(player).player_data.actor_id,
                only_outbound_changed(a, *self),
                self.outbound@ + retargeted(player.zone_data.queued_segments@, target)
                    == a.outbound@ + opq + retargeted(ozq, target),
                (*player == (LuaPlayer {
                    queued_segments: player.queued_segments,
                    zone_data: player.zone_data,
                    ..*old(player)
                })),
                player.queued_segments@.len() == 0,
            decreases player.zone_data.queued_segments@.len(),
        {
            let ghost remaining = player.zone_data.queued_segments@;
            let mut seg = player.zone_data.queued_segments.remove(0);
            seg.target_actor = target;
            proof {
                assert(retargeted(remaining, target)[0] == seg);
                assert(retargeted(remaining, target).subrange(
                    1,
                    retargeted(remaining, target).len() as int,
                ) =~= retargeted(remaining.subrange(1, remaining.len() as int), target));
                assert(remaining.remove(0) =~= remaining.subrange(1, remaining.len() as int));
            }
            self.send_segment(seg);
            proof {
                assert(self.outbound@ + retargeted(player.zone_data.queued_segments@, target)
                    =~= a.outbound@ + opq + retargeted(ozq, target));
            }
        }
        proof {
            assert(retargeted(player.zone_data.queued_segments@, target)
                =~= Seq::<ZoneSegment>::empty());
            assert(self.outbound@ =~= a.outbound@ + opq + retargeted(ozq, target));
        }
        // Third, apply the pending tasks, in enqueue order.
        let ghost mid = *self;
        let ghost otasks = player.queued_tasks@;
        let task_count = player.queued_tasks.len();
        let mut i: usize = 0;
        proof {
            assert(otasks.subrange(0, 0) =~= Seq::<Task>::empty());
        }
        while i < task_count
            invariant
                i <= task_count,
                task_count == player.queued_tasks@.len(),
                otasks == player.queued_tasks@,
                scripts == event_scripts@,
                (*player == (LuaPlayer {
                    queued_segments: player.queued_segments,
                    zone_data: player.zone_data,
                    ..*old(player)
                })),
                player.queued_segments@.len() == 0,
                player.zone_data.queued_segments@.len() == 0,
                forall|j: int|
                    0 <= j < otasks.len() ==> task_wf(#[trigger] otasks[j], a.gamedata),
                tasks_apply(mid, otasks.subrange(0, i as int), scripts, *self),
                self.gamedata == a.gamedata,
                player_data_wf(self.player_data),
                exp_index_ok(self.gamedata, self.player_data.classjob_id),
            decreases task_count - i,
        {
            let ghost before = *self;
            let ghost cur_task = player.queued_tasks@[i as int];
            proof {
                assert(task_wf(cur_task, a.gamedata));
            }
            match &player.queued_tasks[i] {
                Task::ChangeTerritory { zone_id } => {
                    self.change_zone(*zone_id);
                },
                Task::SetRemakeMode(mode) => {
                    let content_id = self.player_data.content_id;
                    self.actions.push(SessionAction::SetRemakeMode(content_id, *mode));
                },
                Task::Warp { warp_id } => {
                    self.warp(*warp_id);
                },
                Task::BeginLogOut => {
                    self.begin_log_out();
                },
                Task::FinishEvent { handler_id, arg, finish_type } => {
                    self.event_finish(*handler_id, *arg, *finish_type);
                },
                Task::SetClassJob { classjob_id } => {
                    let usable = match self.gamedata.get_exp_array_index(*classjob_id as u16) {
                        Some(index) => 0 <= index && (index as usize) < CLASSJOB_ARRAY_SIZE,
                        None => false,
                    };
                    if usable {
                        self.player_data.classjob_id = *classjob_id;
                        self.update_class_info();
                    }
                },
                Task::WarpAetheryte { aetheryte_id } => {
                    self.warp_aetheryte(*aetheryte_id);
                },
                Task::ReloadScripts => {
                    self.actions.push(SessionAction::ReloadScripts);
                },
                Task::ToggleInvisibility { invisible } => {
                    self.toggle_invisibility(*invisible);
                },
                Task::Unlock { id } => {
                    let (value, index) = value_to_flag_byte_index_value(*id);
                    let cur = self.player_data.unlocks.unlocks[index as usize];
                    self.player_data.unlocks.unlocks.set(index as usize, cur | value);
                    let id_copy = *id;
                    self.actor_control_self(
                        ActorControlSelf {
                            category: ActorControlCategory::ToggleUnlock {
                                id: id_copy,
                                unlocked: true,
                            },
                        },
                    );
                },
                Task::UnlockAetheryte { id, on } => {
                    let on_copy = *on;
                    if *id == 0 {
                        let ghost bm0 = self.player_data.unlocks.aetherytes@;
                        let ghost out0 = self.outbound@;
                        let mut aid: u32 = 1;
                        while aid < 239
                            invariant
                                1 <= aid <= 239,
                                player_data_wf(before.player_data),
                                self.player_data.unlocks.aetherytes@ == bulk_aetherytes(
                                    bm0,
                                    (aid - 1) as nat,
                                    on_copy,
                                ),
                                self.player_data.unlocks.aetherytes@.len() == bm0.len(),
                                bm0 == before.player_data.unlocks.aetherytes@,
                                bm0.len() == AETHERYTE_UNLOCK_BITMASK_SIZE,
                                self.outbound@ == out0 + Seq::new(
                                    (aid - 1) as nat,
                                    |k: int| learn_teleport_seg(
                                        before.player_data.actor_id,
                                        before.now,
                                        (k + 1) as u32,
                                        on_copy,
                                    ),
                                ),
                                out0 == before.outbound@,
                                self.player_data.unlocks == (UnlockData {
                                    aetherytes: self.player_data.unlocks.aetherytes,
                                    ..before.player_data.unlocks
                                }),
                                self.player_data == (PlayerData {
                                    unlocks: self.player_data.unlocks,
                                    ..before.player_data
                                }),
                                (*self == (ZoneConnection {
                                    player_data: self.player_data,
                                    outbound: self.outbound,
                                    ..before
                                })),
                            decreases 239 - aid,
                        {
                            let (value, index) = value_to_flag_byte_index_value(aid);
                            let cur = self.player_data.unlocks.aetherytes[index as usize];
                            let next = if on_copy {
                                cur | value
                            } else {
                                cur ^ value
                            };
                            self.player_data.unlocks.aetherytes.set(index as usize, next);
                            self.actor_control_self(
                                ActorControlSelf {
                                    category: ActorControlCategory::LearnTeleport {
                                        id: aid,
                                        unlocked: on_copy,
                                    },
                                },
                            );
                            proof {
                                assert(self.player_data.unlocks.aetherytes@ =~= bulk_aetherytes(
                                    bm0,
                                    aid as nat,
                                    on_copy,
                                ));
                                assert(self.outbound@ =~= out0 + Seq::new(
                                    aid as nat,
                                    |k: int| learn_teleport_seg(
                                        before.player_data.actor_id,
                                        before.now,
                                        (k + 1) as u32,
                                        on_copy,
                                    ),
                                ));
                            }
                            aid = aid + 1;
                        }
                    } else {
                        let (value, index) = value_to_flag_byte_index_value(*id);
                        let cur = self.player_data.unlocks.aetherytes[index as usize];
                        let next = if on_copy {
                            cur | value
                        } else {
                            cur ^ value
                        };
                        self.player_data.unlocks.aetherytes.set(index as usize, next);
                        let id_copy = *id;
                        self.actor_control_self(
                            ActorControlSelf {
                                category: ActorControlCategory::LearnTeleport {
                                    id: id_copy,
                                    unlocked: on_copy,
                                },
                            },
                        );
                    }
                },
                Task::SetLevel { level } => {
                    self.set_current_level(*level);
                    self.update_class_info();
                },
                Task::ChangeWeather { id } => {
                    self.change_weather(*id);
                },
                Task::AddGil { amount } => {
                    let slot = *self.player_data.inventory.currency.get_slot(0);
                    let quantity: u32 = if slot.quantity as u64 + *amount as u64
                        > u32::MAX as u64 {
                        u32::MAX
                    } else {
                        slot.quantity + *amount
                    };
                    self.player_data.inventory.currency.set_slot(
                        0,
                        Item { quantity, ..slot },
                    );
                    self.send_inventory(false);
                },
                Task::RemoveGil { amount, send_client_update } => {
                    let slot = *self.player_data.inventory.currency.get_slot(0);
                    let quantity: u32 = if slot.quantity >= *amount {
                        slot.quantity - *amount
                    } else {
                        0
                    };
                    self.player_data.inventory.currency.set_slot(
                        0,
                        Item { quantity, ..slot },
                    );
                    if *send_client_update {
                        self.send_inventory(false);
                    } else {
                        proof {
                            assert(self.outbound@ =~= before.outbound@
                                + Seq::<ZoneSegment>::empty());
                        }
                    }
                },
                Task::UnlockOrchestrion { id, on } => {
                    if *id != 0 {
                        let song_id = *id as u32;
                        let on_copy = *on;
                        self.actor_control_self(
                            ActorControlSelf {
                                category: ActorControlCategory::ToggleOrchestrionUnlock {
                                    song_id,
                                    unlocked: on_copy,
                                },
                            },
                        );
                    }
                },
                Task::AddItem { id, quantity, send_client_update } => {
                    let item_info = self.gamedata.get_item_info(
                        crate::gamedata::ItemInfoQuery::ById(*id),
                    );
                    match item_info {
                        Some(info) => {
                            let item = Item::new(&info, *quantity);
                            let placed = self.player_data.inventory.add_in_next_free_slot(item);
                            match placed {
                                Some(_) => {
                                    if *send_client_update {
                                        self.send_inventory(false);
                                    } else {
                                        proof {
                                            assert(self.outbound@ =~= before.outbound@
                                                + Seq::<ZoneSegment>::empty());
                                        }
                                    }
                                },
                                None => {
                                    self.send_message(ERR_INVENTORY_ADD_FAILED);
                                    proof {
                                        assert(self.outbound@.subrange(
                                            0,
                                            before.outbound@.len() as int,
                                        ) =~= before.outbound@);
                                    }
                                },
                            }
                        },
                        None => {
                            self.send_message(ERR_INVENTORY_ADD_FAILED);
                            proof {
                                assert(self.outbound@.subrange(
                                    0,
                                    before.outbound@.len() as int,
                                ) =~= before.outbound@);
                            }
                        },
                    }
                },
                Task::CompleteAllQuests {  } => {
                    self.player_data.unlocks.completed_quests = filled_bytes(
                        COMPLETED_QUEST_BITMASK_SIZE,
                        0xFF,
                    );
                    self.send_quest_information();
                },
                Task::UnlockContent { id } => {
                    let content = *id as u32;
                    self.actor_control_self(
                        ActorControlSelf {
                            category: ActorControlCategory::UnlockInstanceContent {
                                id: content,
                                unlocked: true,
                            },
                        },
                    );
                },
                Task::UpdateBuyBackList { list } => {
                    self.player_data.buyback_list = list.clone();
                },
                Task::AddExp { amount } => {
                    let current = self.current_exp(&self.gamedata);
                    let next: u32 = if current as u64 + *amount as u64 > u32::MAX as u64 {
                        u32::MAX
                    } else {
                        current + *amount
                    };
                    self.set_current_exp(next);
                    self.update_class_info();
                },
                Task::StartEvent { actor_id, event_id, event_type, event_arg } => {
                    let script = event_scripts.get(event_id);
                    self.start_event(*actor_id, *event_id, *event_type, *event_arg, script);
                },
                Task::SetInnWakeup { watched } => {
                    self.player_data.saw_inn_wakeup = *watched;
                },
            }
            proof {
                assert(task_step(before, cur_task, scripts, *self));
                lemma_tasks_apply_snoc(
                    mid,
                    otasks.subrange(0, i as int),
                    scripts,
                    before,
                    cur_task,
                    *self,
                );
                assert(otasks.subrange(0, i as int).push(cur_task) =~= otasks.subrange(
                    0,
                    i as int + 1,
                ));
            }
            i = i + 1;
        }
        proof {
            assert(otasks.subrange(0, task_count as int) =~= otasks);
        }
        player.queued_tasks = Vec::new();
    }
}

// ---------------------------------------------------------------------------
// Laws of the refresh and of the transition seeds
// ---------------------------------------------------------------------------

/// The shape of one status-effect refresh: a dirty list sends exactly one
/// segment and comes out clean; a clean list sends nothing and changes
/// nothing.
pub open spec fn status_refresh_rel(a: ZoneConnection, b: ZoneConnection) -> bool {
    if a.status_effects.dirty {
        &&& !b.status_effects.dirty
        &&& b.status_effects.status_effects@ == a.status_effects.status_effects@
        &&& b.outbound@.len() == a.outbound@.len() + 1
        &&& b == (ZoneConnection {
            status_effects: b.status_effects,
            outbound: b.outbound,
            ..a
        })
    } else {
        b == a
    }
}

/// Idempotence of the status refresh: two refreshes without an intervening
/// mutation send at most one segment — the second refresh finds the flag
/// cleared and changes nothing.
pub proof fn lemma_status_refresh_idempotent(a: ZoneConnection, b: ZoneConnection, c: ZoneConnection)
    requires
        status_refresh_rel(a, b),
        status_refresh_rel(b, c),
    ensures
        c == b,
        c.outbound@.len() <= a.outbound@.len() + 1,
{
}

/// Obfuscation seed inversion: after a zone transition with obfuscation
/// configured, the seeds transmitted in the `InitZone` segment are the
/// bitwise complement of the seeds held locally, and complementing the
/// transmitted seeds recovers exactly the triple the key material was
/// derived from — for every seed value, zero and the maximum included.
pub proof fn lemma_init_zone_seed_inversion(
    a: ZoneConnection,
    zone_id: u16,
    s1: u8,
    s2: u8,
    s3: u32,
    b: ZoneConnection,
)
    requires
        a.config.enable_packet_obsfucation,
        change_zone_post(a, zone_id, s1, s2, s3, b),
    ensures
        b.outbound@.len() == a.outbound@.len() + 5,
        (b.outbound@[a.outbound@.len() as int + 3].data->Ipc_data.data matches
            ServerZoneIpcData::InitZone(z) && z.seed1 == !b.obsfucation_data.seed1 && z.seed2
            == !b.obsfucation_data.seed2 && z.seed3 == !b.obsfucation_data.seed3 && (
        b.obsfucation_data.keys matches Some(k) && k.keys@ == key_schedule(
            !z.seed1,
            !z.seed2,
            !z.seed3,
        ))),
{
    let segs = change_zone_segs(a, zone_id, s1, s2, s3);
    assert(b.outbound@[a.outbound@.len() as int + 3] == segs[3]);
    crate::transform::lemma_seed8_wire_involutive(s1);
    crate::transform::lemma_seed8_wire_involutive(s2);
    crate::transform::lemma_seed32_wire_involutive(s3);
    assert(!(!s1) == s1) by (bit_vector);
    assert(!(!s2) == s2) by (bit_vector);
    assert(!(!s3) == s3) by (bit_vector);
}

// ---------------------------------------------------------------------------
// Whole packets for the transport
// ---------------------------------------------------------------------------

/// The spec value of a keep-alive response segment.
pub open spec fn keep_alive_response_model(id: u32, timestamp: u32) -> crate::frame::PacketSegmentModel {
    crate::frame::PacketSegmentModel {
        source_actor: 0,
        target_actor: 0,
        data: crate::frame::SegmentDataModel::KeepAliveResponse { id, timestamp },
    }
}

/// Builds the bytes of the uncompressed, unobfuscated packet answering a
/// keep-alive request on the given channel.
pub fn keep_alive_response_packet(
    connection_type: crate::frame::ConnectionType,
    id: u32,
    timestamp: u32,
    now_ms: u64,
) -> (r: Vec<u8>)
    ensures
        r@ == crate::frame::enc_packet(
            now_ms,
            connection_type,
            crate::compress::CompressionType::Uncompressed,
            None,
            seq![keep_alive_response_model(id, timestamp)],
        ),
{
    let segment = crate::frame::PacketSegment {
        source_actor: 0,
        target_actor: 0,
        data: crate::frame::SegmentData::KeepAliveResponse { id, timestamp },
    };
    let mut segments: Vec<crate::frame::PacketSegment> = Vec::new();
    segments.push(segment);
    proof {
        assert(crate::frame::seg_views(segments@) =~= seq![keep_alive_response_model(id, timestamp)]);
    }
    crate::frame::encode_packet(
        now_ms,
        connection_type,
        crate::compress::CompressionType::Uncompressed,
        None,
        &segments,
    )
}

/// The spec value of a private server-to-server segment.
pub open spec fn custom_ipc_segment_model(
    s: crate::ipc::CustomIpcSegment,
) -> crate::frame::PacketSegmentModel {
    crate::frame::PacketSegmentModel {
        source_actor: 0,
        target_actor: 0,
        data: crate::frame::SegmentDataModel::CustomIpc {
            data: crate::frame::IpcEnvelopeModel {
                op_code: s.op_code,
                option: s.option,
                timestamp: s.timestamp,
                payload: s.payload@,
            },
        },
    }
}

/// Builds the bytes of the uncompressed, unobfuscated packet carrying one
/// private server-to-server command.
pub fn encode_custom_ipc_packet(segment: crate::ipc::CustomIpcSegment, now_ms: u64) -> (r: Vec<u8>)
    requires
        segment.payload@.len() + 24 <= crate::frame::MAX_SEGMENT_SIZE,
    ensures
        r@ == crate::frame::enc_packet(
            now_ms,
            crate::frame::ConnectionType::Unspecified,
            crate::compress::CompressionType::Uncompressed,
            None,
            seq![custom_ipc_segment_model(segment)],
        ),
{
    let ghost model = custom_ipc_segment_model(segment);
    let wire = crate::frame::PacketSegment {
        source_actor: 0,
        target_actor: 0,
        data: crate::frame::SegmentData::CustomIpc {
            data: crate::frame::IpcEnvelope {
                op_code: segment.op_code,
                option: segment.option,
                timestamp: segment.timestamp,
                payload: segment.payload,
            },
        },
    };
    let mut segments: Vec<crate::frame::PacketSegment> = Vec::new();
    segments.push(wire);
    proof {
        assert(crate::frame::seg_views(segments@) =~= seq![model]);
        assert(crate::frame::enc_segment_payload(model.data).len() == 8 + segment.payload@.len());
    }
    crate::frame::encode_packet(
        now_ms,
        crate::frame::ConnectionType::Unspecified,
        crate::compress::CompressionType::Uncompressed,
        None,
        &segments,
    )
}

/// Returns the first private server-to-server command among parsed
/// segments, as the reply extraction of the server-to-server exchange.
pub fn extract_custom_ipc(segments: Vec<crate::frame::PacketSegment>) -> (r: Option<
    crate::ipc::CustomIpcSegment,
>)
    ensures
        (match r {
            Some(s) => segments@.len() > 0 && (segments@[0]@.data matches
                crate::frame::SegmentDataModel::CustomIpc { data } && data.op_code == s.op_code
                && data.option == s.option && data.timestamp == s.timestamp && data.payload
                == s.payload@),
            None => segments@.len() == 0 || !(segments@[0]@.data matches
                crate::frame::SegmentDataModel::CustomIpc { .. }),
        }),
{
    let mut segments = segments;
    if segments.len() == 0 {
        return None;
    }
    let first = segments.remove(0);
    match first.data {
        crate::frame::SegmentData::CustomIpc { data } => Some(
            crate::ipc::CustomIpcSegment {
                op_code: data.op_code,
                option: data.option,
                timestamp: data.timestamp,
                payload: data.payload,
            },
        ),
        _ => None,
    }
}

/// Turns one queued zone-channel segment into the raw form the frame codec
/// carries: typed commands are encoded to their fixed layouts.
pub fn zone_segment_to_wire(s: &ZoneSegment) -> (r: crate::frame::PacketSegment)
    ensures
        r@.source_actor == s.source_actor,
        r@.target_actor == s.target_actor,
        (match s.data {
            ZoneSegmentData::KeepAliveRequest { id, timestamp } => r@.data
                == crate::frame::SegmentDataModel::KeepAliveRequest { id, timestamp },
            ZoneSegmentData::KeepAliveResponse { id, timestamp } => r@.data
                == crate::frame::SegmentDataModel::KeepAliveResponse { id, timestamp },
            ZoneSegmentData::Initialize { actor_id, timestamp } => r@.data
                == crate::frame::SegmentDataModel::Initialize { actor_id, timestamp },
            ZoneSegmentData::Ipc { data } => (r@.data matches
                crate::frame::SegmentDataModel::Ipc { data: env } && env.op_code
                == crate::ipc::opcode_tag(data.op_code) && env.option == data.option
                && env.timestamp == data.timestamp && env.payload == crate::ipc::enc_server_ipc(
                data.data,
            )),
        }),
{
    match &s.data {
        ZoneSegmentData::KeepAliveRequest { id, timestamp } => crate::frame::PacketSegment {
            source_actor: s.source_actor,
            target_actor: s.target_actor,
            data: crate::frame::SegmentData::KeepAliveRequest { id: *id, timestamp: *timestamp },
        },
        ZoneSegmentData::KeepAliveResponse { id, timestamp } => crate::frame::PacketSegment {
            source_actor: s.source_actor,
            target_actor: s.target_actor,
            data: crate::frame::SegmentData::KeepAliveResponse { id: *id, timestamp: *timestamp },
        },
        ZoneSegmentData::Initialize { actor_id, timestamp } => crate::frame::PacketSegment {
            source_actor: s.source_actor,
            target_actor: s.target_actor,
            data: crate::frame::SegmentData::Initialize {
                actor_id: *actor_id,
                timestamp: *timestamp,
            },
        },
        ZoneSegmentData::Ipc { data } => crate::frame::PacketSegment {
            source_actor: s.source_actor,
            target_actor: s.target_actor,
            data: crate::frame::SegmentData::Ipc {
                data: crate::ipc::server_ipc_to_envelope(data),
            },
        },
    }
}

/// Unlock bit addressing, as the task queue applies it: for every session
/// state, an unlock task for an id sets exactly the bit the split
/// addresses — the addressed byte gains the bit value, nothing outside
/// the mask changes in it, every other byte is untouched — recombining
/// the byte index with the bit position recovers the id, and exactly one
/// unlock notification for that id is sent.
pub proof fn lemma_unlock_task_sets_exactly_bit(
    a: ZoneConnection,
    id: u32,
    scripts: Map<u32, String>,
    b: ZoneConnection,
)
    requires
        id < 8 * UNLOCK_BITMASK_SIZE,
        unlocks_wf(a.player_data.unlocks),
        task_step(a, Task::Unlock { id }, scripts, b),
    ensures
        flag_index_of(id) as u32 * 8 + (id % 8) == id,
        b.player_data.unlocks.unlocks@.len() == a.player_data.unlocks.unlocks@.len(),
        (b.player_data.unlocks.unlocks@[flag_index_of(id) as int] & flag_value_of(id))
            == flag_value_of(id),
        ((b.player_data.unlocks.unlocks@[flag_index_of(id) as int]
            ^ a.player_data.unlocks.unlocks@[flag_index_of(id) as int]) & !flag_value_of(id)) == 0,
        forall|j: int|
            0 <= j < a.player_data.unlocks.unlocks@.len() && j != flag_index_of(id) as int
                ==> #[trigger] b.player_data.unlocks.unlocks@[j]
                == a.player_data.unlocks.unlocks@[j],
        b.outbound@ == a.outbound@.push(
            self_ipc(
                a,
                ServerZoneIpcType::ActorControlSelf,
                ServerZoneIpcData::ActorControlSelf(
                    ActorControlSelf {
                        category: ActorControlCategory::ToggleUnlock { id, unlocked: true },
                    },
                ),
            ),
        ),
{
    crate::common::lemma_flag_split_combine(id);
    let idx = flag_index_of(id) as int;
    let m = flag_value_of(id);
    let before = a.player_data.unlocks.unlocks@[idx];
    let after = b.player_data.unlocks.unlocks@[idx];
    assert(after == (before | m));
    assert(((before | m) & m) == m) by (bit_vector);
    assert((((before | m) ^ before) & !m) == 0) by (bit_vector);
}

/// Failed item grants are soft, for every session state: when the item
/// table has no row for the granted id, the grant task produces exactly
/// one chat segment carrying the failure text, the player record — the
/// inventory included — is unchanged, and the rest of the session state
/// is untouched, so the remaining tasks still apply.
pub proof fn lemma_failed_grant_is_soft(
    a: ZoneConnection,
    id: u32,
    quantity: u32,
    send_client_update: bool,
    scripts: Map<u32, String>,
    b: ZoneConnection,
)
    requires
        task_step(a, Task::AddItem { id, quantity, send_client_update }, scripts, b),
        crate::gamedata::find_item(
            a.gamedata.items@,
            crate::gamedata::ItemInfoQuery::ById(id),
        ) is None,
    ensures
        chat_failure_post(a, ERR_INVENTORY_ADD_FAILED@, b),
        b.player_data == a.player_data,
        b.outbound@.len() == a.outbound@.len() + 1,
{
}

} // verus!
