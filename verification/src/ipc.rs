//! The typed command payloads of the zone channel's server-to-client IPC,
//! with verified byte encoders. The frame codec carries these bodies as
//! opaque payloads; here each variant's layout is fixed and the encoder is
//! proved to produce exactly the specified bytes.

use vstd::prelude::*;

use crate::bytes::{put_u16, put_u32, put_u64, put_u8, put_zeros, u16_le, u32_le, u64_le, zeros};
use crate::frame::IpcEnvelope;
use crate::common::{ObjectId, ObjectTypeId, Position};
use crate::inventory::{container_type_tag, container_type_value, ContainerType};
use crate::status::StatusEffect;

verus! {

// ---------------------------------------------------------------------------
// Generic helpers for encoded lists and padded fields
// ---------------------------------------------------------------------------

/// The concatenation of an item encoder over a list.
pub open spec fn enc_list<T>(s: Seq<T>, f: spec_fn(T) -> Seq<u8>) -> Seq<u8>
    decreases s.len(),
{
    if s.len() == 0 {
        Seq::empty()
    } else {
        f(s[0]) + enc_list(s.subrange(1, s.len() as int), f)
    }
}

/// Appending one item appends its encoding.
pub proof fn lemma_enc_list_snoc<T>(s: Seq<T>, x: T, f: spec_fn(T) -> Seq<u8>)
    ensures
        enc_list(s.push(x), f) == enc_list(s, f) + f(x),
    decreases s.len(),
{
    let c = f(x);
    if s.len() == 0 {
        assert(s.push(x)[0] == x);
        assert(s.push(x).subrange(1, s.push(x).len() as int) =~= Seq::<T>::empty());
        assert(enc_list(Seq::<T>::empty(), f) == Seq::<u8>::empty());
        assert(enc_list(s.push(x), f) == c + Seq::<u8>::empty());
        assert(c + Seq::<u8>::empty() =~= Seq::<u8>::empty() + c);
    } else {
        let tail = s.subrange(1, s.len() as int);
        lemma_enc_list_snoc(tail, x, f);
        let a = f(s[0]);
        let b = enc_list(tail, f);
        assert(s.push(x).subrange(1, s.push(x).len() as int) =~= tail.push(x));
        assert(s.push(x)[0] == s[0]);
        assert(enc_list(s.push(x), f) == a + (b + c));
        assert(a + (b + c) =~= (a + b) + c);
    }
}

/// A list truncated or padded with a fill value to exactly `n` entries.
pub open spec fn pad_list<T>(s: Seq<T>, n: nat, fill: T) -> Seq<T> {
    Seq::new(
        n,
        |i: int|
            if i < s.len() {
                s[i]
            } else {
                fill
            },
    )
}

/// A byte sequence truncated or zero-padded to exactly `n` bytes, as
/// fixed-size string and blob fields are laid out on the wire.
pub open spec fn pad_trunc(b: Seq<u8>, n: nat) -> Seq<u8> {
    Seq::new(
        n,
        |i: int|
            if i < b.len() {
                b[i]
            } else {
                0u8
            },
    )
}

/// The UTF-8 bytes of a string, truncated or zero-padded to `n` bytes.
pub open spec fn enc_str_fixed(s: Seq<char>, n: nat) -> Seq<u8> {
    pad_trunc(vstd::utf8::encode_utf8(s), n)
}

/// Writes a string into a fixed-size zero-padded field.
pub fn put_str_fixed(out: &mut Vec<u8>, s: &str, n: usize)
    ensures
        final(out)@ == old(out)@ + enc_str_fixed(s@, n as nat),
{
    let bytes = s.as_bytes();
    let len = bytes.len();
    let mut i: usize = 0;
    while i < n
        invariant
            i <= n,
            len == bytes@.len(),
            bytes@ == vstd::utf8::encode_utf8(s@),
            out@ == old(out)@ + enc_str_fixed(s@, i as nat),
        decreases n - i,
    {
        if i < len {
            out.push(bytes[i]);
        } else {
            out.push(0);
        }
        assert(out@ =~= old(out)@ + enc_str_fixed(s@, (i + 1) as nat));
        i = i + 1;
    }
}

/// Writes a fixed number of 32-bit entries from a list, zero-filled past
/// its end.
pub fn put_u32_list_fixed(out: &mut Vec<u8>, v: &Vec<u32>, n: usize)
    ensures
        final(out)@ == old(out)@ + enc_list(pad_list(v@, n as nat, 0u32), (|x: u32| u32_le(x))),
{
    let len = v.len();
    let ghost f = (|x: u32| u32_le(x));
    let ghost padded = pad_list(v@, n as nat, 0u32);
    let mut i: usize = 0;
    proof {
        assert(padded.subrange(0, 0) =~= Seq::<u32>::empty());
    }
    while i < n
        invariant
            i <= n,
            len == v@.len(),
            f == (|x: u32| u32_le(x)),
            padded == pad_list(v@, n as nat, 0u32),
            out@ == old(out)@ + enc_list(padded.subrange(0, i as int), f),
        decreases n - i,
    {
        let x: u32 = if i < len {
            v[i]
        } else {
            0
        };
        proof {
            assert(padded[i as int] == x);
            lemma_enc_list_snoc(padded.subrange(0, i as int), x, f);
            assert(padded.subrange(0, i as int).push(x) =~= padded.subrange(0, i as int + 1));
        }
        put_u32(out, x);
        proof {
            assert(out@ =~= old(out)@ + enc_list(padded.subrange(0, i as int + 1), f));
        }
        i = i + 1;
    }
    proof {
        assert(padded.subrange(0, n as int) =~= padded);
    }
}

// ---------------------------------------------------------------------------
// Actor control categories
// ---------------------------------------------------------------------------

/// A control notification's category with its parameters.
#[derive(Debug, Clone, Copy, PartialEq, Eq, Structural)]
pub enum ActorControlCategory {
    SetItemLevel { level: u32 },
    ToggleInvisibility { invisible: bool },
    ToggleUnlock { id: u32, unlocked: bool },
    LearnTeleport { id: u32, unlocked: bool },
    ToggleOrchestrionUnlock { song_id: u32, unlocked: bool },
    UnlockInstanceContent { id: u32, unlocked: bool },
    CancelCast {},
    LoseEffect { effect_id: u32, unk2: u32, source_actor_id: ObjectId },
}

/// A control notification about the player's own actor.
#[derive(Debug, Clone, Copy, PartialEq, Eq, Structural)]
pub struct ActorControlSelf {
    pub category: ActorControlCategory,
}

/// A control notification about an arbitrary actor.
#[derive(Debug, Clone, Copy, PartialEq, Eq, Structural)]
pub struct ActorControl {
    pub category: ActorControlCategory,
}

/// A control notification addressed at a target actor.
#[derive(Debug, Clone, Copy, PartialEq, Eq, Structural)]
pub struct ActorControlTarget {
    pub category: ActorControlCategory,
}

/// The wire tag of a control category.
pub open spec fn actor_control_tag(c: ActorControlCategory) -> u16 {
    match c {
        ActorControlCategory::SetItemLevel { .. } => 1,
        ActorControlCategory::ToggleInvisibility { .. } => 2,
        ActorControlCategory::ToggleUnlock { .. } => 3,
        ActorControlCategory::LearnTeleport { .. } => 4,
        ActorControlCategory::ToggleOrchestrionUnlock { .. } => 5,
        ActorControlCategory::UnlockInstanceContent { .. } => 6,
        ActorControlCategory::CancelCast { .. } => 7,
        ActorControlCategory::LoseEffect { .. } => 8,
    }
}

/// One if true, zero if false.
pub open spec fn bool_word(b: bool) -> u32 {
    if b {
        1u32
    } else {
        0u32
    }
}

/// The four parameter words of a control category.
pub open spec fn actor_control_params(c: ActorControlCategory) -> (u32, u32, u32, u32) {
    match c {
        ActorControlCategory::SetItemLevel { level } => (level, 0u32, 0u32, 0u32),
        ActorControlCategory::ToggleInvisibility { invisible } => (
            bool_word(invisible),
            0u32,
            0u32,
            0u32,
        ),
        ActorControlCategory::ToggleUnlock { id, unlocked } => (id, bool_word(unlocked), 0u32, 0u32),
        ActorControlCategory::LearnTeleport { id, unlocked } => (
            id,
            bool_word(unlocked),
            0u32,
            0u32,
        ),
        ActorControlCategory::ToggleOrchestrionUnlock { song_id, unlocked } => (
            song_id,
            bool_word(unlocked),
            0u32,
            0u32,
        ),
        ActorControlCategory::UnlockInstanceContent { id, unlocked } => (
            id,
            bool_word(unlocked),
            0u32,
            0u32,
        ),
        ActorControlCategory::CancelCast {  } => (0u32, 0u32, 0u32, 0u32),
        ActorControlCategory::LoseEffect { effect_id, unk2, source_actor_id } => (
            effect_id,
            unk2,
            source_actor_id.0,
            0u32,
        ),
    }
}

/// The encoded control body: tag, reserved halfword, four parameter words.
pub open spec fn enc_actor_control(c: ActorControlCategory) -> Seq<u8> {
    let p = actor_control_params(c);
    u16_le(actor_control_tag(c)) + u16_le(0) + u32_le(p.0) + u32_le(p.1) + u32_le(p.2) + u32_le(p.3)
}

/// Writes a control category body.
fn put_actor_control(out: &mut Vec<u8>, c: &ActorControlCategory)
    ensures
        final(out)@ == old(out)@ + enc_actor_control(*c),
{
    let tag: u16 = match c {
        ActorControlCategory::SetItemLevel { .. } => 1,
        ActorControlCategory::ToggleInvisibility { .. } => 2,
        ActorControlCategory::ToggleUnlock { .. } => 3,
        ActorControlCategory::LearnTeleport { .. } => 4,
        ActorControlCategory::ToggleOrchestrionUnlock { .. } => 5,
        ActorControlCategory::UnlockInstanceContent { .. } => 6,
        ActorControlCategory::CancelCast { .. } => 7,
        ActorControlCategory::LoseEffect { .. } => 8,
    };
    let params: (u32, u32, u32, u32) = match c {
        ActorControlCategory::SetItemLevel { level } => (*level, 0, 0, 0),
        ActorControlCategory::ToggleInvisibility { invisible } => (
            if *invisible {
                1
            } else {
                0
            },
            0,
            0,
            0,
        ),
        ActorControlCategory::ToggleUnlock { id, unlocked } => (
            *id,
            if *unlocked {
                1
            } else {
                0
            },
            0,
            0,
        ),
        ActorControlCategory::LearnTeleport { id, unlocked } => (
            *id,
            if *unlocked {
                1
            } else {
                0
            },
            0,
            0,
        ),
        ActorControlCategory::ToggleOrchestrionUnlock { song_id, unlocked } => (
            *song_id,
            if *unlocked {
                1
            } else {
                0
            },
            0,
            0,
        ),
        ActorControlCategory::UnlockInstanceContent { id, unlocked } => (
            *id,
            if *unlocked {
                1
            } else {
                0
            },
            0,
            0,
        ),
        ActorControlCategory::CancelCast {  } => (0, 0, 0, 0),
        ActorControlCategory::LoseEffect { effect_id, unk2, source_actor_id } => (
            *effect_id,
            *unk2,
            source_actor_id.0,
            0,
        ),
    };
    put_u16(out, tag);
    put_u16(out, 0);
    put_u32(out, params.0);
    put_u32(out, params.1);
    put_u32(out, params.2);
    put_u32(out, params.3);
    assert(out@ =~= old(out)@ + enc_actor_control(*c));
}

// ---------------------------------------------------------------------------
// Structured payloads
// ---------------------------------------------------------------------------

/// A forced player move to a position.
#[derive(Debug, Clone, Copy, PartialEq, Eq, Structural, Default)]
pub struct Warp {
    pub dir: u16,
    pub warp_type: u8,
    pub warp_type_arg: u8,
    pub layer_set: u32,
    pub position: Position,
}

/// An actor movement update; rotation is a raw 32-bit word.
#[derive(Debug, Clone, Copy, PartialEq, Eq, Structural, Default)]
pub struct Move {
    pub rotation: u32,
    pub flag1: u8,
    pub flag2: u8,
    pub position: Position,
}

/// The class/job information pushed after level or job changes.
#[derive(Debug, Clone, Copy, PartialEq, Eq, Structural, Default)]
pub struct UpdateClassInfo {
    pub class_id: u8,
    pub synced_level: u16,
    pub class_level: u16,
    pub current_level: u16,
    pub current_exp: u32,
}

/// The zone initialization segment: zone id, weather, and the obfuscation
/// mode with the three seeds, bit-inverted on the wire.
#[derive(Debug, Clone, Copy, PartialEq, Eq, Structural, Default)]
pub struct InitZone {
    pub territory_type: u16,
    pub weather_id: u16,
    pub obsfucation_mode: u8,
    pub seed1: u8,
    pub seed2: u8,
    pub seed3: u32,
}

/// A weather transition; the transition time is a raw 32-bit word.
#[derive(Debug, Clone, Copy, PartialEq, Eq, Structural, Default)]
pub struct WeatherChange {
    pub weather_id: u16,
    pub transistion_time: u32,
}

/// A currency-container slot update.
#[derive(Debug, Clone, Copy, PartialEq, Eq, Structural)]
pub struct CurrencyInfo {
    pub sequence: u32,
    pub container: ContainerType,
    pub quantity: u32,
    pub catalog_id: u32,
    pub unk1: u8,
}

/// An item-container slot update.
#[derive(Debug, Clone, Copy, PartialEq, Eq, Structural)]
pub struct ItemSlotInfo {
    pub sequence: u32,
    pub container: ContainerType,
    pub slot: u16,
    pub quantity: u32,
    pub catalog_id: u32,
    pub condition: u16,
    pub glamour_catalog_id: u32,
}

/// A per-container summary sent after its slot updates.
#[derive(Debug, Clone, Copy, PartialEq, Eq, Structural)]
pub struct ContainerInfo {
    pub container: ContainerType,
    pub num_items: u32,
    pub sequence: u32,
}

/// An equipped-model broadcast.
#[derive(Debug, Clone, PartialEq, Eq)]
pub struct Equip {
    pub main_weapon_id: u64,
    pub model_ids: Vec<u32>,
}

/// A scene invocation within an event.
#[derive(Debug, Clone, PartialEq, Eq)]
pub struct EventScene {
    pub actor_id: ObjectTypeId,
    pub event_id: u32,
    pub scene: u16,
    pub scene_flags: u32,
    pub params_count: u8,
    pub params: Vec<u32>,
}

/// An event-start notification.
#[derive(Debug, Clone, Copy, PartialEq, Eq, Structural, Default)]
pub struct EventStart {
    pub target_id: ObjectTypeId,
    pub event_id: u32,
    pub event_type: u8,
    pub event_arg: u32,
}

/// The status-effect list refresh.
#[derive(Debug, Clone, PartialEq, Eq)]
pub struct StatusEffectList {
    pub statues: Vec<StatusEffect>,
    pub classjob_id: u8,
    pub level: u8,
    pub curr_hp: u32,
    pub max_hp: u32,
    pub curr_mp: u16,
    pub max_mp: u16,
}

/// The player's attribute sheet.
#[derive(Debug, Clone, Copy, PartialEq, Eq, Structural, Default)]
pub struct PlayerStats {
    pub strength: u32,
    pub dexterity: u32,
    pub vitality: u32,
    pub intelligence: u32,
    pub mind: u32,
    pub hp: u32,
    pub mp: u32,
}

/// One effect slot of an action result.
#[derive(Debug, Clone, Copy, PartialEq, Eq, Structural, Default)]
pub struct ActionEffect {
    pub kind: u8,
    pub param0: u8,
    pub param1: u8,
    pub param2: u8,
    pub value: u16,
}

/// The result of executing an action; the animation lock and rotation are
/// raw 32-bit words.
#[derive(Debug, Clone, PartialEq, Eq)]
pub struct ActionResult {
    pub main_target: ObjectTypeId,
    pub target_id_again: ObjectTypeId,
    pub action_id: u32,
    pub animation_lock_time: u32,
    pub rotation: u32,
    pub action_animation_id: u16,
    pub flag: u8,
    pub effect_count: u8,
    pub effects: Vec<ActionEffect>,
    pub unk1: u32,
    pub unk2: u32,
    pub hidden_animation: u8,
}

/// One status entry of an effect result.
#[derive(Debug, Clone, Copy, PartialEq, Eq, Structural, Default)]
pub struct EffectEntry {
    pub index: u8,
    pub unk1: u8,
    pub id: u16,
    pub param: u16,
    pub unk2: u16,
    pub duration: u32,
    pub source_actor_id: ObjectId,
}

/// The statuses applied by an action.
#[derive(Debug, Clone, PartialEq, Eq)]
pub struct EffectResult {
    pub unk1: u32,
    pub unk2: u32,
    pub target_id: ObjectId,
    pub current_hp: u32,
    pub max_hp: u32,
    pub current_mp: u16,
    pub unk3: u8,
    pub class_id: u8,
    pub shield: u8,
    pub entry_count: u8,
    pub unk4: u8,
    pub statuses: Vec<EffectEntry>,
}

/// The config words forwarded between clients.
#[derive(Debug, Clone, Copy, PartialEq, Eq, Structural, Default)]
pub struct Config {
    pub flags: u32,
}

// ---------------------------------------------------------------------------
// Opcodes
// ---------------------------------------------------------------------------

/// The operation code of each zone-channel server command.
#[derive(Debug, Clone, Copy, PartialEq, Eq, Structural)]
pub enum ServerZoneIpcType {
    Warp,
    Move,
    NpcSpawn,
    Delete,
    UpdateClassInfo,
    PrepareZoning,
    InitZone,
    WeatherId,
    CurrencyCrystalInfo,
    UpdateItem,
    ContainerInfo,
    Equip,
    ServerChatMessage,
    ActorControlSelf,
    ActorControl,
    ActorControlTarget,
    Config,
    EventScene2,
    EventScene4,
    EventScene8,
    EventScene16,
    EventScene32,
    EventStart,
    EventFinish,
    Unk18,
    InventoryActionAck,
    ShopLogMessage,
    UpdateInventorySlot,
    InventoryTransactionFinish,
    LogOutComplete,
    StatusEffectList,
    UpdateHpMpTp,
    PlayerStats,
    ActionResult,
    EffectResult,
    QuestActiveList,
    QuestCompleteList,
    LevequestCompleteList,
}

/// The 16-bit wire value of each opcode.
pub open spec fn opcode_tag(t: ServerZoneIpcType) -> u16 {
    match t {
        ServerZoneIpcType::Warp => 0x0101,
        ServerZoneIpcType::Move => 0x0102,
        ServerZoneIpcType::NpcSpawn => 0x0126,
        ServerZoneIpcType::Delete => 0x0103,
        ServerZoneIpcType::UpdateClassInfo => 0x0104,
        ServerZoneIpcType::PrepareZoning => 0x0105,
        ServerZoneIpcType::InitZone => 0x0106,
        ServerZoneIpcType::WeatherId => 0x0107,
        ServerZoneIpcType::CurrencyCrystalInfo => 0x0108,
        ServerZoneIpcType::UpdateItem => 0x0109,
        ServerZoneIpcType::ContainerInfo => 0x010A,
        ServerZoneIpcType::Equip => 0x010B,
        ServerZoneIpcType::ServerChatMessage => 0x010C,
        ServerZoneIpcType::ActorControlSelf => 0x010D,
        ServerZoneIpcType::ActorControl => 0x010E,
        ServerZoneIpcType::ActorControlTarget => 0x010F,
        ServerZoneIpcType::Config => 0x0110,
        ServerZoneIpcType::EventScene2 => 0x0111,
        ServerZoneIpcType::EventScene4 => 0x0112,
        ServerZoneIpcType::EventScene8 => 0x0113,
        ServerZoneIpcType::EventScene16 => 0x0114,
        ServerZoneIpcType::EventScene32 => 0x0115,
        ServerZoneIpcType::EventStart => 0x0116,
        ServerZoneIpcType::EventFinish => 0x0117,
        ServerZoneIpcType::Unk18 => 0x0118,
        ServerZoneIpcType::InventoryActionAck => 0x0119,
        ServerZoneIpcType::ShopLogMessage => 0x011A,
        ServerZoneIpcType::UpdateInventorySlot => 0x011B,
        ServerZoneIpcType::InventoryTransactionFinish => 0x011C,
        ServerZoneIpcType::LogOutComplete => 0x011D,
        ServerZoneIpcType::StatusEffectList => 0x011E,
        ServerZoneIpcType::UpdateHpMpTp => 0x011F,
        ServerZoneIpcType::PlayerStats => 0x0120,
        ServerZoneIpcType::ActionResult => 0x0121,
        ServerZoneIpcType::EffectResult => 0x0122,
        ServerZoneIpcType::QuestActiveList => 0x0123,
        ServerZoneIpcType::QuestCompleteList => 0x0124,
        ServerZoneIpcType::LevequestCompleteList => 0x0125,
    }
}

/// The 16-bit wire value of each opcode, computed.
pub fn opcode_value(t: ServerZoneIpcType) -> (r: u16)
    ensures
        r == opcode_tag(t),
{
    match t {
        ServerZoneIpcType::Warp => 0x0101,
        ServerZoneIpcType::Move => 0x0102,
        ServerZoneIpcType::NpcSpawn => 0x0126,
        ServerZoneIpcType::Delete => 0x0103,
        ServerZoneIpcType::UpdateClassInfo => 0x0104,
        ServerZoneIpcType::PrepareZoning => 0x0105,
        ServerZoneIpcType::InitZone => 0x0106,
        ServerZoneIpcType::WeatherId => 0x0107,
        ServerZoneIpcType::CurrencyCrystalInfo => 0x0108,
        ServerZoneIpcType::UpdateItem => 0x0109,
        ServerZoneIpcType::ContainerInfo => 0x010A,
        ServerZoneIpcType::Equip => 0x010B,
        ServerZoneIpcType::ServerChatMessage => 0x010C,
        ServerZoneIpcType::ActorControlSelf => 0x010D,
        ServerZoneIpcType::ActorControl => 0x010E,
        ServerZoneIpcType::ActorControlTarget => 0x010F,
        ServerZoneIpcType::Config => 0x0110,
        ServerZoneIpcType::EventScene2 => 0x0111,
        ServerZoneIpcType::EventScene4 => 0x0112,
        ServerZoneIpcType::EventScene8 => 0x0113,
        ServerZoneIpcType::EventScene16 => 0x0114,
        ServerZoneIpcType::EventScene32 => 0x0115,
        ServerZoneIpcType::EventStart => 0x0116,
        ServerZoneIpcType::EventFinish => 0x0117,
        ServerZoneIpcType::Unk18 => 0x0118,
        ServerZoneIpcType::InventoryActionAck => 0x0119,
        ServerZoneIpcType::ShopLogMessage => 0x011A,
        ServerZoneIpcType::UpdateInventorySlot => 0x011B,
        ServerZoneIpcType::InventoryTransactionFinish => 0x011C,
        ServerZoneIpcType::LogOutComplete => 0x011D,
        ServerZoneIpcType::StatusEffectList => 0x011E,
        ServerZoneIpcType::UpdateHpMpTp => 0x011F,
        ServerZoneIpcType::PlayerStats => 0x0120,
        ServerZoneIpcType::ActionResult => 0x0121,
        ServerZoneIpcType::EffectResult => 0x0122,
        ServerZoneIpcType::QuestActiveList => 0x0123,
        ServerZoneIpcType::QuestCompleteList => 0x0124,
        ServerZoneIpcType::LevequestCompleteList => 0x0125,
    }
}

// ---------------------------------------------------------------------------
// The zone-channel server command union and its encoder
// ---------------------------------------------------------------------------

/// A zone-channel server-to-client command.
#[derive(Debug, Clone, PartialEq)]
pub enum ServerZoneIpcData {
    Warp(Warp),
    Move(Move),
    NpcSpawn(NpcSpawn),
    Delete { spawn_index: u8, actor_id: u32 },
    UpdateClassInfo(UpdateClassInfo),
    PrepareZoning {
        log_message: u32,
        target_zone: u16,
        animation: u16,
        param4: u8,
        hide_character: u8,
        fade_out: u8,
        param_7: u8,
        fade_out_time: u8,
        unk1: u8,
        unk2: u16,
    },
    InitZone(InitZone),
    WeatherId(WeatherChange),
    CurrencyCrystalInfo(CurrencyInfo),
    UpdateItem(ItemSlotInfo),
    ContainerInfo(ContainerInfo),
    Equip(Equip),
    ServerChatMessage { message: String, param: u8 },
    ActorControlSelf(ActorControlSelf),
    ActorControl(ActorControl),
    ActorControlTarget(ActorControlTarget),
    Config(Config),
    EventScene { data: EventScene },
    EventStart(EventStart),
    EventFinish { handler_id: u32, event: u8, result: u8, arg: u32 },
    Unk18 { unk: [u8; 16] },
    InventoryActionAck { sequence: u32, action_type: u16 },
    ShopLogMessage {
        event_id: u32,
        message_type: u32,
        params_count: u32,
        item_id: u32,
        item_quantity: u32,
        total_sale_cost: u32,
    },
    UpdateInventorySlot {
        sequence: u32,
        dst_storage_id: u16,
        dst_container_index: u16,
        dst_stack: u32,
        dst_catalog_id: u32,
        unk1: u32,
    },
    InventoryTransactionFinish { sequence: u32, sequence_repeat: u32, unk1: u32, unk2: u32 },
    LogOutComplete { unk: [u8; 8] },
    StatusEffectList(StatusEffectList),
    UpdateHpMpTp { hp: u32, mp: u16, unk: u16 },
    PlayerStats(PlayerStats),
    ActionResult(ActionResult),
    EffectResult(EffectResult),
    QuestActiveList {},
    QuestCompleteList { completed_quests: Vec<u8>, unk2: Vec<u8> },
    LevequestCompleteList { completed_levequests: Vec<u8>, unk2: Vec<u8> },
}

/// An actor spawn notification; only the fields the session engine fills
/// are modeled.
#[derive(Debug, Clone, PartialEq)]
pub struct NpcSpawn {
    pub common: CommonSpawn,
}

/// The common body of a spawn notification.
#[derive(Debug, Clone, PartialEq)]
pub struct CommonSpawn {
    pub class_job: u8,
    pub level: u8,
    pub hp_curr: u32,
    pub hp_max: u32,
    pub mp_curr: u16,
    pub mp_max: u16,
    pub spawn_index: u8,
    pub target_id: ObjectTypeId,
    pub object_kind: u8,
    pub display_flags: u32,
    pub main_weapon_model: u64,
    pub models: Vec<u32>,
    pub pos: Position,
    pub rotation: u32,
    pub voice: u8,
    pub name: String,
    pub look: Vec<u8>,
}

impl Default for CommonSpawn {
    fn default() -> Self {
        CommonSpawn {
            class_job: 0,
            level: 0,
            hp_curr: 0,
            hp_max: 0,
            mp_curr: 0,
            mp_max: 0,
            spawn_index: 0,
            target_id: ObjectTypeId { object_id: ObjectId(0), object_type: 0 },
            object_kind: 0,
            display_flags: 0,
            main_weapon_model: 0,
            models: Vec::new(),
            pos: Position { x: 0, y: 0, z: 0 },
            rotation: 0,
            voice: 0,
            name: String::new(),
            look: Vec::new(),
        }
    }
}

/// Number of bytes the chat-message text field holds.
pub const CHAT_MESSAGE_FIELD: usize = 768;

/// Number of bytes the spawn name field holds.
pub const SPAWN_NAME_FIELD: usize = 32;

/// Number of bytes the spawn look field holds.
pub const SPAWN_LOOK_FIELD: usize = 26;

/// Number of bytes the completed-quest field holds.
pub const QUEST_FIELD: usize = 512;

/// Number of bytes the trailing quest field holds.
pub const QUEST_UNK_FIELD: usize = 69;

/// Number of bytes the levequest trailing field holds.
pub const LEVE_UNK_FIELD: usize = 8;

/// Number of bytes of the active-quest list body.
pub const QUEST_ACTIVE_BODY: usize = 608;

/// The encoding of one status-effect slot.
pub open spec fn enc_status(e: StatusEffect) -> Seq<u8> {
    u16_le(e.effect_id) + u16_le(e.param) + u32_le(e.duration) + u32_le(e.source_actor_id.0)
}

/// The encoding of one action-effect slot.
pub open spec fn enc_action_effect(e: ActionEffect) -> Seq<u8> {
    seq![e.kind, e.param0, e.param1, e.param2] + u16_le(e.value)
}

/// The encoding of one effect-result entry.
pub open spec fn enc_effect_entry(e: EffectEntry) -> Seq<u8> {
    seq![e.index, e.unk1] + u16_le(e.id) + u16_le(e.param) + u16_le(e.unk2) + u32_le(e.duration)
        + u32_le(e.source_actor_id.0)
}

/// The encoding of an actor reference: id word, kind byte, three pad bytes.
pub open spec fn enc_object_type_id(t: ObjectTypeId) -> Seq<u8> {
    u32_le(t.object_id.0) + seq![t.object_type] + zeros(3)
}

/// The encoding of a common spawn body.
pub open spec fn enc_common_spawn(c: CommonSpawn) -> Seq<u8> {
    seq![c.class_job, c.level] + u32_le(c.hp_curr) + u32_le(c.hp_max) + u16_le(c.mp_curr) + u16_le(
        c.mp_max,
    ) + seq![c.spawn_index] + enc_object_type_id(c.target_id) + seq![c.object_kind] + zeros(1)
        + u32_le(c.display_flags) + u64_le(c.main_weapon_model) + enc_list(
        pad_list(c.models@, 10, 0u32),
        (|x: u32| u32_le(x)),
    ) + u32_le(c.pos.x) + u32_le(c.pos.y) + u32_le(c.pos.z) + u32_le(c.rotation) + seq![c.voice]
        + zeros(1) + enc_str_fixed(c.name@, SPAWN_NAME_FIELD as nat) + pad_trunc(
        c.look@,
        SPAWN_LOOK_FIELD as nat,
    )
}

/// The zero status-effect slot used as list fill.
pub open spec fn status_fill() -> StatusEffect {
    StatusEffect { effect_id: 0, param: 0, duration: 0, source_actor_id: ObjectId(0) }
}

/// The zero action-effect slot used as list fill.
pub open spec fn action_effect_fill() -> ActionEffect {
    ActionEffect { kind: 0, param0: 0, param1: 0, param2: 0, value: 0 }
}

/// The zero effect entry used as list fill.
pub open spec fn effect_entry_fill() -> EffectEntry {
    EffectEntry { index: 0, unk1: 0, id: 0, param: 0, unk2: 0, duration: 0, source_actor_id: ObjectId(0) }
}

/// The encoded body of a zone-channel server command.
pub open spec fn enc_server_ipc(d: ServerZoneIpcData) -> Seq<u8> {
    match d {
        ServerZoneIpcData::Warp(w) => u16_le(w.dir) + seq![w.warp_type, w.warp_type_arg] + u32_le(
            w.layer_set,
        ) + u32_le(w.position.x) + u32_le(w.position.y) + u32_le(w.position.z),
        ServerZoneIpcData::Move(m) => u32_le(m.rotation) + seq![m.flag1, m.flag2] + u16_le(0)
            + u32_le(m.position.x) + u32_le(m.position.y) + u32_le(m.position.z),
        ServerZoneIpcData::NpcSpawn(n) => enc_common_spawn(n.common),
        ServerZoneIpcData::Delete { spawn_index, actor_id } => seq![spawn_index] + zeros(3)
            + u32_le(actor_id),
        ServerZoneIpcData::UpdateClassInfo(u) => seq![u.class_id, 0u8] + u16_le(u.synced_level)
            + u16_le(u.class_level) + u16_le(u.current_level) + u16_le(0) + u32_le(u.current_exp),
        ServerZoneIpcData::PrepareZoning {
            log_message,
            target_zone,
            animation,
            param4,
            hide_character,
            fade_out,
            param_7,
            fade_out_time,
            unk1,
            unk2,
        } => u32_le(log_message) + u16_le(target_zone) + u16_le(animation)
            + seq![param4, hide_character, fade_out, param_7, fade_out_time, unk1] + u16_le(unk2),
        ServerZoneIpcData::InitZone(z) => u16_le(z.territory_type) + u16_le(z.weather_id)
            + seq![z.obsfucation_mode, z.seed1, z.seed2, 0u8] + u32_le(z.seed3),
        ServerZoneIpcData::WeatherId(w) => u16_le(w.weather_id) + u16_le(0) + u32_le(
            w.transistion_time,
        ),
        ServerZoneIpcData::CurrencyCrystalInfo(c) => u32_le(c.sequence) + u16_le(
            container_type_tag(c.container),
        ) + u16_le(0) + u32_le(c.quantity) + u32_le(c.catalog_id) + seq![c.unk1] + zeros(3),
        ServerZoneIpcData::UpdateItem(u) => u32_le(u.sequence) + u16_le(
            container_type_tag(u.container),
        ) + u16_le(u.slot) + u32_le(u.quantity) + u32_le(u.catalog_id) + u16_le(u.condition)
            + u16_le(0) + u32_le(u.glamour_catalog_id),
        ServerZoneIpcData::ContainerInfo(c) => u16_le(container_type_tag(c.container)) + u16_le(0)
            + u32_le(c.num_items) + u32_le(c.sequence),
        ServerZoneIpcData::Equip(e) => u64_le(e.main_weapon_id) + enc_list(
            pad_list(e.model_ids@, 10, 0u32),
            (|x: u32| u32_le(x)),
        ),
        ServerZoneIpcData::ServerChatMessage { message, param } => seq![param] + zeros(3)
            + enc_str_fixed(message@, CHAT_MESSAGE_FIELD as nat),
        ServerZoneIpcData::ActorControlSelf(a) => enc_actor_control(a.category),
        ServerZoneIpcData::ActorControl(a) => enc_actor_control(a.category),
        ServerZoneIpcData::ActorControlTarget(a) => enc_actor_control(a.category),
        ServerZoneIpcData::Config(c) => u32_le(c.flags),
        ServerZoneIpcData::EventScene { data } => enc_object_type_id(data.actor_id) + u32_le(
            data.event_id,
        ) + u16_le(data.scene) + u16_le(0) + u32_le(data.scene_flags) + seq![data.params_count]
            + zeros(3) + enc_list(data.params@, (|x: u32| u32_le(x))),
        ServerZoneIpcData::EventStart(e) => enc_object_type_id(e.target_id) + u32_le(e.event_id)
            + seq![e.event_type] + zeros(3) + u32_le(e.event_arg),
        ServerZoneIpcData::EventFinish { handler_id, event, result, arg } => u32_le(handler_id)
            + seq![event, result] + u16_le(0) + u32_le(arg),
        ServerZoneIpcData::Unk18 { unk } => unk@,
        ServerZoneIpcData::InventoryActionAck { sequence, action_type } => u32_le(sequence)
            + u16_le(action_type) + u16_le(0),
        ServerZoneIpcData::ShopLogMessage {
            event_id,
            message_type,
            params_count,
            item_id,
            item_quantity,
            total_sale_cost,
        } => u32_le(event_id) + u32_le(message_type) + u32_le(params_count) + u32_le(item_id)
            + u32_le(item_quantity) + u32_le(total_sale_cost),
        ServerZoneIpcData::UpdateInventorySlot {
            sequence,
            dst_storage_id,
            dst_container_index,
            dst_stack,
            dst_catalog_id,
            unk1,
        } => u32_le(sequence) + u16_le(dst_storage_id) + u16_le(dst_container_index) + u32_le(
            dst_stack,
        ) + u32_le(dst_catalog_id) + u32_le(unk1),
        ServerZoneIpcData::InventoryTransactionFinish { sequence, sequence_repeat, unk1, unk2 } => {
            u32_le(sequence) + u32_le(sequence_repeat) + u32_le(unk1) + u32_le(unk2)
        },
        ServerZoneIpcData::LogOutComplete { unk } => unk@,
        ServerZoneIpcData::StatusEffectList(s) => seq![s.classjob_id, s.level] + u16_le(0) + u32_le(
            s.curr_hp,
        ) + u32_le(s.max_hp) + u16_le(s.curr_mp) + u16_le(s.max_mp) + enc_list(
            pad_list(s.statues@, 30, status_fill()),
            (|e: StatusEffect| enc_status(e)),
        ),
        ServerZoneIpcData::UpdateHpMpTp { hp, mp, unk } => u32_le(hp) + u16_le(mp) + u16_le(unk),
        ServerZoneIpcData::PlayerStats(p) => u32_le(p.strength) + u32_le(p.dexterity) + u32_le(
            p.vitality,
        ) + u32_le(p.intelligence) + u32_le(p.mind) + u32_le(p.hp) + u32_le(p.mp),
        ServerZoneIpcData::ActionResult(a) => enc_object_type_id(a.main_target)
            + enc_object_type_id(a.target_id_again) + u32_le(a.action_id) + u32_le(
            a.animation_lock_time,
        ) + u32_le(a.rotation) + u16_le(a.action_animation_id) + seq![a.flag, a.effect_count]
            + enc_list(
            pad_list(a.effects@, 8, action_effect_fill()),
            (|e: ActionEffect| enc_action_effect(e)),
        ) + u32_le(a.unk1) + u32_le(a.unk2) + seq![a.hidden_animation] + zeros(3),
        ServerZoneIpcData::EffectResult(e) => u32_le(e.unk1) + u32_le(e.unk2) + u32_le(e.target_id.0)
            + u32_le(e.current_hp) + u32_le(e.max_hp) + u16_le(e.current_mp)
            + seq![e.unk3, e.class_id, e.shield, e.entry_count, e.unk4, 0u8] + enc_list(
            pad_list(e.statuses@, 4, effect_entry_fill()),
            (|x: EffectEntry| enc_effect_entry(x)),
        ),
        ServerZoneIpcData::QuestActiveList {  } => zeros(QUEST_ACTIVE_BODY as nat),
        ServerZoneIpcData::QuestCompleteList { completed_quests, unk2 } => pad_trunc(
            completed_quests@,
            QUEST_FIELD as nat,
        ) + pad_trunc(unk2@, QUEST_UNK_FIELD as nat),
        ServerZoneIpcData::LevequestCompleteList { completed_levequests, unk2 } => pad_trunc(
            completed_levequests@,
            crate::COMPLETED_LEVEQUEST_BITMASK_SIZE as nat,
        ) + pad_trunc(unk2@, LEVE_UNK_FIELD as nat),
    }
}

/// Writes a byte list truncated or zero-padded to a fixed width.
fn put_bytes_fixed(out: &mut Vec<u8>, v: &Vec<u8>, n: usize)
    ensures
        final(out)@ == old(out)@ + pad_trunc(v@, n as nat),
{
    let len = v.len();
    let mut i: usize = 0;
    while i < n
        invariant
            i <= n,
            len == v@.len(),
            out@ == old(out)@ + pad_trunc(v@, i as nat),
        decreases n - i,
    {
        if i < len {
            out.push(v[i]);
        } else {
            out.push(0);
        }
        assert(out@ =~= old(out)@ + pad_trunc(v@, (i + 1) as nat));
        i = i + 1;
    }
}

/// Writes a fixed-size byte array.
pub(crate) fn put_byte_array<const N: usize>(out: &mut Vec<u8>, a: &[u8; N])
    ensures
        final(out)@ == old(out)@ + a@,
{
    let mut i: usize = 0;
    while i < N
        invariant
            i <= N,
            out@ == old(out)@ + a@.subrange(0, i as int),
        decreases N - i,
    {
        out.push(a[i]);
        assert(out@ =~= old(out)@ + a@.subrange(0, i as int + 1));
        i = i + 1;
    }
    assert(a@.subrange(0, N as int) =~= a@);
}

/// Writes a fixed number of status-effect slots, zero-filled past the end.
fn put_status_list(out: &mut Vec<u8>, v: &Vec<StatusEffect>, n: usize)
    ensures
        final(out)@ == old(out)@ + enc_list(
            pad_list(v@, n as nat, status_fill()),
            (|e: StatusEffect| enc_status(e)),
        ),
{
    let len = v.len();
    let ghost f = (|e: StatusEffect| enc_status(e));
    let ghost padded = pad_list(v@, n as nat, status_fill());
    let mut i: usize = 0;
    proof {
        assert(padded.subrange(0, 0) =~= Seq::<StatusEffect>::empty());
    }
    while i < n
        invariant
            i <= n,
            len == v@.len(),
            f == (|e: StatusEffect| enc_status(e)),
            padded == pad_list(v@, n as nat, status_fill()),
            out@ == old(out)@ + enc_list(padded.subrange(0, i as int), f),
        decreases n - i,
    {
        let e: StatusEffect = if i < len {
            v[i]
        } else {
            StatusEffect { effect_id: 0, param: 0, duration: 0, source_actor_id: ObjectId(0) }
        };
        proof {
            assert(padded[i as int] == e);
            lemma_enc_list_snoc(padded.subrange(0, i as int), e, f);
            assert(padded.subrange(0, i as int).push(e) =~= padded.subrange(0, i as int + 1));
        }
        put_u16(out, e.effect_id);
        put_u16(out, e.param);
        put_u32(out, e.duration);
        put_u32(out, e.source_actor_id.0);
        proof {
            assert(out@ =~= old(out)@ + enc_list(padded.subrange(0, i as int + 1), f));
        }
        i = i + 1;
    }
    proof {
        assert(padded.subrange(0, n as int) =~= padded);
    }
}

/// Writes a fixed number of action-effect slots, zero-filled past the end.
fn put_action_effects(out: &mut Vec<u8>, v: &Vec<ActionEffect>, n: usize)
    ensures
        final(out)@ == old(out)@ + enc_list(
            pad_list(v@, n as nat, action_effect_fill()),
            (|e: ActionEffect| enc_action_effect(e)),
        ),
{
    let len = v.len();
    let ghost f = (|e: ActionEffect| enc_action_effect(e));
    let ghost padded = pad_list(v@, n as nat, action_effect_fill());
    let mut i: usize = 0;
    proof {
        assert(padded.subrange(0, 0) =~= Seq::<ActionEffect>::empty());
    }
    while i < n
        invariant
            i <= n,
            len == v@.len(),
            f == (|e: ActionEffect| enc_action_effect(e)),
            padded == pad_list(v@, n as nat, action_effect_fill()),
            out@ == old(out)@ + enc_list(padded.subrange(0, i as int), f),
        decreases n - i,
    {
        let e: ActionEffect = if i < len {
            v[i]
        } else {
            ActionEffect { kind: 0, param0: 0, param1: 0, param2: 0, value: 0 }
        };
        proof {
            assert(padded[i as int] == e);
            lemma_enc_list_snoc(padded.subrange(0, i as int), e, f);
            assert(padded.subrange(0, i as int).push(e) =~= padded.subrange(0, i as int + 1));
        }
        put_u8(out, e.kind);
        put_u8(out, e.param0);
        put_u8(out, e.param1);
        put_u8(out, e.param2);
        put_u16(out, e.value);
        proof {
            assert(out@ =~= old(out)@ + enc_list(padded.subrange(0, i as int + 1), f));
        }
        i = i + 1;
    }
    proof {
        assert(padded.subrange(0, n as int) =~= padded);
    }
}

/// Writes a fixed number of effect entries, zero-filled past the end.
fn put_effect_entries(out: &mut Vec<u8>, v: &Vec<EffectEntry>, n: usize)
    ensures
        final(out)@ == old(out)@ + enc_list(
            pad_list(v@, n as nat, effect_entry_fill()),
            (|e: EffectEntry| enc_effect_entry(e)),
        ),
{
    let len = v.len();
    let ghost f = (|e: EffectEntry| enc_effect_entry(e));
    let ghost padded = pad_list(v@, n as nat, effect_entry_fill());
    let mut i: usize = 0;
    proof {
        assert(padded.subrange(0, 0) =~= Seq::<EffectEntry>::empty());
    }
    while i < n
        invariant
            i <= n,
            len == v@.len(),
            f == (|e: EffectEntry| enc_effect_entry(e)),
            padded == pad_list(v@, n as nat, effect_entry_fill()),
            out@ == old(out)@ + enc_list(padded.subrange(0, i as int), f),
        decreases n - i,
    {
        let e: EffectEntry = if i < len {
            v[i]
        } else {
            EffectEntry {
                index: 0,
                unk1: 0,
                id: 0,
                param: 0,
                unk2: 0,
                duration: 0,
                source_actor_id: ObjectId(0),
            }
        };
        proof {
            assert(padded[i as int] == e);
            lemma_enc_list_snoc(padded.subrange(0, i as int), e, f);
            assert(padded.subrange(0, i as int).push(e) =~= padded.subrange(0, i as int + 1));
        }
        put_u8(out, e.index);
        put_u8(out, e.unk1);
        put_u16(out, e.id);
        put_u16(out, e.param);
        put_u16(out, e.unk2);
        put_u32(out, e.duration);
        put_u32(out, e.source_actor_id.0);
        proof {
            assert(out@ =~= old(out)@ + enc_list(padded.subrange(0, i as int + 1), f));
        }
        i = i + 1;
    }
    proof {
        assert(padded.subrange(0, n as int) =~= padded);
    }
}

/// Writes an actor reference.
fn put_object_type_id(out: &mut Vec<u8>, t: &ObjectTypeId)
    ensures
        final(out)@ == old(out)@ + enc_object_type_id(*t),
{
    put_u32(out, t.object_id.0);
    put_u8(out, t.object_type);
    put_zeros(out, 3);
    assert(out@ =~= old(out)@ + enc_object_type_id(*t));
}

/// Encodes the body of a zone-channel server command.
pub fn encode_server_ipc(d: &ServerZoneIpcData) -> (r: Vec<u8>)
    ensures
        r@ == enc_server_ipc(*d),
{
    let mut out: Vec<u8> = Vec::new();
    match d {
        ServerZoneIpcData::Warp(w) => {
            put_u16(&mut out, w.dir);
            put_u8(&mut out, w.warp_type);
            put_u8(&mut out, w.warp_type_arg);
            put_u32(&mut out, w.layer_set);
            put_u32(&mut out, w.position.x);
            put_u32(&mut out, w.position.y);
            put_u32(&mut out, w.position.z);
        },
        ServerZoneIpcData::Move(m) => {
            put_u32(&mut out, m.rotation);
            put_u8(&mut out, m.flag1);
            put_u8(&mut out, m.flag2);
            put_u16(&mut out, 0);
            put_u32(&mut out, m.position.x);
            put_u32(&mut out, m.position.y);
            put_u32(&mut out, m.position.z);
        },
        ServerZoneIpcData::NpcSpawn(n) => {
            put_u8(&mut out, n.common.class_job);
            put_u8(&mut out, n.common.level);
            put_u32(&mut out, n.common.hp_curr);
            put_u32(&mut out, n.common.hp_max);
            put_u16(&mut out, n.common.mp_curr);
            put_u16(&mut out, n.common.mp_max);
            put_u8(&mut out, n.common.spawn_index);
            put_object_type_id(&mut out, &n.common.target_id);
            put_u8(&mut out, n.common.object_kind);
            put_zeros(&mut out, 1);
            put_u32(&mut out, n.common.display_flags);
            put_u64(&mut out, n.common.main_weapon_model);
            put_u32_list_fixed(&mut out, &n.common.models, 10);
            put_u32(&mut out, n.common.pos.x);
            put_u32(&mut out, n.common.pos.y);
            put_u32(&mut out, n.common.pos.z);
            put_u32(&mut out, n.common.rotation);
            put_u8(&mut out, n.common.voice);
            put_zeros(&mut out, 1);
            put_str_fixed(&mut out, n.common.name.as_str(), SPAWN_NAME_FIELD);
            put_bytes_fixed(&mut out, &n.common.look, SPAWN_LOOK_FIELD);
        },
        ServerZoneIpcData::Delete { spawn_index, actor_id } => {
            put_u8(&mut out, *spawn_index);
            put_zeros(&mut out, 3);
            put_u32(&mut out, *actor_id);
        },
        ServerZoneIpcData::UpdateClassInfo(u) => {
            put_u8(&mut out, u.class_id);
            put_u8(&mut out, 0);
            put_u16(&mut out, u.synced_level);
            put_u16(&mut out, u.class_level);
            put_u16(&mut out, u.current_level);
            put_u16(&mut out, 0);
            put_u32(&mut out, u.current_exp);
        },
        ServerZoneIpcData::PrepareZoning {
            log_message,
            target_zone,
            animation,
            param4,
            hide_character,
            fade_out,
            param_7,
            fade_out_time,
            unk1,
            unk2,
        } => {
            put_u32(&mut out, *log_message);
            put_u16(&mut out, *target_zone);
            put_u16(&mut out, *animation);
            put_u8(&mut out, *param4);
            put_u8(&mut out, *hide_character);
            put_u8(&mut out, *fade_out);
            put_u8(&mut out, *param_7);
            put_u8(&mut out, *fade_out_time);
            put_u8(&mut out, *unk1);
            put_u16(&mut out, *unk2);
        },
        ServerZoneIpcData::InitZone(z) => {
            put_u16(&mut out, z.territory_type);
            put_u16(&mut out, z.weather_id);
            put_u8(&mut out, z.obsfucation_mode);
            put_u8(&mut out, z.seed1);
            put_u8(&mut out, z.seed2);
            put_u8(&mut out, 0);
            put_u32(&mut out, z.seed3);
        },
        ServerZoneIpcData::WeatherId(w) => {
            put_u16(&mut out, w.weather_id);
            put_u16(&mut out, 0);
            put_u32(&mut out, w.transistion_time);
        },
        ServerZoneIpcData::CurrencyCrystalInfo(c) => {
            put_u32(&mut out, c.sequence);
            put_u16(&mut out, container_type_value(c.container));
            put_u16(&mut out, 0);
            put_u32(&mut out, c.quantity);
            put_u32(&mut out, c.catalog_id);
            put_u8(&mut out, c.unk1);
            put_zeros(&mut out, 3);
        },
        ServerZoneIpcData::UpdateItem(u) => {
            put_u32(&mut out, u.sequence);
            put_u16(&mut out, container_type_value(u.container));
            put_u16(&mut out, u.slot);
            put_u32(&mut out, u.quantity);
            put_u32(&mut out, u.catalog_id);
            put_u16(&mut out, u.condition);
            put_u16(&mut out, 0);
            put_u32(&mut out, u.glamour_catalog_id);
        },
        ServerZoneIpcData::ContainerInfo(c) => {
            put_u16(&mut out, container_type_value(c.container));
            put_u16(&mut out, 0);
            put_u32(&mut out, c.num_items);
            put_u32(&mut out, c.sequence);
        },
        ServerZoneIpcData::Equip(e) => {
            put_u64(&mut out, e.main_weapon_id);
            put_u32_list_fixed(&mut out, &e.model_ids, 10);
        },
        ServerZoneIpcData::ServerChatMessage { message, param } => {
            put_u8(&mut out, *param);
            put_zeros(&mut out, 3);
            put_str_fixed(&mut out, message.as_str(), CHAT_MESSAGE_FIELD);
        },
        ServerZoneIpcData::ActorControlSelf(a) => {
            put_actor_control(&mut out, &a.category);
        },
        ServerZoneIpcData::ActorControl(a) => {
            put_actor_control(&mut out, &a.category);
        },
        ServerZoneIpcData::ActorControlTarget(a) => {
            put_actor_control(&mut out, &a.category);
        },
        ServerZoneIpcData::Config(c) => {
            put_u32(&mut out, c.flags);
        },
        ServerZoneIpcData::EventScene { data } => {
            put_object_type_id(&mut out, &data.actor_id);
            put_u32(&mut out, data.event_id);
            put_u16(&mut out, data.scene);
            put_u16(&mut out, 0);
            put_u32(&mut out, data.scene_flags);
            put_u8(&mut out, data.params_count);
            put_zeros(&mut out, 3);
            put_u32_list_fixed(&mut out, &data.params, data.params.len());
            proof {
                assert(pad_list(data.params@, data.params@.len(), 0u32) =~= data.params@);
            }
        },
        ServerZoneIpcData::EventStart(e) => {
            put_object_type_id(&mut out, &e.target_id);
            put_u32(&mut out, e.event_id);
            put_u8(&mut out, e.event_type);
            put_zeros(&mut out, 3);
            put_u32(&mut out, e.event_arg);
        },
        ServerZoneIpcData::EventFinish { handler_id, event, result, arg } => {
            put_u32(&mut out, *handler_id);
            put_u8(&mut out, *event);
            put_u8(&mut out, *result);
            put_u16(&mut out, 0);
            put_u32(&mut out, *arg);
        },
        ServerZoneIpcData::Unk18 { unk } => {
            put_byte_array(&mut out, unk);
        },
        ServerZoneIpcData::InventoryActionAck { sequence, action_type } => {
            put_u32(&mut out, *sequence);
            put_u16(&mut out, *action_type);
            put_u16(&mut out, 0);
        },
        ServerZoneIpcData::ShopLogMessage {
            event_id,
            message_type,
            params_count,
            item_id,
            item_quantity,
            total_sale_cost,
        } => {
            put_u32(&mut out, *event_id);
            put_u32(&mut out, *message_type);
            put_u32(&mut out, *params_count);
            put_u32(&mut out, *item_id);
            put_u32(&mut out, *item_quantity);
            put_u32(&mut out, *total_sale_cost);
        },
        ServerZoneIpcData::UpdateInventorySlot {
            sequence,
            dst_storage_id,
            dst_container_index,
            dst_stack,
            dst_catalog_id,
            unk1,
        } => {
            put_u32(&mut out, *sequence);
            put_u16(&mut out, *dst_storage_id);
            put_u16(&mut out, *dst_container_index);
            put_u32(&mut out, *dst_stack);
            put_u32(&mut out, *dst_catalog_id);
            put_u32(&mut out, *unk1);
        },
        ServerZoneIpcData::InventoryTransactionFinish { sequence, sequence_repeat, unk1, unk2 } => {
            put_u32(&mut out, *sequence);
            put_u32(&mut out, *sequence_repeat);
            put_u32(&mut out, *unk1);
            put_u32(&mut out, *unk2);
        },
        ServerZoneIpcData::LogOutComplete { unk } => {
            put_byte_array(&mut out, unk);
        },
        ServerZoneIpcData::StatusEffectList(s) => {
            put_u8(&mut out, s.classjob_id);
            put_u8(&mut out, s.level);
            put_u16(&mut out, 0);
            put_u32(&mut out, s.curr_hp);
            put_u32(&mut out, s.max_hp);
            put_u16(&mut out, s.curr_mp);
            put_u16(&mut out, s.max_mp);
            put_status_list(&mut out, &s.statues, 30);
        },
        ServerZoneIpcData::UpdateHpMpTp { hp, mp, unk } => {
            put_u32(&mut out, *hp);
            put_u16(&mut out, *mp);
            put_u16(&mut out, *unk);
        },
        ServerZoneIpcData::PlayerStats(p) => {
            put_u32(&mut out, p.strength);
            put_u32(&mut out, p.dexterity);
            put_u32(&mut out, p.vitality);
            put_u32(&mut out, p.intelligence);
            put_u32(&mut out, p.mind);
            put_u32(&mut out, p.hp);
            put_u32(&mut out, p.mp);
        },
        ServerZoneIpcData::ActionResult(a) => {
            put_object_type_id(&mut out, &a.main_target);
            put_object_type_id(&mut out, &a.target_id_again);
            put_u32(&mut out, a.action_id);
            put_u32(&mut out, a.animation_lock_time);
            put_u32(&mut out, a.rotation);
            put_u16(&mut out, a.action_animation_id);
            put_u8(&mut out, a.flag);
            put_u8(&mut out, a.effect_count);
            put_action_effects(&mut out, &a.effects, 8);
            put_u32(&mut out, a.unk1);
            put_u32(&mut out, a.unk2);
            put_u8(&mut out, a.hidden_animation);
            put_zeros(&mut out, 3);
        },
        ServerZoneIpcData::EffectResult(e) => {
            put_u32(&mut out, e.unk1);
            put_u32(&mut out, e.unk2);
            put_u32(&mut out, e.target_id.0);
            put_u32(&mut out, e.current_hp);
            put_u32(&mut out, e.max_hp);
            put_u16(&mut out, e.current_mp);
            put_u8(&mut out, e.unk3);
            put_u8(&mut out, e.class_id);
            put_u8(&mut out, e.shield);
            put_u8(&mut out, e.entry_count);
            put_u8(&mut out, e.unk4);
            put_u8(&mut out, 0);
            put_effect_entries(&mut out, &e.statuses, 4);
        },
        ServerZoneIpcData::QuestActiveList {  } => {
            put_zeros(&mut out, QUEST_ACTIVE_BODY);
        },
        ServerZoneIpcData::QuestCompleteList { completed_quests, unk2 } => {
            put_bytes_fixed(&mut out, completed_quests, QUEST_FIELD);
            put_bytes_fixed(&mut out, unk2, QUEST_UNK_FIELD);
        },
        ServerZoneIpcData::LevequestCompleteList { completed_levequests, unk2 } => {
            put_bytes_fixed(&mut out, completed_levequests, crate::COMPLETED_LEVEQUEST_BITMASK_SIZE);
            put_bytes_fixed(&mut out, unk2, LEVE_UNK_FIELD);
        },
    }
    assert(out@ =~= enc_server_ipc(*d));
    out
}

// ---------------------------------------------------------------------------
// Typed segments and the envelope conversion
// ---------------------------------------------------------------------------

/// A typed zone-channel server command with its envelope fields.
#[derive(Debug, Clone, PartialEq)]
pub struct ServerZoneIpcSegment {
    pub op_code: ServerZoneIpcType,
    pub option: u16,
    pub timestamp: u32,
    pub data: ServerZoneIpcData,
}

/// A chat-channel server command; its body is already encoded.
#[derive(Debug, Clone, PartialEq)]
pub struct ServerChatIpcSegment {
    pub op_code: u16,
    pub option: u16,
    pub timestamp: u32,
    pub payload: Vec<u8>,
}

/// A private server-to-server command; its body is already encoded.
#[derive(Debug, Clone, PartialEq)]
pub struct CustomIpcSegment {
    pub op_code: u16,
    pub option: u16,
    pub timestamp: u32,
    pub payload: Vec<u8>,
}

/// Turns a typed zone command into the raw envelope the frame codec
/// carries.
pub fn server_ipc_to_envelope(s: &ServerZoneIpcSegment) -> (r: IpcEnvelope)
    ensures
        r@.op_code == opcode_tag(s.op_code),
        r@.option == s.option,
        r@.timestamp == s.timestamp,
        r@.payload == enc_server_ipc(s.data),
{
    IpcEnvelope {
        op_code: opcode_value(s.op_code),
        option: s.option,
        timestamp: s.timestamp,
        payload: encode_server_ipc(&s.data),
    }
}

} // verus!
