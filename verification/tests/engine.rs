//! Scenario tests of the session engine: zone transitions, the status
//! refresh, inventory synchronization, the task queue and action
//! execution.

use kawari::common::{ObjectId, ObjectTypeId, Position};
use kawari::connection::{
    Actor, ClientId, EffectKind, EffectsBuilder, LuaPlayer, ObsfucationData, PlayerData,
    SessionAction, Task, ToServer, WorldConfig, ZoneConnection, ZoneSegment, ZoneSegmentData,
    ActionRequest,
};
use kawari::gamedata::{GameData, ItemInfo, WarpRow, ZoneWeatherRates};
use kawari::inventory::Item;
use kawari::ipc::{ActorControlCategory, ServerZoneIpcData, ServerZoneIpcType};
use kawari::status::{StatusEffect, StatusEffects};
use kawari::transform::generate_keys;
use kawari::zone::Zone;
use std::collections::HashMap;

fn test_gamedata() -> GameData {
    let mut gd = GameData::default();
    gd.classjob_exp_indexes = vec![0, 1];
    gd.zones.push(Zone { id: 100, pop_ranges: Vec::new() });
    gd.zones.push(Zone { id: 200, pop_ranges: Vec::new() });
    gd.weather.push(ZoneWeatherRates { zone_id: 100, rates: vec![(3, 100)] });
    gd.warps.push(WarpRow { id: 1, pop_range_id: 77, zone_id: 200 });
    gd
}

fn test_conn() -> ZoneConnection {
    ZoneConnection {
        config: WorldConfig::default(),
        player_data: PlayerData { actor_id: 1001, ..PlayerData::default() },
        zone: None,
        spawn_index: 0,
        status_effects: StatusEffects::default(),
        event: None,
        event_type: 0,
        actors: Vec::new(),
        id: ClientId(1),
        gamedata: test_gamedata(),
        exit_position: None,
        exit_rotation: None,
        gracefully_logged_out: false,
        weather_id: 0,
        obsfucation_data: ObsfucationData::default(),
        queued_content: None,
        now: 1700000000,
        outbound: Vec::new(),
        chat_outbound: Vec::new(),
        server_messages: Vec::new(),
        actions: Vec::new(),
    }
}

fn ipc_data(seg: &ZoneSegment) -> Option<&ServerZoneIpcData> {
    match &seg.data {
        ZoneSegmentData::Ipc { data } => Some(&data.data),
        _ => None,
    }
}

#[test]
fn initialize_probes_and_announces() {
    let mut conn = test_conn();
    conn.initialize(1001);
    assert_eq!(conn.player_data.curr_hp, 100);
    assert_eq!(conn.player_data.max_mp, 10000);
    assert_eq!(conn.outbound.len(), 2);
    assert!(matches!(
        conn.outbound[0].data,
        ZoneSegmentData::KeepAliveRequest { id: 0xE0037603, .. }
    ));
    assert!(matches!(
        conn.outbound[1].data,
        ZoneSegmentData::Initialize { actor_id: 1001, .. }
    ));
}

#[test]
fn keep_alive_is_mirrored() {
    let mut conn = test_conn();
    conn.handle_keep_alive(77, 123);
    assert_eq!(conn.outbound.len(), 1);
    assert!(matches!(
        conn.outbound[0].data,
        ZoneSegmentData::KeepAliveResponse { id: 77, timestamp: 123 }
    ));
}

#[test]
fn zone_change_emits_the_strict_sequence() {
    // The engine must emit, in order: PrepareZoning, a class-info update,
    // Initialize, InitZone with the new zone id, and the self-directed
    // item-level recompute — and end up in the new zone.
    let mut conn = test_conn();
    conn.change_zone(100);
    assert_eq!(conn.player_data.zone_id, 100);
    assert_eq!(conn.zone.as_ref().unwrap().id, 100);
    assert_eq!(conn.outbound.len(), 5);
    assert!(matches!(
        ipc_data(&conn.outbound[0]),
        Some(ServerZoneIpcData::PrepareZoning { target_zone: 100, .. })
    ));
    assert!(matches!(
        ipc_data(&conn.outbound[1]),
        Some(ServerZoneIpcData::UpdateClassInfo(_))
    ));
    assert!(matches!(
        conn.outbound[2].data,
        ZoneSegmentData::Initialize { actor_id: 1001, .. }
    ));
    match ipc_data(&conn.outbound[3]) {
        Some(ServerZoneIpcData::InitZone(z)) => {
            assert_eq!(z.territory_type, 100);
            assert_eq!(z.weather_id, 3);
        }
        other => panic!("expected InitZone, got {other:?}"),
    }
    match ipc_data(&conn.outbound[4]) {
        Some(ServerZoneIpcData::ActorControlSelf(a)) => {
            assert!(matches!(a.category, ActorControlCategory::SetItemLevel { .. }));
        }
        other => panic!("expected the item-level control, got {other:?}"),
    }
    // No zone was active before, so the coordinator got no leaving notice.
    assert!(conn.server_messages.is_empty());
}

#[test]
fn zone_change_reports_leaving_the_old_zone() {
    let mut conn = test_conn();
    conn.change_zone(100);
    conn.outbound.clear();
    conn.change_zone(200);
    assert_eq!(
        conn.server_messages,
        vec![ToServer::LeftZone(ClientId(1), 1001, 100)]
    );
    assert_eq!(conn.player_data.zone_id, 200);
}

#[test]
fn obfuscation_seeds_are_inverted_on_the_wire() {
    // The seeds carried by InitZone are the bitwise complement of the
    // local seeds, and the local key material derives from the local
    // seeds.
    let mut conn = test_conn();
    conn.config.enable_packet_obsfucation = true;
    conn.change_zone(100);
    let od = conn.obsfucation_data.clone();
    match ipc_data(&conn.outbound[3]) {
        Some(ServerZoneIpcData::InitZone(z)) => {
            assert_eq!(z.obsfucation_mode, 1);
            assert_eq!(z.seed1, !od.seed1);
            assert_eq!(z.seed2, !od.seed2);
            assert_eq!(z.seed3, !od.seed3);
            assert_eq!(!z.seed1, od.seed1);
        }
        other => panic!("expected InitZone, got {other:?}"),
    }
    let keys = od.keys.expect("a transition with obfuscation derives keys");
    assert_eq!(keys.keys, generate_keys(od.seed1, od.seed2, od.seed3).keys);
}

#[test]
fn warp_with_absent_pop_range_falls_back_and_completes() {
    // Zone 200's layout has no pop range 77: the warp falls back to the
    // origin and still completes the zone change.
    let mut conn = test_conn();
    conn.warp(1);
    assert_eq!(conn.exit_position, None);
    assert_eq!(conn.player_data.zone_id, 200);
    assert!(conn
        .outbound
        .iter()
        .any(|s| matches!(ipc_data(s), Some(ServerZoneIpcData::InitZone(_)))));
}

#[test]
fn status_refresh_sends_once_until_dirty_again() {
    let mut conn = test_conn();
    conn.status_effects.add(StatusEffect {
        effect_id: 50,
        param: 0,
        duration: 0,
        source_actor_id: ObjectId(1001),
    });
    assert!(conn.status_effects.dirty);
    conn.process_effects_list();
    assert_eq!(conn.outbound.len(), 1);
    assert!(matches!(
        ipc_data(&conn.outbound[0]),
        Some(ServerZoneIpcData::StatusEffectList(_))
    ));
    assert!(!conn.status_effects.dirty);
    // A second refresh without an intervening mutation sends nothing.
    conn.process_effects_list();
    assert_eq!(conn.outbound.len(), 1);
    // A mutation makes the next refresh send again.
    conn.status_effects.remove(50);
    conn.process_effects_list();
    assert_eq!(conn.outbound.len(), 2);
}

fn count_item_updates(conn: &ZoneConnection) -> usize {
    conn.outbound
        .iter()
        .filter(|s| matches!(ipc_data(s), Some(ServerZoneIpcData::UpdateItem(_))))
        .count()
}

#[test]
fn first_inventory_sync_suppresses_empty_slots() {
    let mut conn = test_conn();
    conn.player_data.inventory.pages[0].set_slot(
        1,
        Item { quantity: 5, id: 1000, condition: 30000, glamour_catalog_id: 0, item_level: 10 },
    );
    conn.send_inventory(true);
    // Only the one occupied slot is reported on the first sync.
    assert_eq!(count_item_updates(&conn), 1);
    conn.outbound.clear();
    // On a later sync every slot is reported, zero-quantity ones included,
    // so the client can clear stale slots: 4 pages of 35 plus 14 equipped.
    conn.send_inventory(false);
    assert_eq!(count_item_updates(&conn), 4 * 35 + 14);
}

#[test]
fn inventory_sync_closes_every_container() {
    let mut conn = test_conn();
    conn.send_inventory(true);
    let summaries = conn
        .outbound
        .iter()
        .filter(|s| matches!(ipc_data(s), Some(ServerZoneIpcData::ContainerInfo(_))))
        .count();
    // Four pages, equipped, currency, and the four not-yet-implemented
    // containers reported as empty.
    assert_eq!(summaries, 10);
}

#[test]
fn spawn_and_remove_actor_use_spawn_indices() {
    let mut conn = test_conn();
    let spawn = kawari::ipc::NpcSpawn { common: kawari::ipc::CommonSpawn::default() };
    conn.spawn_actor(Actor { id: ObjectId(2000), hp: 100, spawn_index: 0 }, spawn);
    assert_eq!(conn.spawn_index, 1);
    assert_eq!(conn.actors.len(), 1);
    assert_eq!(conn.actors[0].spawn_index, 1);
    conn.outbound.clear();
    conn.remove_actor(2000);
    assert!(conn.actors.is_empty());
    match ipc_data(&conn.outbound[0]) {
        Some(ServerZoneIpcData::Delete { spawn_index, actor_id }) => {
            assert_eq!(*spawn_index, 1);
            assert_eq!(*actor_id, 2000);
        }
        other => panic!("expected a delete, got {other:?}"),
    }
    // Removing an unknown actor does nothing.
    conn.outbound.clear();
    conn.remove_actor(4242);
    assert!(conn.outbound.is_empty());
}

#[test]
fn graceful_logout_commits_and_acknowledges() {
    let mut conn = test_conn();
    conn.begin_log_out();
    assert!(conn.gracefully_logged_out);
    assert_eq!(conn.actions, vec![SessionAction::CommitPlayerData]);
    assert!(matches!(
        ipc_data(&conn.outbound[0]),
        Some(ServerZoneIpcData::LogOutComplete { .. })
    ));
}

#[test]
fn item_grant_without_reference_row_reports_failure_only() {
    // Granting an item id with no matching reference-data row results in
    // exactly one chat-message segment and no inventory mutation.
    let mut conn = test_conn();
    let inventory_before = conn.player_data.inventory.clone();
    let mut player = LuaPlayer::default();
    player.queued_tasks.push(Task::AddItem { id: 9999, quantity: 1, send_client_update: true });
    conn.process_lua_player(&mut player, &HashMap::new());
    assert_eq!(conn.outbound.len(), 1);
    match ipc_data(&conn.outbound[0]) {
        Some(ServerZoneIpcData::ServerChatMessage { message, param }) => {
            assert_eq!(message, "Failed to add item to inventory!");
            assert_eq!(*param, 0);
        }
        other => panic!("expected the failure message, got {other:?}"),
    }
    assert_eq!(conn.player_data.inventory, inventory_before);
    assert!(player.queued_tasks.is_empty());
}

#[test]
fn item_grant_with_reference_row_fills_the_first_free_slot() {
    let mut conn = test_conn();
    conn.gamedata.items.push(ItemInfo {
        name: String::from("Bronze Sword"),
        id: 2001,
        item_level: 7,
        ..ItemInfo::default()
    });
    let mut player = LuaPlayer::default();
    player.queued_tasks.push(Task::AddItem { id: 2001, quantity: 2, send_client_update: false });
    conn.process_lua_player(&mut player, &HashMap::new());
    let slot = conn.player_data.inventory.pages[0].get_slot(0);
    assert_eq!(slot.id, 2001);
    assert_eq!(slot.quantity, 2);
    assert_eq!(slot.condition, 30000);
    assert!(conn.outbound.is_empty());
}

#[test]
fn task_queue_applies_in_order_and_clears() {
    let mut conn = test_conn();
    let mut player = LuaPlayer::default();
    player.queued_tasks.push(Task::AddGil { amount: 500 });
    player.queued_tasks.push(Task::RemoveGil { amount: 200, send_client_update: false });
    player.queued_tasks.push(Task::SetInnWakeup { watched: true });
    player.queued_tasks.push(Task::Unlock { id: 42 });
    conn.process_lua_player(&mut player, &HashMap::new());
    assert_eq!(conn.player_data.inventory.currency.get_slot(0).quantity, 300);
    assert!(conn.player_data.saw_inn_wakeup);
    let (value, index) = kawari::common::value_to_flag_byte_index_value(42);
    assert_eq!(conn.player_data.unlocks.unlocks[index as usize], value);
    assert!(player.queued_tasks.is_empty());
}

#[test]
fn queued_script_segments_are_sent_before_tasks() {
    let mut conn = test_conn();
    let mut player = LuaPlayer::default();
    player.queued_segments.push(ZoneSegment {
        source_actor: 1,
        target_actor: 1,
        data: ZoneSegmentData::Initialize { actor_id: 1, timestamp: 0 },
    });
    player.zone_data.queued_segments.push(ZoneSegment {
        source_actor: 2,
        target_actor: 0,
        data: ZoneSegmentData::Initialize { actor_id: 2, timestamp: 0 },
    });
    player.player_data.actor_id = 1001;
    player.queued_tasks.push(Task::ChangeWeather { id: 9 });
    conn.process_lua_player(&mut player, &HashMap::new());
    assert_eq!(conn.outbound.len(), 3);
    // The zone segment was retargeted at the player.
    assert_eq!(conn.outbound[1].target_actor, 1001);
    assert!(matches!(
        ipc_data(&conn.outbound[2]),
        Some(ServerZoneIpcData::WeatherId(_))
    ));
    assert_eq!(conn.weather_id, 9);
    assert!(player.queued_segments.is_empty());
    assert!(player.zone_data.queued_segments.is_empty());
}

#[test]
fn unscripted_event_is_auto_finished() {
    let mut conn = test_conn();
    let target = ObjectTypeId { object_id: ObjectId(5000), object_type: 1 };
    conn.start_event(target, 131073, 1, 0, None);
    assert_eq!(conn.outbound.len(), 4);
    assert!(matches!(
        ipc_data(&conn.outbound[0]),
        Some(ServerZoneIpcData::EventStart(_))
    ));
    assert!(matches!(
        ipc_data(&conn.outbound[1]),
        Some(ServerZoneIpcData::EventFinish { .. })
    ));
    assert!(matches!(
        ipc_data(&conn.outbound[3]),
        Some(ServerZoneIpcData::ServerChatMessage { .. })
    ));
    assert!(conn.event.is_none());
}

#[test]
fn scripted_event_is_recorded() {
    let mut conn = test_conn();
    let target = ObjectTypeId { object_id: ObjectId(5000), object_type: 1 };
    let script = String::from("events/quest/OpeningLimsaLominsa.lua");
    conn.start_event(target, 131073, 1, 0, Some(&script));
    assert_eq!(conn.outbound.len(), 1);
    let event = conn.event.as_ref().expect("the event must be recorded");
    assert_eq!(event.id, 131073);
    assert_eq!(event.script, script);
    assert_eq!(conn.player_data.target_actorid, target);
}

#[test]
fn action_applies_damage_and_reports_results() {
    let mut conn = test_conn();
    conn.actors.push(Actor { id: ObjectId(2000), hp: 100, spawn_index: 1 });
    let request = ActionRequest {
        action_key: 9,
        target: ObjectTypeId { object_id: ObjectId(2000), object_type: 0 },
    };
    let effects = EffectsBuilder {
        effects: vec![
            EffectKind::Damage { amount: 30 },
            EffectKind::Unk1 { effect_id: 50, duration: 0x41200000, param: 0, source_actor_id: ObjectId(1001) },
        ],
    };
    conn.execute_action(request, Some(effects));
    assert_eq!(conn.actors[0].hp, 70);
    assert_eq!(conn.outbound.len(), 3);
    assert!(matches!(
        ipc_data(&conn.outbound[0]),
        Some(ServerZoneIpcData::UpdateHpMpTp { hp: 70, .. })
    ));
    match ipc_data(&conn.outbound[1]) {
        Some(ServerZoneIpcData::ActionResult(ar)) => {
            assert_eq!(ar.action_id, 9);
            assert_eq!(ar.effect_count, 2);
        }
        other => panic!("expected the action result, got {other:?}"),
    }
    match ipc_data(&conn.outbound[2]) {
        Some(ServerZoneIpcData::EffectResult(er)) => {
            assert_eq!(er.entry_count, 1);
            assert_eq!(er.statuses[0].id, 50);
        }
        other => panic!("expected the effect result, got {other:?}"),
    }
    assert_eq!(
        conn.server_messages,
        vec![ToServer::GainEffect(ClientId(1), 1001, 50, 0x41200000, 0, ObjectId(1001))]
    );
}

#[test]
fn unscripted_action_is_rejected_without_effect() {
    let mut conn = test_conn();
    conn.actors.push(Actor { id: ObjectId(2000), hp: 100, spawn_index: 1 });
    let request = ActionRequest {
        action_key: 9,
        target: ObjectTypeId { object_id: ObjectId(2000), object_type: 0 },
    };
    conn.execute_action(request, None);
    assert_eq!(conn.actors[0].hp, 100);
    assert!(conn.outbound.is_empty());
}

#[test]
fn saturating_damage_cannot_underflow() {
    let mut conn = test_conn();
    conn.actors.push(Actor { id: ObjectId(2000), hp: 10, spawn_index: 1 });
    let request = ActionRequest {
        action_key: 9,
        target: ObjectTypeId { object_id: ObjectId(2000), object_type: 0 },
    };
    let effects = EffectsBuilder { effects: vec![EffectKind::Damage { amount: 5000 }] };
    conn.execute_action(request, Some(effects));
    assert_eq!(conn.actors[0].hp, 0);
}

#[test]
fn gilshop_sequences_advance() {
    let mut conn = test_conn();
    conn.send_inventory_ack(5, 1);
    assert_eq!(conn.player_data.item_sequence, 1);
    conn.send_gilshop_item_update(0, 0, 1, 4551);
    assert_eq!(conn.player_data.shop_sequence, 1);
    conn.send_gilshop_ack(1, 4551, 2, 100, 2);
    match ipc_data(conn.outbound.last().unwrap()) {
        Some(ServerZoneIpcData::ShopLogMessage { total_sale_cost, .. }) => {
            assert_eq!(*total_sale_cost, 200);
        }
        other => panic!("expected the shop log, got {other:?}"),
    }
}

#[test]
fn warp_miss_is_a_soft_failure() {
    // A warp id with no reference-data row: one chat failure message,
    // nothing else changes, the session continues.
    let mut conn = test_conn();
    conn.warp(999);
    assert_eq!(conn.outbound.len(), 1);
    match ipc_data(&conn.outbound[0]) {
        Some(ServerZoneIpcData::ServerChatMessage { message, .. }) => {
            assert_eq!(message, "Failed to find the warp!");
        }
        other => panic!("expected the warp failure message, got {other:?}"),
    }
    assert_eq!(conn.player_data.zone_id, 0);
    assert!(conn.zone.is_none());
    // The session still works afterwards.
    conn.outbound.clear();
    conn.warp(1);
    assert_eq!(conn.player_data.zone_id, 200);
}

#[test]
fn aetheryte_miss_is_a_soft_failure() {
    let mut conn = test_conn();
    conn.warp_aetheryte(999);
    assert_eq!(conn.outbound.len(), 1);
    match ipc_data(&conn.outbound[0]) {
        Some(ServerZoneIpcData::ServerChatMessage { message, .. }) => {
            assert_eq!(message, "Failed to find the aetheryte!");
        }
        other => panic!("expected the aetheryte failure message, got {other:?}"),
    }
    assert_eq!(conn.player_data.zone_id, 0);
}

#[test]
fn class_switch_without_exp_index_degrades() {
    // Job 7 has no row in the experience-index table: the switch is a
    // silent no-op and later tasks still apply.
    let mut conn = test_conn();
    let mut player = LuaPlayer::default();
    player.queued_tasks.push(Task::SetClassJob { classjob_id: 7 });
    player.queued_tasks.push(Task::SetInnWakeup { watched: true });
    conn.process_lua_player(&mut player, &HashMap::new());
    assert_eq!(conn.player_data.classjob_id, 0);
    assert!(conn.outbound.is_empty());
    assert!(conn.player_data.saw_inn_wakeup);
    // A job with a usable index still switches and pushes class info.
    player.queued_tasks.push(Task::SetClassJob { classjob_id: 1 });
    conn.process_lua_player(&mut player, &HashMap::new());
    assert_eq!(conn.player_data.classjob_id, 1);
    assert_eq!(conn.outbound.len(), 1);
}

#[test]
fn warp_task_miss_is_soft_and_queue_continues() {
    let mut conn = test_conn();
    let mut player = LuaPlayer::default();
    player.queued_tasks.push(Task::Warp { warp_id: 999 });
    player.queued_tasks.push(Task::ChangeWeather { id: 4 });
    conn.process_lua_player(&mut player, &HashMap::new());
    assert!(matches!(
        ipc_data(&conn.outbound[0]),
        Some(ServerZoneIpcData::ServerChatMessage { .. })
    ));
    assert_eq!(conn.weather_id, 4);
    assert_eq!(conn.player_data.zone_id, 0);
}

#[test]
fn fresh_unlock_data_has_no_bit_set() {
    let unlocks = kawari::connection::UnlockData::default();
    for bitmap in [
        &unlocks.unlocks,
        &unlocks.aetherytes,
        &unlocks.completed_quests,
        &unlocks.unlocked_raids,
        &unlocks.unlocked_dungeons,
        &unlocks.unlocked_guildhests,
        &unlocks.unlocked_trials,
        &unlocks.unlocked_pvp,
        &unlocks.cleared_raids,
        &unlocks.cleared_dungeons,
        &unlocks.cleared_guildhests,
        &unlocks.cleared_trials,
        &unlocks.cleared_pvp,
    ] {
        assert!(!bitmap.is_empty());
        assert!(bitmap.iter().all(|b| *b == 0));
    }
}
