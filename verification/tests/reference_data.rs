//! Tests of the reference-data lookups, the social-list wire layouts and
//! the command dispatch tables.

use kawari::common::Attributes;
use kawari::dispatch::{dispatch_chat, dispatch_zone, ClientChatIpcData, ClientZoneIpcData};
use kawari::frame::IpcEnvelope;
use kawari::gamedata::{
    EquipSlotCategoryRow, GameData, ItemInfo, ItemInfoQuery, TerritoryNameKind, TribeRow,
};
use kawari::social_list::{
    decode_social_list_request, encode_player_entry, encode_social_list, PlayerEntry, SocialList,
    SocialListRequestType,
};

fn item(name: &str, id: u32) -> ItemInfo {
    ItemInfo { name: String::from(name), id, ..ItemInfo::default() }
}

#[test]
fn item_lookup_by_id_returns_first_match() {
    let mut gd = GameData::default();
    gd.items.push(item("Bronze Sword", 10));
    gd.items.push(item("Iron Sword", 20));
    let found = gd.get_item_info(ItemInfoQuery::ById(20)).expect("the row exists");
    assert_eq!(found.name, "Iron Sword");
    assert!(gd.get_item_info(ItemInfoQuery::ById(30)).is_none());
}

#[test]
fn item_lookup_by_name_folds_case() {
    // The query and the row names are folded before the substring search:
    // an unfolded comparison would find nothing here.
    let mut gd = GameData::default();
    gd.items.push(item("Bronze Sword", 10));
    gd.items.push(item("Iron Sword", 20));
    let found = gd
        .get_item_info(ItemInfoQuery::ByName(String::from("IRON")))
        .expect("case-folded substring search must match");
    assert_eq!(found.id, 20);
    let partial = gd
        .get_item_info(ItemInfoQuery::ByName(String::from("sword")))
        .expect("a shared substring matches the first row");
    assert_eq!(partial.id, 10);
    assert!(gd.get_item_info(ItemInfoQuery::ByName(String::from("shield"))).is_none());
}

#[test]
fn primary_model_id_follows_the_item_table() {
    let mut gd = GameData::default();
    gd.items.push(ItemInfo { primary_model_id: 0x1234, ..item("Bronze Sword", 10) });
    assert_eq!(gd.get_primary_model_id(10), Some(0x1234));
    assert_eq!(gd.get_primary_model_id(11), None);
}

#[test]
fn equip_slot_category_picks_the_first_set_slot() {
    let mut gd = GameData::default();
    gd.equip_slot_categories.push(EquipSlotCategoryRow {
        main_hand: 1,
        ..EquipSlotCategoryRow::default()
    });
    gd.equip_slot_categories.push(EquipSlotCategoryRow {
        legs: 1,
        ..EquipSlotCategoryRow::default()
    });
    gd.equip_slot_categories.push(EquipSlotCategoryRow::default());
    assert_eq!(gd.get_equipslot_category(0), Some(0));
    assert_eq!(gd.get_equipslot_category(1), Some(6));
    assert_eq!(gd.get_equipslot_category(2), None);
    assert_eq!(gd.get_equipslot_category(3), None);
}

#[test]
fn racial_attributes_add_deltas_to_the_base() {
    let mut gd = GameData::default();
    gd.tribes.push(TribeRow { str_delta: 2, dex_delta: -1, vit_delta: 0, int_delta: 3, mnd_delta: -2 });
    assert_eq!(
        gd.get_racial_base_attributes(0),
        Some(Attributes { strength: 22, dexterity: 19, vitality: 20, intelligence: 23, mind: 18 })
    );
    assert_eq!(gd.get_racial_base_attributes(1), None);
}

#[test]
fn exp_array_index_is_bounds_checked() {
    let mut gd = GameData::default();
    gd.classjob_exp_indexes = vec![0, 5, -1];
    assert_eq!(gd.get_exp_array_index(1), Some(5));
    assert_eq!(gd.get_exp_array_index(3), None);
}

#[test]
fn warp_and_aetheryte_rows_resolve() {
    let mut gd = GameData::default();
    gd.warps.push(kawari::gamedata::WarpRow { id: 7, pop_range_id: 11, zone_id: 100 });
    gd.aetherytes.push(kawari::gamedata::AetheryteRow { id: 8, pop_range_id: 12, zone_id: 200 });
    assert_eq!(gd.get_warp(7), Some((11, 100)));
    assert_eq!(gd.get_warp(8), None);
    assert_eq!(gd.get_aetheryte(8), Some((12, 200)));
    assert_eq!(gd.get_aetheryte(7), None);
}

fn entry(name: &str) -> PlayerEntry {
    PlayerEntry {
        content_id: 0x1122334455667788,
        unk: [0; 16],
        zone_id: 100,
        zone_id1: 100,
        unk2: [0; 8],
        online_status_mask: 1,
        unk3: [0; 22],
        world_id: 63,
        name: String::from(name),
        fc_tag: String::from("abc"),
    }
}

#[test]
fn player_entry_layout_is_fixed_size() {
    let bytes = encode_player_entry(&entry("Some Player"));
    assert_eq!(bytes.len(), 112);
    assert_eq!(&bytes[0..8], &0x1122334455667788u64.to_le_bytes());
    // The name field starts after the fixed fields and is zero-padded.
    assert_eq!(&bytes[68..79], b"Some Player");
    assert_eq!(bytes[79], 0);
}

#[test]
fn player_entry_name_is_truncated_to_the_field() {
    let long_name = "x".repeat(64);
    let bytes = encode_player_entry(&entry(&long_name));
    assert_eq!(bytes.len(), 112);
    assert_eq!(&bytes[68..100], long_name.as_bytes()[..32].to_vec().as_slice());
}

#[test]
fn social_list_reply_layout() {
    let list = SocialList {
        request_type: SocialListRequestType::Friends,
        sequence: 3,
        entries: vec![entry("Some Player")],
    };
    let bytes = encode_social_list(&list);
    assert_eq!(bytes.len(), 16 + 10 * 112);
    assert_eq!(bytes[12], 2);
    assert_eq!(bytes[13], 3);
    // The unused entry block is zero-padded.
    assert!(bytes[16 + 112..].iter().all(|b| *b == 0));
}

#[test]
fn social_list_request_decode() {
    let mut body = vec![0u8; 16];
    body[10] = 1;
    body[11] = 4;
    let decoded = decode_social_list_request(&body).expect("a party request decodes");
    assert_eq!(decoded.request_type, SocialListRequestType::Party);
    assert_eq!(decoded.count, 4);
    body[10] = 9;
    assert!(decode_social_list_request(&body).is_none());
    assert!(decode_social_list_request(&vec![0u8; 15]).is_none());
}

#[test]
fn zone_dispatch_decodes_known_opcodes() {
    let mut payload = Vec::new();
    payload.extend_from_slice(&9u32.to_le_bytes());
    payload.extend_from_slice(&2000u32.to_le_bytes());
    payload.push(0);
    payload.extend_from_slice(&[0, 0, 0]);
    let envelope = IpcEnvelope { op_code: 0x0201, option: 0, timestamp: 0, payload };
    match dispatch_zone(&envelope) {
        ClientZoneIpcData::ActionRequest(r) => {
            assert_eq!(r.action_key, 9);
            assert_eq!(r.target.object_id.0, 2000);
        }
        other => panic!("expected an action request, got {other:?}"),
    }
}

#[test]
fn zone_dispatch_skips_unknown_opcodes() {
    let envelope = IpcEnvelope { op_code: 0x7777, option: 0, timestamp: 0, payload: vec![1, 2] };
    assert_eq!(
        dispatch_zone(&envelope),
        ClientZoneIpcData::Unrecognized { op_code: 0x7777 }
    );
    // A known opcode with a body that does not fit its layout is also
    // dropped softly rather than failing the connection.
    let bad = IpcEnvelope { op_code: 0x0201, option: 0, timestamp: 0, payload: vec![1, 2] };
    assert_eq!(dispatch_zone(&bad), ClientZoneIpcData::Unrecognized { op_code: 0x0201 });
}

#[test]
fn chat_dispatch_has_no_commands_yet() {
    let envelope = IpcEnvelope { op_code: 0x0001, option: 0, timestamp: 0, payload: Vec::new() };
    assert_eq!(dispatch_chat(&envelope), ClientChatIpcData::Unrecognized { op_code: 0x0001 });
}

#[test]
fn world_and_citystate_lookups() {
    let mut gd = GameData::default();
    gd.worlds.push(kawari::gamedata::WorldRow { id: 63, name: String::from("Sargatanas") });
    gd.citystates.push(kawari::gamedata::CityStateRow { classjob_id: 1, starting_town: 3 });
    assert_eq!(gd.get_world_name(63), Some(String::from("Sargatanas")));
    assert_eq!(gd.get_world_name(64), None);
    assert_eq!(gd.get_citystate(1), Some(3));
    assert_eq!(gd.get_citystate(2), None);
}

#[test]
fn territory_name_lookup_resolves_each_kind() {
    let mut gd = GameData::default();
    gd.territory_names.push(kawari::gamedata::TerritoryNameRow {
        zone_id: 128,
        internal_name: String::from("s1t1"),
        region_name_id: 22,
        place_name_id: 27,
    });
    gd.place_names.push(kawari::gamedata::PlaceNameRow { id: 22, name: String::from("La Noscea") });
    gd.place_names.push(kawari::gamedata::PlaceNameRow {
        id: 27,
        name: String::from("Limsa Lominsa Upper Decks"),
    });
    assert_eq!(
        gd.get_territory_name(128, TerritoryNameKind::Internal),
        Some(String::from("s1t1"))
    );
    assert_eq!(
        gd.get_territory_name(128, TerritoryNameKind::Region),
        Some(String::from("La Noscea"))
    );
    assert_eq!(
        gd.get_territory_name(128, TerritoryNameKind::Place),
        Some(String::from("Limsa Lominsa Upper Decks"))
    );
    assert_eq!(gd.get_territory_name(129, TerritoryNameKind::Internal), None);
    // A dangling place-name id is a miss, not a failure.
    gd.territory_names[0].place_name_id = 99;
    assert_eq!(gd.get_territory_name(128, TerritoryNameKind::Place), None);
}

#[test]
fn casttime_lookup() {
    let mut gd = GameData::default();
    gd.actions.push(kawari::gamedata::ActionRow { id: 9, cast_100ms: 15 });
    assert_eq!(gd.get_casttime(9), Some(15));
    assert_eq!(gd.get_casttime(10), None);
}

#[test]
fn gilshop_item_resolves_through_the_item_table() {
    let mut gd = GameData::default();
    gd.items.push(item("Weathered Shortbow", 2105));
    gd.gilshop_items.push(kawari::gamedata::GilShopItemRow {
        gilshop_id: 262144,
        index: 2,
        item_id: 2105,
    });
    gd.gilshop_items.push(kawari::gamedata::GilShopItemRow {
        gilshop_id: 262144,
        index: 3,
        item_id: 9999,
    });
    let found = gd.get_gilshop_item(262144, 2).expect("the shop row and item row exist");
    assert_eq!(found.id, 2105);
    // A shop row pointing at an unknown item is a miss.
    assert!(gd.get_gilshop_item(262144, 3).is_none());
    // An absent shop row is a miss.
    assert!(gd.get_gilshop_item(262144, 4).is_none());
}

#[test]
fn zone_for_content_follows_the_finder_chain() {
    let mut gd = GameData::default();
    gd.instance_contents.push(kawari::gamedata::InstanceContentRow {
        content_id: 2,
        content_finder_id: 5,
    });
    gd.content_finders.push(kawari::gamedata::ContentFinderRow { id: 5, zone_id: 1036 });
    assert_eq!(gd.find_zone_for_content(2), Some(1036));
    assert_eq!(gd.find_zone_for_content(3), None);
    // A dangling content-finder id is a miss.
    gd.instance_contents[0].content_finder_id = 6;
    assert_eq!(gd.find_zone_for_content(2), None);
}
