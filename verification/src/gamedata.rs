//! The in-memory model of the game reference data the session logic reads:
//! the item table, per-job experience-array indexes, tribal attribute
//! deltas, equip-slot categories and per-zone weather tables. The data is
//! loaded from the external structured archive outside this library and
//! handed in as plain values; every lookup here is verified against it.

use vstd::prelude::*;

use crate::common::{first_weather, weather_target, Attributes};
use crate::zone::Zone;

verus! {

/// Various information about an item, pulled from the item sheet.
#[derive(Debug, Default)]
pub struct ItemInfo {
    /// The item's textual name.
    pub name: String,
    /// The item's id number.
    pub id: u32,
    /// The item's price, when sold by an NPC.
    pub price_mid: u32,
    /// The item's price, when sold to an NPC by the player.
    pub price_low: u32,
    /// The item's equip category.
    pub equip_category: u8,
    /// The item's primary model id.
    pub primary_model_id: u64,
    /// The item's max stack size.
    pub stack_size: u32,
    /// The item's item level.
    pub item_level: u16,
}

impl Clone for ItemInfo {
    fn clone(&self) -> (r: Self)
        ensures
            r == *self,
    {
        ItemInfo {
            name: self.name.clone(),
            id: self.id,
            price_mid: self.price_mid,
            price_low: self.price_low,
            equip_category: self.equip_category,
            primary_model_id: self.primary_model_id,
            stack_size: self.stack_size,
            item_level: self.item_level,
        }
    }
}

/// How an item is looked up in the item table.
#[derive(Debug)]
pub enum ItemInfoQuery {
    ById(u32),
    ByName(String),
}

/// Which of a zone's names is being resolved.
pub enum TerritoryNameKind {
    Internal,
    Region,
    Place,
}

/// One row of the equip-slot category sheet: a one in a field means the
/// category equips into that slot.
#[derive(Debug, Clone, Copy, PartialEq, Eq, Structural, Default)]
pub struct EquipSlotCategoryRow {
    pub main_hand: i8,
    pub off_hand: i8,
    pub head: i8,
    pub body: i8,
    pub gloves: i8,
    pub legs: i8,
    pub feet: i8,
    pub ears: i8,
    pub neck: i8,
    pub wrists: i8,
    pub finger_r: i8,
    pub finger_l: i8,
    pub soul_crystal: i8,
}

/// One row of the tribe sheet: attribute deltas applied to the base stat.
#[derive(Debug, Clone, Copy, PartialEq, Eq, Structural, Default)]
pub struct TribeRow {
    pub str_delta: i8,
    pub dex_delta: i8,
    pub vit_delta: i8,
    pub int_delta: i8,
    pub mnd_delta: i8,
}

/// A zone's weather table: (weather id, cumulative threshold) pairs, keyed
/// by the zone id it belongs to.
#[derive(Debug, Clone)]
pub struct ZoneWeatherRates {
    pub zone_id: u32,
    pub rates: Vec<(i32, i32)>,
}

/// One row of the warp sheet: the destination anchor and zone.
#[derive(Debug, Clone, Copy, PartialEq, Eq, Structural, Default)]
pub struct WarpRow {
    pub id: u32,
    pub pop_range_id: u32,
    pub zone_id: u16,
}

/// One row of the aetheryte sheet: the destination anchor and zone.
#[derive(Debug, Clone, Copy, PartialEq, Eq, Structural, Default)]
pub struct AetheryteRow {
    pub id: u32,
    pub pop_range_id: u32,
    pub zone_id: u16,
}

/// One row of the world sheet: the world's display name.
#[derive(Debug, Clone, PartialEq, Eq)]
pub struct WorldRow {
    pub id: u16,
    pub name: String,
}

/// One row of the class/job sheet that the session reads: the starting
/// city-state of the job.
#[derive(Debug, Clone, Copy, PartialEq, Eq, Structural, Default)]
pub struct CityStateRow {
    pub classjob_id: u16,
    pub starting_town: u8,
}

/// One row of the territory sheet's naming columns: the internal name and
/// the place-name ids of the zone and its parent region.
#[derive(Debug, Clone, PartialEq, Eq)]
pub struct TerritoryNameRow {
    pub zone_id: u32,
    pub internal_name: String,
    pub region_name_id: u16,
    pub place_name_id: u16,
}

/// One row of the place-name sheet.
#[derive(Debug, Clone, PartialEq, Eq)]
pub struct PlaceNameRow {
    pub id: u16,
    pub name: String,
}

/// One row of the action sheet that the session reads: the cast time in
/// hundreds of milliseconds.
#[derive(Debug, Clone, Copy, PartialEq, Eq, Structural, Default)]
pub struct ActionRow {
    pub id: u32,
    pub cast_100ms: u16,
}

/// One subrow of the gil-shop item sheet: the item sold at one shop index.
#[derive(Debug, Clone, Copy, PartialEq, Eq, Structural, Default)]
pub struct GilShopItemRow {
    pub gilshop_id: u32,
    pub index: u16,
    pub item_id: i32,
}

/// One row of the instanced-content sheet that the session reads: the
/// content-finder row it points at.
#[derive(Debug, Clone, Copy, PartialEq, Eq, Structural, Default)]
pub struct InstanceContentRow {
    pub content_id: u16,
    pub content_finder_id: u16,
}

/// One row of the content-finder sheet that the session reads: the zone
/// the content takes place in.
#[derive(Debug, Clone, Copy, PartialEq, Eq, Structural, Default)]
pub struct ContentFinderRow {
    pub id: u16,
    pub zone_id: u16,
}

/// The reference-data tables the session logic reads, as plain values.
#[derive(Debug, Default, Clone)]
pub struct GameData {
    /// Every row of the item sheet, in sheet order.
    pub items: Vec<ItemInfo>,
    /// Experience-array index per class/job id.
    pub classjob_exp_indexes: Vec<i8>,
    /// Tribal attribute deltas per tribe id.
    pub tribes: Vec<TribeRow>,
    /// Equip-slot category rows per category id.
    pub equip_slot_categories: Vec<EquipSlotCategoryRow>,
    /// Weather tables per zone.
    pub weather: Vec<ZoneWeatherRates>,
    /// Static zone layouts per zone id.
    pub zones: Vec<Zone>,
    /// Warp rows per warp id.
    pub warps: Vec<WarpRow>,
    /// Aetheryte rows per aetheryte id.
    pub aetherytes: Vec<AetheryteRow>,
    /// World names per world id.
    pub worlds: Vec<WorldRow>,
    /// Starting city-states per class/job id.
    pub citystates: Vec<CityStateRow>,
    /// Naming columns of the territory sheet, per zone id.
    pub territory_names: Vec<TerritoryNameRow>,
    /// Place names per place-name id.
    pub place_names: Vec<PlaceNameRow>,
    /// Cast times per action id.
    pub actions: Vec<ActionRow>,
    /// Gil-shop items per (shop id, shop index).
    pub gilshop_items: Vec<GilShopItemRow>,
    /// Content-finder references per instanced-content id.
    pub instance_contents: Vec<InstanceContentRow>,
    /// Zones per content-finder id.
    pub content_finders: Vec<ContentFinderRow>,
}

/// The first world row with the given id.
pub open spec fn find_world(rows: Seq<WorldRow>, id: u16) -> Option<WorldRow>
    decreases rows.len(),
{
    if rows.len() == 0 {
        None
    } else if rows[0].id == id {
        Some(rows[0])
    } else {
        find_world(rows.subrange(1, rows.len() as int), id)
    }
}

/// The first city-state row for the given class/job id.
pub open spec fn find_citystate(rows: Seq<CityStateRow>, classjob_id: u16) -> Option<CityStateRow>
    decreases rows.len(),
{
    if rows.len() == 0 {
        None
    } else if rows[0].classjob_id == classjob_id {
        Some(rows[0])
    } else {
        find_citystate(rows.subrange(1, rows.len() as int), classjob_id)
    }
}

/// The first territory naming row for the given zone id.
pub open spec fn find_territory_name(
    rows: Seq<TerritoryNameRow>,
    zone_id: u32,
) -> Option<TerritoryNameRow>
    decreases rows.len(),
{
    if rows.len() == 0 {
        None
    } else if rows[0].zone_id == zone_id {
        Some(rows[0])
    } else {
        find_territory_name(rows.subrange(1, rows.len() as int), zone_id)
    }
}

/// The first place-name row with the given id.
pub open spec fn find_place_name(rows: Seq<PlaceNameRow>, id: u16) -> Option<PlaceNameRow>
    decreases rows.len(),
{
    if rows.len() == 0 {
        None
    } else if rows[0].id == id {
        Some(rows[0])
    } else {
        find_place_name(rows.subrange(1, rows.len() as int), id)
    }
}

/// The first action row with the given id.
pub open spec fn find_action(rows: Seq<ActionRow>, id: u32) -> Option<ActionRow>
    decreases rows.len(),
{
    if rows.len() == 0 {
        None
    } else if rows[0].id == id {
        Some(rows[0])
    } else {
        find_action(rows.subrange(1, rows.len() as int), id)
    }
}

/// The first gil-shop subrow at the given shop id and index.
pub open spec fn find_gilshop_item(
    rows: Seq<GilShopItemRow>,
    gilshop_id: u32,
    index: u16,
) -> Option<GilShopItemRow>
    decreases rows.len(),
{
    if rows.len() == 0 {
        None
    } else if rows[0].gilshop_id == gilshop_id && rows[0].index == index {
        Some(rows[0])
    } else {
        find_gilshop_item(rows.subrange(1, rows.len() as int), gilshop_id, index)
    }
}

/// The first instanced-content row with the given id.
pub open spec fn find_instance_content(
    rows: Seq<InstanceContentRow>,
    content_id: u16,
) -> Option<InstanceContentRow>
    decreases rows.len(),
{
    if rows.len() == 0 {
        None
    } else if rows[0].content_id == content_id {
        Some(rows[0])
    } else {
        find_instance_content(rows.subrange(1, rows.len() as int), content_id)
    }
}

/// The first content-finder row with the given id.
pub open spec fn find_content_finder(rows: Seq<ContentFinderRow>, id: u16) -> Option<ContentFinderRow>
    decreases rows.len(),
{
    if rows.len() == 0 {
        None
    } else if rows[0].id == id {
        Some(rows[0])
    } else {
        find_content_finder(rows.subrange(1, rows.len() as int), id)
    }
}

/// The name a territory-name lookup resolves to: the internal name comes
/// from the territory row itself; the region and place names go through
/// the place-name sheet.
pub open spec fn territory_name_of(
    rows: Seq<TerritoryNameRow>,
    places: Seq<PlaceNameRow>,
    zone_id: u32,
    which: TerritoryNameKind,
) -> Option<Seq<char>> {
    match find_territory_name(rows, zone_id) {
        Some(row) => (match which {
            TerritoryNameKind::Internal => Some(row.internal_name@),
            TerritoryNameKind::Region => (match find_place_name(places, row.region_name_id) {
                Some(place) => Some(place.name@),
                None => None,
            }),
            TerritoryNameKind::Place => (match find_place_name(places, row.place_name_id) {
                Some(place) => Some(place.name@),
                None => None,
            }),
        }),
        None => None,
    }
}

/// The first warp row with the given id.
pub open spec fn find_warp(rows: Seq<WarpRow>, id: u32) -> Option<WarpRow>
    decreases rows.len(),
{
    if rows.len() == 0 {
        None
    } else if rows[0].id == id {
        Some(rows[0])
    } else {
        find_warp(rows.subrange(1, rows.len() as int), id)
    }
}

/// The first aetheryte row with the given id.
pub open spec fn find_aetheryte(rows: Seq<AetheryteRow>, id: u32) -> Option<AetheryteRow>
    decreases rows.len(),
{
    if rows.len() == 0 {
        None
    } else if rows[0].id == id {
        Some(rows[0])
    } else {
        find_aetheryte(rows.subrange(1, rows.len() as int), id)
    }
}

/// The index of the first zone layout with the given id.
pub open spec fn find_zone_idx(zones: Seq<Zone>, id: u16) -> Option<int>
    decreases zones.len(),
{
    if zones.len() == 0 {
        None
    } else if zones[0].id == id {
        Some(0int)
    } else {
        match find_zone_idx(zones.subrange(1, zones.len() as int), id) {
            Some(i) => Some(i + 1),
            None => None,
        }
    }
}

// ---------------------------------------------------------------------------
// Case folding and substring search (outside this library's logic)
// ---------------------------------------------------------------------------

/// The lowercase form of a character sequence, as `str::to_lowercase`
/// computes it; a function of the characters alone.
pub uninterp spec fn lower_of(s: Seq<char>) -> Seq<char>;

/// Relies on str::to_lowercase: the result depends on the characters alone.
#[verifier::external_body]
fn lowercase(s: &str) -> (r: String)
    ensures
        r@ == lower_of(s@),
{
    s.to_lowercase()
}

/// Whether `needle` occurs as a contiguous subsequence of `haystack`.
pub open spec fn contains_sub(haystack: Seq<char>, needle: Seq<char>) -> bool {
    exists|i: int|
        0 <= i <= haystack.len() - needle.len() && #[trigger] haystack.subrange(
            i,
            i + needle.len() as int,
        ) =~= needle
}

/// Relies on str::contains with a string pattern: true exactly when the
/// pattern occurs as a substring.
#[verifier::external_body]
fn str_contains(haystack: &str, needle: &str) -> (r: bool)
    ensures
        r == contains_sub(haystack@, needle@),
{
    haystack.contains(needle)
}

// ---------------------------------------------------------------------------
// Lookups
// ---------------------------------------------------------------------------

/// Whether an item row answers a query: by exact id, or by the folded
/// query name occurring in the folded row name.
pub open spec fn item_matches(row: ItemInfo, q: ItemInfoQuery) -> bool {
    match q {
        ItemInfoQuery::ById(id) => row.id == id,
        ItemInfoQuery::ByName(name) => contains_sub(lower_of(row.name@), lower_of(name@)),
    }
}

/// The first row of the table answering the query, in sheet order.
pub open spec fn find_item(rows: Seq<ItemInfo>, q: ItemInfoQuery) -> Option<ItemInfo>
    decreases rows.len(),
{
    if rows.len() == 0 {
        None
    } else if item_matches(rows[0], q) {
        Some(rows[0])
    } else {
        find_item(rows.subrange(1, rows.len() as int), q)
    }
}

impl GameData {
    /// Gets various information from the item sheet: the first row matching
    /// the query, or `None` when no row matches.
    pub fn get_item_info(&self, query: ItemInfoQuery) -> (r: Option<ItemInfo>)
        ensures
            r == find_item(self.items@, query),
    {
        let folded_query: Option<String> = match &query {
            ItemInfoQuery::ById(_) => None,
            ItemInfoQuery::ByName(name) => Some(lowercase(name.as_str())),
        };
        let n = self.items.len();
        let mut i: usize = 0;
        assert(self.items@.subrange(0, n as int) =~= self.items@);
        while i < n
            invariant
                i <= n,
                n == self.items@.len(),
                find_item(self.items@.subrange(i as int, n as int), query) == find_item(
                    self.items@,
                    query,
                ),
                (match query {
                    ItemInfoQuery::ById(_) => folded_query is None,
                    ItemInfoQuery::ByName(name) => folded_query is Some && folded_query->0@
                        == lower_of(name@),
                }),
            decreases n - i,
        {
            let ghost t = self.items@.subrange(i as int, n as int);
            proof {
                assert(t[0] == self.items@[i as int]);
                assert(t.subrange(1, t.len() as int) =~= self.items@.subrange(
                    i as int + 1,
                    n as int,
                ));
            }
            let row = &self.items[i];
            let matched: bool = match &folded_query {
                Some(fq) => {
                    let folded_name = lowercase(row.name.as_str());
                    str_contains(folded_name.as_str(), fq.as_str())
                },
                None => {
                    match &query {
                        ItemInfoQuery::ById(id) => row.id == *id,
                        ItemInfoQuery::ByName(_) => false,
                    }
                },
            };
            assert(matched == item_matches(self.items@[i as int], query));
            if matched {
                return Some(self.items[i].clone());
            }
            i = i + 1;
        }
        proof {
            assert(self.items@.subrange(n as int, n as int) =~= Seq::<ItemInfo>::empty());
        }
        None
    }

    /// Gets the primary model id for a given item id.
    pub fn get_primary_model_id(&self, item_id: u32) -> (r: Option<u64>)
        ensures
            (match find_item(self.items@, ItemInfoQuery::ById(item_id)) {
                Some(row) => r == Some(row.primary_model_id),
                None => r is None,
            }),
    {
        match self.get_item_info(ItemInfoQuery::ById(item_id)) {
            Some(item_info) => Some(item_info.primary_model_id),
            None => None,
        }
    }

    /// Gets the array index used in experience and level arrays for a
    /// class/job id; `None` when the id is out of the sheet's range.
    pub fn get_exp_array_index(&self, classjob_id: u16) -> (r: Option<i8>)
        ensures
            (classjob_id as int) < self.classjob_exp_indexes@.len() ==> r == Some(
                self.classjob_exp_indexes@[classjob_id as int],
            ),
            (classjob_id as int) >= self.classjob_exp_indexes@.len() ==> r is None,
    {
        if (classjob_id as usize) < self.classjob_exp_indexes.len() {
            Some(self.classjob_exp_indexes[classjob_id as usize])
        } else {
            None
        }
    }

    /// The racial base attributes for a tribe: each stat is the base of 20
    /// plus the tribe's delta; `None` when the tribe id is out of range.
    pub fn get_racial_base_attributes(&self, tribe_id: u8) -> (r: Option<Attributes>)
        ensures
            (tribe_id as int) < self.tribes@.len() ==> r == Some(
                racial_attributes(self.tribes@[tribe_id as int]),
            ),
            (tribe_id as int) >= self.tribes@.len() ==> r is None,
    {
        if (tribe_id as usize) < self.tribes.len() {
            let row = self.tribes[tribe_id as usize];
            Some(
                Attributes {
                    strength: (20 + row.str_delta as i32) as u32,
                    dexterity: (20 + row.dex_delta as i32) as u32,
                    vitality: (20 + row.vit_delta as i32) as u32,
                    intelligence: (20 + row.int_delta as i32) as u32,
                    mind: (20 + row.mnd_delta as i32) as u32,
                },
            )
        } else {
            None
        }
    }

    /// Turns an equip-slot category id into a slot of the equipped
    /// container; `None` when the id is out of range or no slot field is set.
    pub fn get_equipslot_category(&self, equipslot_id: u8) -> (r: Option<u16>)
        ensures
            (equipslot_id as int) < self.equip_slot_categories@.len() ==> r == equip_slot_for_row(
                self.equip_slot_categories@[equipslot_id as int],
            ),
            (equipslot_id as int) >= self.equip_slot_categories@.len() ==> r is None,
    {
        if (equipslot_id as usize) < self.equip_slot_categories.len() {
            let row = self.equip_slot_categories[equipslot_id as usize];
            if row.main_hand == 1 {
                Some(0)
            } else if row.off_hand == 1 {
                Some(1)
            } else if row.head == 1 {
                Some(2)
            } else if row.body == 1 {
                Some(3)
            } else if row.gloves == 1 {
                Some(4)
            } else if row.legs == 1 {
                Some(6)
            } else if row.feet == 1 {
                Some(7)
            } else if row.ears == 1 {
                Some(8)
            } else if row.neck == 1 {
                Some(9)
            } else if row.wrists == 1 {
                Some(10)
            } else if row.finger_r == 1 {
                Some(11)
            } else if row.finger_l == 1 {
                Some(12)
            } else if row.soul_crystal == 1 {
                Some(13)
            } else {
                None
            }
        } else {
            None
        }
    }

    /// The weather table of a zone, if the zone has one.
    pub fn weather_rates_for_zone(&self, zone_id: u32) -> (r: Option<&Vec<(i32, i32)>>)
        ensures
            (match r {
                Some(v) => (match find_zone_weather(self.weather@, zone_id) {
                    Some(rates) => v@ == rates,
                    None => false,
                }),
                None => find_zone_weather(self.weather@, zone_id) is None,
            }),
    {
        let n = self.weather.len();
        let mut i: usize = 0;
        assert(self.weather@.subrange(0, n as int) =~= self.weather@);
        while i < n
            invariant
                i <= n,
                n == self.weather@.len(),
                find_zone_weather(self.weather@.subrange(i as int, n as int), zone_id)
                    == find_zone_weather(self.weather@, zone_id),
            decreases n - i,
        {
            let ghost t = self.weather@.subrange(i as int, n as int);
            proof {
                assert(t[0] == self.weather@[i as int]);
                assert(t.subrange(1, t.len() as int) =~= self.weather@.subrange(
                    i as int + 1,
                    n as int,
                ));
            }
            if self.weather[i].zone_id == zone_id {
                return Some(&self.weather[i].rates);
            }
            i = i + 1;
        }
        proof {
            assert(self.weather@.subrange(n as int, n as int) =~= Seq::<ZoneWeatherRates>::empty());
        }
        None
    }

    /// Gets the current weather for the given zone id at the given
    /// wall-clock time: the deterministic weather window selects the first
    /// table entry whose threshold exceeds it.
    pub fn get_weather(&self, zone_id: u32, now_secs: u64) -> (r: Option<i32>)
        requires
            now_secs < 4294967296,
        ensures
            r == zone_weather_at(self.weather@, zone_id, now_secs),
    {
        let target = crate::common::calculate_target(now_secs) as i32;
        match self.weather_rates_for_zone(zone_id) {
            Some(rates) => crate::common::select_weather(rates, target),
            None => None,
        }
    }
}

impl GameData {
    /// Returns the pop-range object id and zone id associated with a warp
    /// id; `None` when the warp sheet has no such row.
    pub fn get_warp(&self, warp_id: u32) -> (r: Option<(u32, u16)>)
        ensures
            (match find_warp(self.warps@, warp_id) {
                Some(row) => r == Some((row.pop_range_id, row.zone_id)),
                None => r is None,
            }),
    {
        let n = self.warps.len();
        let mut i: usize = 0;
        assert(self.warps@.subrange(0, n as int) =~= self.warps@);
        while i < n
            invariant
                i <= n,
                n == self.warps@.len(),
                find_warp(self.warps@.subrange(i as int, n as int), warp_id) == find_warp(
                    self.warps@,
                    warp_id,
                ),
            decreases n - i,
        {
            let ghost t = self.warps@.subrange(i as int, n as int);
            proof {
                assert(t[0] == self.warps@[i as int]);
                assert(t.subrange(1, t.len() as int) =~= self.warps@.subrange(
                    i as int + 1,
                    n as int,
                ));
            }
            if self.warps[i].id == warp_id {
                return Some((self.warps[i].pop_range_id, self.warps[i].zone_id));
            }
            i = i + 1;
        }
        proof {
            assert(self.warps@.subrange(n as int, n as int) =~= Seq::<WarpRow>::empty());
        }
        None
    }

    /// Returns the pop-range object id and zone id associated with an
    /// aetheryte id; `None` when the sheet has no such row.
    pub fn get_aetheryte(&self, aetheryte_id: u32) -> (r: Option<(u32, u16)>)
        ensures
            (match find_aetheryte(self.aetherytes@, aetheryte_id) {
                Some(row) => r == Some((row.pop_range_id, row.zone_id)),
                None => r is None,
            }),
    {
        let n = self.aetherytes.len();
        let mut i: usize = 0;
        assert(self.aetherytes@.subrange(0, n as int) =~= self.aetherytes@);
        while i < n
            invariant
                i <= n,
                n == self.aetherytes@.len(),
                find_aetheryte(self.aetherytes@.subrange(i as int, n as int), aetheryte_id)
                    == find_aetheryte(self.aetherytes@, aetheryte_id),
            decreases n - i,
        {
            let ghost t = self.aetherytes@.subrange(i as int, n as int);
            proof {
                assert(t[0] == self.aetherytes@[i as int]);
                assert(t.subrange(1, t.len() as int) =~= self.aetherytes@.subrange(
                    i as int + 1,
                    n as int,
                ));
            }
            if self.aetherytes[i].id == aetheryte_id {
                return Some((self.aetherytes[i].pop_range_id, self.aetherytes[i].zone_id));
            }
            i = i + 1;
        }
        proof {
            assert(self.aetherytes@.subrange(n as int, n as int) =~= Seq::<AetheryteRow>::empty());
        }
        None
    }

    /// The static layout registered for a zone id, if any.
    pub fn find_zone(&self, zone_id: u16) -> (r: Option<&Zone>)
        ensures
            (match find_zone_idx(self.zones@, zone_id) {
                Some(i) => r is Some && *r->0 == self.zones@[i],
                None => r is None,
            }),
    {
        let n = self.zones.len();
        let mut i: usize = 0;
        assert(self.zones@.subrange(0, n as int) =~= self.zones@);
        while i < n
            invariant
                i <= n,
                n == self.zones@.len(),
                (match find_zone_idx(self.zones@.subrange(i as int, n as int), zone_id) {
                    Some(k) => find_zone_idx(self.zones@, zone_id) == Some(k + i as int),
                    None => find_zone_idx(self.zones@, zone_id) is None,
                }),
            decreases n - i,
        {
            let ghost t = self.zones@.subrange(i as int, n as int);
            proof {
                assert(t[0] == self.zones@[i as int]);
                assert(t.subrange(1, t.len() as int) =~= self.zones@.subrange(
                    i as int + 1,
                    n as int,
                ));
            }
            if self.zones[i].id == zone_id {
                return Some(&self.zones[i]);
            }
            i = i + 1;
        }
        proof {
            assert(self.zones@.subrange(n as int, n as int) =~= Seq::<Zone>::empty());
        }
        None
    }
}

impl GameData {
    /// Gets the world name for a world id; `None` when the sheet has no
    /// such row.
    pub fn get_world_name(&self, world_id: u16) -> (r: Option<String>)
        ensures
            (match find_world(self.worlds@, world_id) {
                Some(row) => r is Some && r->0@ == row.name@,
                None => r is None,
            }),
    {
        let n = self.worlds.len();
        let mut i: usize = 0;
        assert(self.worlds@.subrange(0, n as int) =~= self.worlds@);
        while i < n
            invariant
                i <= n,
                n == self.worlds@.len(),
                find_world(self.worlds@.subrange(i as int, n as int), world_id) == find_world(
                    self.worlds@,
                    world_id,
                ),
            decreases n - i,
        {
            let ghost t = self.worlds@.subrange(i as int, n as int);
            proof {
                assert(t[0] == self.worlds@[i as int]);
                assert(t.subrange(1, t.len() as int) =~= self.worlds@.subrange(
                    i as int + 1,
                    n as int,
                ));
            }
            if self.worlds[i].id == world_id {
                return Some(self.worlds[i].name.clone());
            }
            i = i + 1;
        }
        proof {
            assert(self.worlds@.subrange(n as int, n as int) =~= Seq::<WorldRow>::empty());
        }
        None
    }

    /// Gets the starting city-state for a class/job id; `None` when the
    /// sheet has no such row.
    pub fn get_citystate(&self, classjob_id: u16) -> (r: Option<u8>)
        ensures
            (match find_citystate(self.citystates@, classjob_id) {
                Some(row) => r == Some(row.starting_town),
                None => r is None,
            }),
    {
        let n = self.citystates.len();
        let mut i: usize = 0;
        assert(self.citystates@.subrange(0, n as int) =~= self.citystates@);
        while i < n
            invariant
                i <= n,
                n == self.citystates@.len(),
                find_citystate(self.citystates@.subrange(i as int, n as int), classjob_id)
                    == find_citystate(self.citystates@, classjob_id),
            decreases n - i,
        {
            let ghost t = self.citystates@.subrange(i as int, n as int);
            proof {
                assert(t[0] == self.citystates@[i as int]);
                assert(t.subrange(1, t.len() as int) =~= self.citystates@.subrange(
                    i as int + 1,
                    n as int,
                ));
            }
            if self.citystates[i].classjob_id == classjob_id {
                return Some(self.citystates[i].starting_town);
            }
            i = i + 1;
        }
        proof {
            assert(self.citystates@.subrange(n as int, n as int) =~= Seq::<CityStateRow>::empty());
        }
        None
    }

    /// The first place name with the given id.
    fn place_name(&self, id: u16) -> (r: Option<&PlaceNameRow>)
        ensures
            (match find_place_name(self.place_names@, id) {
                Some(row) => r is Some && *r->0 == row,
                None => r is None,
            }),
    {
        let n = self.place_names.len();
        let mut i: usize = 0;
        assert(self.place_names@.subrange(0, n as int) =~= self.place_names@);
        while i < n
            invariant
                i <= n,
                n == self.place_names@.len(),
                find_place_name(self.place_names@.subrange(i as int, n as int), id)
                    == find_place_name(self.place_names@, id),
            decreases n - i,
        {
            let ghost t = self.place_names@.subrange(i as int, n as int);
            proof {
                assert(t[0] == self.place_names@[i as int]);
                assert(t.subrange(1, t.len() as int) =~= self.place_names@.subrange(
                    i as int + 1,
                    n as int,
                ));
            }
            if self.place_names[i].id == id {
                return Some(&self.place_names[i]);
            }
            i = i + 1;
        }
        proof {
            assert(self.place_names@.subrange(n as int, n as int) =~= Seq::<PlaceNameRow>::empty());
        }
        None
    }

    /// Retrieves a zone's internal name, place name or parent region name;
    /// `None` when either sheet lacks its row.
    pub fn get_territory_name(&self, zone_id: u32, which: TerritoryNameKind) -> (r: Option<String>)
        ensures
            (match territory_name_of(self.territory_names@, self.place_names@, zone_id, which) {
                Some(name) => r is Some && r->0@ == name,
                None => r is None,
            }),
    {
        let n = self.territory_names.len();
        let mut i: usize = 0;
        assert(self.territory_names@.subrange(0, n as int) =~= self.territory_names@);
        while i < n
            invariant
                i <= n,
                n == self.territory_names@.len(),
                find_territory_name(self.territory_names@.subrange(i as int, n as int), zone_id)
                    == find_territory_name(self.territory_names@, zone_id),
            decreases n - i,
        {
            let ghost t = self.territory_names@.subrange(i as int, n as int);
            proof {
                assert(t[0] == self.territory_names@[i as int]);
                assert(t.subrange(1, t.len() as int) =~= self.territory_names@.subrange(
                    i as int + 1,
                    n as int,
                ));
            }
            if self.territory_names[i].zone_id == zone_id {
                let row = &self.territory_names[i];
                let place_id: u16 = match which {
                    TerritoryNameKind::Internal => {
                        return Some(row.internal_name.clone());
                    },
                    TerritoryNameKind::Region => row.region_name_id,
                    TerritoryNameKind::Place => row.place_name_id,
                };
                return match self.place_name(place_id) {
                    Some(place) => Some(place.name.clone()),
                    None => None,
                };
            }
            i = i + 1;
        }
        proof {
            assert(self.territory_names@.subrange(n as int, n as int)
                =~= Seq::<TerritoryNameRow>::empty());
        }
        None
    }

    /// Gets the cast time of an action, in hundreds of milliseconds;
    /// `None` when the sheet has no such row.
    pub fn get_casttime(&self, action_id: u32) -> (r: Option<u16>)
        ensures
            (match find_action(self.actions@, action_id) {
                Some(row) => r == Some(row.cast_100ms),
                None => r is None,
            }),
    {
        let n = self.actions.len();
        let mut i: usize = 0;
        assert(self.actions@.subrange(0, n as int) =~= self.actions@);
        while i < n
            invariant
                i <= n,
                n == self.actions@.len(),
                find_action(self.actions@.subrange(i as int, n as int), action_id) == find_action(
                    self.actions@,
                    action_id,
                ),
            decreases n - i,
        {
            let ghost t = self.actions@.subrange(i as int, n as int);
            proof {
                assert(t[0] == self.actions@[i as int]);
                assert(t.subrange(1, t.len() as int) =~= self.actions@.subrange(
                    i as int + 1,
                    n as int,
                ));
            }
            if self.actions[i].id == action_id {
                return Some(self.actions[i].cast_100ms);
            }
            i = i + 1;
        }
        proof {
            assert(self.actions@.subrange(n as int, n as int) =~= Seq::<ActionRow>::empty());
        }
        None
    }

    /// Gets the item sold at the given shop and index, resolved through
    /// the item table; `None` when either row is absent.
    pub fn get_gilshop_item(&self, gilshop_id: u32, index: u16) -> (r: Option<ItemInfo>)
        ensures
            (match find_gilshop_item(self.gilshop_items@, gilshop_id, index) {
                Some(row) => r == find_item(
                    self.items@,
                    ItemInfoQuery::ById(row.item_id as u32),
                ),
                None => r is None,
            }),
    {
        let n = self.gilshop_items.len();
        let mut i: usize = 0;
        assert(self.gilshop_items@.subrange(0, n as int) =~= self.gilshop_items@);
        while i < n
            invariant
                i <= n,
                n == self.gilshop_items@.len(),
                find_gilshop_item(self.gilshop_items@.subrange(i as int, n as int), gilshop_id, index)
                    == find_gilshop_item(self.gilshop_items@, gilshop_id, index),
            decreases n - i,
        {
            let ghost t = self.gilshop_items@.subrange(i as int, n as int);
            proof {
                assert(t[0] == self.gilshop_items@[i as int]);
                assert(t.subrange(1, t.len() as int) =~= self.gilshop_items@.subrange(
                    i as int + 1,
                    n as int,
                ));
            }
            if self.gilshop_items[i].gilshop_id == gilshop_id && self.gilshop_items[i].index
                == index {
                let item_id = self.gilshop_items[i].item_id;
                return self.get_item_info(ItemInfoQuery::ById(item_id as u32));
            }
            i = i + 1;
        }
        proof {
            assert(self.gilshop_items@.subrange(n as int, n as int)
                =~= Seq::<GilShopItemRow>::empty());
        }
        None
    }

    /// The first content-finder row with the given id.
    fn content_finder(&self, id: u16) -> (r: Option<&ContentFinderRow>)
        ensures
            (match find_content_finder(self.content_finders@, id) {
                Some(row) => r is Some && *r->0 == row,
                None => r is None,
            }),
    {
        let n = self.content_finders.len();
        let mut i: usize = 0;
        assert(self.content_finders@.subrange(0, n as int) =~= self.content_finders@);
        while i < n
            invariant
                i <= n,
                n == self.content_finders@.len(),
                find_content_finder(self.content_finders@.subrange(i as int, n as int), id)
                    == find_content_finder(self.content_finders@, id),
            decreases n - i,
        {
            let ghost t = self.content_finders@.subrange(i as int, n as int);
            proof {
                assert(t[0] == self.content_finders@[i as int]);
                assert(t.subrange(1, t.len() as int) =~= self.content_finders@.subrange(
                    i as int + 1,
                    n as int,
                ));
            }
            if self.content_finders[i].id == id {
                return Some(&self.content_finders[i]);
            }
            i = i + 1;
        }
        proof {
            assert(self.content_finders@.subrange(n as int, n as int)
                =~= Seq::<ContentFinderRow>::empty());
        }
        None
    }

    /// Gets the zone id for the given instanced content, through the
    /// content-finder sheet; `None` when either row is absent.
    pub fn find_zone_for_content(&self, content_id: u16) -> (r: Option<u16>)
        ensures
            (match find_instance_content(self.instance_contents@, content_id) {
                Some(row) => (match find_content_finder(
                    self.content_finders@,
                    row.content_finder_id,
                ) {
                    Some(finder) => r == Some(finder.zone_id),
                    None => r is None,
                }),
                None => r is None,
            }),
    {
        let n = self.instance_contents.len();
        let mut i: usize = 0;
        assert(self.instance_contents@.subrange(0, n as int) =~= self.instance_contents@);
        while i < n
            invariant
                i <= n,
                n == self.instance_contents@.len(),
                find_instance_content(self.instance_contents@.subrange(i as int, n as int), content_id)
                    == find_instance_content(self.instance_contents@, content_id),
            decreases n - i,
        {
            let ghost t = self.instance_contents@.subrange(i as int, n as int);
            proof {
                assert(t[0] == self.instance_contents@[i as int]);
                assert(t.subrange(1, t.len() as int) =~= self.instance_contents@.subrange(
                    i as int + 1,
                    n as int,
                ));
            }
            if self.instance_contents[i].content_id == content_id {
                let finder_id = self.instance_contents[i].content_finder_id;
                return match self.content_finder(finder_id) {
                    Some(finder) => Some(finder.zone_id),
                    None => None,
                };
            }
            i = i + 1;
        }
        proof {
            assert(self.instance_contents@.subrange(n as int, n as int)
                =~= Seq::<InstanceContentRow>::empty());
        }
        None
    }
}

/// Base 20 plus each tribal delta, truncated to an unsigned stat.
pub open spec fn racial_attributes(row: TribeRow) -> Attributes {
    Attributes {
        strength: (20 + row.str_delta as i32) as u32,
        dexterity: (20 + row.dex_delta as i32) as u32,
        vitality: (20 + row.vit_delta as i32) as u32,
        intelligence: (20 + row.int_delta as i32) as u32,
        mind: (20 + row.mnd_delta as i32) as u32,
    }
}

/// Which slot an equip-slot category row maps to: the first slot field
/// holding a one, in the fixed slot order.
pub open spec fn equip_slot_for_row(row: EquipSlotCategoryRow) -> Option<u16> {
    if row.main_hand == 1 {
        Some(0u16)
    } else if row.off_hand == 1 {
        Some(1u16)
    } else if row.head == 1 {
        Some(2u16)
    } else if row.body == 1 {
        Some(3u16)
    } else if row.gloves == 1 {
        Some(4u16)
    } else if row.legs == 1 {
        Some(6u16)
    } else if row.feet == 1 {
        Some(7u16)
    } else if row.ears == 1 {
        Some(8u16)
    } else if row.neck == 1 {
        Some(9u16)
    } else if row.wrists == 1 {
        Some(10u16)
    } else if row.finger_r == 1 {
        Some(11u16)
    } else if row.finger_l == 1 {
        Some(12u16)
    } else if row.soul_crystal == 1 {
        Some(13u16)
    } else {
        None
    }
}

/// The weather table registered for a zone id, if any.
pub open spec fn find_zone_weather(tables: Seq<ZoneWeatherRates>, zone_id: u32) -> Option<Seq<(i32, i32)>>
    decreases tables.len(),
{
    if tables.len() == 0 {
        None
    } else if tables[0].zone_id == zone_id {
        Some(tables[0].rates@)
    } else {
        find_zone_weather(tables.subrange(1, tables.len() as int), zone_id)
    }
}

/// The weather for a zone at a wall-clock time.
pub open spec fn zone_weather_at(
    tables: Seq<ZoneWeatherRates>,
    zone_id: u32,
    now_secs: u64,
) -> Option<i32> {
    match find_zone_weather(tables, zone_id) {
        Some(rates) => first_weather(rates, weather_target(now_secs) as i32),
        None => None,
    }
}

} // verus!
