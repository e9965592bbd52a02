//! The session-owned inventory: item pages, the equipped container and the
//! currency container, iterated in a fixed stable order by the inventory
//! synchronization, plus the buyback shadow list kept for NPC shops.

use vstd::prelude::*;

use crate::gamedata::{find_item, GameData, ItemInfoQuery};

verus! {

/// Number of item pages.
pub const INVENTORY_PAGE_COUNT: usize = 4;

/// Number of slots in one item page.
pub const INVENTORY_PAGE_SLOTS: usize = 35;

/// Number of slots in the equipped container.
pub const EQUIPPED_SLOTS: usize = 14;

/// Number of slots in the currency container; slot 0 is gil.
pub const CURRENCY_SLOTS: usize = 1;

/// Which storage container a wire message refers to.
#[derive(Debug, Clone, Copy, PartialEq, Eq, Structural)]
pub enum ContainerType {
    Inventory0,
    Inventory1,
    Inventory2,
    Inventory3,
    Equipped,
    Currency,
    Crystals,
    Mail,
    Unk2,
    ArmoryWaist,
}

/// The wire tag of a container type.
pub open spec fn container_type_tag(c: ContainerType) -> u16 {
    match c {
        ContainerType::Inventory0 => 0,
        ContainerType::Inventory1 => 1,
        ContainerType::Inventory2 => 2,
        ContainerType::Inventory3 => 3,
        ContainerType::Equipped => 1000,
        ContainerType::Currency => 2000,
        ContainerType::Crystals => 2001,
        ContainerType::Mail => 2003,
        ContainerType::Unk2 => 2004,
        ContainerType::ArmoryWaist => 3203,
    }
}

/// The wire tag of a container type, computed.
pub fn container_type_value(c: ContainerType) -> (r: u16)
    ensures
        r == container_type_tag(c),
{
    match c {
        ContainerType::Inventory0 => 0,
        ContainerType::Inventory1 => 1,
        ContainerType::Inventory2 => 2,
        ContainerType::Inventory3 => 3,
        ContainerType::Equipped => 1000,
        ContainerType::Currency => 2000,
        ContainerType::Crystals => 2001,
        ContainerType::Mail => 2003,
        ContainerType::Unk2 => 2004,
        ContainerType::ArmoryWaist => 3203,
    }
}

/// One inventory slot.
#[derive(Debug, Clone, Copy, PartialEq, Eq, Structural, Default)]
pub struct Item {
    pub quantity: u32,
    pub id: u32,
    pub condition: u16,
    pub glamour_catalog_id: u32,
    pub item_level: u16,
}

impl Item {
    /// A fresh stack of an item from its reference-data row.
    pub fn new(item_info: &crate::gamedata::ItemInfo, quantity: u32) -> (r: Item)
        ensures
            r.id == item_info.id,
            r.quantity == quantity,
            r.condition == 30000,
            r.glamour_catalog_id == 0,
            r.item_level == item_info.item_level,
    {
        Item {
            quantity,
            id: item_info.id,
            condition: 30000,
            glamour_catalog_id: 0,
            item_level: item_info.item_level,
        }
    }
}

/// A fixed-size storage container.
#[derive(Debug, Clone, PartialEq, Eq, Default)]
pub struct Container {
    pub slots: Vec<Item>,
}

/// Number of occupied (non-zero-quantity) slots.
pub open spec fn num_occupied(slots: Seq<Item>) -> nat
    decreases slots.len(),
{
    if slots.len() == 0 {
        0
    } else {
        (if slots[0].quantity > 0 {
            1nat
        } else {
            0nat
        }) + num_occupied(slots.subrange(1, slots.len() as int))
    }
}

/// The index of the first empty slot, if any.
pub open spec fn first_free_slot(slots: Seq<Item>) -> Option<int>
    decreases slots.len(),
{
    if slots.len() == 0 {
        None
    } else if slots[0].quantity == 0 {
        Some(0int)
    } else {
        match first_free_slot(slots.subrange(1, slots.len() as int)) {
            Some(i) => Some(i + 1),
            None => None,
        }
    }
}

impl Container {
    /// A container with `n` empty slots.
    pub fn empty(n: usize) -> (r: Container)
        ensures
            r.slots@.len() == n,
            forall|i: int| 0 <= i < n ==> #[trigger] r.slots@[i] == Item::default_spec(),
    {
        let mut slots: Vec<Item> = Vec::new();
        let mut i: usize = 0;
        while i < n
            invariant
                i <= n,
                slots@.len() == i,
                forall|j: int| 0 <= j < i ==> #[trigger] slots@[j] == Item::default_spec(),
            decreases n - i,
        {
            slots.push(Item { quantity: 0, id: 0, condition: 0, glamour_catalog_id: 0, item_level: 0 });
            i = i + 1;
        }
        Container { slots }
    }

    pub fn max_slots(&self) -> (r: usize)
        ensures
            r == self.slots@.len(),
    {
        self.slots.len()
    }

    pub fn get_slot(&self, index: u16) -> (r: &Item)
        requires
            (index as int) < self.slots@.len(),
        ensures
            *r == self.slots@[index as int],
    {
        &self.slots[index as usize]
    }

    /// Overwrites one slot.
    pub fn set_slot(&mut self, index: u16, item: Item)
        requires
            (index as int) < old(self).slots@.len(),
        ensures
            final(self).slots@ == old(self).slots@.update(index as int, item),
    {
        self.slots.set(index as usize, item);
    }

    /// Number of occupied slots, for the container summary message.
    pub fn num_items(&self) -> (r: u32)
        requires
            self.slots@.len() <= 4294967295,
        ensures
            r == num_occupied(self.slots@),
    {
        let n = self.slots.len();
        let mut count: usize = 0;
        let mut i: usize = 0;
        proof {
            assert(self.slots@.subrange(0, 0) =~= Seq::<Item>::empty());
        }
        while i < n
            invariant
                i <= n,
                n == self.slots@.len(),
                count == num_occupied(self.slots@.subrange(0, i as int)),
                count <= i,
            decreases n - i,
        {
            proof {
                lemma_num_occupied_prefix_step(self.slots@, i as int);
            }
            if self.slots[i].quantity > 0 {
                count = count + 1;
            }
            i = i + 1;
        }
        proof {
            assert(self.slots@.subrange(0, n as int) =~= self.slots@);
        }
        count as u32
    }
}

impl Item {
    /// The all-zero slot value.
    pub open spec fn default_spec() -> Item {
        Item { quantity: 0, id: 0, condition: 0, glamour_catalog_id: 0, item_level: 0 }
    }
}

/// Occupancy of a prefix extended by one slot.
proof fn lemma_num_occupied_prefix_step(slots: Seq<Item>, i: int)
    requires
        0 <= i < slots.len(),
    ensures
        num_occupied(slots.subrange(0, i + 1)) == num_occupied(slots.subrange(0, i)) + (
        if slots[i].quantity > 0 {
            1nat
        } else {
            0nat
        }),
    decreases i,
{
    if i == 0 {
        let s1 = slots.subrange(0, 1);
        assert(s1.subrange(1, 1) =~= Seq::<Item>::empty());
        assert(slots.subrange(0, 0) =~= Seq::<Item>::empty());
    } else {
        let a = slots.subrange(0, i + 1);
        let b = slots.subrange(0, i);
        assert(a.subrange(1, a.len() as int) =~= slots.subrange(1, slots.len() as int).subrange(
            0,
            i,
        ));
        assert(b.subrange(1, b.len() as int) =~= slots.subrange(1, slots.len() as int).subrange(
            0,
            i - 1,
        ));
        assert(a[0] == slots[0] && b[0] == slots[0]);
        lemma_num_occupied_prefix_step(slots.subrange(1, slots.len() as int), i - 1);
        assert(slots.subrange(1, slots.len() as int)[i - 1] == slots[i]);
    }
}

/// The server-side shadow copy of the last-opened NPC shop's buyback list.
#[derive(Debug, PartialEq, Eq)]
pub struct BuyBackList {
    /// (shop event id, item id, quantity, price) entries, newest first.
    pub entries: Vec<(u32, u32, u32, u32)>,
}

impl Clone for BuyBackList {
    fn clone(&self) -> (r: Self)
        ensures
            r.entries@ == self.entries@,
    {
        let n = self.entries.len();
        let mut entries: Vec<(u32, u32, u32, u32)> = Vec::new();
        let mut i: usize = 0;
        while i < n
            invariant
                i <= n,
                n == self.entries@.len(),
                entries@ == self.entries@.subrange(0, i as int),
            decreases n - i,
        {
            entries.push(self.entries[i]);
            assert(entries@ =~= self.entries@.subrange(0, i as int + 1));
            i = i + 1;
        }
        proof {
            assert(self.entries@.subrange(0, n as int) =~= self.entries@);
        }
        BuyBackList { entries }
    }
}

impl Default for BuyBackList {
    /// An empty list.
    fn default() -> (r: BuyBackList)
        ensures
            r.entries@.len() == 0,
    {
        BuyBackList { entries: Vec::new() }
    }
}

/// The whole session inventory.
#[derive(Debug, Clone, PartialEq, Eq)]
pub struct Inventory {
    pub pages: Vec<Container>,
    pub equipped: Container,
    pub currency: Container,
}

/// Well-formedness: the fixed container layout.
pub open spec fn inventory_wf(inv: Inventory) -> bool {
    &&& inv.pages@.len() == INVENTORY_PAGE_COUNT
    &&& forall|i: int|
        0 <= i < INVENTORY_PAGE_COUNT ==> (#[trigger] inv.pages@[i]).slots@.len()
            == INVENTORY_PAGE_SLOTS
    &&& inv.equipped.slots@.len() == EQUIPPED_SLOTS
    &&& inv.currency.slots@.len() == CURRENCY_SLOTS
}

impl Default for Inventory {
    /// An empty inventory with the fixed container layout.
    fn default() -> (r: Inventory)
        ensures
            inventory_wf(r),
    {
        let mut pages: Vec<Container> = Vec::new();
        let mut i: usize = 0;
        while i < INVENTORY_PAGE_COUNT
            invariant
                i <= INVENTORY_PAGE_COUNT,
                pages@.len() == i,
                forall|j: int|
                    0 <= j < i ==> (#[trigger] pages@[j]).slots@.len() == INVENTORY_PAGE_SLOTS,
            decreases INVENTORY_PAGE_COUNT - i,
        {
            pages.push(Container::empty(INVENTORY_PAGE_SLOTS));
            i = i + 1;
        }
        Inventory {
            pages,
            equipped: Container::empty(EQUIPPED_SLOTS),
            currency: Container::empty(CURRENCY_SLOTS),
        }
    }
}

/// The first page holding a free slot, with that slot, if any.
pub open spec fn first_free_page_slot(pages: Seq<Container>) -> Option<(int, int)>
    decreases pages.len(),
{
    if pages.len() == 0 {
        None
    } else {
        match first_free_slot(pages[0].slots@) {
            Some(s) => Some((0int, s)),
            None => match first_free_page_slot(pages.subrange(1, pages.len() as int)) {
                Some(ps) => Some((ps.0 + 1, ps.1)),
                None => None,
            },
        }
    }
}

impl Inventory {
    /// Places an item into the first free page slot; `None` and no change
    /// when every page slot is occupied.
    pub fn add_in_next_free_slot(&mut self, item: Item) -> (r: Option<(u16, u16)>)
        requires
            inventory_wf(*old(self)),
        ensures
            inventory_wf(*final(self)),
            (match first_free_page_slot(old(self).pages@) {
                Some(ps) => {
                    &&& r == Some((ps.0 as u16, ps.1 as u16))
                    &&& final(self).pages@.len() == old(self).pages@.len()
                    &&& final(self).pages@[ps.0].slots@ == old(self).pages@[ps.0].slots@.update(
                        ps.1,
                        item,
                    )
                    &&& forall|j: int|
                        0 <= j < old(self).pages@.len() && j != ps.0
                            ==> #[trigger] final(self).pages@[j] == old(self).pages@[j]
                    &&& final(self).equipped == old(self).equipped
                    &&& final(self).currency == old(self).currency
                },
                None => r is None && *final(self) == *old(self),
            }),
    {
        let page_count = self.pages.len();
        let mut p: usize = 0;
        assert(self.pages@.subrange(0, page_count as int) =~= self.pages@);
        while p < page_count
            invariant
                p <= page_count,
                inventory_wf(*self),
                *self == *old(self),
                page_count == self.pages@.len(),
                first_free_page_slot(self.pages@.subrange(p as int, page_count as int)) matches
                    Some(ps) ==> first_free_page_slot(self.pages@) == Some(
                    (ps.0 + p as int, ps.1),
                ),
                first_free_page_slot(self.pages@.subrange(p as int, page_count as int)) is None
                    ==> first_free_page_slot(self.pages@) is None,
                forall|j: int|
                    0 <= j < p ==> first_free_slot(
                        (#[trigger] self.pages@[j]).slots@,
                    ) is None,
            decreases page_count - p,
        {
            let ghost t = self.pages@.subrange(p as int, page_count as int);
            proof {
                assert(t[0] == self.pages@[p as int]);
                assert(t.subrange(1, t.len() as int) =~= self.pages@.subrange(
                    p as int + 1,
                    page_count as int,
                ));
            }
            let slot_count = self.pages[p].slots.len();
            let mut s: usize = 0;
            assert(self.pages@[p as int].slots@.subrange(0, slot_count as int) =~= self.pages@[
                p as int].slots@);
            while s < slot_count
                invariant
                    s <= slot_count,
                    p < page_count,
                    inventory_wf(*self),
                    *self == *old(self),
                    page_count == self.pages@.len(),
                    slot_count == self.pages@[p as int].slots@.len(),
                    first_free_slot(
                        self.pages@[p as int].slots@.subrange(s as int, slot_count as int),
                    ) matches Some(q) ==> first_free_slot(self.pages@[p as int].slots@) == Some(
                        q + s as int,
                    ),
                    first_free_slot(
                        self.pages@[p as int].slots@.subrange(s as int, slot_count as int),
                    ) is None ==> first_free_slot(self.pages@[p as int].slots@) is None,
                    first_free_page_slot(
                        self.pages@.subrange(p as int, page_count as int),
                    ) matches Some(ps) ==> first_free_page_slot(self.pages@) == Some(
                        (ps.0 + p as int, ps.1),
                    ),
                decreases slot_count - s,
            {
                let ghost u = self.pages@[p as int].slots@.subrange(s as int, slot_count as int);
                proof {
                    assert(u[0] == self.pages@[p as int].slots@[s as int]);
                    assert(u.subrange(1, u.len() as int) =~= self.pages@[
                        p as int].slots@.subrange(s as int + 1, slot_count as int));
                }
                if self.pages[p].slots[s].quantity == 0 {
                    let ghost old_pages = self.pages@;
                    proof {
                        assert(u[0].quantity == 0);
                        assert(first_free_slot(u) == Some(0int));
                        assert(first_free_slot(self.pages@[p as int].slots@) == Some(s as int));
                        let t2 = self.pages@.subrange(p as int, page_count as int);
                        assert(t2[0] == self.pages@[p as int]);
                        assert(first_free_page_slot(t2) == Some((0int, s as int)));
                        assert(first_free_page_slot(self.pages@) == Some((p as int, s as int)));
                        assert(first_free_page_slot(old(self).pages@) == Some(
                            (p as int, s as int),
                        ));
                    }
                    let mut page = self.pages.remove(p);
                    page.set_slot(s as u16, item);
                    self.pages.insert(p, page);
                    proof {
                        assert(self.pages@ =~= old_pages.update(p as int, page));
                        assert(self.pages@[p as int].slots@ =~= old(self).pages@[
                            p as int].slots@.update(s as int, item));
                    }
                    return Some((p as u16, s as u16));
                }
                s = s + 1;
            }
            proof {
                assert(self.pages@[p as int].slots@.subrange(
                    slot_count as int,
                    slot_count as int,
                ) =~= Seq::<Item>::empty());
            }
            p = p + 1;
        }
        proof {
            assert(self.pages@.subrange(page_count as int, page_count as int)
                =~= Seq::<Container>::empty());
        }
        None
    }

    /// The mean item level over the equipped container's slots: the sum of
    /// the levels of occupied slots divided by the slot count.
    pub fn calculate_equipped_item_level(&self) -> (r: u32)
        requires
            inventory_wf(*self),
        ensures
            r == item_level_sum(self.equipped.slots@) / (EQUIPPED_SLOTS as nat),
    {
        let n = self.equipped.slots.len();
        let mut sum: u32 = 0;
        let mut i: usize = 0;
        proof {
            assert(self.equipped.slots@.subrange(0, 0) =~= Seq::<Item>::empty());
        }
        while i < n
            invariant
                i <= n,
                n == self.equipped.slots@.len(),
                n == EQUIPPED_SLOTS,
                inventory_wf(*self),
                sum == item_level_sum(self.equipped.slots@.subrange(0, i as int)),
                sum <= i * 65535,
            decreases n - i,
        {
            proof {
                lemma_item_level_sum_step(self.equipped.slots@, i as int);
            }
            if self.equipped.slots[i].quantity > 0 {
                sum = sum + self.equipped.slots[i].item_level as u32;
            }
            i = i + 1;
        }
        proof {
            assert(self.equipped.slots@.subrange(0, n as int) =~= self.equipped.slots@);
        }
        sum / (EQUIPPED_SLOTS as u32)
    }

    /// The primary model id of the equipped main weapon, or zero when the
    /// slot is empty or the item is unknown to the reference data.
    pub fn get_main_weapon_id(&self, game_data: &GameData) -> (r: u64)
        requires
            inventory_wf(*self),
        ensures
            r == main_weapon_model_of(*self, *game_data),
    {
        let weapon = self.equipped.get_slot(0);
        if weapon.quantity == 0 {
            0
        } else {
            match game_data.get_primary_model_id(weapon.id) {
                Some(m) => m,
                None => 0,
            }
        }
    }
}

/// The equipped slot shown in the k-th visible model channel.
pub open spec fn model_slot(k: int) -> int {
    if k <= 3 {
        k + 2
    } else {
        k + 3
    }
}

/// The model id broadcast for the k-th visible gear slot.
pub open spec fn model_id_at(inv: Inventory, game_data: GameData, k: int) -> u32 {
    let item = inv.equipped.slots@[model_slot(k)];
    if item.quantity == 0 {
        0u32
    } else {
        match find_item(game_data.items@, ItemInfoQuery::ById(item.id)) {
            Some(row) => row.primary_model_id as u32,
            None => 0u32,
        }
    }
}

/// The spec value of the ten visible model ids.
pub open spec fn model_ids_of(inv: Inventory, game_data: GameData) -> Seq<u32> {
    Seq::new(10, |k: int| model_id_at(inv, game_data, k))
}

impl Inventory {
    /// The model ids of the ten visible gear slots, resolved through the
    /// item table; zero for empty slots and unknown items.
    pub fn get_model_ids(&self, game_data: &GameData) -> (r: Vec<u32>)
        requires
            inventory_wf(*self),
        ensures
            r@ == model_ids_of(*self, *game_data),
    {
        let mut r: Vec<u32> = Vec::new();
        let mut k: usize = 0;
        while k < 10
            invariant
                k <= 10,
                inventory_wf(*self),
                r@.len() == k,
                forall|j: int| 0 <= j < k ==> #[trigger] r@[j] == model_id_at(*self, *game_data, j),
            decreases 10 - k,
        {
            let slot: u16 = if k <= 3 {
                (k + 2) as u16
            } else {
                (k + 3) as u16
            };
            let item = *self.equipped.get_slot(slot);
            let model: u32 = if item.quantity == 0 {
                0
            } else {
                match game_data.get_primary_model_id(item.id) {
                    Some(m) => m as u32,
                    None => 0,
                }
            };
            r.push(model);
            k = k + 1;
        }
        assert(r@ =~= model_ids_of(*self, *game_data));
        r
    }
}

/// Sum of the item levels of occupied slots.
pub open spec fn item_level_sum(slots: Seq<Item>) -> nat
    decreases slots.len(),
{
    if slots.len() == 0 {
        0
    } else {
        (if slots[0].quantity > 0 {
            slots[0].item_level as nat
        } else {
            0nat
        }) + item_level_sum(slots.subrange(1, slots.len() as int))
    }
}

/// Item-level sum of a prefix extended by one slot.
proof fn lemma_item_level_sum_step(slots: Seq<Item>, i: int)
    requires
        0 <= i < slots.len(),
    ensures
        item_level_sum(slots.subrange(0, i + 1)) == item_level_sum(slots.subrange(0, i)) + (
        if slots[i].quantity > 0 {
            slots[i].item_level as nat
        } else {
            0nat
        }),
    decreases i,
{
    if i == 0 {
        let s1 = slots.subrange(0, 1);
        assert(s1.subrange(1, 1) =~= Seq::<Item>::empty());
        assert(slots.subrange(0, 0) =~= Seq::<Item>::empty());
    } else {
        let rest = slots.subrange(1, slots.len() as int);
        assert(slots.subrange(0, i + 1).subrange(1, i + 1) =~= rest.subrange(0, i));
        assert(slots.subrange(0, i).subrange(1, i) =~= rest.subrange(0, i - 1));
        assert(slots.subrange(0, i + 1)[0] == slots[0]);
        assert(slots.subrange(0, i)[0] == slots[0]);
        lemma_item_level_sum_step(rest, i - 1);
        assert(rest[i - 1] == slots[i]);
    }
}

/// The model id the main weapon resolves to through the item table.
pub open spec fn main_weapon_model_of(inv: Inventory, game_data: GameData) -> u64 {
    let weapon = inv.equipped.slots@[0];
    if weapon.quantity == 0 {
        0
    } else {
        match find_item(game_data.items@, ItemInfoQuery::ById(weapon.id)) {
            Some(row) => row.primary_model_id,
            None => 0,
        }
    }
}

} // verus!
