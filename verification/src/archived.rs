use crate::format::begins;
use crate::value::{
    dec_bool, dec_i32, dec_i64, dec_text, dec_vec_i32, entries_view, field_bool, field_i32,
    field_i64, field_numtext, field_text, field_u32, field_vec_i32, i64_text, int_text,
    items_view, jv_text, lemma_entries_view, lemma_items_view, mapping_get, quote_str,
    quote_text, spec_dec_bool, spec_dec_i32, spec_dec_i64, spec_dec_text, spec_dec_vec_i32,
    spec_field_bool, spec_field_i32, spec_field_i64, spec_field_numtext, spec_field_text,
    spec_field_u32, spec_field_vec_i32, spec_mget, JsonValue, Jv,
};
use vstd::prelude::*;
use vstd::string::*;

verus! {

broadcast use vstd::std_specs::vec::group_vec_axioms;

// Schema records extracted from the flat store.  Every decode is
// fault-tolerant: a missing field or a field of the wrong shape yields an
// absence, never an error.  Quantities the engine stores as floating point
// (clock ticks, coordinates) are carried as their decimal text, keeping the
// digits exactly as the document had them.

#[derive(Debug, PartialEq)]
pub struct QuestSaveData {
    pub tag_name: String,
    pub id: u32,
    pub complete: bool,
    pub need_inspection: bool,
    pub quest_giver_id: u32,
}

pub struct QuestSaveDataV {
    pub tag_name: Seq<char>,
    pub id: u32,
    pub complete: bool,
    pub need_inspection: bool,
    pub quest_giver_id: u32,
}

impl DeepView for QuestSaveData {
    type V = QuestSaveDataV;

    open spec fn deep_view(&self) -> QuestSaveDataV {
        QuestSaveDataV {
            tag_name: self.tag_name@,
            id: self.id,
            complete: self.complete,
            need_inspection: self.need_inspection,
            quest_giver_id: self.quest_giver_id,
        }
    }
}

#[derive(Debug, PartialEq)]
pub struct GameClock {
    pub days: i32,
    pub seconds_of_day: i64,
    pub real_time_played_ticks: String,
}

pub struct GameClockV {
    pub days: i32,
    pub seconds_of_day: i64,
    pub real_time_played_ticks: Seq<char>,
}

impl DeepView for GameClock {
    type V = GameClockV;

    open spec fn deep_view(&self) -> GameClockV {
        GameClockV {
            days: self.days,
            seconds_of_day: self.seconds_of_day,
            real_time_played_ticks: self.real_time_played_ticks@,
        }
    }
}

pub open spec fn spec_game_clock_default() -> GameClockV {
    GameClockV { days: 0, seconds_of_day: 0, real_time_played_ticks: "0.0"@ }
}

impl Default for GameClock {
    fn default() -> (r: GameClock)
        ensures
            r.deep_view() == spec_game_clock_default(),
    {
        GameClock {
            days: 0,
            seconds_of_day: 0,
            real_time_played_ticks: String::from_str("0.0"),
        }
    }
}

#[derive(Debug, PartialEq)]
pub struct QuestData {
    pub active_quests: Vec<QuestSaveData>,
    pub history_quests: Vec<QuestSaveData>,
    pub ever_inspected: Vec<i32>,
}

pub struct QuestDataV {
    pub active_quests: Seq<QuestSaveDataV>,
    pub history_quests: Seq<QuestSaveDataV>,
    pub ever_inspected: Seq<i32>,
}

impl DeepView for QuestData {
    type V = QuestDataV;

    open spec fn deep_view(&self) -> QuestDataV {
        QuestDataV {
            active_quests: self.active_quests.deep_view(),
            history_quests: self.history_quests.deep_view(),
            ever_inspected: self.ever_inspected.deep_view(),
        }
    }
}

pub open spec fn spec_quest_data_default() -> QuestDataV {
    QuestDataV {
        active_quests: Seq::empty(),
        history_quests: Seq::empty(),
        ever_inspected: Seq::empty(),
    }
}

impl Default for QuestData {
    fn default() -> (r: QuestData)
        ensures
            r.deep_view() == spec_quest_data_default(),
    {
        let r = QuestData { active_quests: Vec::new(), history_quests: Vec::new(), ever_inspected: Vec::new() };
        proof {
            assert(r.active_quests.deep_view() =~= Seq::<QuestSaveDataV>::empty());
            assert(r.history_quests.deep_view() =~= Seq::<QuestSaveDataV>::empty());
            assert(r.ever_inspected.deep_view() =~= Seq::<i32>::empty());
        }
        r
    }
}

#[derive(Debug, PartialEq)]
pub struct EconomyData {
    pub money: i32,
    pub unlocked_items: Vec<i32>,
    pub unlockes_waiting_for_confirm: Vec<i32>,
}

pub struct EconomyDataV {
    pub money: i32,
    pub unlocked_items: Seq<i32>,
    pub unlockes_waiting_for_confirm: Seq<i32>,
}

impl DeepView for EconomyData {
    type V = EconomyDataV;

    open spec fn deep_view(&self) -> EconomyDataV {
        EconomyDataV {
            money: self.money,
            unlocked_items: self.unlocked_items.deep_view(),
            unlockes_waiting_for_confirm: self.unlockes_waiting_for_confirm.deep_view(),
        }
    }
}

pub open spec fn spec_economy_default() -> EconomyDataV {
    EconomyDataV {
        money: 0,
        unlocked_items: Seq::empty(),
        unlockes_waiting_for_confirm: Seq::empty(),
    }
}

impl Default for EconomyData {
    fn default() -> (r: EconomyData)
        ensures
            r.deep_view() == spec_economy_default(),
    {
        let r = EconomyData { money: 0, unlocked_items: Vec::new(), unlockes_waiting_for_confirm: Vec::new() };
        proof {
            assert(r.unlocked_items.deep_view() =~= Seq::<i32>::empty());
            assert(r.unlockes_waiting_for_confirm.deep_view() =~= Seq::<i32>::empty());
        }
        r
    }
}

#[derive(Debug, Copy, Clone, PartialEq, Eq, Structural)]
pub struct MasterKey {
    pub id: i32,
    pub active: bool,
}

impl DeepView for MasterKey {
    type V = MasterKey;

    open spec fn deep_view(&self) -> MasterKey {
        *self
    }
}

#[derive(Debug, PartialEq)]
pub struct WorldPosition {
    pub x: String,
    pub y: String,
    pub z: String,
}

pub struct WorldPositionV {
    pub x: Seq<char>,
    pub y: Seq<char>,
    pub z: Seq<char>,
}

impl DeepView for WorldPosition {
    type V = WorldPositionV;

    open spec fn deep_view(&self) -> WorldPositionV {
        WorldPositionV { x: self.x@, y: self.y@, z: self.z@ }
    }
}

#[derive(Debug, PartialEq)]
pub struct ItemVariable {
    pub key: String,
    pub data_type: i32,
    pub data: String,
    pub display: bool,
}

pub struct ItemVariableV {
    pub key: Seq<char>,
    pub data_type: i32,
    pub data: Seq<char>,
    pub display: bool,
}

impl DeepView for ItemVariable {
    type V = ItemVariableV;

    open spec fn deep_view(&self) -> ItemVariableV {
        ItemVariableV {
            key: self.key@,
            data_type: self.data_type,
            data: self.data@,
            display: self.display,
        }
    }
}

#[derive(Debug, PartialEq)]
pub struct SlotContent {
    pub slot: String,
    pub instance_id: i32,
}

pub struct SlotContentV {
    pub slot: Seq<char>,
    pub instance_id: i32,
}

impl DeepView for SlotContent {
    type V = SlotContentV;

    open spec fn deep_view(&self) -> SlotContentV {
        SlotContentV { slot: self.slot@, instance_id: self.instance_id }
    }
}

#[derive(Debug, Copy, Clone, PartialEq, Eq, Structural)]
pub struct InventoryItem {
    pub position: i32,
    pub instance_id: i32,
}

impl DeepView for InventoryItem {
    type V = InventoryItem;

    open spec fn deep_view(&self) -> InventoryItem {
        *self
    }
}

#[derive(Debug, PartialEq)]
pub struct ItemEntry {
    pub instance_id: i32,
    pub type_id: i32,
    pub variables: Vec<ItemVariable>,
    pub slot_contents: Vec<SlotContent>,
    pub inventory: Vec<InventoryItem>,
    pub inventory_sort_locks: Vec<JsonValue>,
}

pub struct ItemEntryV {
    pub instance_id: i32,
    pub type_id: i32,
    pub variables: Seq<ItemVariableV>,
    pub slot_contents: Seq<SlotContentV>,
    pub inventory: Seq<InventoryItem>,
    pub inventory_sort_locks: Seq<Jv>,
}

impl DeepView for JsonValue {
    type V = Jv;

    open spec fn deep_view(&self) -> Jv {
        self.view()
    }
}

impl DeepView for ItemEntry {
    type V = ItemEntryV;

    open spec fn deep_view(&self) -> ItemEntryV {
        ItemEntryV {
            instance_id: self.instance_id,
            type_id: self.type_id,
            variables: self.variables.deep_view(),
            slot_contents: self.slot_contents.deep_view(),
            inventory: self.inventory.deep_view(),
            inventory_sort_locks: self.inventory_sort_locks.deep_view(),
        }
    }
}

#[derive(Debug, PartialEq)]
pub struct ItemTreeData {
    pub root_instance_id: i32,
    pub entries: Vec<ItemEntry>,
}

pub struct ItemTreeDataV {
    pub root_instance_id: i32,
    pub entries: Seq<ItemEntryV>,
}

impl DeepView for ItemTreeData {
    type V = ItemTreeDataV;

    open spec fn deep_view(&self) -> ItemTreeDataV {
        ItemTreeDataV { root_instance_id: self.root_instance_id, entries: self.entries.deep_view() }
    }
}

pub open spec fn spec_item_tree_default() -> ItemTreeDataV {
    ItemTreeDataV { root_instance_id: 0, entries: Seq::empty() }
}

impl Default for ItemTreeData {
    fn default() -> (r: ItemTreeData)
        ensures
            r.deep_view() == spec_item_tree_default(),
    {
        let r = ItemTreeData { root_instance_id: 0, entries: Vec::new() };
        proof {
            assert(r.entries.deep_view() =~= Seq::<ItemEntryV>::empty());
        }
        r
    }
}

#[derive(Debug, PartialEq)]
pub struct StashData {
    pub valid: bool,
    pub raid_id: i32,
    pub sub_scene_id: String,
    pub world_position: WorldPosition,
    pub item_tree_data: ItemTreeData,
    pub spawned: bool,
    pub touched: bool,
}

pub struct StashDataV {
    pub valid: bool,
    pub raid_id: i32,
    pub sub_scene_id: Seq<char>,
    pub world_position: WorldPositionV,
    pub item_tree_data: ItemTreeDataV,
    pub spawned: bool,
    pub touched: bool,
}

impl DeepView for StashData {
    type V = StashDataV;

    open spec fn deep_view(&self) -> StashDataV {
        StashDataV {
            valid: self.valid,
            raid_id: self.raid_id,
            sub_scene_id: self.sub_scene_id@,
            world_position: self.world_position.deep_view(),
            item_tree_data: self.item_tree_data.deep_view(),
            spawned: self.spawned,
            touched: self.touched,
        }
    }
}

#[derive(Debug, PartialEq)]
pub struct InventoryItemData {
    pub inventory_position: i32,
    pub item_tree_data: ItemTreeData,
}

pub struct InventoryItemDataV {
    pub inventory_position: i32,
    pub item_tree_data: ItemTreeDataV,
}

impl DeepView for InventoryItemData {
    type V = InventoryItemDataV;

    open spec fn deep_view(&self) -> InventoryItemDataV {
        InventoryItemDataV {
            inventory_position: self.inventory_position,
            item_tree_data: self.item_tree_data.deep_view(),
        }
    }
}

#[derive(Debug, PartialEq)]
pub struct Inventory {
    pub capacity: i32,
    pub entries: Vec<InventoryItemData>,
}

pub struct InventoryV {
    pub capacity: i32,
    pub entries: Seq<InventoryItemDataV>,
}

impl DeepView for Inventory {
    type V = InventoryV;

    open spec fn deep_view(&self) -> InventoryV {
        InventoryV { capacity: self.capacity, entries: self.entries.deep_view() }
    }
}

pub open spec fn spec_inventory_default() -> InventoryV {
    InventoryV { capacity: 0, entries: Seq::empty() }
}

impl Default for Inventory {
    fn default() -> (r: Inventory)
        ensures
            r.deep_view() == spec_inventory_default(),
    {
        let r = Inventory { capacity: 0, entries: Vec::new() };
        proof {
            assert(r.entries.deep_view() =~= Seq::<InventoryItemDataV>::empty());
        }
        r
    }
}

#[derive(Debug, PartialEq)]
pub struct VersionData {
    pub main_version: i32,
    pub sub_version: i32,
    pub build_version: i32,
    pub suffix: String,
}

pub struct VersionDataV {
    pub main_version: i32,
    pub sub_version: i32,
    pub build_version: i32,
    pub suffix: Seq<char>,
}

impl DeepView for VersionData {
    type V = VersionDataV;

    open spec fn deep_view(&self) -> VersionDataV {
        VersionDataV {
            main_version: self.main_version,
            sub_version: self.sub_version,
            build_version: self.build_version,
            suffix: self.suffix@,
        }
    }
}

/// One entry of the kill-count family, keyed by the enemy's name.
#[derive(Debug, PartialEq)]
pub struct Kill {
    pub monster_name: String,
    pub count: i64,
}

pub struct KillV {
    pub monster_name: Seq<char>,
    pub count: i64,
}

impl DeepView for Kill {
    type V = KillV;

    open spec fn deep_view(&self) -> KillV {
        KillV { monster_name: self.monster_name@, count: self.count }
    }
}


pub open spec fn spec_dec_list_master_key(items: Seq<Jv>) -> Option<Seq<MasterKey>>
    decreases items.len(),
{
    if items.len() == 0 {
        Some(Seq::empty())
    } else {
        match (spec_dec_list_master_key(items.drop_last()), spec_dec_master_key(items.last())) {
            (Some(init), Some(x)) => Some(init.push(x)),
            _ => None,
        }
    }
}

proof fn lemma_dec_list_master_key_none(items: Seq<Jv>, i: int)
    requires
        0 <= i < items.len(),
        spec_dec_master_key(items[i]) is None,
    ensures
        spec_dec_list_master_key(items) is None,
    decreases items.len(),
{
    if i < items.len() - 1 {
        assert(items.drop_last()[i] == items[i]);
        lemma_dec_list_master_key_none(items.drop_last(), i);
    }
}

pub open spec fn spec_dec_vec_master_key(v: Jv) -> Option<Seq<MasterKey>> {
    match v {
        Jv::Sequence(items) => spec_dec_list_master_key(items),
        _ => None,
    }
}

#[verifier::loop_isolation(false)]
pub fn dec_vec_master_key(v: &JsonValue) -> (r: Option<Vec<MasterKey>>)
    ensures
        r.deep_view() == spec_dec_vec_master_key(v@),
{
    match v {
        JsonValue::Sequence(items) => {
            let ghost itv = items_view(items@);
            proof {
                lemma_items_view(items@);
                assert(itv.take(0) =~= Seq::<Jv>::empty());
            }
            let mut out: Vec<MasterKey> = Vec::new();
            proof {
                assert(out.deep_view() =~= Seq::<MasterKey>::empty());
            }
            let mut j: usize = 0;
            while j < items.len()
                invariant
                    0 <= j <= items.len(),
                    spec_dec_list_master_key(itv.take(j as int)) == Some(out.deep_view()),
                decreases items.len() - j,
            {
                match dec_master_key(&items[j]) {
                    Some(x) => {
                        let ghost prev = out.deep_view();
                        out.push(x);
                        proof {
                            assert(itv.take(j as int + 1).drop_last() =~= itv.take(j as int));
                            assert(itv.take(j as int + 1).last() == itv[j as int]);
                            assert(out.deep_view() =~= prev.push(x.deep_view()));
                        }
                    },
                    None => {
                        proof {
                            lemma_dec_list_master_key_none(itv, j as int);
                        }
                        return None;
                    },
                }
                j = j + 1;
            }
            proof {
                assert(itv.take(items@.len() as int) =~= itv);
            }
            Some(out)
        },
        _ => None,
    }
}

pub open spec fn spec_dec_list_quest_save(items: Seq<Jv>) -> Option<Seq<QuestSaveDataV>>
    decreases items.len(),
{
    if items.len() == 0 {
        Some(Seq::empty())
    } else {
        match (spec_dec_list_quest_save(items.drop_last()), spec_dec_quest_save(items.last())) {
            (Some(init), Some(x)) => Some(init.push(x)),
            _ => None,
        }
    }
}

proof fn lemma_dec_list_quest_save_none(items: Seq<Jv>, i: int)
    requires
        0 <= i < items.len(),
        spec_dec_quest_save(items[i]) is None,
    ensures
        spec_dec_list_quest_save(items) is None,
    decreases items.len(),
{
    if i < items.len() - 1 {
        assert(items.drop_last()[i] == items[i]);
        lemma_dec_list_quest_save_none(items.drop_last(), i);
    }
}

pub open spec fn spec_dec_vec_quest_save(v: Jv) -> Option<Seq<QuestSaveDataV>> {
    match v {
        Jv::Sequence(items) => spec_dec_list_quest_save(items),
        _ => None,
    }
}

#[verifier::loop_isolation(false)]
pub fn dec_vec_quest_save(v: &JsonValue) -> (r: Option<Vec<QuestSaveData>>)
    ensures
        r.deep_view() == spec_dec_vec_quest_save(v@),
{
    match v {
        JsonValue::Sequence(items) => {
            let ghost itv = items_view(items@);
            proof {
                lemma_items_view(items@);
                assert(itv.take(0) =~= Seq::<Jv>::empty());
            }
            let mut out: Vec<QuestSaveData> = Vec::new();
            proof {
                assert(out.deep_view() =~= Seq::<QuestSaveDataV>::empty());
            }
            let mut j: usize = 0;
            while j < items.len()
                invariant
                    0 <= j <= items.len(),
                    spec_dec_list_quest_save(itv.take(j as int)) == Some(out.deep_view()),
                decreases items.len() - j,
            {
                match dec_quest_save(&items[j]) {
                    Some(x) => {
                        let ghost prev = out.deep_view();
                        out.push(x);
                        proof {
                            assert(itv.take(j as int + 1).drop_last() =~= itv.take(j as int));
                            assert(itv.take(j as int + 1).last() == itv[j as int]);
                            assert(out.deep_view() =~= prev.push(x.deep_view()));
                        }
                    },
                    None => {
                        proof {
                            lemma_dec_list_quest_save_none(itv, j as int);
                        }
                        return None;
                    },
                }
                j = j + 1;
            }
            proof {
                assert(itv.take(items@.len() as int) =~= itv);
            }
            Some(out)
        },
        _ => None,
    }
}

pub open spec fn spec_dec_list_item_variable(items: Seq<Jv>) -> Option<Seq<ItemVariableV>>
    decreases items.len(),
{
    if items.len() == 0 {
        Some(Seq::empty())
    } else {
        match (spec_dec_list_item_variable(items.drop_last()), spec_dec_item_variable(items.last())) {
            (Some(init), Some(x)) => Some(init.push(x)),
            _ => None,
        }
    }
}

proof fn lemma_dec_list_item_variable_none(items: Seq<Jv>, i: int)
    requires
        0 <= i < items.len(),
        spec_dec_item_variable(items[i]) is None,
    ensures
        spec_dec_list_item_variable(items) is None,
    decreases items.len(),
{
    if i < items.len() - 1 {
        assert(items.drop_last()[i] == items[i]);
        lemma_dec_list_item_variable_none(items.drop_last(), i);
    }
}

pub open spec fn spec_dec_vec_item_variable(v: Jv) -> Option<Seq<ItemVariableV>> {
    match v {
        Jv::Sequence(items) => spec_dec_list_item_variable(items),
        _ => None,
    }
}

#[verifier::loop_isolation(false)]
pub fn dec_vec_item_variable(v: &JsonValue) -> (r: Option<Vec<ItemVariable>>)
    ensures
        r.deep_view() == spec_dec_vec_item_variable(v@),
{
    match v {
        JsonValue::Sequence(items) => {
            let ghost itv = items_view(items@);
            proof {
                lemma_items_view(items@);
                assert(itv.take(0) =~= Seq::<Jv>::empty());
            }
            let mut out: Vec<ItemVariable> = Vec::new();
            proof {
                assert(out.deep_view() =~= Seq::<ItemVariableV>::empty());
            }
            let mut j: usize = 0;
            while j < items.len()
                invariant
                    0 <= j <= items.len(),
                    spec_dec_list_item_variable(itv.take(j as int)) == Some(out.deep_view()),
                decreases items.len() - j,
            {
                match dec_item_variable(&items[j]) {
                    Some(x) => {
                        let ghost prev = out.deep_view();
                        out.push(x);
                        proof {
                            assert(itv.take(j as int + 1).drop_last() =~= itv.take(j as int));
                            assert(itv.take(j as int + 1).last() == itv[j as int]);
                            assert(out.deep_view() =~= prev.push(x.deep_view()));
                        }
                    },
                    None => {
                        proof {
                            lemma_dec_list_item_variable_none(itv, j as int);
                        }
                        return None;
                    },
                }
                j = j + 1;
            }
            proof {
                assert(itv.take(items@.len() as int) =~= itv);
            }
            Some(out)
        },
        _ => None,
    }
}

pub open spec fn spec_dec_list_slot_content(items: Seq<Jv>) -> Option<Seq<SlotContentV>>
    decreases items.len(),
{
    if items.len() == 0 {
        Some(Seq::empty())
    } else {
        match (spec_dec_list_slot_content(items.drop_last()), spec_dec_slot_content(items.last())) {
            (Some(init), Some(x)) => Some(init.push(x)),
            _ => None,
        }
    }
}

proof fn lemma_dec_list_slot_content_none(items: Seq<Jv>, i: int)
    requires
        0 <= i < items.len(),
        spec_dec_slot_content(items[i]) is None,
    ensures
        spec_dec_list_slot_content(items) is None,
    decreases items.len(),
{
    if i < items.len() - 1 {
        assert(items.drop_last()[i] == items[i]);
        lemma_dec_list_slot_content_none(items.drop_last(), i);
    }
}

pub open spec fn spec_dec_vec_slot_content(v: Jv) -> Option<Seq<SlotContentV>> {
    match v {
        Jv::Sequence(items) => spec_dec_list_slot_content(items),
        _ => None,
    }
}

#[verifier::loop_isolation(false)]
pub fn dec_vec_slot_content(v: &JsonValue) -> (r: Option<Vec<SlotContent>>)
    ensures
        r.deep_view() == spec_dec_vec_slot_content(v@),
{
    match v {
        JsonValue::Sequence(items) => {
            let ghost itv = items_view(items@);
            proof {
                lemma_items_view(items@);
                assert(itv.take(0) =~= Seq::<Jv>::empty());
            }
            let mut out: Vec<SlotContent> = Vec::new();
            proof {
                assert(out.deep_view() =~= Seq::<SlotContentV>::empty());
            }
            let mut j: usize = 0;
            while j < items.len()
                invariant
                    0 <= j <= items.len(),
                    spec_dec_list_slot_content(itv.take(j as int)) == Some(out.deep_view()),
                decreases items.len() - j,
            {
                match dec_slot_content(&items[j]) {
                    Some(x) => {
                        let ghost prev = out.deep_view();
                        out.push(x);
                        proof {
                            assert(itv.take(j as int + 1).drop_last() =~= itv.take(j as int));
                            assert(itv.take(j as int + 1).last() == itv[j as int]);
                            assert(out.deep_view() =~= prev.push(x.deep_view()));
                        }
                    },
                    None => {
                        proof {
                            lemma_dec_list_slot_content_none(itv, j as int);
                        }
                        return None;
                    },
                }
                j = j + 1;
            }
            proof {
                assert(itv.take(items@.len() as int) =~= itv);
            }
            Some(out)
        },
        _ => None,
    }
}

pub open spec fn spec_dec_list_inventory_slot(items: Seq<Jv>) -> Option<Seq<InventoryItem>>
    decreases items.len(),
{
    if items.len() == 0 {
        Some(Seq::empty())
    } else {
        match (spec_dec_list_inventory_slot(items.drop_last()), spec_dec_inventory_slot(items.last())) {
            (Some(init), Some(x)) => Some(init.push(x)),
            _ => None,
        }
    }
}

proof fn lemma_dec_list_inventory_slot_none(items: Seq<Jv>, i: int)
    requires
        0 <= i < items.len(),
        spec_dec_inventory_slot(items[i]) is None,
    ensures
        spec_dec_list_inventory_slot(items) is None,
    decreases items.len(),
{
    if i < items.len() - 1 {
        assert(items.drop_last()[i] == items[i]);
        lemma_dec_list_inventory_slot_none(items.drop_last(), i);
    }
}

pub open spec fn spec_dec_vec_inventory_slot(v: Jv) -> Option<Seq<InventoryItem>> {
    match v {
        Jv::Sequence(items) => spec_dec_list_inventory_slot(items),
        _ => None,
    }
}

#[verifier::loop_isolation(false)]
pub fn dec_vec_inventory_slot(v: &JsonValue) -> (r: Option<Vec<InventoryItem>>)
    ensures
        r.deep_view() == spec_dec_vec_inventory_slot(v@),
{
    match v {
        JsonValue::Sequence(items) => {
            let ghost itv = items_view(items@);
            proof {
                lemma_items_view(items@);
                assert(itv.take(0) =~= Seq::<Jv>::empty());
            }
            let mut out: Vec<InventoryItem> = Vec::new();
            proof {
                assert(out.deep_view() =~= Seq::<InventoryItem>::empty());
            }
            let mut j: usize = 0;
            while j < items.len()
                invariant
                    0 <= j <= items.len(),
                    spec_dec_list_inventory_slot(itv.take(j as int)) == Some(out.deep_view()),
                decreases items.len() - j,
            {
                match dec_inventory_slot(&items[j]) {
                    Some(x) => {
                        let ghost prev = out.deep_view();
                        out.push(x);
                        proof {
                            assert(itv.take(j as int + 1).drop_last() =~= itv.take(j as int));
                            assert(itv.take(j as int + 1).last() == itv[j as int]);
                            assert(out.deep_view() =~= prev.push(x.deep_view()));
                        }
                    },
                    None => {
                        proof {
                            lemma_dec_list_inventory_slot_none(itv, j as int);
                        }
                        return None;
                    },
                }
                j = j + 1;
            }
            proof {
                assert(itv.take(items@.len() as int) =~= itv);
            }
            Some(out)
        },
        _ => None,
    }
}

pub open spec fn spec_dec_list_item_entry(items: Seq<Jv>) -> Option<Seq<ItemEntryV>>
    decreases items.len(),
{
    if items.len() == 0 {
        Some(Seq::empty())
    } else {
        match (spec_dec_list_item_entry(items.drop_last()), spec_dec_item_entry(items.last())) {
            (Some(init), Some(x)) => Some(init.push(x)),
            _ => None,
        }
    }
}

proof fn lemma_dec_list_item_entry_none(items: Seq<Jv>, i: int)
    requires
        0 <= i < items.len(),
        spec_dec_item_entry(items[i]) is None,
    ensures
        spec_dec_list_item_entry(items) is None,
    decreases items.len(),
{
    if i < items.len() - 1 {
        assert(items.drop_last()[i] == items[i]);
        lemma_dec_list_item_entry_none(items.drop_last(), i);
    }
}

pub open spec fn spec_dec_vec_item_entry(v: Jv) -> Option<Seq<ItemEntryV>> {
    match v {
        Jv::Sequence(items) => spec_dec_list_item_entry(items),
        _ => None,
    }
}

#[verifier::loop_isolation(false)]
pub fn dec_vec_item_entry(v: &JsonValue) -> (r: Option<Vec<ItemEntry>>)
    ensures
        r.deep_view() == spec_dec_vec_item_entry(v@),
{
    match v {
        JsonValue::Sequence(items) => {
            let ghost itv = items_view(items@);
            proof {
                lemma_items_view(items@);
                assert(itv.take(0) =~= Seq::<Jv>::empty());
            }
            let mut out: Vec<ItemEntry> = Vec::new();
            proof {
                assert(out.deep_view() =~= Seq::<ItemEntryV>::empty());
            }
            let mut j: usize = 0;
            while j < items.len()
                invariant
                    0 <= j <= items.len(),
                    spec_dec_list_item_entry(itv.take(j as int)) == Some(out.deep_view()),
                decreases items.len() - j,
            {
                match dec_item_entry(&items[j]) {
                    Some(x) => {
                        let ghost prev = out.deep_view();
                        out.push(x);
                        proof {
                            assert(itv.take(j as int + 1).drop_last() =~= itv.take(j as int));
                            assert(itv.take(j as int + 1).last() == itv[j as int]);
                            assert(out.deep_view() =~= prev.push(x.deep_view()));
                        }
                    },
                    None => {
                        proof {
                            lemma_dec_list_item_entry_none(itv, j as int);
                        }
                        return None;
                    },
                }
                j = j + 1;
            }
            proof {
                assert(itv.take(items@.len() as int) =~= itv);
            }
            Some(out)
        },
        _ => None,
    }
}

pub open spec fn spec_dec_list_inv_item_data(items: Seq<Jv>) -> Option<Seq<InventoryItemDataV>>
    decreases items.len(),
{
    if items.len() == 0 {
        Some(Seq::empty())
    } else {
        match (spec_dec_list_inv_item_data(items.drop_last()), spec_dec_inv_item_data(items.last())) {
            (Some(init), Some(x)) => Some(init.push(x)),
            _ => None,
        }
    }
}

proof fn lemma_dec_list_inv_item_data_none(items: Seq<Jv>, i: int)
    requires
        0 <= i < items.len(),
        spec_dec_inv_item_data(items[i]) is None,
    ensures
        spec_dec_list_inv_item_data(items) is None,
    decreases items.len(),
{
    if i < items.len() - 1 {
        assert(items.drop_last()[i] == items[i]);
        lemma_dec_list_inv_item_data_none(items.drop_last(), i);
    }
}

pub open spec fn spec_dec_vec_inv_item_data(v: Jv) -> Option<Seq<InventoryItemDataV>> {
    match v {
        Jv::Sequence(items) => spec_dec_list_inv_item_data(items),
        _ => None,
    }
}

#[verifier::loop_isolation(false)]
pub fn dec_vec_inv_item_data(v: &JsonValue) -> (r: Option<Vec<InventoryItemData>>)
    ensures
        r.deep_view() == spec_dec_vec_inv_item_data(v@),
{
    match v {
        JsonValue::Sequence(items) => {
            let ghost itv = items_view(items@);
            proof {
                lemma_items_view(items@);
                assert(itv.take(0) =~= Seq::<Jv>::empty());
            }
            let mut out: Vec<InventoryItemData> = Vec::new();
            proof {
                assert(out.deep_view() =~= Seq::<InventoryItemDataV>::empty());
            }
            let mut j: usize = 0;
            while j < items.len()
                invariant
                    0 <= j <= items.len(),
                    spec_dec_list_inv_item_data(itv.take(j as int)) == Some(out.deep_view()),
                decreases items.len() - j,
            {
                match dec_inv_item_data(&items[j]) {
                    Some(x) => {
                        let ghost prev = out.deep_view();
                        out.push(x);
                        proof {
                            assert(itv.take(j as int + 1).drop_last() =~= itv.take(j as int));
                            assert(itv.take(j as int + 1).last() == itv[j as int]);
                            assert(out.deep_view() =~= prev.push(x.deep_view()));
                        }
                    },
                    None => {
                        proof {
                            lemma_dec_list_inv_item_data_none(itv, j as int);
                        }
                        return None;
                    },
                }
                j = j + 1;
            }
            proof {
                assert(itv.take(items@.len() as int) =~= itv);
            }
            Some(out)
        },
        _ => None,
    }
}

pub open spec fn spec_dec_list_stash(items: Seq<Jv>) -> Option<Seq<StashDataV>>
    decreases items.len(),
{
    if items.len() == 0 {
        Some(Seq::empty())
    } else {
        match (spec_dec_list_stash(items.drop_last()), spec_dec_stash(items.last())) {
            (Some(init), Some(x)) => Some(init.push(x)),
            _ => None,
        }
    }
}

proof fn lemma_dec_list_stash_none(items: Seq<Jv>, i: int)
    requires
        0 <= i < items.len(),
        spec_dec_stash(items[i]) is None,
    ensures
        spec_dec_list_stash(items) is None,
    decreases items.len(),
{
    if i < items.len() - 1 {
        assert(items.drop_last()[i] == items[i]);
        lemma_dec_list_stash_none(items.drop_last(), i);
    }
}

pub open spec fn spec_dec_vec_stash(v: Jv) -> Option<Seq<StashDataV>> {
    match v {
        Jv::Sequence(items) => spec_dec_list_stash(items),
        _ => None,
    }
}

#[verifier::loop_isolation(false)]
pub fn dec_vec_stash(v: &JsonValue) -> (r: Option<Vec<StashData>>)
    ensures
        r.deep_view() == spec_dec_vec_stash(v@),
{
    match v {
        JsonValue::Sequence(items) => {
            let ghost itv = items_view(items@);
            proof {
                lemma_items_view(items@);
                assert(itv.take(0) =~= Seq::<Jv>::empty());
            }
            let mut out: Vec<StashData> = Vec::new();
            proof {
                assert(out.deep_view() =~= Seq::<StashDataV>::empty());
            }
            let mut j: usize = 0;
            while j < items.len()
                invariant
                    0 <= j <= items.len(),
                    spec_dec_list_stash(itv.take(j as int)) == Some(out.deep_view()),
                decreases items.len() - j,
            {
                match dec_stash(&items[j]) {
                    Some(x) => {
                        let ghost prev = out.deep_view();
                        out.push(x);
                        proof {
                            assert(itv.take(j as int + 1).drop_last() =~= itv.take(j as int));
                            assert(itv.take(j as int + 1).last() == itv[j as int]);
                            assert(out.deep_view() =~= prev.push(x.deep_view()));
                        }
                    },
                    None => {
                        proof {
                            lemma_dec_list_stash_none(itv, j as int);
                        }
                        return None;
                    },
                }
                j = j + 1;
            }
            proof {
                assert(itv.take(items@.len() as int) =~= itv);
            }
            Some(out)
        },
        _ => None,
    }
}

// ---- structural decoders -------------------------------------------------

pub open spec fn spec_dec_master_key(v: Jv) -> Option<MasterKey> {
    match v {
        Jv::Mapping(es) => match (spec_field_i32(es, "id"@), spec_field_bool(es, "active"@)) {
            (Some(id), Some(active)) => Some(MasterKey { id: id, active: active }),
            _ => None,
        },
        _ => None,
    }
}

pub fn dec_master_key(v: &JsonValue) -> (r: Option<MasterKey>)
    ensures
        r.deep_view() == spec_dec_master_key(v@),
{
    match v {
        JsonValue::Mapping(es) => match (field_i32(es, "id"), field_bool(es, "active")) {
            (Some(id), Some(active)) => Some(MasterKey { id: id, active: active }),
            _ => None,
        },
        _ => None,
    }
}

pub open spec fn spec_dec_quest_save(v: Jv) -> Option<QuestSaveDataV> {
    match v {
        Jv::Mapping(es) => match (
            spec_field_text(es, "__type"@),
            spec_field_u32(es, "id"@),
            spec_field_bool(es, "complete"@),
            spec_field_bool(es, "needInspection"@),
            spec_field_u32(es, "questGiverID"@),
        ) {
            (Some(t), Some(id), Some(c), Some(n), Some(g)) => Some(
                QuestSaveDataV {
                    tag_name: t,
                    id: id,
                    complete: c,
                    need_inspection: n,
                    quest_giver_id: g,
                },
            ),
            _ => None,
        },
        _ => None,
    }
}

pub fn dec_quest_save(v: &JsonValue) -> (r: Option<QuestSaveData>)
    ensures
        r.deep_view() == spec_dec_quest_save(v@),
{
    match v {
        JsonValue::Mapping(es) => match (
            field_text(es, "__type"),
            field_u32(es, "id"),
            field_bool(es, "complete"),
            field_bool(es, "needInspection"),
            field_u32(es, "questGiverID"),
        ) {
            (Some(t), Some(id), Some(c), Some(n), Some(g)) => Some(
                QuestSaveData {
                    tag_name: t,
                    id: id,
                    complete: c,
                    need_inspection: n,
                    quest_giver_id: g,
                },
            ),
            _ => None,
        },
        _ => None,
    }
}

pub open spec fn spec_dec_item_variable(v: Jv) -> Option<ItemVariableV> {
    match v {
        Jv::Mapping(es) => match (
            spec_field_text(es, "key"@),
            spec_field_i32(es, "dataType"@),
            spec_field_text(es, "data"@),
            spec_field_bool(es, "display"@),
        ) {
            (Some(k), Some(t), Some(d), Some(s)) => Some(
                ItemVariableV { key: k, data_type: t, data: d, display: s },
            ),
            _ => None,
        },
        _ => None,
    }
}

pub fn dec_item_variable(v: &JsonValue) -> (r: Option<ItemVariable>)
    ensures
        r.deep_view() == spec_dec_item_variable(v@),
{
    match v {
        JsonValue::Mapping(es) => match (
            field_text(es, "key"),
            field_i32(es, "dataType"),
            field_text(es, "data"),
            field_bool(es, "display"),
        ) {
            (Some(k), Some(t), Some(d), Some(s)) => Some(
                ItemVariable { key: k, data_type: t, data: d, display: s },
            ),
            _ => None,
        },
        _ => None,
    }
}

pub open spec fn spec_dec_slot_content(v: Jv) -> Option<SlotContentV> {
    match v {
        Jv::Mapping(es) => match (
            spec_field_text(es, "slot"@),
            spec_field_i32(es, "instanceID"@),
        ) {
            (Some(s), Some(id)) => Some(SlotContentV { slot: s, instance_id: id }),
            _ => None,
        },
        _ => None,
    }
}

pub fn dec_slot_content(v: &JsonValue) -> (r: Option<SlotContent>)
    ensures
        r.deep_view() == spec_dec_slot_content(v@),
{
    match v {
        JsonValue::Mapping(es) => match (field_text(es, "slot"), field_i32(es, "instanceID")) {
            (Some(s), Some(id)) => Some(SlotContent { slot: s, instance_id: id }),
            _ => None,
        },
        _ => None,
    }
}

pub open spec fn spec_dec_inventory_slot(v: Jv) -> Option<InventoryItem> {
    match v {
        Jv::Mapping(es) => match (
            spec_field_i32(es, "position"@),
            spec_field_i32(es, "instanceID"@),
        ) {
            (Some(p), Some(id)) => Some(InventoryItem { position: p, instance_id: id }),
            _ => None,
        },
        _ => None,
    }
}

pub fn dec_inventory_slot(v: &JsonValue) -> (r: Option<InventoryItem>)
    ensures
        r.deep_view() == spec_dec_inventory_slot(v@),
{
    match v {
        JsonValue::Mapping(es) => match (field_i32(es, "position"), field_i32(es, "instanceID")) {
            (Some(p), Some(id)) => Some(InventoryItem { position: p, instance_id: id }),
            _ => None,
        },
        _ => None,
    }
}

/// Sort locks are carried through verbatim: any sequence is accepted, with
/// each member copied unchanged.
pub open spec fn spec_dec_sort_locks(v: Jv) -> Option<Seq<Jv>> {
    match v {
        Jv::Sequence(items) => Some(items),
        _ => None,
    }
}

#[verifier::loop_isolation(false)]
pub fn dec_sort_locks(v: &JsonValue) -> (r: Option<Vec<JsonValue>>)
    ensures
        r.deep_view() == spec_dec_sort_locks(v@),
{
    match v {
        JsonValue::Sequence(items) => {
            let mut out: Vec<JsonValue> = Vec::new();
            let mut j: usize = 0;
            while j < items.len()
                invariant
                    0 <= j <= items.len(),
                    out@.len() == j,
                    forall|q: int| 0 <= q < j ==> out@[q]@ == items@[q]@,
                decreases items.len() - j,
            {
                let piece = items[j].duplicate();
                out.push(piece);
                j = j + 1;
            }
            proof {
                lemma_items_view(items@);
                assert(out.deep_view() =~= items_view(items@));
            }
            Some(out)
        },
        _ => None,
    }
}

pub open spec fn spec_dec_item_entry(v: Jv) -> Option<ItemEntryV> {
    match v {
        Jv::Mapping(es) => {
            let locks = match spec_mget(es, "inventorySortLocks"@) {
                Some(f) => spec_dec_sort_locks(f),
                None => None,
            };
            match (
                spec_field_i32(es, "instanceID"@),
                spec_field_i32(es, "typeID"@),
                spec_field_vec_item_variable(es, "variables"@),
                spec_field_vec_slot_content(es, "slotContents"@),
                spec_field_vec_inventory_slot(es, "inventory"@),
                locks,
            ) {
                (Some(id), Some(t), Some(vars), Some(slots), Some(inv), Some(lk)) => Some(
                    ItemEntryV {
                        instance_id: id,
                        type_id: t,
                        variables: vars,
                        slot_contents: slots,
                        inventory: inv,
                        inventory_sort_locks: lk,
                    },
                ),
                _ => None,
            }
        },
        _ => None,
    }
}

pub open spec fn spec_field_vec_item_variable(es: Seq<(Seq<char>, Jv)>, k: Seq<char>) -> Option<
    Seq<ItemVariableV>,
> {
    match spec_mget(es, k) {
        Some(f) => spec_dec_vec_item_variable(f),
        None => None,
    }
}

pub open spec fn spec_field_vec_slot_content(es: Seq<(Seq<char>, Jv)>, k: Seq<char>) -> Option<
    Seq<SlotContentV>,
> {
    match spec_mget(es, k) {
        Some(f) => spec_dec_vec_slot_content(f),
        None => None,
    }
}

pub open spec fn spec_field_vec_inventory_slot(es: Seq<(Seq<char>, Jv)>, k: Seq<char>) -> Option<
    Seq<InventoryItem>,
> {
    match spec_mget(es, k) {
        Some(f) => spec_dec_vec_inventory_slot(f),
        None => None,
    }
}

pub fn dec_item_entry(v: &JsonValue) -> (r: Option<ItemEntry>)
    ensures
        r.deep_view() == spec_dec_item_entry(v@),
{
    match v {
        JsonValue::Mapping(es) => {
            let locks = match mapping_get(es, &String::from_str("inventorySortLocks")) {
                Some(f) => dec_sort_locks(f),
                None => None,
            };
            let vars = match mapping_get(es, &String::from_str("variables")) {
                Some(f) => dec_vec_item_variable(f),
                None => None,
            };
            let slots = match mapping_get(es, &String::from_str("slotContents")) {
                Some(f) => dec_vec_slot_content(f),
                None => None,
            };
            let inv = match mapping_get(es, &String::from_str("inventory")) {
                Some(f) => dec_vec_inventory_slot(f),
                None => None,
            };
            match (field_i32(es, "instanceID"), field_i32(es, "typeID"), vars, slots, inv, locks) {
                (Some(id), Some(t), Some(vars2), Some(slots2), Some(inv2), Some(lk)) => Some(
                    ItemEntry {
                        instance_id: id,
                        type_id: t,
                        variables: vars2,
                        slot_contents: slots2,
                        inventory: inv2,
                        inventory_sort_locks: lk,
                    },
                ),
                _ => None,
            }
        },
        _ => None,
    }
}

pub open spec fn spec_dec_item_tree(v: Jv) -> Option<ItemTreeDataV> {
    match v {
        Jv::Mapping(es) => {
            let entries = match spec_mget(es, "entries"@) {
                Some(f) => spec_dec_vec_item_entry(f),
                None => None,
            };
            match (spec_field_i32(es, "rootInstanceID"@), entries) {
                (Some(root), Some(list)) => Some(
                    ItemTreeDataV { root_instance_id: root, entries: list },
                ),
                _ => None,
            }
        },
        _ => None,
    }
}

pub fn dec_item_tree(v: &JsonValue) -> (r: Option<ItemTreeData>)
    ensures
        r.deep_view() == spec_dec_item_tree(v@),
{
    match v {
        JsonValue::Mapping(es) => {
            let entries = match mapping_get(es, &String::from_str("entries")) {
                Some(f) => dec_vec_item_entry(f),
                None => None,
            };
            match (field_i32(es, "rootInstanceID"), entries) {
                (Some(root), Some(list)) => Some(
                    ItemTreeData { root_instance_id: root, entries: list },
                ),
                _ => None,
            }
        },
        _ => None,
    }
}

pub open spec fn spec_dec_world_position(v: Jv) -> Option<WorldPositionV> {
    match v {
        Jv::Mapping(es) => match (
            spec_field_numtext(es, "x"@),
            spec_field_numtext(es, "y"@),
            spec_field_numtext(es, "z"@),
        ) {
            (Some(x), Some(y), Some(z)) => Some(WorldPositionV { x: x, y: y, z: z }),
            _ => None,
        },
        _ => None,
    }
}

pub fn dec_world_position(v: &JsonValue) -> (r: Option<WorldPosition>)
    ensures
        r.deep_view() == spec_dec_world_position(v@),
{
    match v {
        JsonValue::Mapping(es) => match (
            field_numtext(es, "x"),
            field_numtext(es, "y"),
            field_numtext(es, "z"),
        ) {
            (Some(x), Some(y), Some(z)) => Some(WorldPosition { x: x, y: y, z: z }),
            _ => None,
        },
        _ => None,
    }
}

pub open spec fn spec_dec_stash(v: Jv) -> Option<StashDataV> {
    match v {
        Jv::Mapping(es) => {
            let wp = match spec_mget(es, "worldPosition"@) {
                Some(f) => spec_dec_world_position(f),
                None => None,
            };
            let tree = match spec_mget(es, "itemTreeData"@) {
                Some(f) => spec_dec_item_tree(f),
                None => None,
            };
            match (
                spec_field_bool(es, "valid"@),
                spec_field_i32(es, "raidID"@),
                spec_field_text(es, "subSceneID"@),
                wp,
                tree,
                spec_field_bool(es, "spawned"@),
                spec_field_bool(es, "touched"@),
            ) {
                (Some(va), Some(r0), Some(s0), Some(w), Some(t), Some(sp), Some(to)) => Some(
                    StashDataV {
                        valid: va,
                        raid_id: r0,
                        sub_scene_id: s0,
                        world_position: w,
                        item_tree_data: t,
                        spawned: sp,
                        touched: to,
                    },
                ),
                _ => None,
            }
        },
        _ => None,
    }
}

pub fn dec_stash(v: &JsonValue) -> (r: Option<StashData>)
    ensures
        r.deep_view() == spec_dec_stash(v@),
{
    match v {
        JsonValue::Mapping(es) => {
            let wp = match mapping_get(es, &String::from_str("worldPosition")) {
                Some(f) => dec_world_position(f),
                None => None,
            };
            let tree = match mapping_get(es, &String::from_str("itemTreeData")) {
                Some(f) => dec_item_tree(f),
                None => None,
            };
            match (
                field_bool(es, "valid"),
                field_i32(es, "raidID"),
                field_text(es, "subSceneID"),
                wp,
                tree,
                field_bool(es, "spawned"),
                field_bool(es, "touched"),
            ) {
                (Some(va), Some(r0), Some(s0), Some(w), Some(t), Some(sp), Some(to)) => Some(
                    StashData {
                        valid: va,
                        raid_id: r0,
                        sub_scene_id: s0,
                        world_position: w,
                        item_tree_data: t,
                        spawned: sp,
                        touched: to,
                    },
                ),
                _ => None,
            }
        },
        _ => None,
    }
}

pub open spec fn spec_dec_inv_item_data(v: Jv) -> Option<InventoryItemDataV> {
    match v {
        Jv::Mapping(es) => {
            let tree = match spec_mget(es, "itemTreeData"@) {
                Some(f) => spec_dec_item_tree(f),
                None => None,
            };
            match (spec_field_i32(es, "inventoryPosition"@), tree) {
                (Some(p), Some(t)) => Some(
                    InventoryItemDataV { inventory_position: p, item_tree_data: t },
                ),
                _ => None,
            }
        },
        _ => None,
    }
}

pub fn dec_inv_item_data(v: &JsonValue) -> (r: Option<InventoryItemData>)
    ensures
        r.deep_view() == spec_dec_inv_item_data(v@),
{
    match v {
        JsonValue::Mapping(es) => {
            let tree = match mapping_get(es, &String::from_str("itemTreeData")) {
                Some(f) => dec_item_tree(f),
                None => None,
            };
            match (field_i32(es, "inventoryPosition"), tree) {
                (Some(p), Some(t)) => Some(
                    InventoryItemData { inventory_position: p, item_tree_data: t },
                ),
                _ => None,
            }
        },
        _ => None,
    }
}

pub open spec fn spec_dec_inventory(v: Jv) -> Option<InventoryV> {
    match v {
        Jv::Mapping(es) => {
            let entries = match spec_mget(es, "entries"@) {
                Some(f) => spec_dec_vec_inv_item_data(f),
                None => None,
            };
            match (spec_field_i32(es, "capacity"@), entries) {
                (Some(c), Some(list)) => Some(InventoryV { capacity: c, entries: list }),
                _ => None,
            }
        },
        _ => None,
    }
}

pub fn dec_inventory(v: &JsonValue) -> (r: Option<Inventory>)
    ensures
        r.deep_view() == spec_dec_inventory(v@),
{
    match v {
        JsonValue::Mapping(es) => {
            let entries = match mapping_get(es, &String::from_str("entries")) {
                Some(f) => dec_vec_inv_item_data(f),
                None => None,
            };
            match (field_i32(es, "capacity"), entries) {
                (Some(c), Some(list)) => Some(Inventory { capacity: c, entries: list }),
                _ => None,
            }
        },
        _ => None,
    }
}

pub open spec fn spec_dec_quest_data(v: Jv) -> Option<QuestDataV> {
    match v {
        Jv::Mapping(es) => {
            let active = match spec_mget(es, "activeQuestsData"@) {
                Some(f) => spec_dec_vec_quest_save(f),
                None => None,
            };
            let history = match spec_mget(es, "historyQuestsData"@) {
                Some(f) => spec_dec_vec_quest_save(f),
                None => None,
            };
            match (active, history, spec_field_vec_i32(es, "everInspectedQuest"@)) {
                (Some(a), Some(h), Some(e)) => Some(
                    QuestDataV { active_quests: a, history_quests: h, ever_inspected: e },
                ),
                _ => None,
            }
        },
        _ => None,
    }
}

pub fn dec_quest_data(v: &JsonValue) -> (r: Option<QuestData>)
    ensures
        r.deep_view() == spec_dec_quest_data(v@),
{
    match v {
        JsonValue::Mapping(es) => {
            let active = match mapping_get(es, &String::from_str("activeQuestsData")) {
                Some(f) => dec_vec_quest_save(f),
                None => None,
            };
            let history = match mapping_get(es, &String::from_str("historyQuestsData")) {
                Some(f) => dec_vec_quest_save(f),
                None => None,
            };
            match (active, history, field_vec_i32(es, "everInspectedQuest")) {
                (Some(a), Some(h), Some(e)) => Some(
                    QuestData { active_quests: a, history_quests: h, ever_inspected: e },
                ),
                _ => None,
            }
        },
        _ => None,
    }
}

pub open spec fn spec_dec_economy(v: Jv) -> Option<EconomyDataV> {
    match v {
        Jv::Mapping(es) => match (
            spec_field_i32(es, "money"@),
            spec_field_vec_i32(es, "unlockedItems"@),
            spec_field_vec_i32(es, "unlockesWaitingForConfirm"@),
        ) {
            (Some(m), Some(u), Some(w)) => Some(
                EconomyDataV { money: m, unlocked_items: u, unlockes_waiting_for_confirm: w },
            ),
            _ => None,
        },
        _ => None,
    }
}

pub fn dec_economy(v: &JsonValue) -> (r: Option<EconomyData>)
    ensures
        r.deep_view() == spec_dec_economy(v@),
{
    match v {
        JsonValue::Mapping(es) => match (
            field_i32(es, "money"),
            field_vec_i32(es, "unlockedItems"),
            field_vec_i32(es, "unlockesWaitingForConfirm"),
        ) {
            (Some(m), Some(u), Some(w)) => Some(
                EconomyData { money: m, unlocked_items: u, unlockes_waiting_for_confirm: w },
            ),
            _ => None,
        },
        _ => None,
    }
}

pub open spec fn spec_dec_game_clock(v: Jv) -> Option<GameClockV> {
    match v {
        Jv::Mapping(es) => match (
            spec_field_i32(es, "days"@),
            spec_field_i64(es, "realTimePlayedTicks"@),
            spec_field_numtext(es, "secondsOfDay"@),
        ) {
            (Some(d), Some(s), Some(t)) => Some(
                GameClockV { days: d, seconds_of_day: s, real_time_played_ticks: t },
            ),
            _ => None,
        },
        _ => None,
    }
}

pub fn dec_game_clock(v: &JsonValue) -> (r: Option<GameClock>)
    ensures
        r.deep_view() == spec_dec_game_clock(v@),
{
    match v {
        JsonValue::Mapping(es) => match (
            field_i32(es, "days"),
            field_i64(es, "realTimePlayedTicks"),
            field_numtext(es, "secondsOfDay"),
        ) {
            (Some(d), Some(s), Some(t)) => Some(
                GameClock { days: d, seconds_of_day: s, real_time_played_ticks: t },
            ),
            _ => None,
        },
        _ => None,
    }
}

pub open spec fn spec_dec_version(v: Jv) -> Option<VersionDataV> {
    match v {
        Jv::Mapping(es) => match (
            spec_field_i32(es, "mainVersion"@),
            spec_field_i32(es, "subVersion"@),
            spec_field_i32(es, "buildVersion"@),
            spec_field_text(es, "suffix"@),
        ) {
            (Some(m), Some(s), Some(b), Some(x)) => Some(
                VersionDataV {
                    main_version: m,
                    sub_version: s,
                    build_version: b,
                    suffix: x,
                },
            ),
            _ => None,
        },
        _ => None,
    }
}

pub fn dec_version(v: &JsonValue) -> (r: Option<VersionData>)
    ensures
        r.deep_view() == spec_dec_version(v@),
{
    match v {
        JsonValue::Mapping(es) => match (
            field_i32(es, "mainVersion"),
            field_i32(es, "subVersion"),
            field_i32(es, "buildVersion"),
            field_text(es, "suffix"),
        ) {
            (Some(m), Some(s), Some(b), Some(x)) => Some(
                VersionData {
                    main_version: m,
                    sub_version: s,
                    build_version: b,
                    suffix: x,
                },
            ),
            _ => None,
        },
        _ => None,
    }
}


pub open spec fn kills_prefix() -> Seq<char> {
    "Count/Kills/"@
}

/// Consolidated output record.  Every field has a well-defined default used
/// when the corresponding decode misses.
#[derive(Debug, PartialEq)]
pub struct Archive {
    pub version: String,
    pub level: i32,
    pub exp: i32,
    pub health: String,
    pub game_lock: GameClock,
    pub economy_data: EconomyData,
    pub master_key: Vec<MasterKey>,
    pub death_list: Vec<StashData>,
    pub quests: QuestData,
    pub inventory: Vec<i16>,
    pub kills: Vec<Kill>,
    pub save_time: i32,
    pub player_storage: Inventory,
    pub inventory_safe: Inventory,
    pub character_item_data: ItemTreeData,
}

pub struct ArchiveV {
    pub version: Seq<char>,
    pub level: i32,
    pub exp: i32,
    pub health: Seq<char>,
    pub game_lock: GameClockV,
    pub economy_data: EconomyDataV,
    pub master_key: Seq<MasterKey>,
    pub death_list: Seq<StashDataV>,
    pub quests: QuestDataV,
    pub inventory: Seq<i16>,
    pub kills: Seq<KillV>,
    pub save_time: i32,
    pub player_storage: InventoryV,
    pub inventory_safe: InventoryV,
    pub character_item_data: ItemTreeDataV,
}

impl DeepView for Archive {
    type V = ArchiveV;

    open spec fn deep_view(&self) -> ArchiveV {
        ArchiveV {
            version: self.version@,
            level: self.level,
            exp: self.exp,
            health: self.health@,
            game_lock: self.game_lock.deep_view(),
            economy_data: self.economy_data.deep_view(),
            master_key: self.master_key.deep_view(),
            death_list: self.death_list.deep_view(),
            quests: self.quests.deep_view(),
            inventory: self.inventory.deep_view(),
            kills: self.kills.deep_view(),
            save_time: self.save_time,
            player_storage: self.player_storage.deep_view(),
            inventory_safe: self.inventory_safe.deep_view(),
            character_item_data: self.character_item_data.deep_view(),
        }
    }
}

/// The fully-defaulted archive: zero, empty sequence, false or empty string
/// for every field.
pub open spec fn spec_archive_default() -> ArchiveV {
    ArchiveV {
        version: Seq::empty(),
        level: 0,
        exp: 0,
        health: "0.0"@,
        game_lock: spec_game_clock_default(),
        economy_data: spec_economy_default(),
        master_key: Seq::empty(),
        death_list: Seq::empty(),
        quests: spec_quest_data_default(),
        inventory: Seq::empty(),
        kills: Seq::empty(),
        save_time: 0,
        player_storage: spec_inventory_default(),
        inventory_safe: spec_inventory_default(),
        character_item_data: spec_item_tree_default(),
    }
}

impl Default for Archive {
    fn default() -> (r: Archive)
        ensures
            r.deep_view() == spec_archive_default(),
    {
        let r = Archive {
            version: String::new(),
            level: 0,
            exp: 0,
            health: String::from_str("0.0"),
            game_lock: GameClock::default(),
            economy_data: EconomyData::default(),
            master_key: Vec::new(),
            death_list: Vec::new(),
            quests: QuestData::default(),
            inventory: Vec::new(),
            kills: Vec::new(),
            save_time: 0,
            player_storage: Inventory::default(),
            inventory_safe: Inventory::default(),
            character_item_data: ItemTreeData::default(),
        };
        proof {
            assert(r.master_key.deep_view() =~= Seq::<MasterKey>::empty());
            assert(r.death_list.deep_view() =~= Seq::<StashDataV>::empty());
            assert(r.inventory.deep_view() =~= Seq::<i16>::empty());
            assert(r.kills.deep_view() =~= Seq::<KillV>::empty());
        }
        r
    }
}

/// Raw kill-count read of one store value: a mapping's `value` member taken
/// as a signed 64-bit count, with no tag check — the looser read the
/// grouping pass applies.
pub open spec fn spec_raw_kill(v: Jv) -> Option<i64> {
    match v {
        Jv::Mapping(es) => match spec_mget(es, "value"@) {
            Some(p) => spec_dec_i64(p),
            None => None,
        },
        _ => None,
    }
}

/// Kill entries of the store: for each entry whose key carries the kill
/// prefix and whose value yields a raw count, the key's suffix and the
/// count, in document order.
pub open spec fn spec_kill_counts(entries: Seq<(Seq<char>, Jv)>) -> Seq<KillV>
    decreases entries.len(),
{
    if entries.len() == 0 {
        Seq::empty()
    } else {
        let init = spec_kill_counts(entries.drop_last());
        let e = entries.last();
        if begins(e.0, 0, kills_prefix()) {
            match spec_raw_kill(e.1) {
                Some(c) => init.push(KillV { monster_name: e.0.skip(kills_prefix().len() as int), count: c }),
                None => init,
            }
        } else {
            init
        }
    }
}

impl Archive {
    /// Replace the kill list wholesale with the store's kill entries.
    #[verifier::loop_isolation(false)]
    pub fn extract_kill_counts(&mut self, data: &Vec<(String, JsonValue)>)
        ensures
            final(self).deep_view() == (ArchiveV {
                kills: spec_kill_counts(entries_view(data@)),
                ..old(self).deep_view()
            }),
    {
        let ghost sv = entries_view(data@);
        proof {
            lemma_entries_view(data@);
            assert(sv.take(0) =~= Seq::<(Seq<char>, Jv)>::empty());
        }
        let mut out: Vec<Kill> = Vec::new();
        proof {
            assert(out.deep_view() =~= Seq::<KillV>::empty());
        }
        let mut j: usize = 0;
        while j < data.len()
            invariant
                0 <= j <= data.len(),
                spec_kill_counts(sv.take(j as int)) == out.deep_view(),
            decreases data.len() - j,
        {
            let key = &data[j].0;
            let n = key.as_str().unicode_len();
            let hit = crate::format::begins_x(key.as_str(), 0, n, "Count/Kills/");
            if hit {
                let count = match &data[j].1 {
                    JsonValue::Mapping(es) => match mapping_get(es, &String::from_str("value")) {
                        Some(p) => dec_i64(p),
                        None => None,
                    },
                    _ => None,
                };
                match count {
                    Some(c) => {
                        let pn = "Count/Kills/".unicode_len();
                        let suffix = String::from_str(key.as_str().substring_char(pn, n));
                        out.push(Kill { monster_name: suffix, count: c });
                    },
                    None => {},
                }
            }
            proof {
                assert(sv.take(j as int + 1).drop_last() =~= sv.take(j as int));
                assert(sv.take(j as int + 1).last() == sv[j as int]);
                assert(sv[j as int] == (data@[j as int].0@, data@[j as int].1@));
                assert(out.deep_view() =~= spec_kill_counts(sv.take(j as int + 1)));
            }
            j = j + 1;
        }
        proof {
            assert(sv.take(data@.len() as int) =~= sv);
        }
        self.kills = out;
    }
}

pub open spec fn spec_i32_list_body(items: Seq<i32>) -> Seq<char>
    decreases items.len(),
{
    if items.len() == 0 {
        Seq::empty()
    } else if items.len() == 1 {
        int_text(items[0] as int)
    } else {
        spec_i32_list_body(items.drop_last()) + seq![','] + int_text(items.last() as int)
    }
}

pub open spec fn spec_i32_list_text(items: Seq<i32>) -> Seq<char> {
    seq!['['] + spec_i32_list_body(items) + seq![']']
}

#[verifier::loop_isolation(false)]
pub fn i32_list_text(items: &Vec<i32>) -> (r: String)
    ensures
        r@ == spec_i32_list_text(items.deep_view()),
{
    let ghost dv = items.deep_view();
    let mut out = String::from_str("[");
    proof {
        reveal_strlit("[");
        assert(dv.take(0) =~= Seq::<i32>::empty());
        assert(out@ =~= seq!['['] + spec_i32_list_body(dv.take(0)));
    }
    let mut j: usize = 0;
    while j < items.len()
        invariant
            0 <= j <= items.len(),
            dv.len() == items@.len(),
            out@ == seq!['['] + spec_i32_list_body(dv.take(j as int)),
        decreases items.len() - j,
    {
        if j > 0 {
            out.append(",");
            proof {
                reveal_strlit(",");
            }
        }
        let piece = i64_text(items[j] as i64);
        out.append(piece.as_str());
        proof {
            assert(dv.take(j as int + 1).drop_last() =~= dv.take(j as int));
            assert(dv.take(j as int + 1).last() == dv[j as int]);
            if j == 0 {
                assert(dv.take(1).len() == 1);
            }
            assert(out@ =~= seq!['['] + spec_i32_list_body(dv.take(j as int + 1)));
        }
        j = j + 1;
    }
    out.append("]");
    proof {
        reveal_strlit("]");
        assert(dv.take(items@.len() as int) =~= dv);
    }
    out
}

pub open spec fn spec_i16_list_body(items: Seq<i16>) -> Seq<char>
    decreases items.len(),
{
    if items.len() == 0 {
        Seq::empty()
    } else if items.len() == 1 {
        int_text(items[0] as int)
    } else {
        spec_i16_list_body(items.drop_last()) + seq![','] + int_text(items.last() as int)
    }
}

pub open spec fn spec_i16_list_text(items: Seq<i16>) -> Seq<char> {
    seq!['['] + spec_i16_list_body(items) + seq![']']
}

#[verifier::loop_isolation(false)]
pub fn i16_list_text(items: &Vec<i16>) -> (r: String)
    ensures
        r@ == spec_i16_list_text(items.deep_view()),
{
    let ghost dv = items.deep_view();
    let mut out = String::from_str("[");
    proof {
        reveal_strlit("[");
        assert(dv.take(0) =~= Seq::<i16>::empty());
        assert(out@ =~= seq!['['] + spec_i16_list_body(dv.take(0)));
    }
    let mut j: usize = 0;
    while j < items.len()
        invariant
            0 <= j <= items.len(),
            dv.len() == items@.len(),
            out@ == seq!['['] + spec_i16_list_body(dv.take(j as int)),
        decreases items.len() - j,
    {
        if j > 0 {
            out.append(",");
            proof {
                reveal_strlit(",");
            }
        }
        let piece = i64_text(items[j] as i64);
        out.append(piece.as_str());
        proof {
            assert(dv.take(j as int + 1).drop_last() =~= dv.take(j as int));
            assert(dv.take(j as int + 1).last() == dv[j as int]);
            if j == 0 {
                assert(dv.take(1).len() == 1);
            }
            assert(out@ =~= seq!['['] + spec_i16_list_body(dv.take(j as int + 1)));
        }
        j = j + 1;
    }
    out.append("]");
    proof {
        reveal_strlit("]");
        assert(dv.take(items@.len() as int) =~= dv);
    }
    out
}

pub open spec fn spec_locks_list_body(items: Seq<Jv>) -> Seq<char>
    decreases items.len(),
{
    if items.len() == 0 {
        Seq::empty()
    } else if items.len() == 1 {
        jv_text(items[0])
    } else {
        spec_locks_list_body(items.drop_last()) + seq![','] + jv_text(items.last())
    }
}

pub open spec fn spec_locks_list_text(items: Seq<Jv>) -> Seq<char> {
    seq!['['] + spec_locks_list_body(items) + seq![']']
}

#[verifier::loop_isolation(false)]
pub fn locks_list_text(items: &Vec<JsonValue>) -> (r: String)
    ensures
        r@ == spec_locks_list_text(items.deep_view()),
{
    let ghost dv = items.deep_view();
    let mut out = String::from_str("[");
    proof {
        reveal_strlit("[");
        assert(dv.take(0) =~= Seq::<Jv>::empty());
        assert(out@ =~= seq!['['] + spec_locks_list_body(dv.take(0)));
    }
    let mut j: usize = 0;
    while j < items.len()
        invariant
            0 <= j <= items.len(),
            dv.len() == items@.len(),
            out@ == seq!['['] + spec_locks_list_body(dv.take(j as int)),
        decreases items.len() - j,
    {
        if j > 0 {
            out.append(",");
            proof {
                reveal_strlit(",");
            }
        }
        let piece = items[j].json_text();
        out.append(piece.as_str());
        proof {
            assert(dv.take(j as int + 1).drop_last() =~= dv.take(j as int));
            assert(dv.take(j as int + 1).last() == dv[j as int]);
            if j == 0 {
                assert(dv.take(1).len() == 1);
            }
            assert(out@ =~= seq!['['] + spec_locks_list_body(dv.take(j as int + 1)));
        }
        j = j + 1;
    }
    out.append("]");
    proof {
        reveal_strlit("]");
        assert(dv.take(items@.len() as int) =~= dv);
    }
    out
}

pub open spec fn spec_clock_text(x: GameClockV) -> Seq<char> {
    "{\"days\":"@ + int_text(x.days as int) + ",\"realTimePlayedTicks\":"@ + int_text(x.seconds_of_day as int) + ",\"secondsOfDay\":"@ + x.real_time_played_ticks + "}"@
}

pub fn clock_text(x: &GameClock) -> (r: String)
    ensures
        r@ == spec_clock_text(x.deep_view()),
{
    let mut out = String::from_str("{\"days\":");
    let part_days = i64_text(x.days as i64);
    out.append(part_days.as_str());
    out.append(",\"realTimePlayedTicks\":");
    let part_seconds_of_day = i64_text(x.seconds_of_day);
    out.append(part_seconds_of_day.as_str());
    out.append(",\"secondsOfDay\":");
    out.append(x.real_time_played_ticks.as_str());
    out.append("}");
    proof {
        assert(out@ =~= spec_clock_text(x.deep_view()));
    }
    out
}

pub open spec fn spec_economy_text(x: EconomyDataV) -> Seq<char> {
    "{\"money\":"@ + int_text(x.money as int) + ",\"unlockedItems\":"@ + spec_i32_list_text(x.unlocked_items) + ",\"unlockesWaitingForConfirm\":"@ + spec_i32_list_text(x.unlockes_waiting_for_confirm) + "}"@
}

pub fn economy_text(x: &EconomyData) -> (r: String)
    ensures
        r@ == spec_economy_text(x.deep_view()),
{
    let mut out = String::from_str("{\"money\":");
    let part_money = i64_text(x.money as i64);
    out.append(part_money.as_str());
    out.append(",\"unlockedItems\":");
    let part_unlocked_items = i32_list_text(&x.unlocked_items);
    out.append(part_unlocked_items.as_str());
    out.append(",\"unlockesWaitingForConfirm\":");
    let part_unlockes_waiting_for_confirm = i32_list_text(&x.unlockes_waiting_for_confirm);
    out.append(part_unlockes_waiting_for_confirm.as_str());
    out.append("}");
    proof {
        assert(out@ =~= spec_economy_text(x.deep_view()));
    }
    out
}

pub open spec fn spec_master_key_text(x: MasterKey) -> Seq<char> {
    "{\"id\":"@ + int_text(x.id as int) + ",\"active\":"@ + (if x.active { "true"@ } else { "false"@ }) + "}"@
}

pub fn master_key_text(x: &MasterKey) -> (r: String)
    ensures
        r@ == spec_master_key_text(x.deep_view()),
{
    let mut out = String::from_str("{\"id\":");
    let part_id = i64_text(x.id as i64);
    out.append(part_id.as_str());
    out.append(",\"active\":");
    out.append(if x.active { "true" } else { "false" });
    out.append("}");
    proof {
        assert(out@ =~= spec_master_key_text(x.deep_view()));
    }
    out
}

pub open spec fn spec_master_key_list_body(items: Seq<MasterKey>) -> Seq<char>
    decreases items.len(),
{
    if items.len() == 0 {
        Seq::empty()
    } else if items.len() == 1 {
        spec_master_key_text(items[0])
    } else {
        spec_master_key_list_body(items.drop_last()) + seq![','] + spec_master_key_text(items.last())
    }
}

pub open spec fn spec_master_key_list_text(items: Seq<MasterKey>) -> Seq<char> {
    seq!['['] + spec_master_key_list_body(items) + seq![']']
}

#[verifier::loop_isolation(false)]
pub fn master_key_list_text(items: &Vec<MasterKey>) -> (r: String)
    ensures
        r@ == spec_master_key_list_text(items.deep_view()),
{
    let ghost dv = items.deep_view();
    let mut out = String::from_str("[");
    proof {
        reveal_strlit("[");
        assert(dv.take(0) =~= Seq::<MasterKey>::empty());
        assert(out@ =~= seq!['['] + spec_master_key_list_body(dv.take(0)));
    }
    let mut j: usize = 0;
    while j < items.len()
        invariant
            0 <= j <= items.len(),
            dv.len() == items@.len(),
            out@ == seq!['['] + spec_master_key_list_body(dv.take(j as int)),
        decreases items.len() - j,
    {
        if j > 0 {
            out.append(",");
            proof {
                reveal_strlit(",");
            }
        }
        let piece = master_key_text(&items[j]);
        out.append(piece.as_str());
        proof {
            assert(dv.take(j as int + 1).drop_last() =~= dv.take(j as int));
            assert(dv.take(j as int + 1).last() == dv[j as int]);
            if j == 0 {
                assert(dv.take(1).len() == 1);
            }
            assert(out@ =~= seq!['['] + spec_master_key_list_body(dv.take(j as int + 1)));
        }
        j = j + 1;
    }
    out.append("]");
    proof {
        reveal_strlit("]");
        assert(dv.take(items@.len() as int) =~= dv);
    }
    out
}

pub open spec fn spec_quest_save_text(x: QuestSaveDataV) -> Seq<char> {
    "{\"__type\":"@ + quote_text(x.tag_name) + ",\"id\":"@ + int_text(x.id as int) + ",\"complete\":"@ + (if x.complete { "true"@ } else { "false"@ }) + ",\"needInspection\":"@ + (if x.need_inspection { "true"@ } else { "false"@ }) + ",\"questGiverID\":"@ + int_text(x.quest_giver_id as int) + "}"@
}

pub fn quest_save_text(x: &QuestSaveData) -> (r: String)
    ensures
        r@ == spec_quest_save_text(x.deep_view()),
{
    let mut out = String::from_str("{\"__type\":");
    let part_tag_name = quote_str(x.tag_name.as_str());
    out.append(part_tag_name.as_str());
    out.append(",\"id\":");
    let part_id = i64_text(x.id as i64);
    out.append(part_id.as_str());
    out.append(",\"complete\":");
    out.append(if x.complete { "true" } else { "false" });
    out.append(",\"needInspection\":");
    out.append(if x.need_inspection { "true" } else { "false" });
    out.append(",\"questGiverID\":");
    let part_quest_giver_id = i64_text(x.quest_giver_id as i64);
    out.append(part_quest_giver_id.as_str());
    out.append("}");
    proof {
        assert(out@ =~= spec_quest_save_text(x.deep_view()));
    }
    out
}

pub open spec fn spec_quest_save_list_body(items: Seq<QuestSaveDataV>) -> Seq<char>
    decreases items.len(),
{
    if items.len() == 0 {
        Seq::empty()
    } else if items.len() == 1 {
        spec_quest_save_text(items[0])
    } else {
        spec_quest_save_list_body(items.drop_last()) + seq![','] + spec_quest_save_text(items.last())
    }
}

pub open spec fn spec_quest_save_list_text(items: Seq<QuestSaveDataV>) -> Seq<char> {
    seq!['['] + spec_quest_save_list_body(items) + seq![']']
}

#[verifier::loop_isolation(false)]
pub fn quest_save_list_text(items: &Vec<QuestSaveData>) -> (r: String)
    ensures
        r@ == spec_quest_save_list_text(items.deep_view()),
{
    let ghost dv = items.deep_view();
    let mut out = String::from_str("[");
    proof {
        reveal_strlit("[");
        assert(dv.take(0) =~= Seq::<QuestSaveDataV>::empty());
        assert(out@ =~= seq!['['] + spec_quest_save_list_body(dv.take(0)));
    }
    let mut j: usize = 0;
    while j < items.len()
        invariant
            0 <= j <= items.len(),
            dv.len() == items@.len(),
            out@ == seq!['['] + spec_quest_save_list_body(dv.take(j as int)),
        decreases items.len() - j,
    {
        if j > 0 {
            out.append(",");
            proof {
                reveal_strlit(",");
            }
        }
        let piece = quest_save_text(&items[j]);
        out.append(piece.as_str());
        proof {
            assert(dv.take(j as int + 1).drop_last() =~= dv.take(j as int));
            assert(dv.take(j as int + 1).last() == dv[j as int]);
            if j == 0 {
                assert(dv.take(1).len() == 1);
            }
            assert(out@ =~= seq!['['] + spec_quest_save_list_body(dv.take(j as int + 1)));
        }
        j = j + 1;
    }
    out.append("]");
    proof {
        reveal_strlit("]");
        assert(dv.take(items@.len() as int) =~= dv);
    }
    out
}

pub open spec fn spec_quest_data_text(x: QuestDataV) -> Seq<char> {
    "{\"activeQuestsData\":"@ + spec_quest_save_list_text(x.active_quests) + ",\"historyQuestsData\":"@ + spec_quest_save_list_text(x.history_quests) + ",\"everInspectedQuest\":"@ + spec_i32_list_text(x.ever_inspected) + "}"@
}

pub fn quest_data_text(x: &QuestData) -> (r: String)
    ensures
        r@ == spec_quest_data_text(x.deep_view()),
{
    let mut out = String::from_str("{\"activeQuestsData\":");
    let part_active_quests = quest_save_list_text(&x.active_quests);
    out.append(part_active_quests.as_str());
    out.append(",\"historyQuestsData\":");
    let part_history_quests = quest_save_list_text(&x.history_quests);
    out.append(part_history_quests.as_str());
    out.append(",\"everInspectedQuest\":");
    let part_ever_inspected = i32_list_text(&x.ever_inspected);
    out.append(part_ever_inspected.as_str());
    out.append("}");
    proof {
        assert(out@ =~= spec_quest_data_text(x.deep_view()));
    }
    out
}

pub open spec fn spec_world_position_text(x: WorldPositionV) -> Seq<char> {
    "{\"x\":"@ + x.x + ",\"y\":"@ + x.y + ",\"z\":"@ + x.z + "}"@
}

pub fn world_position_text(x: &WorldPosition) -> (r: String)
    ensures
        r@ == spec_world_position_text(x.deep_view()),
{
    let mut out = String::from_str("{\"x\":");
    out.append(x.x.as_str());
    out.append(",\"y\":");
    out.append(x.y.as_str());
    out.append(",\"z\":");
    out.append(x.z.as_str());
    out.append("}");
    proof {
        assert(out@ =~= spec_world_position_text(x.deep_view()));
    }
    out
}

pub open spec fn spec_item_variable_text(x: ItemVariableV) -> Seq<char> {
    "{\"key\":"@ + quote_text(x.key) + ",\"dataType\":"@ + int_text(x.data_type as int) + ",\"data\":"@ + quote_text(x.data) + ",\"display\":"@ + (if x.display { "true"@ } else { "false"@ }) + "}"@
}

pub fn item_variable_text(x: &ItemVariable) -> (r: String)
    ensures
        r@ == spec_item_variable_text(x.deep_view()),
{
    let mut out = String::from_str("{\"key\":");
    let part_key = quote_str(x.key.as_str());
    out.append(part_key.as_str());
    out.append(",\"dataType\":");
    let part_data_type = i64_text(x.data_type as i64);
    out.append(part_data_type.as_str());
    out.append(",\"data\":");
    let part_data = quote_str(x.data.as_str());
    out.append(part_data.as_str());
    out.append(",\"display\":");
    out.append(if x.display { "true" } else { "false" });
    out.append("}");
    proof {
        assert(out@ =~= spec_item_variable_text(x.deep_view()));
    }
    out
}

pub open spec fn spec_item_variable_list_body(items: Seq<ItemVariableV>) -> Seq<char>
    decreases items.len(),
{
    if items.len() == 0 {
        Seq::empty()
    } else if items.len() == 1 {
        spec_item_variable_text(items[0])
    } else {
        spec_item_variable_list_body(items.drop_last()) + seq![','] + spec_item_variable_text(items.last())
    }
}

pub open spec fn spec_item_variable_list_text(items: Seq<ItemVariableV>) -> Seq<char> {
    seq!['['] + spec_item_variable_list_body(items) + seq![']']
}

#[verifier::loop_isolation(false)]
pub fn item_variable_list_text(items: &Vec<ItemVariable>) -> (r: String)
    ensures
        r@ == spec_item_variable_list_text(items.deep_view()),
{
    let ghost dv = items.deep_view();
    let mut out = String::from_str("[");
    proof {
        reveal_strlit("[");
        assert(dv.take(0) =~= Seq::<ItemVariableV>::empty());
        assert(out@ =~= seq!['['] + spec_item_variable_list_body(dv.take(0)));
    }
    let mut j: usize = 0;
    while j < items.len()
        invariant
            0 <= j <= items.len(),
            dv.len() == items@.len(),
            out@ == seq!['['] + spec_item_variable_list_body(dv.take(j as int)),
        decreases items.len() - j,
    {
        if j > 0 {
            out.append(",");
            proof {
                reveal_strlit(",");
            }
        }
        let piece = item_variable_text(&items[j]);
        out.append(piece.as_str());
        proof {
            assert(dv.take(j as int + 1).drop_last() =~= dv.take(j as int));
            assert(dv.take(j as int + 1).last() == dv[j as int]);
            if j == 0 {
                assert(dv.take(1).len() == 1);
            }
            assert(out@ =~= seq!['['] + spec_item_variable_list_body(dv.take(j as int + 1)));
        }
        j = j + 1;
    }
    out.append("]");
    proof {
        reveal_strlit("]");
        assert(dv.take(items@.len() as int) =~= dv);
    }
    out
}

pub open spec fn spec_slot_content_text(x: SlotContentV) -> Seq<char> {
    "{\"slot\":"@ + quote_text(x.slot) + ",\"instanceID\":"@ + int_text(x.instance_id as int) + "}"@
}

pub fn slot_content_text(x: &SlotContent) -> (r: String)
    ensures
        r@ == spec_slot_content_text(x.deep_view()),
{
    let mut out = String::from_str("{\"slot\":");
    let part_slot = quote_str(x.slot.as_str());
    out.append(part_slot.as_str());
    out.append(",\"instanceID\":");
    let part_instance_id = i64_text(x.instance_id as i64);
    out.append(part_instance_id.as_str());
    out.append("}");
    proof {
        assert(out@ =~= spec_slot_content_text(x.deep_view()));
    }
    out
}

pub open spec fn spec_slot_content_list_body(items: Seq<SlotContentV>) -> Seq<char>
    decreases items.len(),
{
    if items.len() == 0 {
        Seq::empty()
    } else if items.len() == 1 {
        spec_slot_content_text(items[0])
    } else {
        spec_slot_content_list_body(items.drop_last()) + seq![','] + spec_slot_content_text(items.last())
    }
}

pub open spec fn spec_slot_content_list_text(items: Seq<SlotContentV>) -> Seq<char> {
    seq!['['] + spec_slot_content_list_body(items) + seq![']']
}

#[verifier::loop_isolation(false)]
pub fn slot_content_list_text(items: &Vec<SlotContent>) -> (r: String)
    ensures
        r@ == spec_slot_content_list_text(items.deep_view()),
{
    let ghost dv = items.deep_view();
    let mut out = String::from_str("[");
    proof {
        reveal_strlit("[");
        assert(dv.take(0) =~= Seq::<SlotContentV>::empty());
        assert(out@ =~= seq!['['] + spec_slot_content_list_body(dv.take(0)));
    }
    let mut j: usize = 0;
    while j < items.len()
        invariant
            0 <= j <= items.len(),
            dv.len() == items@.len(),
            out@ == seq!['['] + spec_slot_content_list_body(dv.take(j as int)),
        decreases items.len() - j,
    {
        if j > 0 {
            out.append(",");
            proof {
                reveal_strlit(",");
            }
        }
        let piece = slot_content_text(&items[j]);
        out.append(piece.as_str());
        proof {
            assert(dv.take(j as int + 1).drop_last() =~= dv.take(j as int));
            assert(dv.take(j as int + 1).last() == dv[j as int]);
            if j == 0 {
                assert(dv.take(1).len() == 1);
            }
            assert(out@ =~= seq!['['] + spec_slot_content_list_body(dv.take(j as int + 1)));
        }
        j = j + 1;
    }
    out.append("]");
    proof {
        reveal_strlit("]");
        assert(dv.take(items@.len() as int) =~= dv);
    }
    out
}

pub open spec fn spec_inventory_slot_text(x: InventoryItem) -> Seq<char> {
    "{\"position\":"@ + int_text(x.position as int) + ",\"instanceID\":"@ + int_text(x.instance_id as int) + "}"@
}

pub fn inventory_slot_text(x: &InventoryItem) -> (r: String)
    ensures
        r@ == spec_inventory_slot_text(x.deep_view()),
{
    let mut out = String::from_str("{\"position\":");
    let part_position = i64_text(x.position as i64);
    out.append(part_position.as_str());
    out.append(",\"instanceID\":");
    let part_instance_id = i64_text(x.instance_id as i64);
    out.append(part_instance_id.as_str());
    out.append("}");
    proof {
        assert(out@ =~= spec_inventory_slot_text(x.deep_view()));
    }
    out
}

pub open spec fn spec_inventory_slot_list_body(items: Seq<InventoryItem>) -> Seq<char>
    decreases items.len(),
{
    if items.len() == 0 {
        Seq::empty()
    } else if items.len() == 1 {
        spec_inventory_slot_text(items[0])
    } else {
        spec_inventory_slot_list_body(items.drop_last()) + seq![','] + spec_inventory_slot_text(items.last())
    }
}

pub open spec fn spec_inventory_slot_list_text(items: Seq<InventoryItem>) -> Seq<char> {
    seq!['['] + spec_inventory_slot_list_body(items) + seq![']']
}

#[verifier::loop_isolation(false)]
pub fn inventory_slot_list_text(items: &Vec<InventoryItem>) -> (r: String)
    ensures
        r@ == spec_inventory_slot_list_text(items.deep_view()),
{
    let ghost dv = items.deep_view();
    let mut out = String::from_str("[");
    proof {
        reveal_strlit("[");
        assert(dv.take(0) =~= Seq::<InventoryItem>::empty());
        assert(out@ =~= seq!['['] + spec_inventory_slot_list_body(dv.take(0)));
    }
    let mut j: usize = 0;
    while j < items.len()
        invariant
            0 <= j <= items.len(),
            dv.len() == items@.len(),
            out@ == seq!['['] + spec_inventory_slot_list_body(dv.take(j as int)),
        decreases items.len() - j,
    {
        if j > 0 {
            out.append(",");
            proof {
                reveal_strlit(",");
            }
        }
        let piece = inventory_slot_text(&items[j]);
        out.append(piece.as_str());
        proof {
            assert(dv.take(j as int + 1).drop_last() =~= dv.take(j as int));
            assert(dv.take(j as int + 1).last() == dv[j as int]);
            if j == 0 {
                assert(dv.take(1).len() == 1);
            }
            assert(out@ =~= seq!['['] + spec_inventory_slot_list_body(dv.take(j as int + 1)));
        }
        j = j + 1;
    }
    out.append("]");
    proof {
        reveal_strlit("]");
        assert(dv.take(items@.len() as int) =~= dv);
    }
    out
}

pub open spec fn spec_item_entry_text(x: ItemEntryV) -> Seq<char> {
    "{\"instanceID\":"@ + int_text(x.instance_id as int) + ",\"typeID\":"@ + int_text(x.type_id as int) + ",\"variables\":"@ + spec_item_variable_list_text(x.variables) + ",\"slotContents\":"@ + spec_slot_content_list_text(x.slot_contents) + ",\"inventory\":"@ + spec_inventory_slot_list_text(x.inventory) + ",\"inventorySortLocks\":"@ + spec_locks_list_text(x.inventory_sort_locks) + "}"@
}

pub fn item_entry_text(x: &ItemEntry) -> (r: String)
    ensures
        r@ == spec_item_entry_text(x.deep_view()),
{
    let mut out = String::from_str("{\"instanceID\":");
    let part_instance_id = i64_text(x.instance_id as i64);
    out.append(part_instance_id.as_str());
    out.append(",\"typeID\":");
    let part_type_id = i64_text(x.type_id as i64);
    out.append(part_type_id.as_str());
    out.append(",\"variables\":");
    let part_variables = item_variable_list_text(&x.variables);
    out.append(part_variables.as_str());
    out.append(",\"slotContents\":");
    let part_slot_contents = slot_content_list_text(&x.slot_contents);
    out.append(part_slot_contents.as_str());
    out.append(",\"inventory\":");
    let part_inventory = inventory_slot_list_text(&x.inventory);
    out.append(part_inventory.as_str());
    out.append(",\"inventorySortLocks\":");
    let part_inventory_sort_locks = locks_list_text(&x.inventory_sort_locks);
    out.append(part_inventory_sort_locks.as_str());
    out.append("}");
    proof {
        assert(out@ =~= spec_item_entry_text(x.deep_view()));
    }
    out
}

pub open spec fn spec_item_entry_list_body(items: Seq<ItemEntryV>) -> Seq<char>
    decreases items.len(),
{
    if items.len() == 0 {
        Seq::empty()
    } else if items.len() == 1 {
        spec_item_entry_text(items[0])
    } else {
        spec_item_entry_list_body(items.drop_last()) + seq![','] + spec_item_entry_text(items.last())
    }
}

pub open spec fn spec_item_entry_list_text(items: Seq<ItemEntryV>) -> Seq<char> {
    seq!['['] + spec_item_entry_list_body(items) + seq![']']
}

#[verifier::loop_isolation(false)]
pub fn item_entry_list_text(items: &Vec<ItemEntry>) -> (r: String)
    ensures
        r@ == spec_item_entry_list_text(items.deep_view()),
{
    let ghost dv = items.deep_view();
    let mut out = String::from_str("[");
    proof {
        reveal_strlit("[");
        assert(dv.take(0) =~= Seq::<ItemEntryV>::empty());
        assert(out@ =~= seq!['['] + spec_item_entry_list_body(dv.take(0)));
    }
    let mut j: usize = 0;
    while j < items.len()
        invariant
            0 <= j <= items.len(),
            dv.len() == items@.len(),
            out@ == seq!['['] + spec_item_entry_list_body(dv.take(j as int)),
        decreases items.len() - j,
    {
        if j > 0 {
            out.append(",");
            proof {
                reveal_strlit(",");
            }
        }
        let piece = item_entry_text(&items[j]);
        out.append(piece.as_str());
        proof {
            assert(dv.take(j as int + 1).drop_last() =~= dv.take(j as int));
            assert(dv.take(j as int + 1).last() == dv[j as int]);
            if j == 0 {
                assert(dv.take(1).len() == 1);
            }
            assert(out@ =~= seq!['['] + spec_item_entry_list_body(dv.take(j as int + 1)));
        }
        j = j + 1;
    }
    out.append("]");
    proof {
        reveal_strlit("]");
        assert(dv.take(items@.len() as int) =~= dv);
    }
    out
}

pub open spec fn spec_item_tree_text(x: ItemTreeDataV) -> Seq<char> {
    "{\"rootInstanceID\":"@ + int_text(x.root_instance_id as int) + ",\"entries\":"@ + spec_item_entry_list_text(x.entries) + "}"@
}

pub fn item_tree_text(x: &ItemTreeData) -> (r: String)
    ensures
        r@ == spec_item_tree_text(x.deep_view()),
{
    let mut out = String::from_str("{\"rootInstanceID\":");
    let part_root_instance_id = i64_text(x.root_instance_id as i64);
    out.append(part_root_instance_id.as_str());
    out.append(",\"entries\":");
    let part_entries = item_entry_list_text(&x.entries);
    out.append(part_entries.as_str());
    out.append("}");
    proof {
        assert(out@ =~= spec_item_tree_text(x.deep_view()));
    }
    out
}

pub open spec fn spec_stash_text(x: StashDataV) -> Seq<char> {
    "{\"valid\":"@ + (if x.valid { "true"@ } else { "false"@ }) + ",\"raidID\":"@ + int_text(x.raid_id as int) + ",\"subSceneID\":"@ + quote_text(x.sub_scene_id) + ",\"worldPosition\":"@ + spec_world_position_text(x.world_position) + ",\"itemTreeData\":"@ + spec_item_tree_text(x.item_tree_data) + ",\"spawned\":"@ + (if x.spawned { "true"@ } else { "false"@ }) + ",\"touched\":"@ + (if x.touched { "true"@ } else { "false"@ }) + "}"@
}

pub fn stash_text(x: &StashData) -> (r: String)
    ensures
        r@ == spec_stash_text(x.deep_view()),
{
    let mut out = String::from_str("{\"valid\":");
    out.append(if x.valid { "true" } else { "false" });
    out.append(",\"raidID\":");
    let part_raid_id = i64_text(x.raid_id as i64);
    out.append(part_raid_id.as_str());
    out.append(",\"subSceneID\":");
    let part_sub_scene_id = quote_str(x.sub_scene_id.as_str());
    out.append(part_sub_scene_id.as_str());
    out.append(",\"worldPosition\":");
    let part_world_position = world_position_text(&x.world_position);
    out.append(part_world_position.as_str());
    out.append(",\"itemTreeData\":");
    let part_item_tree_data = item_tree_text(&x.item_tree_data);
    out.append(part_item_tree_data.as_str());
    out.append(",\"spawned\":");
    out.append(if x.spawned { "true" } else { "false" });
    out.append(",\"touched\":");
    out.append(if x.touched { "true" } else { "false" });
    out.append("}");
    proof {
        assert(out@ =~= spec_stash_text(x.deep_view()));
    }
    out
}

pub open spec fn spec_stash_list_body(items: Seq<StashDataV>) -> Seq<char>
    decreases items.len(),
{
    if items.len() == 0 {
        Seq::empty()
    } else if items.len() == 1 {
        spec_stash_text(items[0])
    } else {
        spec_stash_list_body(items.drop_last()) + seq![','] + spec_stash_text(items.last())
    }
}

pub open spec fn spec_stash_list_text(items: Seq<StashDataV>) -> Seq<char> {
    seq!['['] + spec_stash_list_body(items) + seq![']']
}

#[verifier::loop_isolation(false)]
#[verifier::rlimit(50)]
pub fn stash_list_text(items: &Vec<StashData>) -> (r: String)
    ensures
        r@ == spec_stash_list_text(items.deep_view()),
{
    let ghost dv = items.deep_view();
    let mut out = String::from_str("[");
    proof {
        reveal_strlit("[");
        assert(dv.take(0) =~= Seq::<StashDataV>::empty());
        assert(out@ =~= seq!['['] + spec_stash_list_body(dv.take(0)));
    }
    let mut j: usize = 0;
    while j < items.len()
        invariant
            0 <= j <= items.len(),
            dv.len() == items@.len(),
            out@ == seq!['['] + spec_stash_list_body(dv.take(j as int)),
        decreases items.len() - j,
    {
        if j > 0 {
            out.append(",");
            proof {
                reveal_strlit(",");
            }
        }
        let piece = stash_text(&items[j]);
        out.append(piece.as_str());
        proof {
            assert(dv.take(j as int + 1).drop_last() =~= dv.take(j as int));
            assert(dv.take(j as int + 1).last() == dv[j as int]);
            if j == 0 {
                assert(dv.take(1).len() == 1);
            }
            assert(out@ =~= seq!['['] + spec_stash_list_body(dv.take(j as int + 1)));
        }
        j = j + 1;
    }
    out.append("]");
    proof {
        reveal_strlit("]");
        assert(dv.take(items@.len() as int) =~= dv);
    }
    out
}

pub open spec fn spec_inv_item_data_text(x: InventoryItemDataV) -> Seq<char> {
    "{\"inventoryPosition\":"@ + int_text(x.inventory_position as int) + ",\"itemTreeData\":"@ + spec_item_tree_text(x.item_tree_data) + "}"@
}

pub fn inv_item_data_text(x: &InventoryItemData) -> (r: String)
    ensures
        r@ == spec_inv_item_data_text(x.deep_view()),
{
    let mut out = String::from_str("{\"inventoryPosition\":");
    let part_inventory_position = i64_text(x.inventory_position as i64);
    out.append(part_inventory_position.as_str());
    out.append(",\"itemTreeData\":");
    let part_item_tree_data = item_tree_text(&x.item_tree_data);
    out.append(part_item_tree_data.as_str());
    out.append("}");
    proof {
        assert(out@ =~= spec_inv_item_data_text(x.deep_view()));
    }
    out
}

pub open spec fn spec_inv_item_data_list_body(items: Seq<InventoryItemDataV>) -> Seq<char>
    decreases items.len(),
{
    if items.len() == 0 {
        Seq::empty()
    } else if items.len() == 1 {
        spec_inv_item_data_text(items[0])
    } else {
        spec_inv_item_data_list_body(items.drop_last()) + seq![','] + spec_inv_item_data_text(items.last())
    }
}

pub open spec fn spec_inv_item_data_list_text(items: Seq<InventoryItemDataV>) -> Seq<char> {
    seq!['['] + spec_inv_item_data_list_body(items) + seq![']']
}

#[verifier::loop_isolation(false)]
#[verifier::rlimit(50)]
pub fn inv_item_data_list_text(items: &Vec<InventoryItemData>) -> (r: String)
    ensures
        r@ == spec_inv_item_data_list_text(items.deep_view()),
{
    let ghost dv = items.deep_view();
    let mut out = String::from_str("[");
    proof {
        reveal_strlit("[");
        assert(dv.take(0) =~= Seq::<InventoryItemDataV>::empty());
        assert(out@ =~= seq!['['] + spec_inv_item_data_list_body(dv.take(0)));
    }
    let mut j: usize = 0;
    while j < items.len()
        invariant
            0 <= j <= items.len(),
            dv.len() == items@.len(),
            out@ == seq!['['] + spec_inv_item_data_list_body(dv.take(j as int)),
        decreases items.len() - j,
    {
        if j > 0 {
            out.append(",");
            proof {
                reveal_strlit(",");
            }
        }
        let piece = inv_item_data_text(&items[j]);
        out.append(piece.as_str());
        proof {
            assert(dv.take(j as int + 1).drop_last() =~= dv.take(j as int));
            assert(dv.take(j as int + 1).last() == dv[j as int]);
            if j == 0 {
                assert(dv.take(1).len() == 1);
            }
            assert(out@ =~= seq!['['] + spec_inv_item_data_list_body(dv.take(j as int + 1)));
        }
        j = j + 1;
    }
    out.append("]");
    proof {
        reveal_strlit("]");
        assert(dv.take(items@.len() as int) =~= dv);
    }
    out
}

pub open spec fn spec_inventory_text(x: InventoryV) -> Seq<char> {
    "{\"capacity\":"@ + int_text(x.capacity as int) + ",\"entries\":"@ + spec_inv_item_data_list_text(x.entries) + "}"@
}

pub fn inventory_text(x: &Inventory) -> (r: String)
    ensures
        r@ == spec_inventory_text(x.deep_view()),
{
    let mut out = String::from_str("{\"capacity\":");
    let part_capacity = i64_text(x.capacity as i64);
    out.append(part_capacity.as_str());
    out.append(",\"entries\":");
    let part_entries = inv_item_data_list_text(&x.entries);
    out.append(part_entries.as_str());
    out.append("}");
    proof {
        assert(out@ =~= spec_inventory_text(x.deep_view()));
    }
    out
}

pub open spec fn spec_kill_text(x: KillV) -> Seq<char> {
    "{\"masterName\":"@ + quote_text(x.monster_name) + ",\"count\":"@ + int_text(x.count as int) + "}"@
}

pub fn kill_text(x: &Kill) -> (r: String)
    ensures
        r@ == spec_kill_text(x.deep_view()),
{
    let mut out = String::from_str("{\"masterName\":");
    let part_monster_name = quote_str(x.monster_name.as_str());
    out.append(part_monster_name.as_str());
    out.append(",\"count\":");
    let part_count = i64_text(x.count);
    out.append(part_count.as_str());
    out.append("}");
    proof {
        assert(out@ =~= spec_kill_text(x.deep_view()));
    }
    out
}

pub open spec fn spec_kill_list_body(items: Seq<KillV>) -> Seq<char>
    decreases items.len(),
{
    if items.len() == 0 {
        Seq::empty()
    } else if items.len() == 1 {
        spec_kill_text(items[0])
    } else {
        spec_kill_list_body(items.drop_last()) + seq![','] + spec_kill_text(items.last())
    }
}

pub open spec fn spec_kill_list_text(items: Seq<KillV>) -> Seq<char> {
    seq!['['] + spec_kill_list_body(items) + seq![']']
}

#[verifier::loop_isolation(false)]
pub fn kill_list_text(items: &Vec<Kill>) -> (r: String)
    ensures
        r@ == spec_kill_list_text(items.deep_view()),
{
    let ghost dv = items.deep_view();
    let mut out = String::from_str("[");
    proof {
        reveal_strlit("[");
        assert(dv.take(0) =~= Seq::<KillV>::empty());
        assert(out@ =~= seq!['['] + spec_kill_list_body(dv.take(0)));
    }
    let mut j: usize = 0;
    while j < items.len()
        invariant
            0 <= j <= items.len(),
            dv.len() == items@.len(),
            out@ == seq!['['] + spec_kill_list_body(dv.take(j as int)),
        decreases items.len() - j,
    {
        if j > 0 {
            out.append(",");
            proof {
                reveal_strlit(",");
            }
        }
        let piece = kill_text(&items[j]);
        out.append(piece.as_str());
        proof {
            assert(dv.take(j as int + 1).drop_last() =~= dv.take(j as int));
            assert(dv.take(j as int + 1).last() == dv[j as int]);
            if j == 0 {
                assert(dv.take(1).len() == 1);
            }
            assert(out@ =~= seq!['['] + spec_kill_list_body(dv.take(j as int + 1)));
        }
        j = j + 1;
    }
    out.append("]");
    proof {
        reveal_strlit("]");
        assert(dv.take(items@.len() as int) =~= dv);
    }
    out
}

pub open spec fn spec_archive_text(x: ArchiveV) -> Seq<char> {
    "{\"version\":"@ + quote_text(x.version) + ",\"level\":"@ + int_text(x.level as int) + ",\"exp\":"@ + int_text(x.exp as int) + ",\"health\":"@ + x.health + ",\"gameClock\":"@ + spec_clock_text(x.game_lock) + ",\"economyData\":"@ + spec_economy_text(x.economy_data) + ",\"masterKeys\":"@ + spec_master_key_list_text(x.master_key) + ",\"deathList\":"@ + spec_stash_list_text(x.death_list) + ",\"quests\":"@ + spec_quest_data_text(x.quests) + ",\"inventory\":"@ + spec_i16_list_text(x.inventory) + ",\"kills\":"@ + spec_kill_list_text(x.kills) + ",\"save_time\":"@ + int_text(x.save_time as int) + ",\"playerStorage\":"@ + spec_inventory_text(x.player_storage) + ",\"inventorySafe\":"@ + spec_inventory_text(x.inventory_safe) + ",\"characterItemData\":"@ + spec_item_tree_text(x.character_item_data) + "}"@
}

pub fn archive_text(x: &Archive) -> (r: String)
    ensures
        r@ == spec_archive_text(x.deep_view()),
{
    let mut out = String::from_str("{\"version\":");
    let part_version = quote_str(x.version.as_str());
    out.append(part_version.as_str());
    out.append(",\"level\":");
    let part_level = i64_text(x.level as i64);
    out.append(part_level.as_str());
    out.append(",\"exp\":");
    let part_exp = i64_text(x.exp as i64);
    out.append(part_exp.as_str());
    out.append(",\"health\":");
    out.append(x.health.as_str());
    out.append(",\"gameClock\":");
    let part_game_lock = clock_text(&x.game_lock);
    out.append(part_game_lock.as_str());
    out.append(",\"economyData\":");
    let part_economy_data = economy_text(&x.economy_data);
    out.append(part_economy_data.as_str());
    out.append(",\"masterKeys\":");
    let part_master_key = master_key_list_text(&x.master_key);
    out.append(part_master_key.as_str());
    out.append(",\"deathList\":");
    let part_death_list = stash_list_text(&x.death_list);
    out.append(part_death_list.as_str());
    out.append(",\"quests\":");
    let part_quests = quest_data_text(&x.quests);
    out.append(part_quests.as_str());
    out.append(",\"inventory\":");
    let part_inventory = i16_list_text(&x.inventory);
    out.append(part_inventory.as_str());
    out.append(",\"kills\":");
    let part_kills = kill_list_text(&x.kills);
    out.append(part_kills.as_str());
    out.append(",\"save_time\":");
    let part_save_time = i64_text(x.save_time as i64);
    out.append(part_save_time.as_str());
    out.append(",\"playerStorage\":");
    let part_player_storage = inventory_text(&x.player_storage);
    out.append(part_player_storage.as_str());
    out.append(",\"inventorySafe\":");
    let part_inventory_safe = inventory_text(&x.inventory_safe);
    out.append(part_inventory_safe.as_str());
    out.append(",\"characterItemData\":");
    let part_character_item_data = item_tree_text(&x.character_item_data);
    out.append(part_character_item_data.as_str());
    out.append("}");
    proof {
        assert(out@ =~= spec_archive_text(x.deep_view()));
    }
    out
}


// Character-appearance records.  Every quantity the engine stores as
// floating point is carried as its decimal text.

#[derive(Debug, PartialEq)]
pub struct Color {
    pub r: String,
    pub g: String,
    pub b: String,
    pub a: String,
}

pub struct ColorV {
    pub r: Seq<char>,
    pub g: Seq<char>,
    pub b: Seq<char>,
    pub a: Seq<char>,
}

impl DeepView for Color {
    type V = ColorV;

    open spec fn deep_view(&self) -> ColorV {
        ColorV { r: self.r@, g: self.g@, b: self.b@, a: self.a@ }
    }
}

pub open spec fn spec_dec_color(v: Jv) -> Option<ColorV> {
    match v {
        Jv::Mapping(es) => match (
            spec_field_numtext(es, "r"@),
            spec_field_numtext(es, "g"@),
            spec_field_numtext(es, "b"@),
            spec_field_numtext(es, "a"@),
        ) {
            (Some(r0), Some(g0), Some(b0), Some(a0)) => Some(
                ColorV { r: r0, g: g0, b: b0, a: a0 },
            ),
            _ => None,
        },
        _ => None,
    }
}

pub fn dec_color(v: &JsonValue) -> (r: Option<Color>)
    ensures
        r.deep_view() == spec_dec_color(v@),
{
    match v {
        JsonValue::Mapping(es) => match (
            field_numtext(es, "r"),
            field_numtext(es, "g"),
            field_numtext(es, "b"),
            field_numtext(es, "a"),
        ) {
            (Some(r0), Some(g0), Some(b0), Some(a0)) => Some(
                Color { r: r0, g: g0, b: b0, a: a0 },
            ),
            _ => None,
        },
        _ => None,
    }
}

#[derive(Debug, PartialEq)]
pub struct HeadSetting {
    pub main_color: Color,
    pub head_scale_offset: String,
    pub forehead_height: String,
    pub forehead_round: String,
}

pub struct HeadSettingV {
    pub main_color: ColorV,
    pub head_scale_offset: Seq<char>,
    pub forehead_height: Seq<char>,
    pub forehead_round: Seq<char>,
}

impl DeepView for HeadSetting {
    type V = HeadSettingV;

    open spec fn deep_view(&self) -> HeadSettingV {
        HeadSettingV {
            main_color: self.main_color.deep_view(),
            head_scale_offset: self.head_scale_offset@,
            forehead_height: self.forehead_height@,
            forehead_round: self.forehead_round@,
        }
    }
}

pub open spec fn spec_dec_head_setting(v: Jv) -> Option<HeadSettingV> {
    match v {
        Jv::Mapping(es) => {
            let color = match spec_mget(es, "mainColor"@) {
                Some(f) => spec_dec_color(f),
                None => None,
            };
            match (
                color,
                spec_field_numtext(es, "headScaleOffset"@),
                spec_field_numtext(es, "foreheadHeight"@),
                spec_field_numtext(es, "foreheadRound"@),
            ) {
                (Some(c), Some(o), Some(h), Some(rd)) => Some(
                    HeadSettingV {
                        main_color: c,
                        head_scale_offset: o,
                        forehead_height: h,
                        forehead_round: rd,
                    },
                ),
                _ => None,
            }
        },
        _ => None,
    }
}

pub fn dec_head_setting(v: &JsonValue) -> (r: Option<HeadSetting>)
    ensures
        r.deep_view() == spec_dec_head_setting(v@),
{
    match v {
        JsonValue::Mapping(es) => {
            let color = match mapping_get(es, &String::from_str("mainColor")) {
                Some(f) => dec_color(f),
                None => None,
            };
            match (
                color,
                field_numtext(es, "headScaleOffset"),
                field_numtext(es, "foreheadHeight"),
                field_numtext(es, "foreheadRound"),
            ) {
                (Some(c), Some(o), Some(h), Some(rd)) => Some(
                    HeadSetting {
                        main_color: c,
                        head_scale_offset: o,
                        forehead_height: h,
                        forehead_round: rd,
                    },
                ),
                _ => None,
            }
        },
        _ => None,
    }
}

#[derive(Debug, PartialEq)]
pub struct PartInfo {
    pub radius: String,
    pub color: Color,
    pub height: String,
    pub height_offset: String,
    pub scale: String,
    pub twist: String,
    pub distance_angle: String,
    pub left_right_angle: String,
}

pub struct PartInfoV {
    pub radius: Seq<char>,
    pub color: ColorV,
    pub height: Seq<char>,
    pub height_offset: Seq<char>,
    pub scale: Seq<char>,
    pub twist: Seq<char>,
    pub distance_angle: Seq<char>,
    pub left_right_angle: Seq<char>,
}

impl DeepView for PartInfo {
    type V = PartInfoV;

    open spec fn deep_view(&self) -> PartInfoV {
        PartInfoV {
            radius: self.radius@,
            color: self.color.deep_view(),
            height: self.height@,
            height_offset: self.height_offset@,
            scale: self.scale@,
            twist: self.twist@,
            distance_angle: self.distance_angle@,
            left_right_angle: self.left_right_angle@,
        }
    }
}

pub open spec fn spec_dec_part_info(v: Jv) -> Option<PartInfoV> {
    match v {
        Jv::Mapping(es) => {
            let color = match spec_mget(es, "color"@) {
                Some(f) => spec_dec_color(f),
                None => None,
            };
            match (
                spec_field_numtext(es, "radius"@),
                color,
                spec_field_numtext(es, "height"@),
                spec_field_numtext(es, "heightOffset"@),
                spec_field_numtext(es, "scale"@),
                spec_field_numtext(es, "twist"@),
                spec_field_numtext(es, "distanceAngle"@),
                spec_field_numtext(es, "leftRightAngle"@),
            ) {
                (Some(ra), Some(c), Some(h), Some(o), Some(sc), Some(tw), Some(da), Some(la)) =>
                    Some(
                    PartInfoV {
                        radius: ra,
                        color: c,
                        height: h,
                        height_offset: o,
                        scale: sc,
                        twist: tw,
                        distance_angle: da,
                        left_right_angle: la,
                    },
                ),
                _ => None,
            }
        },
        _ => None,
    }
}

pub fn dec_part_info(v: &JsonValue) -> (r: Option<PartInfo>)
    ensures
        r.deep_view() == spec_dec_part_info(v@),
{
    match v {
        JsonValue::Mapping(es) => {
            let color = match mapping_get(es, &String::from_str("color")) {
                Some(f) => dec_color(f),
                None => None,
            };
            match (
                field_numtext(es, "radius"),
                color,
                field_numtext(es, "height"),
                field_numtext(es, "heightOffset"),
                field_numtext(es, "scale"),
                field_numtext(es, "twist"),
                field_numtext(es, "distanceAngle"),
                field_numtext(es, "leftRightAngle"),
            ) {
                (Some(ra), Some(c), Some(h), Some(o), Some(sc), Some(tw), Some(da), Some(la)) =>
                    Some(
                    PartInfo {
                        radius: ra,
                        color: c,
                        height: h,
                        height_offset: o,
                        scale: sc,
                        twist: tw,
                        distance_angle: da,
                        left_right_angle: la,
                    },
                ),
                _ => None,
            }
        },
        _ => None,
    }
}

#[derive(Debug, PartialEq)]
pub struct CustomFaceSettingData {
    pub saved_setting: bool,
    pub head_setting: HeadSetting,
    pub hair_id: i32,
    pub hair_info: PartInfo,
    pub eye_id: i32,
    pub eye_info: PartInfo,
    pub eyebrow_id: i32,
    pub eyebrow_info: PartInfo,
    pub mouth_id: i32,
    pub mouth_info: PartInfo,
    pub tail_id: i32,
    pub tail_info: PartInfo,
    pub foot_id: i32,
    pub foot_info: PartInfo,
    pub wing_id: i32,
    pub wing_info: PartInfo,
}

pub struct CustomFaceSettingDataV {
    pub saved_setting: bool,
    pub head_setting: HeadSettingV,
    pub hair_id: i32,
    pub hair_info: PartInfoV,
    pub eye_id: i32,
    pub eye_info: PartInfoV,
    pub eyebrow_id: i32,
    pub eyebrow_info: PartInfoV,
    pub mouth_id: i32,
    pub mouth_info: PartInfoV,
    pub tail_id: i32,
    pub tail_info: PartInfoV,
    pub foot_id: i32,
    pub foot_info: PartInfoV,
    pub wing_id: i32,
    pub wing_info: PartInfoV,
}

impl DeepView for CustomFaceSettingData {
    type V = CustomFaceSettingDataV;

    open spec fn deep_view(&self) -> CustomFaceSettingDataV {
        CustomFaceSettingDataV {
            saved_setting: self.saved_setting,
            head_setting: self.head_setting.deep_view(),
            hair_id: self.hair_id,
            hair_info: self.hair_info.deep_view(),
            eye_id: self.eye_id,
            eye_info: self.eye_info.deep_view(),
            eyebrow_id: self.eyebrow_id,
            eyebrow_info: self.eyebrow_info.deep_view(),
            mouth_id: self.mouth_id,
            mouth_info: self.mouth_info.deep_view(),
            tail_id: self.tail_id,
            tail_info: self.tail_info.deep_view(),
            foot_id: self.foot_id,
            foot_info: self.foot_info.deep_view(),
            wing_id: self.wing_id,
            wing_info: self.wing_info.deep_view(),
        }
    }
}

pub open spec fn spec_part_field(es: Seq<(Seq<char>, Jv)>, k: Seq<char>) -> Option<PartInfoV> {
    match spec_mget(es, k) {
        Some(f) => spec_dec_part_info(f),
        None => None,
    }
}

fn part_field(es: &Vec<(String, JsonValue)>, k: &str) -> (r: Option<PartInfo>)
    ensures
        r.deep_view() == spec_part_field(entries_view(es@), k@),
{
    match mapping_get(es, &String::from_str(k)) {
        Some(f) => dec_part_info(f),
        None => None,
    }
}

pub open spec fn spec_dec_custom_face(v: Jv) -> Option<CustomFaceSettingDataV> {
    match v {
        Jv::Mapping(es) => {
            let head = match spec_mget(es, "headSetting"@) {
                Some(f) => spec_dec_head_setting(f),
                None => None,
            };
            match (
                spec_field_bool(es, "savedSetting"@),
                head,
                spec_field_i32(es, "hairId"@),
                spec_part_field(es, "hairInfo"@),
                spec_field_i32(es, "eyeId"@),
                spec_part_field(es, "eyeInfo"@),
                spec_field_i32(es, "eyebrowId"@),
                spec_part_field(es, "eyebrowInfo"@),
            ) {
                (Some(sv), Some(hd), Some(h1), Some(h2), Some(e1), Some(e2), Some(b1), Some(b2)) => {
                    match (
                        spec_field_i32(es, "mouthId"@),
                        spec_part_field(es, "mouthInfo"@),
                        spec_field_i32(es, "tailId"@),
                        spec_part_field(es, "tailInfo"@),
                        spec_field_i32(es, "footId"@),
                        spec_part_field(es, "footInfo"@),
                        spec_field_i32(es, "wingId"@),
                        spec_part_field(es, "wingInfo"@),
                    ) {
                        (
                            Some(m1),
                            Some(m2),
                            Some(t1),
                            Some(t2),
                            Some(f1),
                            Some(f2),
                            Some(w1),
                            Some(w2),
                        ) => Some(
                            CustomFaceSettingDataV {
                                saved_setting: sv,
                                head_setting: hd,
                                hair_id: h1,
                                hair_info: h2,
                                eye_id: e1,
                                eye_info: e2,
                                eyebrow_id: b1,
                                eyebrow_info: b2,
                                mouth_id: m1,
                                mouth_info: m2,
                                tail_id: t1,
                                tail_info: t2,
                                foot_id: f1,
                                foot_info: f2,
                                wing_id: w1,
                                wing_info: w2,
                            },
                        ),
                        _ => None,
                    }
                },
                _ => None,
            }
        },
        _ => None,
    }
}

pub fn dec_custom_face(v: &JsonValue) -> (r: Option<CustomFaceSettingData>)
    ensures
        r.deep_view() == spec_dec_custom_face(v@),
{
    match v {
        JsonValue::Mapping(es) => {
            let head = match mapping_get(es, &String::from_str("headSetting")) {
                Some(f) => dec_head_setting(f),
                None => None,
            };
            match (
                field_bool(es, "savedSetting"),
                head,
                field_i32(es, "hairId"),
                part_field(es, "hairInfo"),
                field_i32(es, "eyeId"),
                part_field(es, "eyeInfo"),
                field_i32(es, "eyebrowId"),
                part_field(es, "eyebrowInfo"),
            ) {
                (Some(sv), Some(hd), Some(h1), Some(h2), Some(e1), Some(e2), Some(b1), Some(b2)) => {
                    match (
                        field_i32(es, "mouthId"),
                        part_field(es, "mouthInfo"),
                        field_i32(es, "tailId"),
                        part_field(es, "tailInfo"),
                        field_i32(es, "footId"),
                        part_field(es, "footInfo"),
                        field_i32(es, "wingId"),
                        part_field(es, "wingInfo"),
                    ) {
                        (
                            Some(m1),
                            Some(m2),
                            Some(t1),
                            Some(t2),
                            Some(f1),
                            Some(f2),
                            Some(w1),
                            Some(w2),
                        ) => Some(
                            CustomFaceSettingData {
                                saved_setting: sv,
                                head_setting: hd,
                                hair_id: h1,
                                hair_info: h2,
                                eye_id: e1,
                                eye_info: e2,
                                eyebrow_id: b1,
                                eyebrow_info: b2,
                                mouth_id: m1,
                                mouth_info: m2,
                                tail_id: t1,
                                tail_info: t2,
                                foot_id: f1,
                                foot_info: f2,
                                wing_id: w1,
                                wing_info: w2,
                            },
                        ),
                        _ => None,
                    }
                },
                _ => None,
            }
        },
        _ => None,
    }
}

} // verus!
