use crate::archived::{
    dec_custom_face, dec_economy, dec_game_clock, dec_inventory, dec_item_tree, dec_quest_data,
    dec_vec_master_key, dec_vec_stash, dec_version, spec_dec_custom_face, spec_dec_economy, spec_dec_game_clock,
    spec_dec_inventory, spec_dec_item_tree, spec_dec_quest_data, spec_dec_vec_master_key,
    spec_dec_vec_stash, spec_dec_version, kills_prefix, EconomyData, EconomyDataV, GameClock, GameClockV,
    CustomFaceSettingData, CustomFaceSettingDataV, Inventory, InventoryV, ItemTreeData,
    ItemTreeDataV, MasterKey, QuestData, QuestDataV,
    StashData, StashDataV, VersionData, VersionDataV,
};
use crate::format::begins;
use crate::parsing::{parse_json_text, spec_parse_doc};
use crate::value::{
    dec_bool, dec_i32, dec_numtext, entries_json_text, entries_view, jv_entries_text,
    lemma_entries_view, mapping_get, peel, spec_dec_bool, spec_dec_i32, spec_dec_numtext,
    spec_mget, spec_peel, JsonValue, Jv,
};
use vstd::prelude::*;
use vstd::string::*;

verus! {

broadcast use vstd::std_specs::vec::group_vec_axioms;

/// Fatal outcome of store construction: the normalized text is not
/// well-formed structured data.
#[derive(Debug, Clone, Copy, PartialEq, Eq, Structural)]
pub struct StructuralParseError;

/// Flat, read-only store of one document: string keys bound to dynamic
/// values, in document order.  The structured-text parser hands each key at
/// most once, so the first binding of a key is the only one.
pub struct SaveData {
    pub data: Vec<(String, JsonValue)>,
}

/// Tagged payload bound to `key` in an entry list: present exactly when
/// the key is bound and its value carries the `{"__type", "value"}` wrapper
/// shape.
pub open spec fn spec_payload_of(entries: Seq<(Seq<char>, Jv)>, key: Seq<char>) -> Option<Jv> {
    match spec_mget(entries, key) {
        Some(v) => spec_peel(v),
        None => None,
    }
}

/// Peeled payload of one tagged store value, then decoded as a 32-bit
/// integer.
pub open spec fn spec_tagged_i32(v: Jv) -> Option<i32> {
    match spec_peel(v) {
        Some(p) => spec_dec_i32(p),
        None => None,
    }
}

/// Peeled payload of one tagged store value, then decoded as a boolean.
pub open spec fn spec_tagged_bool(v: Jv) -> Option<bool> {
    match spec_peel(v) {
        Some(p) => spec_dec_bool(p),
        None => None,
    }
}

pub open spec fn scenes_prefix() -> Seq<char> {
    "MultiSceneCore_Visited_"@
}

pub open spec fn sites_prefix() -> Seq<char> {
    "ConstructionSite_"@
}

/// Kill-count projection of the store: for each entry whose key carries the
/// kill prefix and whose value decodes as a tagged 32-bit integer, the key's
/// suffix paired with the count, in document order.
pub open spec fn spec_kill_stats(entries: Seq<(Seq<char>, Jv)>) -> Seq<(Seq<char>, i32)>
    decreases entries.len(),
{
    if entries.len() == 0 {
        Seq::empty()
    } else {
        let init = spec_kill_stats(entries.drop_last());
        let e = entries.last();
        if begins(e.0, 0, kills_prefix()) {
            match spec_tagged_i32(e.1) {
                Some(n) => init.push((e.0.skip(kills_prefix().len() as int), n)),
                None => init,
            }
        } else {
            init
        }
    }
}

/// Visited-scene projection: suffixes of entries with the visited prefix
/// whose value decodes as a tagged boolean holding true, in document order.
pub open spec fn spec_visited_scenes(entries: Seq<(Seq<char>, Jv)>) -> Seq<Seq<char>>
    decreases entries.len(),
{
    if entries.len() == 0 {
        Seq::empty()
    } else {
        let init = spec_visited_scenes(entries.drop_last());
        let e = entries.last();
        if begins(e.0, 0, scenes_prefix()) {
            match spec_tagged_bool(e.1) {
                Some(true) => init.push(e.0.skip(scenes_prefix().len() as int)),
                _ => init,
            }
        } else {
            init
        }
    }
}

/// Construction-site projection: suffix and flag of every entry with the
/// site prefix whose value decodes as a tagged boolean, in document order.
pub open spec fn spec_construction_sites(entries: Seq<(Seq<char>, Jv)>) -> Seq<(Seq<char>, bool)>
    decreases entries.len(),
{
    if entries.len() == 0 {
        Seq::empty()
    } else {
        let init = spec_construction_sites(entries.drop_last());
        let e = entries.last();
        if begins(e.0, 0, sites_prefix()) {
            match spec_tagged_bool(e.1) {
                Some(b) => init.push((e.0.skip(sites_prefix().len() as int), b)),
                None => init,
            }
        } else {
            init
        }
    }
}

impl SaveData {
    /// Entry list of the store, in document order.
    pub open spec fn store_view(self) -> Seq<(Seq<char>, Jv)> {
        entries_view(self.data@)
    }

    /// Value bound to `key`, if any.
    pub open spec fn spec_get(self, key: Seq<char>) -> Option<Jv> {
        spec_mget(self.store_view(), key)
    }

    /// Tagged payload bound to `key`: present exactly when the key is bound
    /// and its value carries the `{"__type", "value"}` wrapper shape.
    pub open spec fn spec_payload(self, key: Seq<char>) -> Option<Jv> {
        spec_payload_of(self.store_view(), key)
    }

    /// Parse normalized text into a store.  Fails atomically, with no
    /// partial store, exactly when the text is not a well-formed mapping.
    pub fn from_json(json_str: &str) -> (r: Result<SaveData, StructuralParseError>)
        ensures
            match r {
                Ok(sd) => spec_parse_doc(json_str@) == Some(Jv::Mapping(sd.store_view())),
                Err(_) => !(spec_parse_doc(json_str@) matches Some(Jv::Mapping(_))),
            },
    {
        match parse_json_text(json_str) {
            Some(v) => match v {
                JsonValue::Mapping(entries) => Ok(SaveData { data: entries }),
                _ => Err(StructuralParseError),
            },
            None => Err(StructuralParseError),
        }
    }

    /// Exact-key lookup.
    pub fn get(&self, key: &String) -> (r: Option<&JsonValue>)
        ensures
            match r {
                Some(v) => self.spec_get(key@) == Some(v@),
                None => self.spec_get(key@) is None,
            },
    {
        mapping_get(&self.data, key)
    }

    /// Tagged payload bound to `key`, if any.
    fn payload(&self, key: &str) -> (r: Option<&JsonValue>)
        ensures
            match r {
                Some(p) => self.spec_payload(key@) == Some(p@),
                None => self.spec_payload(key@) is None,
            },
    {
        match self.get(&String::from_str(key)) {
            Some(v) => peel(v),
            None => None,
        }
    }

    pub open spec fn spec_get_version(self) -> Option<VersionDataV> {
        match self.spec_payload("CreatedWithVersion"@) {
            Some(p) => spec_dec_version(p),
            None => None,
        }
    }

    pub fn get_version(&self) -> (r: Option<VersionData>)
        ensures
            r.deep_view() == self.spec_get_version(),
    {
        match self.payload("CreatedWithVersion") {
            Some(p) => dec_version(p),
            None => None,
        }
    }

    pub open spec fn spec_get_master_keys(self) -> Option<Seq<MasterKey>> {
        match self.spec_payload("MasterKeys"@) {
            Some(p) => spec_dec_vec_master_key(p),
            None => None,
        }
    }

    pub fn get_master_keys(&self) -> (r: Option<Vec<MasterKey>>)
        ensures
            r.deep_view() == self.spec_get_master_keys(),
    {
        match self.payload("MasterKeys") {
            Some(p) => dec_vec_master_key(p),
            None => None,
        }
    }

    pub open spec fn spec_get_death_list(self) -> Option<Seq<StashDataV>> {
        match self.spec_payload("DeathList"@) {
            Some(p) => spec_dec_vec_stash(p),
            None => None,
        }
    }

    pub fn get_death_list(&self) -> (r: Option<Vec<StashData>>)
        ensures
            r.deep_view() == self.spec_get_death_list(),
    {
        match self.payload("DeathList") {
            Some(p) => dec_vec_stash(p),
            None => None,
        }
    }

    pub open spec fn spec_get_save_time(self) -> Option<i32> {
        match self.spec_payload("SaveTime"@) {
            Some(p) => spec_dec_i32(p),
            None => None,
        }
    }

    pub fn get_save_time(&self) -> (r: Option<i32>)
        ensures
            r == self.spec_get_save_time(),
    {
        match self.payload("SaveTime") {
            Some(p) => dec_i32(p),
            None => None,
        }
    }

    pub open spec fn spec_get_player_storage(self) -> Option<InventoryV> {
        match self.spec_payload("Inventory/PlayerStorage"@) {
            Some(p) => spec_dec_inventory(p),
            None => None,
        }
    }

    pub fn get_player_storage(&self) -> (r: Option<Inventory>)
        ensures
            r.deep_view() == self.spec_get_player_storage(),
    {
        match self.payload("Inventory/PlayerStorage") {
            Some(p) => dec_inventory(p),
            None => None,
        }
    }

    pub open spec fn spec_get_inventory_safe(self) -> Option<InventoryV> {
        match self.spec_payload("Inventory/Inventory_Safe"@) {
            Some(p) => spec_dec_inventory(p),
            None => None,
        }
    }

    pub fn get_inventory_safe(&self) -> (r: Option<Inventory>)
        ensures
            r.deep_view() == self.spec_get_inventory_safe(),
    {
        match self.payload("Inventory/Inventory_Safe") {
            Some(p) => dec_inventory(p),
            None => None,
        }
    }

    pub open spec fn spec_get_game_lock(self) -> Option<GameClockV> {
        match self.spec_payload("GameClock"@) {
            Some(p) => spec_dec_game_clock(p),
            None => None,
        }
    }

    pub fn get_game_lock(&self) -> (r: Option<GameClock>)
        ensures
            r.deep_view() == self.spec_get_game_lock(),
    {
        match self.payload("GameClock") {
            Some(p) => dec_game_clock(p),
            None => None,
        }
    }

    /// Health is a floating-point quantity in the document; it is carried
    /// as its decimal text.
    pub open spec fn spec_get_health(self) -> Option<Seq<char>> {
        match self.spec_payload("MainCharacterHealth"@) {
            Some(p) => spec_dec_numtext(p),
            None => None,
        }
    }

    pub fn get_health(&self) -> (r: Option<String>)
        ensures
            r.deep_view() == self.spec_get_health(),
    {
        match self.payload("MainCharacterHealth") {
            Some(p) => dec_numtext(p),
            None => None,
        }
    }

    pub open spec fn spec_get_character_items(self) -> Option<ItemTreeDataV> {
        match self.spec_payload("Item/MainCharacterItemData"@) {
            Some(p) => spec_dec_item_tree(p),
            None => None,
        }
    }

    pub fn get_character_items(&self) -> (r: Option<ItemTreeData>)
        ensures
            r.deep_view() == self.spec_get_character_items(),
    {
        match self.payload("Item/MainCharacterItemData") {
            Some(p) => dec_item_tree(p),
            None => None,
        }
    }

    pub open spec fn spec_get_currency(self) -> Option<EconomyDataV> {
        match self.spec_payload("EconomyData"@) {
            Some(p) => spec_dec_economy(p),
            None => None,
        }
    }

    pub fn get_currency(&self) -> (r: Option<EconomyData>)
        ensures
            r.deep_view() == self.spec_get_currency(),
    {
        match self.payload("EconomyData") {
            Some(p) => dec_economy(p),
            None => None,
        }
    }

    pub open spec fn spec_get_quests(self) -> Option<QuestDataV> {
        match self.spec_payload("QuestData"@) {
            Some(p) => spec_dec_quest_data(p),
            None => None,
        }
    }

    pub fn get_quests(&self) -> (r: Option<QuestData>)
        ensures
            r.deep_view() == self.spec_get_quests(),
    {
        match self.payload("QuestData") {
            Some(p) => dec_quest_data(p),
            None => None,
        }
    }

    pub open spec fn spec_get_exp(self) -> Option<i32> {
        match self.spec_payload("EXP_Value"@) {
            Some(p) => spec_dec_i32(p),
            None => None,
        }
    }

    pub fn get_exp(&self) -> (r: Option<i32>)
        ensures
            r == self.spec_get_exp(),
    {
        match self.payload("EXP_Value") {
            Some(p) => dec_i32(p),
            None => None,
        }
    }

    pub open spec fn spec_get_custom_face(self) -> Option<CustomFaceSettingDataV> {
        match self.spec_payload("CustomFace_MainCharacter"@) {
            Some(p) => spec_dec_custom_face(p),
            None => None,
        }
    }

    pub fn get_custom_face(&self) -> (r: Option<CustomFaceSettingData>)
        ensures
            r.deep_view() == self.spec_get_custom_face(),
    {
        match self.payload("CustomFace_MainCharacter") {
            Some(p) => dec_custom_face(p),
            None => None,
        }
    }

    /// Kill counts grouped by key prefix, as (enemy name, count) pairs.
    #[verifier::loop_isolation(false)]
    pub fn get_kill_stats(&self) -> (r: Vec<(String, i32)>)
        ensures
            r.deep_view() == spec_kill_stats(self.store_view()),
    {
        let ghost sv = self.store_view();
        proof {
            lemma_entries_view(self.data@);
            assert(sv.take(0) =~= Seq::<(Seq<char>, Jv)>::empty());
        }
        let mut out: Vec<(String, i32)> = Vec::new();
        proof {
            assert(out.deep_view() =~= Seq::<(Seq<char>, i32)>::empty());
        }
        let mut j: usize = 0;
        while j < self.data.len()
            invariant
                0 <= j <= self.data.len(),
                spec_kill_stats(sv.take(j as int)) == out.deep_view(),
            decreases self.data.len() - j,
        {
            let key = &self.data[j].0;
            let n = key.as_str().unicode_len();
            let ghost prev = out.deep_view();
            let hit = crate::format::begins_x(key.as_str(), 0, n, "Count/Kills/");
            if hit {
                let decoded = match peel(&self.data[j].1) {
                    Some(p) => dec_i32(p),
                    None => None,
                };
                match decoded {
                    Some(c) => {
                        let pn = "Count/Kills/".unicode_len();
                        let suffix = String::from_str(key.as_str().substring_char(pn, n));
                        out.push((suffix, c));
                    },
                    None => {},
                }
            }
            proof {
                assert(sv.take(j as int + 1).drop_last() =~= sv.take(j as int));
                assert(sv.take(j as int + 1).last() == sv[j as int]);
                assert(sv[j as int] == (self.data@[j as int].0@, self.data@[j as int].1@));
                assert(out.deep_view() =~= spec_kill_stats(sv.take(j as int + 1)));
            }
            j = j + 1;
        }
        proof {
            assert(sv.take(self.data@.len() as int) =~= sv);
        }
        out
    }

    /// Names of scenes whose visited flag decodes to true.
    #[verifier::loop_isolation(false)]
    pub fn get_visited_scenes(&self) -> (r: Vec<String>)
        ensures
            r.deep_view() == spec_visited_scenes(self.store_view()),
    {
        let ghost sv = self.store_view();
        proof {
            lemma_entries_view(self.data@);
            assert(sv.take(0) =~= Seq::<(Seq<char>, Jv)>::empty());
        }
        let mut out: Vec<String> = Vec::new();
        proof {
            assert(out.deep_view() =~= Seq::<Seq<char>>::empty());
        }
        let mut j: usize = 0;
        while j < self.data.len()
            invariant
                0 <= j <= self.data.len(),
                spec_visited_scenes(sv.take(j as int)) == out.deep_view(),
            decreases self.data.len() - j,
        {
            let key = &self.data[j].0;
            let n = key.as_str().unicode_len();
            let hit = crate::format::begins_x(key.as_str(), 0, n, "MultiSceneCore_Visited_");
            if hit {
                let decoded = match peel(&self.data[j].1) {
                    Some(p) => dec_bool(p),
                    None => None,
                };
                match decoded {
                    Some(true) => {
                        let pn = "MultiSceneCore_Visited_".unicode_len();
                        let suffix = String::from_str(key.as_str().substring_char(pn, n));
                        out.push(suffix);
                    },
                    _ => {},
                }
            }
            proof {
                assert(sv.take(j as int + 1).drop_last() =~= sv.take(j as int));
                assert(sv.take(j as int + 1).last() == sv[j as int]);
                assert(sv[j as int] == (self.data@[j as int].0@, self.data@[j as int].1@));
                assert(out.deep_view() =~= spec_visited_scenes(sv.take(j as int + 1)));
            }
            j = j + 1;
        }
        proof {
            assert(sv.take(self.data@.len() as int) =~= sv);
        }
        out
    }

    /// Construction sites and their completion flags.
    #[verifier::loop_isolation(false)]
    pub fn get_construction_sites(&self) -> (r: Vec<(String, bool)>)
        ensures
            r.deep_view() == spec_construction_sites(self.store_view()),
    {
        let ghost sv = self.store_view();
        proof {
            lemma_entries_view(self.data@);
            assert(sv.take(0) =~= Seq::<(Seq<char>, Jv)>::empty());
        }
        let mut out: Vec<(String, bool)> = Vec::new();
        proof {
            assert(out.deep_view() =~= Seq::<(Seq<char>, bool)>::empty());
        }
        let mut j: usize = 0;
        while j < self.data.len()
            invariant
                0 <= j <= self.data.len(),
                spec_construction_sites(sv.take(j as int)) == out.deep_view(),
            decreases self.data.len() - j,
        {
            let key = &self.data[j].0;
            let n = key.as_str().unicode_len();
            let hit = crate::format::begins_x(key.as_str(), 0, n, "ConstructionSite_");
            if hit {
                let decoded = match peel(&self.data[j].1) {
                    Some(p) => dec_bool(p),
                    None => None,
                };
                match decoded {
                    Some(b) => {
                        let pn = "ConstructionSite_".unicode_len();
                        let suffix = String::from_str(key.as_str().substring_char(pn, n));
                        out.push((suffix, b));
                    },
                    None => {},
                }
            }
            proof {
                assert(sv.take(j as int + 1).drop_last() =~= sv.take(j as int));
                assert(sv.take(j as int + 1).last() == sv[j as int]);
                assert(sv[j as int] == (self.data@[j as int].0@, self.data@[j as int].1@));
                assert(out.deep_view() =~= spec_construction_sites(sv.take(j as int + 1)));
            }
            j = j + 1;
        }
        proof {
            assert(sv.take(self.data@.len() as int) =~= sv);
        }
        out
    }

    /// Serialize the whole store back to compact object-notation text.
    pub fn to_json(&self) -> (r: String)
        ensures
            r@ == seq!['{'] + jv_entries_text(self.store_view()) + seq!['}'],
    {
        entries_json_text(&self.data)
    }
}

} // verus!
