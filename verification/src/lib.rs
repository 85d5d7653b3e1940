use vstd::prelude::*;
use vstd::string::*;

pub mod archived;
pub mod extractor;
pub mod format;
pub mod parsing;
pub mod value;

use crate::archived::{
    archive_text, spec_archive_default, spec_archive_text, spec_dec_economy, spec_dec_game_clock,
    spec_dec_inventory, spec_dec_item_tree, spec_dec_quest_data, spec_dec_vec_master_key,
    spec_dec_vec_stash, spec_dec_version, spec_kill_counts, Archive, ArchiveV, VersionData,
    VersionDataV,
};
use crate::extractor::{spec_payload_of, SaveData};
use crate::format::{fix_json_format, norm};
use crate::parsing::{decode_utf8, spec_parse_doc, utf8_decode};
use crate::value::{i64_text, int_text, spec_dec_i32, spec_dec_numtext, Jv};

verus! {

/// Fatal outcomes of the composed pipeline.
#[derive(Debug, Clone, Copy, PartialEq, Eq, Structural)]
pub enum DecodeError {
    /// The input bytes are not valid text.
    Encoding,
    /// The normalized text is not a well-formed mapping document.
    Structure,
}

/// Human-readable version line assembled from a version record.
pub open spec fn spec_version_line(v: VersionDataV) -> Seq<char> {
    "游戏版本: "@ + int_text(v.main_version as int) + "."@ + int_text(v.sub_version as int)
        + "."@ + int_text(v.build_version as int) + v.suffix
}

fn version_line(v: &VersionData) -> (r: String)
    ensures
        r@ == spec_version_line(v.deep_view()),
{
    let mut out = String::from_str("游戏版本: ");
    let main_part = i64_text(v.main_version as i64);
    out.append(main_part.as_str());
    out.append(".");
    let sub_part = i64_text(v.sub_version as i64);
    out.append(sub_part.as_str());
    out.append(".");
    let build_part = i64_text(v.build_version as i64);
    out.append(build_part.as_str());
    out.append(v.suffix.as_str());
    proof {
        assert(out@ =~= spec_version_line(v.deep_view()));
    }
    out
}

/// The archive assembled from one store's entry list: each field takes its
/// accessor's value where the decode lands, and its default where it
/// misses.  The kill list is rebuilt wholesale from the prefix group.
pub open spec fn spec_assemble_entries(entries: Seq<(Seq<char>, Jv)>) -> ArchiveV {
    let d = spec_archive_default();
    ArchiveV {
        version: match spec_payload_of(entries, "CreatedWithVersion"@) {
            Some(p) => match spec_dec_version(p) {
                Some(v) => spec_version_line(v),
                None => d.version,
            },
            None => d.version,
        },
        level: d.level,
        exp: match spec_payload_of(entries, "EXP_Value"@) {
            Some(p) => match spec_dec_i32(p) {
                Some(e) => e,
                None => d.exp,
            },
            None => d.exp,
        },
        health: match spec_payload_of(entries, "MainCharacterHealth"@) {
            Some(p) => match spec_dec_numtext(p) {
                Some(h) => h,
                None => d.health,
            },
            None => d.health,
        },
        game_lock: match spec_payload_of(entries, "GameClock"@) {
            Some(p) => match spec_dec_game_clock(p) {
                Some(g) => g,
                None => d.game_lock,
            },
            None => d.game_lock,
        },
        economy_data: match spec_payload_of(entries, "EconomyData"@) {
            Some(p) => match spec_dec_economy(p) {
                Some(e) => e,
                None => d.economy_data,
            },
            None => d.economy_data,
        },
        master_key: match spec_payload_of(entries, "MasterKeys"@) {
            Some(p) => match spec_dec_vec_master_key(p) {
                Some(k) => k,
                None => d.master_key,
            },
            None => d.master_key,
        },
        death_list: match spec_payload_of(entries, "DeathList"@) {
            Some(p) => match spec_dec_vec_stash(p) {
                Some(x) => x,
                None => d.death_list,
            },
            None => d.death_list,
        },
        quests: match spec_payload_of(entries, "QuestData"@) {
            Some(p) => match spec_dec_quest_data(p) {
                Some(q) => q,
                None => d.quests,
            },
            None => d.quests,
        },
        inventory: d.inventory,
        kills: spec_kill_counts(entries),
        save_time: match spec_payload_of(entries, "SaveTime"@) {
            Some(p) => match spec_dec_i32(p) {
                Some(t) => t,
                None => d.save_time,
            },
            None => d.save_time,
        },
        player_storage: match spec_payload_of(entries, "Inventory/PlayerStorage"@) {
            Some(p) => match spec_dec_inventory(p) {
                Some(i) => i,
                None => d.player_storage,
            },
            None => d.player_storage,
        },
        inventory_safe: match spec_payload_of(entries, "Inventory/Inventory_Safe"@) {
            Some(p) => match spec_dec_inventory(p) {
                Some(i) => i,
                None => d.inventory_safe,
            },
            None => d.inventory_safe,
        },
        character_item_data: match spec_payload_of(entries, "Item/MainCharacterItemData"@) {
            Some(p) => match spec_dec_item_tree(p) {
                Some(t) => t,
                None => d.character_item_data,
            },
            None => d.character_item_data,
        },
    }
}

/// Run the fixed accessor sequence against one store and produce the
/// consolidated archive.  No individual miss can fail assembly: each missed
/// field keeps its default.
pub fn assemble(save: &SaveData) -> (r: Archive)
    ensures
        r.deep_view() == spec_assemble_entries(save.store_view()),
{
    let mut archive = Archive::default();
    match save.get_version() {
        Some(version) => {
            archive.version = version_line(&version);
        },
        None => {},
    }
    match save.get_currency() {
        Some(economy_data) => {
            archive.economy_data = economy_data;
        },
        None => {},
    }
    match save.get_exp() {
        Some(exp) => {
            archive.exp = exp;
        },
        None => {},
    }
    match save.get_master_keys() {
        Some(keys) => {
            archive.master_key = keys;
        },
        None => {},
    }
    match save.get_death_list() {
        Some(death) => {
            archive.death_list = death;
        },
        None => {},
    }
    match save.get_save_time() {
        Some(save_time) => {
            archive.save_time = save_time;
        },
        None => {},
    }
    match save.get_player_storage() {
        Some(inventory) => {
            archive.player_storage = inventory;
        },
        None => {},
    }
    match save.get_inventory_safe() {
        Some(inventory) => {
            archive.inventory_safe = inventory;
        },
        None => {},
    }
    match save.get_health() {
        Some(health) => {
            archive.health = health;
        },
        None => {},
    }
    match save.get_character_items() {
        Some(items) => {
            archive.character_item_data = items;
        },
        None => {},
    }
    match save.get_game_lock() {
        Some(game_lock) => {
            archive.game_lock = game_lock;
        },
        None => {},
    }
    archive.extract_kill_counts(&save.data);
    match save.get_quests() {
        Some(quests) => {
            archive.quests = quests;
        },
        None => {},
    }
    archive
}

/// Default-on-miss: a field whose key is absent, or whose payload does not
/// match the requested shape, keeps its declared default in the assembled
/// archive; assembly itself always succeeds.
pub proof fn lemma_assemble_default_on_miss(entries: Seq<(Seq<char>, Jv)>)
    ensures
        (match spec_payload_of(entries, "EXP_Value"@) {
            Some(p) => spec_dec_i32(p) is None,
            None => true,
        }) ==> spec_assemble_entries(entries).exp == spec_archive_default().exp,
        (match spec_payload_of(entries, "CreatedWithVersion"@) {
            Some(p) => spec_dec_version(p) is None,
            None => true,
        }) ==> spec_assemble_entries(entries).version == spec_archive_default().version,
        (match spec_payload_of(entries, "MainCharacterHealth"@) {
            Some(p) => spec_dec_numtext(p) is None,
            None => true,
        }) ==> spec_assemble_entries(entries).health == spec_archive_default().health,
        (match spec_payload_of(entries, "GameClock"@) {
            Some(p) => spec_dec_game_clock(p) is None,
            None => true,
        }) ==> spec_assemble_entries(entries).game_lock == spec_archive_default().game_lock,
        (match spec_payload_of(entries, "EconomyData"@) {
            Some(p) => spec_dec_economy(p) is None,
            None => true,
        }) ==> spec_assemble_entries(entries).economy_data == spec_archive_default().economy_data,
        (match spec_payload_of(entries, "MasterKeys"@) {
            Some(p) => spec_dec_vec_master_key(p) is None,
            None => true,
        }) ==> spec_assemble_entries(entries).master_key == spec_archive_default().master_key,
        (match spec_payload_of(entries, "DeathList"@) {
            Some(p) => spec_dec_vec_stash(p) is None,
            None => true,
        }) ==> spec_assemble_entries(entries).death_list == spec_archive_default().death_list,
        (match spec_payload_of(entries, "QuestData"@) {
            Some(p) => spec_dec_quest_data(p) is None,
            None => true,
        }) ==> spec_assemble_entries(entries).quests == spec_archive_default().quests,
        (match spec_payload_of(entries, "SaveTime"@) {
            Some(p) => spec_dec_i32(p) is None,
            None => true,
        }) ==> spec_assemble_entries(entries).save_time == spec_archive_default().save_time,
        (match spec_payload_of(entries, "Inventory/PlayerStorage"@) {
            Some(p) => spec_dec_inventory(p) is None,
            None => true,
        }) ==> spec_assemble_entries(entries).player_storage
            == spec_archive_default().player_storage,
        (match spec_payload_of(entries, "Inventory/Inventory_Safe"@) {
            Some(p) => spec_dec_inventory(p) is None,
            None => true,
        }) ==> spec_assemble_entries(entries).inventory_safe
            == spec_archive_default().inventory_safe,
        (match spec_payload_of(entries, "Item/MainCharacterItemData"@) {
            Some(p) => spec_dec_item_tree(p) is None,
            None => true,
        }) ==> spec_assemble_entries(entries).character_item_data
            == spec_archive_default().character_item_data,
{
}

/// Outcome of the whole pipeline on one byte document: decode the bytes as
/// text, repair the malformed tag syntax, parse the flat store, assemble
/// the archive, and serialize it.
pub open spec fn spec_process(data: Seq<u8>) -> Result<Seq<char>, DecodeError> {
    match utf8_decode(data) {
        Some(text) => match spec_parse_doc(norm(text)) {
            Some(Jv::Mapping(es)) => Ok(spec_archive_text(spec_assemble_entries(es))),
            _ => Err(DecodeError::Structure),
        },
        None => Err(DecodeError::Encoding),
    }
}

/// Composed entry point over one in-memory document.
pub fn process_file(data: &[u8]) -> (r: Result<String, DecodeError>)
    ensures
        match (r, spec_process(data@)) {
            (Ok(out), Ok(text)) => out@ == text,
            (Err(e1), Err(e2)) => e1 == e2,
            _ => false,
        },
{
    let text = match decode_utf8(data) {
        Some(t) => t,
        None => {
            return Err(DecodeError::Encoding);
        },
    };
    let fixed = fix_json_format(text);
    let save = match SaveData::from_json(fixed.as_str()) {
        Ok(s) => s,
        Err(_) => {
            return Err(DecodeError::Structure);
        },
    };
    let archive = assemble(&save);
    Ok(archive_text(&archive))
}

/// Checked addition entry point kept for embedders that probe the module.
pub fn add(a: i32, b: i32) -> (r: i32)
    requires
        i32::MIN <= a + b <= i32::MAX,
    ensures
        r == a + b,
{
    a + b
}

} // verus!
