use savefile_parse::archived::{Archive, EconomyData, MasterKey};
use savefile_parse::extractor::SaveData;
use savefile_parse::format::fix_json_format;
use savefile_parse::value::{i64_text, JsonValue};
use savefile_parse::{add, assemble, process_file, DecodeError};

fn tagged(tag: &str, value: JsonValue) -> JsonValue {
    JsonValue::Mapping(vec![
        ("__type".to_string(), JsonValue::Text(tag.to_string())),
        ("value".to_string(), value),
    ])
}

fn entry(key: &str, value: JsonValue) -> (String, JsonValue) {
    (key.to_string(), value)
}

#[test]
fn rewrite_boolean() {
    assert_eq!(
        fix_json_format("\"__type\": \"bool\"true"),
        "\"__type\": \"bool\", \"value\": true"
    );
    assert_eq!(
        fix_json_format("\"__type\" : \"bool\"false"),
        "\"__type\": \"bool\", \"value\": false"
    );
}

#[test]
fn rewrite_signed_integer() {
    assert_eq!(
        fix_json_format("\"__type\": \"int\"-42"),
        "\"__type\": \"int\", \"value\": -42"
    );
    assert_eq!(
        fix_json_format("\"__type\":\"int\"7"),
        "\"__type\": \"int\", \"value\": 7"
    );
}

#[test]
fn rewrite_decimal() {
    assert_eq!(
        fix_json_format("\"__type\": \"float\"3.14"),
        "\"__type\": \"float\", \"value\": 3.14"
    );
}

#[test]
fn rewrite_leaves_sound_text_alone() {
    let sound = "{\"a\": {\"__type\": \"int\", \"value\": 3}, \"b\": [1, 2]}";
    assert_eq!(fix_json_format(sound), sound);
    // A float tag glued to a bare integer is an open question and stays as it is.
    assert_eq!(fix_json_format("\"__type\": \"float\"42"), "\"__type\": \"float\"42");
    // Unknown tags are never repaired.
    assert_eq!(fix_json_format("\"__type\": \"vec\"1,2"), "\"__type\": \"vec\"1,2");
}

#[test]
fn rewrite_is_idempotent_on_samples() {
    let samples = [
        "\"__type\": \"bool\"true",
        "\"__type\": \"int\"-42",
        "\"__type\": \"float\"3.14",
        "{\"k\": {\"__type\" : \"int\"5}, \"m\": {\"__type\": \"float\"1.25}}",
        "\"__type\": \"float\"3.14.15",
        "no markers at all",
        "\"__type\": \"int\"",
    ];
    for s in samples {
        let once = fix_json_format(s);
        let twice = fix_json_format(&once);
        assert_eq!(once, twice);
    }
}

#[test]
fn rewrite_inside_document() {
    let raw = "{\"EXP_Value\": {\"__type\": \"int\"88}, \"Flag\": {\"__type\": \"bool\"true}}";
    let fixed = fix_json_format(raw);
    assert_eq!(
        fixed,
        "{\"EXP_Value\": {\"__type\": \"int\", \"value\": 88}, \
         \"Flag\": {\"__type\": \"bool\", \"value\": true}}"
    );
}

#[test]
fn parse_roundtrip_preserves_store() {
    let raw = "{\"EXP_Value\": {\"__type\": \"int\"88}, \
               \"Name\": {\"__type\": \"string\", \"value\": \"a\\\"b\\\\c\\nd\"}, \
               \"Pi\": {\"__type\": \"float\"3.5}, \
               \"List\": [1, true, null, \"x\"], \
               \"Nested\": {\"deep\": {\"deeper\": [{}]}}}";
    let store = SaveData::from_json(&fix_json_format(raw)).unwrap();
    let text = store.to_json();
    let again = SaveData::from_json(&text).unwrap();
    assert_eq!(store.data, again.data);
}

#[test]
fn roundtrip_text_reparses_under_serde() {
    let raw = "{\"A\": {\"__type\": \"float\"2.75}, \"B\": \"line\\nbreak\\u0001\"}";
    let store = SaveData::from_json(&fix_json_format(raw)).unwrap();
    let text = store.to_json();
    let v: serde_json::Value = serde_json::from_str(&text).expect("library output reparses");
    assert_eq!(v["B"], serde_json::Value::String("line\nbreak\u{1}".to_string()));
}

#[test]
fn structural_failure_is_fatal() {
    assert!(SaveData::from_json("{\"a\": ").is_err());
    assert!(SaveData::from_json("[1, 2]").is_err());
    assert!(SaveData::from_json("").is_err());
    assert!(SaveData::from_json("{\"a\": 1}").is_ok());
}

#[test]
fn process_rejects_broken_documents() {
    assert_eq!(process_file(b"{\"a\": "), Err(DecodeError::Structure));
    assert_eq!(process_file(&[0xff, 0xfe, 0x00]), Err(DecodeError::Encoding));
}

#[test]
fn prefix_group_extraction() {
    let store = SaveData {
        data: vec![
            entry("Count/Kills/Wolf", tagged("int", JsonValue::Int(5))),
            entry("Other", tagged("int", JsonValue::Int(9))),
            entry("Count/Kills/Bear", tagged("int", JsonValue::Int(2))),
        ],
    };
    let mut stats = store.get_kill_stats();
    stats.sort();
    assert_eq!(
        stats,
        vec![("Bear".to_string(), 2), ("Wolf".to_string(), 5)]
    );
}

#[test]
fn prefix_group_drops_undecodable_members() {
    let store = SaveData {
        data: vec![
            entry("Count/Kills/Wolf", tagged("int", JsonValue::Int(5))),
            entry("Count/Kills/Ghost", tagged("int", JsonValue::Text("five".to_string()))),
            entry("Count/Kills/Husk", JsonValue::Int(3)),
        ],
    };
    let stats = store.get_kill_stats();
    assert_eq!(stats, vec![("Wolf".to_string(), 5)]);
}

#[test]
fn visited_scenes_require_true() {
    let store = SaveData {
        data: vec![
            entry("MultiSceneCore_Visited_Town", tagged("bool", JsonValue::Bool(true))),
            entry("MultiSceneCore_Visited_Cave", tagged("bool", JsonValue::Bool(false))),
            entry("MultiSceneCore_Visited_Lab", tagged("bool", JsonValue::Null)),
        ],
    };
    assert_eq!(store.get_visited_scenes(), vec!["Town".to_string()]);
}

#[test]
fn construction_sites_keep_both_flags() {
    let store = SaveData {
        data: vec![
            entry("ConstructionSite_Mill", tagged("bool", JsonValue::Bool(false))),
            entry("ConstructionSite_Dock", tagged("bool", JsonValue::Bool(true))),
        ],
    };
    assert_eq!(
        store.get_construction_sites(),
        vec![("Mill".to_string(), false), ("Dock".to_string(), true)]
    );
}

#[test]
fn scalar_getters() {
    let store = SaveData {
        data: vec![
            entry("EXP_Value", tagged("int", JsonValue::Int(88))),
            entry("SaveTime", tagged("int", JsonValue::Int(123456))),
            entry("MainCharacterHealth", tagged("float", JsonValue::Float("87.5".to_string()))),
        ],
    };
    assert_eq!(store.get_exp(), Some(88));
    assert_eq!(store.get_save_time(), Some(123456));
    assert_eq!(store.get_health(), Some("87.5".to_string()));
    assert_eq!(store.get_version(), None);
}

#[test]
fn integral_health_gets_fractional_part() {
    let store = SaveData {
        data: vec![entry("MainCharacterHealth", tagged("float", JsonValue::Int(90)))],
    };
    assert_eq!(store.get_health(), Some("90.0".to_string()));
}

#[test]
fn version_getter_decodes_camel_case_fields() {
    let version = JsonValue::Mapping(vec![
        ("mainVersion".to_string(), JsonValue::Int(1)),
        ("subVersion".to_string(), JsonValue::Int(4)),
        ("buildVersion".to_string(), JsonValue::Int(27)),
        ("suffix".to_string(), JsonValue::Text("b".to_string())),
    ]);
    let store = SaveData {
        data: vec![entry("CreatedWithVersion", tagged("VersionData", version))],
    };
    let v = store.get_version().unwrap();
    assert_eq!(
        (v.main_version, v.sub_version, v.build_version, v.suffix.as_str()),
        (1, 4, 27, "b")
    );
}

#[test]
fn master_keys_getter() {
    let keys = JsonValue::Sequence(vec![
        JsonValue::Mapping(vec![
            ("id".to_string(), JsonValue::Int(3)),
            ("active".to_string(), JsonValue::Bool(true)),
        ]),
        JsonValue::Mapping(vec![
            ("id".to_string(), JsonValue::Int(9)),
            ("active".to_string(), JsonValue::Bool(false)),
        ]),
    ]);
    let store = SaveData {
        data: vec![entry("MasterKeys", tagged("keys", keys))],
    };
    assert_eq!(
        store.get_master_keys(),
        Some(vec![
            MasterKey { id: 3, active: true },
            MasterKey { id: 9, active: false },
        ])
    );
}

#[test]
fn list_decode_is_all_or_nothing() {
    let keys = JsonValue::Sequence(vec![
        JsonValue::Mapping(vec![
            ("id".to_string(), JsonValue::Int(3)),
            ("active".to_string(), JsonValue::Bool(true)),
        ]),
        JsonValue::Text("broken".to_string()),
    ]);
    let store = SaveData {
        data: vec![entry("MasterKeys", tagged("keys", keys))],
    };
    assert_eq!(store.get_master_keys(), None);
}

#[test]
fn default_on_miss() {
    let store = SaveData {
        data: vec![
            // Present but the wrong shape: misses, never fails.
            entry("EXP_Value", tagged("int", JsonValue::Text("not a number".to_string()))),
            // Missing the "value" member: the wrapper shape mismatches.
            entry(
                "SaveTime",
                JsonValue::Mapping(vec![(
                    "__type".to_string(),
                    JsonValue::Text("int".to_string()),
                )]),
            ),
        ],
    };
    let archive = assemble(&store);
    assert_eq!(archive, Archive::default());
    assert_eq!(archive.exp, 0);
    assert_eq!(archive.save_time, 0);
    assert_eq!(archive.health, "0.0");
    assert_eq!(archive.version, "");
    assert!(archive.kills.is_empty());
}

#[test]
fn assemble_fills_hit_fields() {
    let economy = JsonValue::Mapping(vec![
        ("money".to_string(), JsonValue::Int(250)),
        (
            "unlockedItems".to_string(),
            JsonValue::Sequence(vec![JsonValue::Int(1), JsonValue::Int(2)]),
        ),
        (
            "unlockesWaitingForConfirm".to_string(),
            JsonValue::Sequence(vec![]),
        ),
    ]);
    let store = SaveData {
        data: vec![
            entry("EXP_Value", tagged("int", JsonValue::Int(88))),
            entry("EconomyData", tagged("EconomyData", economy)),
            entry("Count/Kills/Wolf", tagged("int", JsonValue::Int(5))),
        ],
    };
    let archive = assemble(&store);
    assert_eq!(archive.exp, 88);
    assert_eq!(
        archive.economy_data,
        EconomyData { money: 250, unlocked_items: vec![1, 2], unlockes_waiting_for_confirm: vec![] }
    );
    assert_eq!(archive.kills.len(), 1);
    assert_eq!(archive.kills[0].monster_name, "Wolf");
    assert_eq!(archive.kills[0].count, 5);
}

#[test]
fn kill_list_is_replaced_wholesale() {
    let mut archive = Archive::default();
    let first = vec![entry("Count/Kills/Wolf", tagged("int", JsonValue::Int(5)))];
    archive.extract_kill_counts(&first);
    assert_eq!(archive.kills.len(), 1);
    let second = vec![entry("Count/Kills/Bear", tagged("int", JsonValue::Int(2)))];
    archive.extract_kill_counts(&second);
    assert_eq!(archive.kills.len(), 1);
    assert_eq!(archive.kills[0].monster_name, "Bear");
}

#[test]
fn raw_kill_read_skips_tag_check() {
    // The grouping pass reads the "value" member without demanding "__type".
    let mut archive = Archive::default();
    let data = vec![entry(
        "Count/Kills/Husk",
        JsonValue::Mapping(vec![("value".to_string(), JsonValue::Int(7))]),
    )];
    archive.extract_kill_counts(&data);
    assert_eq!(archive.kills.len(), 1);
    assert_eq!(archive.kills[0].count, 7);
}

#[test]
fn process_full_document() {
    let raw = "{\"CreatedWithVersion\": {\"__type\": \"VersionData\", \"value\": \
        {\"mainVersion\": 1, \"subVersion\": 2, \"buildVersion\": 3, \"suffix\": \"\"}},\
        \"EXP_Value\": {\"__type\": \"int\"88},\
        \"MainCharacterHealth\": {\"__type\": \"float\"87.5},\
        \"Count/Kills/Wolf\": {\"__type\": \"int\"5}}";
    let out = process_file(raw.as_bytes()).unwrap();
    let v: serde_json::Value = serde_json::from_str(&out).expect("archive text reparses");
    assert_eq!(v["exp"], serde_json::Value::from(88));
    assert_eq!(v["version"], serde_json::Value::from("游戏版本: 1.2.3"));
    assert_eq!(v["health"].as_f64(), Some(87.5));
    assert_eq!(v["kills"][0]["masterName"], serde_json::Value::from("Wolf"));
    assert_eq!(v["kills"][0]["count"], serde_json::Value::from(5));
    assert_eq!(v["save_time"], serde_json::Value::from(0));
    assert_eq!(v["level"], serde_json::Value::from(0));
}

#[test]
fn decimal_text_of_extremes() {
    assert_eq!(i64_text(i64::MIN), "-9223372036854775808");
    assert_eq!(i64_text(i64::MAX), "9223372036854775807");
    assert_eq!(i64_text(0), "0");
    assert_eq!(i64_text(-7), "-7");
}

#[test]
fn checked_add() {
    assert_eq!(add(2, 3), 5);
}

fn part(seed: i64) -> JsonValue {
    JsonValue::Mapping(vec![
        ("radius".to_string(), JsonValue::Float("0.5".to_string())),
        ("color".to_string(), color_value()),
        ("height".to_string(), JsonValue::Int(seed)),
        ("heightOffset".to_string(), JsonValue::Float("0.1".to_string())),
        ("scale".to_string(), JsonValue::Float("1.0".to_string())),
        ("twist".to_string(), JsonValue::Float("0.0".to_string())),
        ("distanceAngle".to_string(), JsonValue::Float("12.5".to_string())),
        ("leftRightAngle".to_string(), JsonValue::Float("-3.25".to_string())),
    ])
}

fn color_value() -> JsonValue {
    JsonValue::Mapping(vec![
        ("r".to_string(), JsonValue::Float("0.25".to_string())),
        ("g".to_string(), JsonValue::Int(1)),
        ("b".to_string(), JsonValue::Float("0.75".to_string())),
        ("a".to_string(), JsonValue::Int(0)),
    ])
}

#[test]
fn custom_face_getter() {
    let head = JsonValue::Mapping(vec![
        ("mainColor".to_string(), color_value()),
        ("headScaleOffset".to_string(), JsonValue::Float("0.5".to_string())),
        ("foreheadHeight".to_string(), JsonValue::Float("1.5".to_string())),
        ("foreheadRound".to_string(), JsonValue::Float("0.9".to_string())),
    ]);
    let face = JsonValue::Mapping(vec![
        ("savedSetting".to_string(), JsonValue::Bool(true)),
        ("headSetting".to_string(), head),
        ("hairId".to_string(), JsonValue::Int(3)),
        ("hairInfo".to_string(), part(1)),
        ("eyeId".to_string(), JsonValue::Int(4)),
        ("eyeInfo".to_string(), part(2)),
        ("eyebrowId".to_string(), JsonValue::Int(5)),
        ("eyebrowInfo".to_string(), part(3)),
        ("mouthId".to_string(), JsonValue::Int(6)),
        ("mouthInfo".to_string(), part(4)),
        ("tailId".to_string(), JsonValue::Int(7)),
        ("tailInfo".to_string(), part(5)),
        ("footId".to_string(), JsonValue::Int(8)),
        ("footInfo".to_string(), part(6)),
        ("wingId".to_string(), JsonValue::Int(9)),
        ("wingInfo".to_string(), part(7)),
    ]);
    let store = SaveData {
        data: vec![entry("CustomFace_MainCharacter", tagged("CustomFaceSettingData", face))],
    };
    let decoded = store.get_custom_face().unwrap();
    assert!(decoded.saved_setting);
    assert_eq!(decoded.hair_id, 3);
    assert_eq!(decoded.wing_id, 9);
    assert_eq!(decoded.head_setting.main_color.g, "1.0");
    assert_eq!(decoded.eye_info.left_right_angle, "-3.25");
    // One missing member misses the whole record, never fails.
    let partial = JsonValue::Mapping(vec![("savedSetting".to_string(), JsonValue::Bool(true))]);
    let store2 = SaveData {
        data: vec![entry("CustomFace_MainCharacter", tagged("CustomFaceSettingData", partial))],
    };
    assert!(store2.get_custom_face().is_none());
}

#[test]
fn item_tree_through_pipeline() {
    let raw = "{\"Item/MainCharacterItemData\": {\"__type\": \"ItemTreeData\", \"value\": \
        {\"rootInstanceID\": 10, \"entries\": [ \
          {\"instanceID\": 10, \"typeID\": 77, \
           \"variables\": [{\"key\": \"K\", \"dataType\": 2, \"data\": \"QQ==\", \"display\": false}], \
           \"slotContents\": [{\"slot\": \"Hand\", \"instanceID\": 11}], \
           \"inventory\": [{\"position\": 0, \"instanceID\": 11}], \
           \"inventorySortLocks\": []}]}}, \
        \"GameClock\": {\"__type\": \"GameClock\", \"value\": \
        {\"days\": 12, \"realTimePlayedTicks\": 420000, \"secondsOfDay\": 12345.5}}}";
    let store = SaveData::from_json(&fix_json_format(raw)).unwrap();
    let tree = store.get_character_items().unwrap();
    assert_eq!(tree.root_instance_id, 10);
    assert_eq!(tree.entries.len(), 1);
    assert_eq!(tree.entries[0].variables[0].data, "QQ==");
    let clock = store.get_game_lock().unwrap();
    assert_eq!(clock.days, 12);
    assert_eq!(clock.seconds_of_day, 420000);
    assert_eq!(clock.real_time_played_ticks, "12345.5");
    let out = process_file(raw.as_bytes()).unwrap();
    let v: serde_json::Value = serde_json::from_str(&out).expect("archive text reparses");
    assert_eq!(v["characterItemData"]["rootInstanceID"], serde_json::Value::from(10));
    assert_eq!(
        v["characterItemData"]["entries"][0]["slotContents"][0]["slot"],
        serde_json::Value::from("Hand")
    );
    assert_eq!(v["gameClock"]["days"], serde_json::Value::from(12));
    assert_eq!(v["gameClock"]["secondsOfDay"].as_f64(), Some(12345.5));
}

#[test]
fn huge_numbers_keep_their_text() {
    let raw = "{\"Big\": 18446744073709551615, \"Tiny\": 1e-3}";
    let store = SaveData::from_json(raw).unwrap();
    let text = store.to_json();
    let v: serde_json::Value = serde_json::from_str(&text).expect("reparses");
    assert_eq!(v["Big"].as_u64(), Some(18446744073709551615));
    assert_eq!(v["Tiny"].as_f64(), Some(0.001));
}

#[test]
fn serializer_exact_text() {
    let store = SaveData {
        data: vec![
            entry("a", JsonValue::Int(1)),
            entry("b", JsonValue::Sequence(vec![JsonValue::Bool(true), JsonValue::Null])),
            entry("c", JsonValue::Text("x\"y".to_string())),
        ],
    };
    assert_eq!(store.to_json(), "{\"a\":1,\"b\":[true,null],\"c\":\"x\\\"y\"}");
    let empty = SaveData { data: vec![] };
    assert_eq!(empty.to_json(), "{}");
}

#[test]
fn rewrite_accepts_spread_whitespace() {
    assert_eq!(
        fix_json_format("\"__type\"\t:\n  \"int\"5"),
        "\"__type\": \"int\", \"value\": 5"
    );
}
