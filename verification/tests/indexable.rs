use std::collections::HashMap;

use muzui::lang::value::{
    index_bytes, index_each, index_entry, index_integers, index_optional, index_text_entry, Index,
    Indexable, Value,
};
use muzui::records::{
    Avatar, BaseCharacter, BaseWeapon, BlackRelation, Character, Characters, CollectionInfo,
    GenshinIndex, GenshinStats, Home, LevelExp, List, Post, Property, PropertyValue,
    RelicOptions, Response, ResponseError, Role, RoleCombat, SafebooruData, Weapon,
};

fn name(text: &str) -> Index {
    Index::String(text.to_string())
}

fn at(place: usize) -> Index {
    Index::Number(place)
}

/// A record with a field `a` that holds a sequence of integers.
struct Numbers {
    a: Vec<i32>,
}

impl Indexable for Numbers {
    fn index(&self, mut keys: Vec<Index>) -> Option<Value> {
        if keys.is_empty() {
            return None;
        }
        match keys.remove(0) {
            Index::String(field) if field == "a" => index_integers(&self.a, keys),
            _ => None,
        }
    }
}

#[test]
fn sequence_of_integers() {
    let numbers = Numbers { a: vec![7, 8, 9] };
    assert!(matches!(numbers.index(vec![name("a"), at(0)]), Some(Value::I32(7))));
    assert!(numbers.index(vec![name("a"), at(99)]).is_none());
    assert!(numbers.index(vec![name("missing")]).is_none());
    assert!(matches!(index_integers(&vec![7, 8, 9], vec![at(1)]), Some(Value::I32(8))));
    assert!(matches!(index_integers(&vec![7, 8, 9], vec![at(2), name("more")]), Some(Value::I32(9))));
    assert!(index_integers(&vec![7, 8, 9], vec![at(3)]).is_none());
    assert!(index_integers(&vec![7, 8, 9], vec![name("0")]).is_none());
    assert!(index_integers(&vec![7, 8, 9], vec![]).is_none());
    assert!(index_integers(&Vec::new(), vec![at(0)]).is_none());
    let list = List { list: vec![Numbers { a: vec![7, 8, 9] }] };
    assert!(matches!(list.index(vec![name("list"), at(0), name("a"), at(0)]), Some(Value::I32(7))));
    assert!(matches!(list.index(vec![name("list"), at(0), name("a"), at(2)]), Some(Value::I32(9))));
    assert!(list.index(vec![name("list"), at(0), name("a"), at(99)]).is_none());
    assert!(list.index(vec![name("list"), at(0), name("missing")]).is_none());
    assert!(list.index(vec![name("list"), at(1), name("a"), at(0)]).is_none());
    assert!(list.index(vec![name("missing")]).is_none());
    assert!(list.index(vec![name("list")]).is_none());
    assert!(list.index(vec![name("list"), name("a")]).is_none());
    assert!(list.index(vec![at(0)]).is_none());
    assert!(list.index(vec![]).is_none());
}

#[test]
fn sequence_of_byte_strings() {
    let data = SafebooruData { posts: vec![], thumbnails: vec![vec![1, 2], vec![3]] };
    assert!(matches!(
        data.index(vec![name("thumbnails"), at(0)]),
        Some(Value::BinaryData(bytes)) if bytes == vec![1, 2]
    ));
    assert!(matches!(
        data.index(vec![name("thumbnails"), at(1), name("ignored")]),
        Some(Value::BinaryData(bytes)) if bytes == vec![3]
    ));
    assert!(data.index(vec![name("thumbnails"), at(99)]).is_none());
    assert!(data.index(vec![name("thumbnails"), name("0")]).is_none());
    assert!(data.index(vec![name("thumbnails")]).is_none());
    assert!(data.index(vec![name("missing")]).is_none());
    assert!(data.index(vec![name("posts"), at(0), name("id")]).is_none());
    assert!(matches!(
        index_bytes(&vec![vec![5u8]], vec![at(0)]),
        Some(Value::BinaryData(bytes)) if bytes == vec![5]
    ));
}

#[test]
fn scalar_fields_end_the_path() {
    let level = LevelExp { level: 60, exp: 1234, game_id: 2 };
    assert!(matches!(level.index(vec![name("level")]), Some(Value::U8(60))));
    assert!(matches!(level.index(vec![name("exp")]), Some(Value::U64(1234))));
    assert!(matches!(level.index(vec![name("game_id"), name("more"), at(3)]), Some(Value::U8(2))));
    assert!(level.index(vec![name("Level")]).is_none());
    let relation = BlackRelation { is_blacking: true, is_blacked: false };
    assert!(matches!(relation.index(vec![name("is_blacking")]), Some(Value::Boolean(true))));
    assert!(matches!(relation.index(vec![name("is_blacked")]), Some(Value::Boolean(false))));
    assert!(matches!(CollectionInfo { num: -3 }.index(vec![name("num")]), Some(Value::I32(-3))));
    let relics = RelicOptions {
        sand_main_property_list: vec![1, 2],
        goblet_main_property_list: vec![],
        circlet_main_property_list: vec![9],
        sub_property_list: vec![],
    };
    assert!(matches!(
        relics.index(vec![name("sand_main_property_list")]),
        Some(Value::BinaryData(bytes)) if bytes == vec![1, 2]
    ));
    assert!(matches!(ResponseError { retcode: -100 }.index(vec![name("retcode")]), Some(Value::I32(-100))));
}

fn property_value(kind: u32) -> PropertyValue {
    PropertyValue {
        property_type: kind,
        base: "1".to_string(),
        add: "2".to_string(),
        output: "3".to_string(),
    }
}

fn weapon(main: Option<PropertyValue>) -> Weapon {
    Weapon {
        id: 11,
        name: "Sword".to_string(),
        icon: String::new(),
        kind: 1,
        rarity: 5,
        level: 90,
        promote_level: 6,
        kind_name: "One-handed".to_string(),
        desc: "Sharp".to_string(),
        affix_level: 1,
        main_property: main,
        sub_property: None,
    }
}

fn character() -> Character {
    Character {
        base: BaseCharacter {
            id: 1,
            icon: String::new(),
            name: "Traveller".to_string(),
            element: "Anemo".to_string(),
            fetter: 10,
            level: 90,
            rarity: 5,
            actived_constellation_num: 6,
            image: String::new(),
            is_chosen: true,
            side_icon: String::new(),
            weapon_type: 1,
            weapon: BaseWeapon { id: 11, icon: String::new(), kind: 1, rarity: 5, level: 90, affix_level: 1 },
        },
        base_properties: vec![property_value(1), property_value(2)],
        constellations: vec![],
        costumes: vec![],
        element_properties: vec![],
        extra_properties: vec![],
        skills: vec![],
        weapon: weapon(Some(property_value(7))),
        selected_properties: vec![],
    }
}

fn characters() -> Characters {
    Characters {
        avatar_wiki: HashMap::from([(5, "five".to_string()), (70000, "many".to_string())]),
        property_map: HashMap::from([(
            3,
            Property {
                filter_name: "f".to_string(),
                icon: "i".to_string(),
                name: "Attack".to_string(),
                property_type: 3,
            },
        )]),
        list: vec![character()],
        relic_property_options: RelicOptions {
            sand_main_property_list: vec![],
            goblet_main_property_list: vec![],
            circlet_main_property_list: vec![],
            sub_property_list: vec![],
        },
        relic_wiki: HashMap::new(),
        weapon_wiki: HashMap::new(),
    }
}

#[test]
fn nested_records_sequences_options_and_maps() {
    let data = characters();
    assert!(matches!(
        data.index(vec![name("list"), at(0), name("weapon"), name("name")]),
        Some(Value::String(text)) if text == "Sword"
    ));
    assert!(matches!(
        data.index(vec![name("list"), at(0), name("base"), name("weapon"), name("level")]),
        Some(Value::U32(90))
    ));
    assert!(matches!(
        data.index(vec![name("list"), at(0), name("base_properties"), at(1), name("property_type")]),
        Some(Value::U32(2))
    ));
    // An optional is looked through without a key of its own.
    assert!(matches!(
        data.index(vec![name("list"), at(0), name("weapon"), name("main_property"), name("base")]),
        Some(Value::String(text)) if text == "1"
    ));
    assert!(data
        .index(vec![name("list"), at(0), name("weapon"), name("sub_property"), name("base")])
        .is_none());
    assert!(data.index(vec![name("list"), at(1), name("weapon"), name("name")]).is_none());
    assert!(data.index(vec![name("list"), name("0")]).is_none());
    assert!(data.index(vec![name("list"), at(0)]).is_none());
    assert!(matches!(
        data.index(vec![name("avatar_wiki"), at(5)]),
        Some(Value::String(text)) if text == "five"
    ));
    assert!(matches!(
        data.index(vec![name("avatar_wiki"), at(70000), name("ignored")]),
        Some(Value::String(text)) if text == "many"
    ));
    assert!(data.index(vec![name("avatar_wiki"), at(6)]).is_none());
    assert!(data.index(vec![name("avatar_wiki"), name("5")]).is_none());
    assert!(data.index(vec![name("avatar_wiki")]).is_none());
    assert!(matches!(
        data.index(vec![name("property_map"), at(3), name("name")]),
        Some(Value::String(text)) if text == "Attack"
    ));
    assert!(data.index(vec![name("property_map"), at(4), name("name")]).is_none());
    assert!(data.index(vec![name("property_map"), at(3)]).is_none());
    assert!(data.index(vec![name("weapon_wiki"), at(0)]).is_none());
}

#[test]
fn a_number_key_is_cut_to_the_width_of_the_map() {
    let data = characters();
    let wrapped = 5usize.wrapping_add(1 << 32);
    if wrapped != 5 {
        assert!(matches!(
            data.index(vec![name("avatar_wiki"), at(wrapped)]),
            Some(Value::String(text)) if text == "five"
        ));
    }
}

#[test]
fn dispatch_helpers() {
    let levels = vec![LevelExp { level: 1, exp: 2, game_id: 3 }];
    assert!(matches!(index_each(&levels, vec![at(0), name("exp")]), Some(Value::U64(2))));
    assert!(index_each(&levels, vec![at(1), name("exp")]).is_none());
    assert!(index_each(&levels, vec![name("exp")]).is_none());
    assert!(index_each(&levels, vec![]).is_none());
    assert!(matches!(
        index_optional(&Some(LevelExp { level: 1, exp: 2, game_id: 3 }), vec![name("level")]),
        Some(Value::U8(1))
    ));
    assert!(index_optional::<LevelExp>(&None, vec![name("level")]).is_none());
    let texts = HashMap::from([(1u32, "one".to_string())]);
    assert!(matches!(index_text_entry(&texts, vec![at(1)]), Some(Value::String(text)) if text == "one"));
    assert!(index_text_entry(&texts, vec![at(2)]).is_none());
    assert!(index_text_entry(&texts, vec![]).is_none());
    let records = HashMap::from([(1u32, LevelExp { level: 1, exp: 2, game_id: 3 })]);
    assert!(matches!(index_entry(&records, vec![at(1), name("game_id")]), Some(Value::U8(3))));
    assert!(index_entry(&records, vec![name("1"), name("game_id")]).is_none());
}

#[test]
fn generic_records() {
    let response = Response { data: Some(LevelExp { level: 1, exp: 2, game_id: 3 }), message: "OK".to_string(), retcode: 0 };
    assert!(matches!(response.index(vec![name("data"), name("exp")]), Some(Value::U64(2))));
    assert!(matches!(response.index(vec![name("message")]), Some(Value::String(text)) if text == "OK"));
    assert!(matches!(response.index(vec![name("retcode")]), Some(Value::I32(0))));
    assert!(matches!(response.into_result(), Ok(LevelExp { level: 1, exp: 2, game_id: 3 })));
    let refused: Response<LevelExp> = Response { data: None, message: "no".to_string(), retcode: -100 };
    assert!(refused.index(vec![name("data"), name("exp")]).is_none());
    let error = refused.into_result().unwrap_err();
    assert_eq!(error, ResponseError { retcode: -100 });
    assert_eq!(error.to_string(), "E[-100]");
    assert_eq!(ResponseError { retcode: 7 }.to_string(), "E[7]");
}

#[test]
fn optional_scalar() {
    let post = |score| Post {
        change: 1,
        directory: 2,
        hash: "h".to_string(),
        height: 3,
        width: 4,
        id: 5,
        image: "i.png".to_string(),
        owner: "o".to_string(),
        parent_id: 6,
        rating: "safe".to_string(),
        sample: false,
        sample_height: 7,
        sample_width: 8,
        score,
        tags: "t".to_string(),
    };
    assert!(matches!(post(Some(9)).index(vec![name("score")]), Some(Value::U32(9))));
    assert!(post(None).index(vec![name("score")]).is_none());
    assert!(matches!(post(None).index(vec![name("sample")]), Some(Value::Boolean(false))));
    let data = SafebooruData { posts: vec![post(Some(1)), post(None)], thumbnails: vec![] };
    assert!(matches!(data.index(vec![name("posts"), at(0), name("score")]), Some(Value::U32(1))));
    assert!(data.index(vec![name("posts"), at(1), name("score")]).is_none());
    assert!(matches!(
        data.index(vec![name("posts"), at(1), name("image")]),
        Some(Value::String(text)) if text == "i.png"
    ));
}

#[test]
fn index_of_the_whole_account() {
    let index = GenshinIndex {
        avatars: vec![Avatar {
            id: 10000007,
            name: "Traveller".to_string(),
            image: String::new(),
            card_image: String::new(),
            level: 90,
            rarity: 5,
            fetter: 10,
            is_chosen: false,
            element: "Anemo".to_string(),
            actived_constellation_num: 6,
        }],
        homes: vec![Home {
            comfort_level_icon: String::new(),
            comfort_level_name: "Fit for a King".to_string(),
            comfort_num: 20000,
            name: "Floating Abode".to_string(),
            icon: String::new(),
            item_num: 1500,
            level: 10,
            visit_num: 3,
        }],
        role: Role {
            avatar_url: String::new(),
            game_head_icon: String::new(),
            nickname: "Aether".to_string(),
            region: "os_euro".to_string(),
            level: 60,
        },
        stats: GenshinStats {
            active_day_number: 1000,
            achievement_number: 900,
            anemoculus_number: 66,
            geoculus_number: 131,
            avatar_number: 50,
            way_point_number: 300,
            domain_number: 50,
            spiral_abyss: "12-3".to_string(),
            precious_chest_number: 500,
            luxurious_chest_number: 200,
            exquisite_chest_number: 1500,
            common_chest_number: 2000,
            electroculus_number: 181,
            magic_chest_number: 100,
            dendroculus_number: 271,
            hydroculus_number: 250,
            role_combat: RoleCombat { is_unlock: true, max_round_id: 8, has_data: true, has_detail_data: false },
        },
        world_explorations: vec![],
    };
    assert!(matches!(index.index(vec![name("avatars"), at(0), name("id")]), Some(Value::U32(10000007))));
    assert!(matches!(
        index.index(vec![name("homes"), at(0), name("comfort_level_name")]),
        Some(Value::String(text)) if text == "Fit for a King"
    ));
    assert!(matches!(index.index(vec![name("role"), name("level")]), Some(Value::U8(60))));
    assert!(matches!(
        index.index(vec![name("stats"), name("role_combat"), name("max_round_id")]),
        Some(Value::U32(8))
    ));
    assert!(matches!(
        index.index(vec![name("stats"), name("spiral_abyss")]),
        Some(Value::String(text)) if text == "12-3"
    ));
    assert!(index.index(vec![name("world_explorations"), at(0), name("name")]).is_none());
    assert!(index.index(vec![name("stats"), name("role_combat")]).is_none());
}

#[test]
fn values_as_text() {
    assert_eq!(Value::I8(-8).into_string(), "-8");
    assert_eq!(Value::U8(8).into_string(), "8");
    assert_eq!(Value::I16(-1600).into_string(), "-1600");
    assert_eq!(Value::U16(1600).into_string(), "1600");
    assert_eq!(Value::I32(i32::MIN).into_string(), "-2147483648");
    assert_eq!(Value::U32(u32::MAX).into_string(), "4294967295");
    assert_eq!(Value::I64(i64::MIN).into_string(), "-9223372036854775808");
    assert_eq!(Value::U64(u64::MAX).into_string(), "18446744073709551615");
    assert_eq!(Value::U64(0).into_string(), "0");
    assert_eq!(Value::String("text".to_string()).into_string(), "text");
    assert_eq!(Value::Boolean(true).into_string(), "true");
    assert_eq!(Value::Boolean(false).into_string(), "false");
    assert_eq!(Value::BinaryData(vec![1, 2]).into_string(), "<binary>");
}
