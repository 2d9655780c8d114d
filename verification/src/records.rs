//! The host's records, each answering a path of keys field by field.

use vstd::prelude::*;
use crate::lang::value::{
    copy_bytes, index_bytes, index_each, index_entry, index_optional, index_text_entry,
    lookup_each, lookup_entry, lookup_optional, lookup_scalar, lookup_text_entry, named,
    split_first, Index, IndexView, Indexable, Value, ValueView,
};
use crate::text::{decimal_text, push_decimal, push_text};

verus! {

#[derive(Debug)]
pub struct SafebooruData {
    pub posts: Vec<Post>,
    pub thumbnails: Vec<Vec<u8>>,
}

impl Indexable for SafebooruData {
    open spec fn lookup(&self, keys: Seq<IndexView>) -> Option<ValueView> {
        if keys.len() == 0 {
            None
        } else {
            match keys[0] {
                IndexView::String(name) => {
                    let rest = keys.drop_first();
                    if name == "posts"@ {
                        lookup_each(self.posts@, rest)
                    } else if name == "thumbnails"@ {
                        lookup_scalar(self.thumbnails@.map_values(|bytes: Vec<u8>| ValueView::BinaryData(bytes@)), rest)
                    } else {
                        None
                    }
                },
                IndexView::Number(_) => None,
            }
        }
    }

    fn index(&self, keys: Vec<Index>) -> (r: Option<Value>) {
        match split_first(keys) {
            Some((Index::String(name), rest)) => {
                if named(&name, "posts") {
                    index_each(&self.posts, rest)
                } else if named(&name, "thumbnails") {
                    index_bytes(&self.thumbnails, rest)
                } else {
                    None
                }
            },
            _ => None,
        }
    }
}

#[derive(Debug)]
pub struct GenshinData {
    pub avatar: Vec<u8>,
    pub user_info: FullUserInfo,
    pub game_record: GameRecordCard,
    pub index: GenshinIndex,
    pub characters: Characters,
}

impl Indexable for GenshinData {
    open spec fn lookup(&self, keys: Seq<IndexView>) -> Option<ValueView> {
        if keys.len() == 0 {
            None
        } else {
            match keys[0] {
                IndexView::String(name) => {
                    let rest = keys.drop_first();
                    if name == "avatar"@ {
                        Some(ValueView::BinaryData(self.avatar@))
                    } else if name == "user_info"@ {
                        self.user_info.lookup(rest)
                    } else if name == "game_record"@ {
                        self.game_record.lookup(rest)
                    } else if name == "index"@ {
                        self.index.lookup(rest)
                    } else if name == "characters"@ {
                        self.characters.lookup(rest)
                    } else {
                        None
                    }
                },
                IndexView::Number(_) => None,
            }
        }
    }

    fn index(&self, keys: Vec<Index>) -> (r: Option<Value>) {
        match split_first(keys) {
            Some((Index::String(name), rest)) => {
                if named(&name, "avatar") {
                    Some(Value::BinaryData(copy_bytes(&self.avatar)))
                } else if named(&name, "user_info") {
                    self.user_info.index(rest)
                } else if named(&name, "game_record") {
                    self.game_record.index(rest)
                } else if named(&name, "index") {
                    self.index.index(rest)
                } else if named(&name, "characters") {
                    self.characters.index(rest)
                } else {
                    None
                }
            },
            _ => None,
        }
    }
}

#[derive(Debug)]
pub struct BlackRelation {
    pub is_blacking: bool,
    pub is_blacked: bool,
}

impl Indexable for BlackRelation {
    open spec fn lookup(&self, keys: Seq<IndexView>) -> Option<ValueView> {
        if keys.len() == 0 {
            None
        } else {
            match keys[0] {
                IndexView::String(name) => {
                    let rest = keys.drop_first();
                    if name == "is_blacking"@ {
                        Some(ValueView::Boolean(self.is_blacking))
                    } else if name == "is_blacked"@ {
                        Some(ValueView::Boolean(self.is_blacked))
                    } else {
                        None
                    }
                },
                IndexView::Number(_) => None,
            }
        }
    }

    fn index(&self, keys: Vec<Index>) -> (r: Option<Value>) {
        match split_first(keys) {
            Some((Index::String(name), rest)) => {
                if named(&name, "is_blacking") {
                    Some(Value::Boolean(self.is_blacking))
                } else if named(&name, "is_blacked") {
                    Some(Value::Boolean(self.is_blacked))
                } else {
                    None
                }
            },
            _ => None,
        }
    }
}

#[derive(Debug)]
pub struct CollectionInfo {
    pub num: i32,
}

impl Indexable for CollectionInfo {
    open spec fn lookup(&self, keys: Seq<IndexView>) -> Option<ValueView> {
        if keys.len() == 0 {
            None
        } else {
            match keys[0] {
                IndexView::String(name) => {
                    let rest = keys.drop_first();
                    if name == "num"@ {
                        Some(ValueView::I32(self.num))
                    } else {
                        None
                    }
                },
                IndexView::Number(_) => None,
            }
        }
    }

    fn index(&self, keys: Vec<Index>) -> (r: Option<Value>) {
        match split_first(keys) {
            Some((Index::String(name), rest)) => {
                if named(&name, "num") {
                    Some(Value::I32(self.num))
                } else {
                    None
                }
            },
            _ => None,
        }
    }
}

#[derive(Debug)]
pub struct CreatorInfo {
    pub can_collect: bool,
    pub can_top: bool,
    pub card_type: String,
    pub card_url: String,
    pub show_beta: bool,
}

impl Indexable for CreatorInfo {
    open spec fn lookup(&self, keys: Seq<IndexView>) -> Option<ValueView> {
        if keys.len() == 0 {
            None
        } else {
            match keys[0] {
                IndexView::String(name) => {
                    let rest = keys.drop_first();
                    if name == "can_collect"@ {
                        Some(ValueView::Boolean(self.can_collect))
                    } else if name == "can_top"@ {
                        Some(ValueView::Boolean(self.can_top))
                    } else if name == "card_type"@ {
                        Some(ValueView::String(self.card_type@))
                    } else if name == "card_url"@ {
                        Some(ValueView::String(self.card_url@))
                    } else if name == "show_beta"@ {
                        Some(ValueView::Boolean(self.show_beta))
                    } else {
                        None
                    }
                },
                IndexView::Number(_) => None,
            }
        }
    }

    fn index(&self, keys: Vec<Index>) -> (r: Option<Value>) {
        match split_first(keys) {
            Some((Index::String(name), rest)) => {
                if named(&name, "can_collect") {
                    Some(Value::Boolean(self.can_collect))
                } else if named(&name, "can_top") {
                    Some(Value::Boolean(self.can_top))
                } else if named(&name, "card_type") {
                    Some(Value::String(self.card_type.clone()))
                } else if named(&name, "card_url") {
                    Some(Value::String(self.card_url.clone()))
                } else if named(&name, "show_beta") {
                    Some(Value::Boolean(self.show_beta))
                } else {
                    None
                }
            },
            _ => None,
        }
    }
}

#[derive(Debug)]
pub struct PaladinInfo {
    pub path: String,
}

impl Indexable for PaladinInfo {
    open spec fn lookup(&self, keys: Seq<IndexView>) -> Option<ValueView> {
        if keys.len() == 0 {
            None
        } else {
            match keys[0] {
                IndexView::String(name) => {
                    let rest = keys.drop_first();
                    if name == "path"@ {
                        Some(ValueView::String(self.path@))
                    } else {
                        None
                    }
                },
                IndexView::Number(_) => None,
            }
        }
    }

    fn index(&self, keys: Vec<Index>) -> (r: Option<Value>) {
        match split_first(keys) {
            Some((Index::String(name), rest)) => {
                if named(&name, "path") {
                    Some(Value::String(self.path.clone()))
                } else {
                    None
                }
            },
            _ => None,
        }
    }
}

#[derive(Debug)]
pub struct RequestingInfo {
    pub last_requesting_time: String,
    pub can_requesting: bool,
}

impl Indexable for RequestingInfo {
    open spec fn lookup(&self, keys: Seq<IndexView>) -> Option<ValueView> {
        if keys.len() == 0 {
            None
        } else {
            match keys[0] {
                IndexView::String(name) => {
                    let rest = keys.drop_first();
                    if name == "last_requesting_time"@ {
                        Some(ValueView::String(self.last_requesting_time@))
                    } else if name == "can_requesting"@ {
                        Some(ValueView::Boolean(self.can_requesting))
                    } else {
                        None
                    }
                },
                IndexView::Number(_) => None,
            }
        }
    }

    fn index(&self, keys: Vec<Index>) -> (r: Option<Value>) {
        match split_first(keys) {
            Some((Index::String(name), rest)) => {
                if named(&name, "last_requesting_time") {
                    Some(Value::String(self.last_requesting_time.clone()))
                } else if named(&name, "can_requesting") {
                    Some(Value::Boolean(self.can_requesting))
                } else {
                    None
                }
            },
            _ => None,
        }
    }
}

#[derive(Debug)]
pub struct LevelExp {
    pub level: u8,
    pub exp: u64,
    pub game_id: u8,
}

impl Indexable for LevelExp {
    open spec fn lookup(&self, keys: Seq<IndexView>) -> Option<ValueView> {
        if keys.len() == 0 {
            None
        } else {
            match keys[0] {
                IndexView::String(name) => {
                    let rest = keys.drop_first();
                    if name == "level"@ {
                        Some(ValueView::U8(self.level))
                    } else if name == "exp"@ {
                        Some(ValueView::U64(self.exp))
                    } else if name == "game_id"@ {
                        Some(ValueView::U8(self.game_id))
                    } else {
                        None
                    }
                },
                IndexView::Number(_) => None,
            }
        }
    }

    fn index(&self, keys: Vec<Index>) -> (r: Option<Value>) {
        match split_first(keys) {
            Some((Index::String(name), rest)) => {
                if named(&name, "level") {
                    Some(Value::U8(self.level))
                } else if named(&name, "exp") {
                    Some(Value::U64(self.exp))
                } else if named(&name, "game_id") {
                    Some(Value::U8(self.game_id))
                } else {
                    None
                }
            },
            _ => None,
        }
    }
}

#[derive(Debug)]
pub struct Level {
    pub bg_color: String,
    pub bg_image: String,
    pub exp: u64,
    pub level: u8,
    pub level_desc: String,
}

impl Indexable for Level {
    open spec fn lookup(&self, keys: Seq<IndexView>) -> Option<ValueView> {
        if keys.len() == 0 {
            None
        } else {
            match keys[0] {
                IndexView::String(name) => {
                    let rest = keys.drop_first();
                    if name == "bg_color"@ {
                        Some(ValueView::String(self.bg_color@))
                    } else if name == "bg_image"@ {
                        Some(ValueView::String(self.bg_image@))
                    } else if name == "exp"@ {
                        Some(ValueView::U64(self.exp))
                    } else if name == "level"@ {
                        Some(ValueView::U8(self.level))
                    } else if name == "level_desc"@ {
                        Some(ValueView::String(self.level_desc@))
                    } else {
                        None
                    }
                },
                IndexView::Number(_) => None,
            }
        }
    }

    fn index(&self, keys: Vec<Index>) -> (r: Option<Value>) {
        match split_first(keys) {
            Some((Index::String(name), rest)) => {
                if named(&name, "bg_color") {
                    Some(Value::String(self.bg_color.clone()))
                } else if named(&name, "bg_image") {
                    Some(Value::String(self.bg_image.clone()))
                } else if named(&name, "exp") {
                    Some(Value::U64(self.exp))
                } else if named(&name, "level") {
                    Some(Value::U8(self.level))
                } else if named(&name, "level_desc") {
                    Some(Value::String(self.level_desc.clone()))
                } else {
                    None
                }
            },
            _ => None,
        }
    }
}

#[derive(Debug)]
pub struct UserInfo {
    pub avatar: u32,
    pub avatar_url: String,
    pub bg_url: String,
    pub gender: u8,
    pub introduce: String,
    pub nickname: String,
    pub pc_bg_url: String,
    pub pendant: String,
    pub level: Level,
    pub level_exps: Vec<LevelExp>,
    pub uid: u32,
}

impl Indexable for UserInfo {
    open spec fn lookup(&self, keys: Seq<IndexView>) -> Option<ValueView> {
        if keys.len() == 0 {
            None
        } else {
            match keys[0] {
                IndexView::String(name) => {
                    let rest = keys.drop_first();
                    if name == "avatar"@ {
                        Some(ValueView::U32(self.avatar))
                    } else if name == "avatar_url"@ {
                        Some(ValueView::String(self.avatar_url@))
                    } else if name == "bg_url"@ {
                        Some(ValueView::String(self.bg_url@))
                    } else if name == "gender"@ {
                        Some(ValueView::U8(self.gender))
                    } else if name == "introduce"@ {
                        Some(ValueView::String(self.introduce@))
                    } else if name == "nickname"@ {
                        Some(ValueView::String(self.nickname@))
                    } else if name == "pc_bg_url"@ {
                        Some(ValueView::String(self.pc_bg_url@))
                    } else if name == "pendant"@ {
                        Some(ValueView::String(self.pendant@))
                    } else if name == "level"@ {
                        self.level.lookup(rest)
                    } else if name == "level_exps"@ {
                        lookup_each(self.level_exps@, rest)
                    } else if name == "uid"@ {
                        Some(ValueView::U32(self.uid))
                    } else {
                        None
                    }
                },
                IndexView::Number(_) => None,
            }
        }
    }

    fn index(&self, keys: Vec<Index>) -> (r: Option<Value>) {
        match split_first(keys) {
            Some((Index::String(name), rest)) => {
                if named(&name, "avatar") {
                    Some(Value::U32(self.avatar))
                } else if named(&name, "avatar_url") {
                    Some(Value::String(self.avatar_url.clone()))
                } else if named(&name, "bg_url") {
                    Some(Value::String(self.bg_url.clone()))
                } else if named(&name, "gender") {
                    Some(Value::U8(self.gender))
                } else if named(&name, "introduce") {
                    Some(Value::String(self.introduce.clone()))
                } else if named(&name, "nickname") {
                    Some(Value::String(self.nickname.clone()))
                } else if named(&name, "pc_bg_url") {
                    Some(Value::String(self.pc_bg_url.clone()))
                } else if named(&name, "pendant") {
                    Some(Value::String(self.pendant.clone()))
                } else if named(&name, "level") {
                    self.level.index(rest)
                } else if named(&name, "level_exps") {
                    index_each(&self.level_exps, rest)
                } else if named(&name, "uid") {
                    Some(Value::U32(self.uid))
                } else {
                    None
                }
            },
            _ => None,
        }
    }
}

#[derive(Debug)]
pub struct FullUserInfo {
    pub black_relation: BlackRelation,
    pub collection_info: CollectionInfo,
    pub creator_info: CreatorInfo,
    pub paladin_info: PaladinInfo,
    pub requesting_info: RequestingInfo,
    pub user_info: UserInfo,
}

impl Indexable for FullUserInfo {
    open spec fn lookup(&self, keys: Seq<IndexView>) -> Option<ValueView> {
        if keys.len() == 0 {
            None
        } else {
            match keys[0] {
                IndexView::String(name) => {
                    let rest = keys.drop_first();
                    if name == "black_relation"@ {
                        self.black_relation.lookup(rest)
                    } else if name == "collection_info"@ {
                        self.collection_info.lookup(rest)
                    } else if name == "creator_info"@ {
                        self.creator_info.lookup(rest)
                    } else if name == "paladin_info"@ {
                        self.paladin_info.lookup(rest)
                    } else if name == "requesting_info"@ {
                        self.requesting_info.lookup(rest)
                    } else if name == "user_info"@ {
                        self.user_info.lookup(rest)
                    } else {
                        None
                    }
                },
                IndexView::Number(_) => None,
            }
        }
    }

    fn index(&self, keys: Vec<Index>) -> (r: Option<Value>) {
        match split_first(keys) {
            Some((Index::String(name), rest)) => {
                if named(&name, "black_relation") {
                    self.black_relation.index(rest)
                } else if named(&name, "collection_info") {
                    self.collection_info.index(rest)
                } else if named(&name, "creator_info") {
                    self.creator_info.index(rest)
                } else if named(&name, "paladin_info") {
                    self.paladin_info.index(rest)
                } else if named(&name, "requesting_info") {
                    self.requesting_info.index(rest)
                } else if named(&name, "user_info") {
                    self.user_info.index(rest)
                } else {
                    None
                }
            },
            _ => None,
        }
    }
}

#[derive(Debug)]
pub struct KeyValue {
    pub name: String,
    pub ty: u8,
    pub value: String,
}

impl Indexable for KeyValue {
    open spec fn lookup(&self, keys: Seq<IndexView>) -> Option<ValueView> {
        if keys.len() == 0 {
            None
        } else {
            match keys[0] {
                IndexView::String(name) => {
                    let rest = keys.drop_first();
                    if name == "name"@ {
                        Some(ValueView::String(self.name@))
                    } else if name == "ty"@ {
                        Some(ValueView::U8(self.ty))
                    } else if name == "value"@ {
                        Some(ValueView::String(self.value@))
                    } else {
                        None
                    }
                },
                IndexView::Number(_) => None,
            }
        }
    }

    fn index(&self, keys: Vec<Index>) -> (r: Option<Value>) {
        match split_first(keys) {
            Some((Index::String(name), rest)) => {
                if named(&name, "name") {
                    Some(Value::String(self.name.clone()))
                } else if named(&name, "ty") {
                    Some(Value::U8(self.ty))
                } else if named(&name, "value") {
                    Some(Value::String(self.value.clone()))
                } else {
                    None
                }
            },
            _ => None,
        }
    }
}

#[derive(Debug)]
pub struct Switch {
    pub is_public: bool,
    pub switch_id: u8,
    pub switch_name: String,
}

impl Indexable for Switch {
    open spec fn lookup(&self, keys: Seq<IndexView>) -> Option<ValueView> {
        if keys.len() == 0 {
            None
        } else {
            match keys[0] {
                IndexView::String(name) => {
                    let rest = keys.drop_first();
                    if name == "is_public"@ {
                        Some(ValueView::Boolean(self.is_public))
                    } else if name == "switch_id"@ {
                        Some(ValueView::U8(self.switch_id))
                    } else if name == "switch_name"@ {
                        Some(ValueView::String(self.switch_name@))
                    } else {
                        None
                    }
                },
                IndexView::Number(_) => None,
            }
        }
    }

    fn index(&self, keys: Vec<Index>) -> (r: Option<Value>) {
        match split_first(keys) {
            Some((Index::String(name), rest)) => {
                if named(&name, "is_public") {
                    Some(Value::Boolean(self.is_public))
                } else if named(&name, "switch_id") {
                    Some(Value::U8(self.switch_id))
                } else if named(&name, "switch_name") {
                    Some(Value::String(self.switch_name.clone()))
                } else {
                    None
                }
            },
            _ => None,
        }
    }
}

#[derive(Debug)]
pub struct GameRecordCard {
    pub background_color: String,
    pub background_image: String,
    pub background_image_v2: String,
    pub data: Vec<KeyValue>,
    pub data_switches: Vec<Switch>,
    pub game_id: u8,
    pub game_name: String,
    pub game_role_id: u32,
    pub has_role: bool,
    pub is_public: bool,
    pub level: u8,
    pub logo: String,
    pub nickname: String,
    pub region: String,
    pub region_name: String,
    pub url: String,
}

impl Indexable for GameRecordCard {
    open spec fn lookup(&self, keys: Seq<IndexView>) -> Option<ValueView> {
        if keys.len() == 0 {
            None
        } else {
            match keys[0] {
                IndexView::String(name) => {
                    let rest = keys.drop_first();
                    if name == "background_color"@ {
                        Some(ValueView::String(self.background_color@))
                    } else if name == "background_image"@ {
                        Some(ValueView::String(self.background_image@))
                    } else if name == "background_image_v2"@ {
                        Some(ValueView::String(self.background_image_v2@))
                    } else if name == "data"@ {
                        lookup_each(self.data@, rest)
                    } else if name == "data_switches"@ {
                        lookup_each(self.data_switches@, rest)
                    } else if name == "game_id"@ {
                        Some(ValueView::U8(self.game_id))
                    } else if name == "game_name"@ {
                        Some(ValueView::String(self.game_name@))
                    } else if name == "game_role_id"@ {
                        Some(ValueView::U32(self.game_role_id))
                    } else if name == "has_role"@ {
                        Some(ValueView::Boolean(self.has_role))
                    } else if name == "is_public"@ {
                        Some(ValueView::Boolean(self.is_public))
                    } else if name == "level"@ {
                        Some(ValueView::U8(self.level))
                    } else if name == "logo"@ {
                        Some(ValueView::String(self.logo@))
                    } else if name == "nickname"@ {
                        Some(ValueView::String(self.nickname@))
                    } else if name == "region"@ {
                        Some(ValueView::String(self.region@))
                    } else if name == "region_name"@ {
                        Some(ValueView::String(self.region_name@))
                    } else if name == "url"@ {
                        Some(ValueView::String(self.url@))
                    } else {
                        None
                    }
                },
                IndexView::Number(_) => None,
            }
        }
    }

    fn index(&self, keys: Vec<Index>) -> (r: Option<Value>) {
        match split_first(keys) {
            Some((Index::String(name), rest)) => {
                if named(&name, "background_color") {
                    Some(Value::String(self.background_color.clone()))
                } else if named(&name, "background_image") {
                    Some(Value::String(self.background_image.clone()))
                } else if named(&name, "background_image_v2") {
                    Some(Value::String(self.background_image_v2.clone()))
                } else if named(&name, "data") {
                    index_each(&self.data, rest)
                } else if named(&name, "data_switches") {
                    index_each(&self.data_switches, rest)
                } else if named(&name, "game_id") {
                    Some(Value::U8(self.game_id))
                } else if named(&name, "game_name") {
                    Some(Value::String(self.game_name.clone()))
                } else if named(&name, "game_role_id") {
                    Some(Value::U32(self.game_role_id))
                } else if named(&name, "has_role") {
                    Some(Value::Boolean(self.has_role))
                } else if named(&name, "is_public") {
                    Some(Value::Boolean(self.is_public))
                } else if named(&name, "level") {
                    Some(Value::U8(self.level))
                } else if named(&name, "logo") {
                    Some(Value::String(self.logo.clone()))
                } else if named(&name, "nickname") {
                    Some(Value::String(self.nickname.clone()))
                } else if named(&name, "region") {
                    Some(Value::String(self.region.clone()))
                } else if named(&name, "region_name") {
                    Some(Value::String(self.region_name.clone()))
                } else if named(&name, "url") {
                    Some(Value::String(self.url.clone()))
                } else {
                    None
                }
            },
            _ => None,
        }
    }
}

#[derive(Debug)]
pub struct List<T> {
    pub list: Vec<T>,
}

impl<T: Indexable> Indexable for List<T> {
    open spec fn lookup(&self, keys: Seq<IndexView>) -> Option<ValueView> {
        if keys.len() == 0 {
            None
        } else {
            match keys[0] {
                IndexView::String(name) => {
                    let rest = keys.drop_first();
                    if name == "list"@ {
                        lookup_each(self.list@, rest)
                    } else {
                        None
                    }
                },
                IndexView::Number(_) => None,
            }
        }
    }

    fn index(&self, keys: Vec<Index>) -> (r: Option<Value>) {
        match split_first(keys) {
            Some((Index::String(name), rest)) => {
                if named(&name, "list") {
                    index_each(&self.list, rest)
                } else {
                    None
                }
            },
            _ => None,
        }
    }
}

#[derive(Debug)]
pub struct Response<T> {
    pub data: Option<T>,
    pub message: String,
    pub retcode: i32,
}

impl<T: Indexable> Indexable for Response<T> {
    open spec fn lookup(&self, keys: Seq<IndexView>) -> Option<ValueView> {
        if keys.len() == 0 {
            None
        } else {
            match keys[0] {
                IndexView::String(name) => {
                    let rest = keys.drop_first();
                    if name == "data"@ {
                        lookup_optional(self.data, rest)
                    } else if name == "message"@ {
                        Some(ValueView::String(self.message@))
                    } else if name == "retcode"@ {
                        Some(ValueView::I32(self.retcode))
                    } else {
                        None
                    }
                },
                IndexView::Number(_) => None,
            }
        }
    }

    fn index(&self, keys: Vec<Index>) -> (r: Option<Value>) {
        match split_first(keys) {
            Some((Index::String(name), rest)) => {
                if named(&name, "data") {
                    index_optional(&self.data, rest)
                } else if named(&name, "message") {
                    Some(Value::String(self.message.clone()))
                } else if named(&name, "retcode") {
                    Some(Value::I32(self.retcode))
                } else {
                    None
                }
            },
            _ => None,
        }
    }
}

#[derive(Debug)]
pub struct Avatar {
    pub id: u32,
    pub name: String,
    pub image: String,
    pub card_image: String,
    pub level: u8,
    pub rarity: u8,
    pub fetter: u8,
    pub is_chosen: bool,
    pub element: String,
    pub actived_constellation_num: u8,
}

impl Indexable for Avatar {
    open spec fn lookup(&self, keys: Seq<IndexView>) -> Option<ValueView> {
        if keys.len() == 0 {
            None
        } else {
            match keys[0] {
                IndexView::String(name) => {
                    let rest = keys.drop_first();
                    if name == "id"@ {
                        Some(ValueView::U32(self.id))
                    } else if name == "name"@ {
                        Some(ValueView::String(self.name@))
                    } else if name == "image"@ {
                        Some(ValueView::String(self.image@))
                    } else if name == "card_image"@ {
                        Some(ValueView::String(self.card_image@))
                    } else if name == "level"@ {
                        Some(ValueView::U8(self.level))
                    } else if name == "rarity"@ {
                        Some(ValueView::U8(self.rarity))
                    } else if name == "fetter"@ {
                        Some(ValueView::U8(self.fetter))
                    } else if name == "is_chosen"@ {
                        Some(ValueView::Boolean(self.is_chosen))
                    } else if name == "element"@ {
                        Some(ValueView::String(self.element@))
                    } else if name == "actived_constellation_num"@ {
                        Some(ValueView::U8(self.actived_constellation_num))
                    } else {
                        None
                    }
                },
                IndexView::Number(_) => None,
            }
        }
    }

    fn index(&self, keys: Vec<Index>) -> (r: Option<Value>) {
        match split_first(keys) {
            Some((Index::String(name), rest)) => {
                if named(&name, "id") {
                    Some(Value::U32(self.id))
                } else if named(&name, "name") {
                    Some(Value::String(self.name.clone()))
                } else if named(&name, "image") {
                    Some(Value::String(self.image.clone()))
                } else if named(&name, "card_image") {
                    Some(Value::String(self.card_image.clone()))
                } else if named(&name, "level") {
                    Some(Value::U8(self.level))
                } else if named(&name, "rarity") {
                    Some(Value::U8(self.rarity))
                } else if named(&name, "fetter") {
                    Some(Value::U8(self.fetter))
                } else if named(&name, "is_chosen") {
                    Some(Value::Boolean(self.is_chosen))
                } else if named(&name, "element") {
                    Some(Value::String(self.element.clone()))
                } else if named(&name, "actived_constellation_num") {
                    Some(Value::U8(self.actived_constellation_num))
                } else {
                    None
                }
            },
            _ => None,
        }
    }
}

#[derive(Debug)]
pub struct Home {
    pub comfort_level_icon: String,
    pub comfort_level_name: String,
    pub comfort_num: u32,
    pub name: String,
    pub icon: String,
    pub item_num: u32,
    pub level: u8,
    pub visit_num: u32,
}

impl Indexable for Home {
    open spec fn lookup(&self, keys: Seq<IndexView>) -> Option<ValueView> {
        if keys.len() == 0 {
            None
        } else {
            match keys[0] {
                IndexView::String(name) => {
                    let rest = keys.drop_first();
                    if name == "comfort_level_icon"@ {
                        Some(ValueView::String(self.comfort_level_icon@))
                    } else if name == "comfort_level_name"@ {
                        Some(ValueView::String(self.comfort_level_name@))
                    } else if name == "comfort_num"@ {
                        Some(ValueView::U32(self.comfort_num))
                    } else if name == "name"@ {
                        Some(ValueView::String(self.name@))
                    } else if name == "icon"@ {
                        Some(ValueView::String(self.icon@))
                    } else if name == "item_num"@ {
                        Some(ValueView::U32(self.item_num))
                    } else if name == "level"@ {
                        Some(ValueView::U8(self.level))
                    } else if name == "visit_num"@ {
                        Some(ValueView::U32(self.visit_num))
                    } else {
                        None
                    }
                },
                IndexView::Number(_) => None,
            }
        }
    }

    fn index(&self, keys: Vec<Index>) -> (r: Option<Value>) {
        match split_first(keys) {
            Some((Index::String(name), rest)) => {
                if named(&name, "comfort_level_icon") {
                    Some(Value::String(self.comfort_level_icon.clone()))
                } else if named(&name, "comfort_level_name") {
                    Some(Value::String(self.comfort_level_name.clone()))
                } else if named(&name, "comfort_num") {
                    Some(Value::U32(self.comfort_num))
                } else if named(&name, "name") {
                    Some(Value::String(self.name.clone()))
                } else if named(&name, "icon") {
                    Some(Value::String(self.icon.clone()))
                } else if named(&name, "item_num") {
                    Some(Value::U32(self.item_num))
                } else if named(&name, "level") {
                    Some(Value::U8(self.level))
                } else if named(&name, "visit_num") {
                    Some(Value::U32(self.visit_num))
                } else {
                    None
                }
            },
            _ => None,
        }
    }
}

#[derive(Debug)]
pub struct Role {
    pub avatar_url: String,
    pub game_head_icon: String,
    pub nickname: String,
    pub region: String,
    pub level: u8,
}

impl Indexable for Role {
    open spec fn lookup(&self, keys: Seq<IndexView>) -> Option<ValueView> {
        if keys.len() == 0 {
            None
        } else {
            match keys[0] {
                IndexView::String(name) => {
                    let rest = keys.drop_first();
                    if name == "avatar_url"@ {
                        Some(ValueView::String(self.avatar_url@))
                    } else if name == "game_head_icon"@ {
                        Some(ValueView::String(self.game_head_icon@))
                    } else if name == "nickname"@ {
                        Some(ValueView::String(self.nickname@))
                    } else if name == "region"@ {
                        Some(ValueView::String(self.region@))
                    } else if name == "level"@ {
                        Some(ValueView::U8(self.level))
                    } else {
                        None
                    }
                },
                IndexView::Number(_) => None,
            }
        }
    }

    fn index(&self, keys: Vec<Index>) -> (r: Option<Value>) {
        match split_first(keys) {
            Some((Index::String(name), rest)) => {
                if named(&name, "avatar_url") {
                    Some(Value::String(self.avatar_url.clone()))
                } else if named(&name, "game_head_icon") {
                    Some(Value::String(self.game_head_icon.clone()))
                } else if named(&name, "nickname") {
                    Some(Value::String(self.nickname.clone()))
                } else if named(&name, "region") {
                    Some(Value::String(self.region.clone()))
                } else if named(&name, "level") {
                    Some(Value::U8(self.level))
                } else {
                    None
                }
            },
            _ => None,
        }
    }
}

#[derive(Debug)]
pub struct RoleCombat {
    pub is_unlock: bool,
    pub max_round_id: u32,
    pub has_data: bool,
    pub has_detail_data: bool,
}

impl Indexable for RoleCombat {
    open spec fn lookup(&self, keys: Seq<IndexView>) -> Option<ValueView> {
        if keys.len() == 0 {
            None
        } else {
            match keys[0] {
                IndexView::String(name) => {
                    let rest = keys.drop_first();
                    if name == "is_unlock"@ {
                        Some(ValueView::Boolean(self.is_unlock))
                    } else if name == "max_round_id"@ {
                        Some(ValueView::U32(self.max_round_id))
                    } else if name == "has_data"@ {
                        Some(ValueView::Boolean(self.has_data))
                    } else if name == "has_detail_data"@ {
                        Some(ValueView::Boolean(self.has_detail_data))
                    } else {
                        None
                    }
                },
                IndexView::Number(_) => None,
            }
        }
    }

    fn index(&self, keys: Vec<Index>) -> (r: Option<Value>) {
        match split_first(keys) {
            Some((Index::String(name), rest)) => {
                if named(&name, "is_unlock") {
                    Some(Value::Boolean(self.is_unlock))
                } else if named(&name, "max_round_id") {
                    Some(Value::U32(self.max_round_id))
                } else if named(&name, "has_data") {
                    Some(Value::Boolean(self.has_data))
                } else if named(&name, "has_detail_data") {
                    Some(Value::Boolean(self.has_detail_data))
                } else {
                    None
                }
            },
            _ => None,
        }
    }
}

#[derive(Debug)]
pub struct GenshinStats {
    pub active_day_number: u32,
    pub achievement_number: u32,
    pub anemoculus_number: u32,
    pub geoculus_number: u32,
    pub avatar_number: u32,
    pub way_point_number: u32,
    pub domain_number: u32,
    pub spiral_abyss: String,
    pub precious_chest_number: u32,
    pub luxurious_chest_number: u32,
    pub exquisite_chest_number: u32,
    pub common_chest_number: u32,
    pub electroculus_number: u32,
    pub magic_chest_number: u32,
    pub dendroculus_number: u32,
    pub hydroculus_number: u32,
    pub role_combat: RoleCombat,
}

impl Indexable for GenshinStats {
    open spec fn lookup(&self, keys: Seq<IndexView>) -> Option<ValueView> {
        if keys.len() == 0 {
            None
        } else {
            match keys[0] {
                IndexView::String(name) => {
                    let rest = keys.drop_first();
                    if name == "active_day_number"@ {
                        Some(ValueView::U32(self.active_day_number))
                    } else if name == "achievement_number"@ {
                        Some(ValueView::U32(self.achievement_number))
                    } else if name == "anemoculus_number"@ {
                        Some(ValueView::U32(self.anemoculus_number))
                    } else if name == "geoculus_number"@ {
                        Some(ValueView::U32(self.geoculus_number))
                    } else if name == "avatar_number"@ {
                        Some(ValueView::U32(self.avatar_number))
                    } else if name == "way_point_number"@ {
                        Some(ValueView::U32(self.way_point_number))
                    } else if name == "domain_number"@ {
                        Some(ValueView::U32(self.domain_number))
                    } else if name == "spiral_abyss"@ {
                        Some(ValueView::String(self.spiral_abyss@))
                    } else if name == "precious_chest_number"@ {
                        Some(ValueView::U32(self.precious_chest_number))
                    } else if name == "luxurious_chest_number"@ {
                        Some(ValueView::U32(self.luxurious_chest_number))
                    } else if name == "exquisite_chest_number"@ {
                        Some(ValueView::U32(self.exquisite_chest_number))
                    } else if name == "common_chest_number"@ {
                        Some(ValueView::U32(self.common_chest_number))
                    } else if name == "electroculus_number"@ {
                        Some(ValueView::U32(self.electroculus_number))
                    } else if name == "magic_chest_number"@ {
                        Some(ValueView::U32(self.magic_chest_number))
                    } else if name == "dendroculus_number"@ {
                        Some(ValueView::U32(self.dendroculus_number))
                    } else if name == "hydroculus_number"@ {
                        Some(ValueView::U32(self.hydroculus_number))
                    } else if name == "role_combat"@ {
                        self.role_combat.lookup(rest)
                    } else {
                        None
                    }
                },
                IndexView::Number(_) => None,
            }
        }
    }

    fn index(&self, keys: Vec<Index>) -> (r: Option<Value>) {
        match split_first(keys) {
            Some((Index::String(name), rest)) => {
                if named(&name, "active_day_number") {
                    Some(Value::U32(self.active_day_number))
                } else if named(&name, "achievement_number") {
                    Some(Value::U32(self.achievement_number))
                } else if named(&name, "anemoculus_number") {
                    Some(Value::U32(self.anemoculus_number))
                } else if named(&name, "geoculus_number") {
                    Some(Value::U32(self.geoculus_number))
                } else if named(&name, "avatar_number") {
                    Some(Value::U32(self.avatar_number))
                } else if named(&name, "way_point_number") {
                    Some(Value::U32(self.way_point_number))
                } else if named(&name, "domain_number") {
                    Some(Value::U32(self.domain_number))
                } else if named(&name, "spiral_abyss") {
                    Some(Value::String(self.spiral_abyss.clone()))
                } else if named(&name, "precious_chest_number") {
                    Some(Value::U32(self.precious_chest_number))
                } else if named(&name, "luxurious_chest_number") {
                    Some(Value::U32(self.luxurious_chest_number))
                } else if named(&name, "exquisite_chest_number") {
                    Some(Value::U32(self.exquisite_chest_number))
                } else if named(&name, "common_chest_number") {
                    Some(Value::U32(self.common_chest_number))
                } else if named(&name, "electroculus_number") {
                    Some(Value::U32(self.electroculus_number))
                } else if named(&name, "magic_chest_number") {
                    Some(Value::U32(self.magic_chest_number))
                } else if named(&name, "dendroculus_number") {
                    Some(Value::U32(self.dendroculus_number))
                } else if named(&name, "hydroculus_number") {
                    Some(Value::U32(self.hydroculus_number))
                } else if named(&name, "role_combat") {
                    self.role_combat.index(rest)
                } else {
                    None
                }
            },
            _ => None,
        }
    }
}

#[derive(Debug)]
pub struct WorldExploration {
    pub level: u8,
    pub exploration_percentage: u32,
    pub icon: String,
    pub name: String,
    pub ty: String,
    pub id: u8,
    pub parent_id: u8,
    pub map_url: String,
    pub strategy_url: String,
    pub background_image: String,
    pub inner_icon: String,
    pub cover: String,
    pub is_hot: bool,
    pub index_active: bool,
    pub detail_active: bool,
}

impl Indexable for WorldExploration {
    open spec fn lookup(&self, keys: Seq<IndexView>) -> Option<ValueView> {
        if keys.len() == 0 {
            None
        } else {
            match keys[0] {
                IndexView::String(name) => {
                    let rest = keys.drop_first();
                    if name == "level"@ {
                        Some(ValueView::U8(self.level))
                    } else if name == "exploration_percentage"@ {
                        Some(ValueView::U32(self.exploration_percentage))
                    } else if name == "icon"@ {
                        Some(ValueView::String(self.icon@))
                    } else if name == "name"@ {
                        Some(ValueView::String(self.name@))
                    } else if name == "ty"@ {
                        Some(ValueView::String(self.ty@))
                    } else if name == "id"@ {
                        Some(ValueView::U8(self.id))
                    } else if name == "parent_id"@ {
                        Some(ValueView::U8(self.parent_id))
                    } else if name == "map_url"@ {
                        Some(ValueView::String(self.map_url@))
                    } else if name == "strategy_url"@ {
                        Some(ValueView::String(self.strategy_url@))
                    } else if name == "background_image"@ {
                        Some(ValueView::String(self.background_image@))
                    } else if name == "inner_icon"@ {
                        Some(ValueView::String(self.inner_icon@))
                    } else if name == "cover"@ {
                        Some(ValueView::String(self.cover@))
                    } else if name == "is_hot"@ {
                        Some(ValueView::Boolean(self.is_hot))
                    } else if name == "index_active"@ {
                        Some(ValueView::Boolean(self.index_active))
                    } else if name == "detail_active"@ {
                        Some(ValueView::Boolean(self.detail_active))
                    } else {
                        None
                    }
                },
                IndexView::Number(_) => None,
            }
        }
    }

    fn index(&self, keys: Vec<Index>) -> (r: Option<Value>) {
        match split_first(keys) {
            Some((Index::String(name), rest)) => {
                if named(&name, "level") {
                    Some(Value::U8(self.level))
                } else if named(&name, "exploration_percentage") {
                    Some(Value::U32(self.exploration_percentage))
                } else if named(&name, "icon") {
                    Some(Value::String(self.icon.clone()))
                } else if named(&name, "name") {
                    Some(Value::String(self.name.clone()))
                } else if named(&name, "ty") {
                    Some(Value::String(self.ty.clone()))
                } else if named(&name, "id") {
                    Some(Value::U8(self.id))
                } else if named(&name, "parent_id") {
                    Some(Value::U8(self.parent_id))
                } else if named(&name, "map_url") {
                    Some(Value::String(self.map_url.clone()))
                } else if named(&name, "strategy_url") {
                    Some(Value::String(self.strategy_url.clone()))
                } else if named(&name, "background_image") {
                    Some(Value::String(self.background_image.clone()))
                } else if named(&name, "inner_icon") {
                    Some(Value::String(self.inner_icon.clone()))
                } else if named(&name, "cover") {
                    Some(Value::String(self.cover.clone()))
                } else if named(&name, "is_hot") {
                    Some(Value::Boolean(self.is_hot))
                } else if named(&name, "index_active") {
                    Some(Value::Boolean(self.index_active))
                } else if named(&name, "detail_active") {
                    Some(Value::Boolean(self.detail_active))
                } else {
                    None
                }
            },
            _ => None,
        }
    }
}

#[derive(Debug)]
pub struct GenshinIndex {
    pub avatars: Vec<Avatar>,
    pub homes: Vec<Home>,
    pub role: Role,
    pub stats: GenshinStats,
    pub world_explorations: Vec<WorldExploration>,
}

impl Indexable for GenshinIndex {
    open spec fn lookup(&self, keys: Seq<IndexView>) -> Option<ValueView> {
        if keys.len() == 0 {
            None
        } else {
            match keys[0] {
                IndexView::String(name) => {
                    let rest = keys.drop_first();
                    if name == "avatars"@ {
                        lookup_each(self.avatars@, rest)
                    } else if name == "homes"@ {
                        lookup_each(self.homes@, rest)
                    } else if name == "role"@ {
                        self.role.lookup(rest)
                    } else if name == "stats"@ {
                        self.stats.lookup(rest)
                    } else if name == "world_explorations"@ {
                        lookup_each(self.world_explorations@, rest)
                    } else {
                        None
                    }
                },
                IndexView::Number(_) => None,
            }
        }
    }

    fn index(&self, keys: Vec<Index>) -> (r: Option<Value>) {
        match split_first(keys) {
            Some((Index::String(name), rest)) => {
                if named(&name, "avatars") {
                    index_each(&self.avatars, rest)
                } else if named(&name, "homes") {
                    index_each(&self.homes, rest)
                } else if named(&name, "role") {
                    self.role.index(rest)
                } else if named(&name, "stats") {
                    self.stats.index(rest)
                } else if named(&name, "world_explorations") {
                    index_each(&self.world_explorations, rest)
                } else {
                    None
                }
            },
            _ => None,
        }
    }
}

#[derive(Debug)]
pub struct Property {
    pub filter_name: String,
    pub icon: String,
    pub name: String,
    pub property_type: u32,
}

impl Indexable for Property {
    open spec fn lookup(&self, keys: Seq<IndexView>) -> Option<ValueView> {
        if keys.len() == 0 {
            None
        } else {
            match keys[0] {
                IndexView::String(name) => {
                    let rest = keys.drop_first();
                    if name == "filter_name"@ {
                        Some(ValueView::String(self.filter_name@))
                    } else if name == "icon"@ {
                        Some(ValueView::String(self.icon@))
                    } else if name == "name"@ {
                        Some(ValueView::String(self.name@))
                    } else if name == "property_type"@ {
                        Some(ValueView::U32(self.property_type))
                    } else {
                        None
                    }
                },
                IndexView::Number(_) => None,
            }
        }
    }

    fn index(&self, keys: Vec<Index>) -> (r: Option<Value>) {
        match split_first(keys) {
            Some((Index::String(name), rest)) => {
                if named(&name, "filter_name") {
                    Some(Value::String(self.filter_name.clone()))
                } else if named(&name, "icon") {
                    Some(Value::String(self.icon.clone()))
                } else if named(&name, "name") {
                    Some(Value::String(self.name.clone()))
                } else if named(&name, "property_type") {
                    Some(Value::U32(self.property_type))
                } else {
                    None
                }
            },
            _ => None,
        }
    }
}

#[derive(Debug)]
pub struct RelicOptions {
    pub sand_main_property_list: Vec<u8>,
    pub goblet_main_property_list: Vec<u8>,
    pub circlet_main_property_list: Vec<u8>,
    pub sub_property_list: Vec<u8>,
}

impl Indexable for RelicOptions {
    open spec fn lookup(&self, keys: Seq<IndexView>) -> Option<ValueView> {
        if keys.len() == 0 {
            None
        } else {
            match keys[0] {
                IndexView::String(name) => {
                    let rest = keys.drop_first();
                    if name == "sand_main_property_list"@ {
                        Some(ValueView::BinaryData(self.sand_main_property_list@))
                    } else if name == "goblet_main_property_list"@ {
                        Some(ValueView::BinaryData(self.goblet_main_property_list@))
                    } else if name == "circlet_main_property_list"@ {
                        Some(ValueView::BinaryData(self.circlet_main_property_list@))
                    } else if name == "sub_property_list"@ {
                        Some(ValueView::BinaryData(self.sub_property_list@))
                    } else {
                        None
                    }
                },
                IndexView::Number(_) => None,
            }
        }
    }

    fn index(&self, keys: Vec<Index>) -> (r: Option<Value>) {
        match split_first(keys) {
            Some((Index::String(name), rest)) => {
                if named(&name, "sand_main_property_list") {
                    Some(Value::BinaryData(copy_bytes(&self.sand_main_property_list)))
                } else if named(&name, "goblet_main_property_list") {
                    Some(Value::BinaryData(copy_bytes(&self.goblet_main_property_list)))
                } else if named(&name, "circlet_main_property_list") {
                    Some(Value::BinaryData(copy_bytes(&self.circlet_main_property_list)))
                } else if named(&name, "sub_property_list") {
                    Some(Value::BinaryData(copy_bytes(&self.sub_property_list)))
                } else {
                    None
                }
            },
            _ => None,
        }
    }
}

#[derive(Debug)]
pub struct PropertyValue {
    pub property_type: u32,
    pub base: String,
    pub add: String,
    pub output: String,
}

impl Indexable for PropertyValue {
    open spec fn lookup(&self, keys: Seq<IndexView>) -> Option<ValueView> {
        if keys.len() == 0 {
            None
        } else {
            match keys[0] {
                IndexView::String(name) => {
                    let rest = keys.drop_first();
                    if name == "property_type"@ {
                        Some(ValueView::U32(self.property_type))
                    } else if name == "base"@ {
                        Some(ValueView::String(self.base@))
                    } else if name == "add"@ {
                        Some(ValueView::String(self.add@))
                    } else if name == "output"@ {
                        Some(ValueView::String(self.output@))
                    } else {
                        None
                    }
                },
                IndexView::Number(_) => None,
            }
        }
    }

    fn index(&self, keys: Vec<Index>) -> (r: Option<Value>) {
        match split_first(keys) {
            Some((Index::String(name), rest)) => {
                if named(&name, "property_type") {
                    Some(Value::U32(self.property_type))
                } else if named(&name, "base") {
                    Some(Value::String(self.base.clone()))
                } else if named(&name, "add") {
                    Some(Value::String(self.add.clone()))
                } else if named(&name, "output") {
                    Some(Value::String(self.output.clone()))
                } else {
                    None
                }
            },
            _ => None,
        }
    }
}

#[derive(Debug)]
pub struct Constellation {
    pub id: u32,
    pub name: String,
    pub effect: String,
    pub icon: String,
    pub is_actived: bool,
    pub pos: u32,
}

impl Indexable for Constellation {
    open spec fn lookup(&self, keys: Seq<IndexView>) -> Option<ValueView> {
        if keys.len() == 0 {
            None
        } else {
            match keys[0] {
                IndexView::String(name) => {
                    let rest = keys.drop_first();
                    if name == "id"@ {
                        Some(ValueView::U32(self.id))
                    } else if name == "name"@ {
                        Some(ValueView::String(self.name@))
                    } else if name == "effect"@ {
                        Some(ValueView::String(self.effect@))
                    } else if name == "icon"@ {
                        Some(ValueView::String(self.icon@))
                    } else if name == "is_actived"@ {
                        Some(ValueView::Boolean(self.is_actived))
                    } else if name == "pos"@ {
                        Some(ValueView::U32(self.pos))
                    } else {
                        None
                    }
                },
                IndexView::Number(_) => None,
            }
        }
    }

    fn index(&self, keys: Vec<Index>) -> (r: Option<Value>) {
        match split_first(keys) {
            Some((Index::String(name), rest)) => {
                if named(&name, "id") {
                    Some(Value::U32(self.id))
                } else if named(&name, "name") {
                    Some(Value::String(self.name.clone()))
                } else if named(&name, "effect") {
                    Some(Value::String(self.effect.clone()))
                } else if named(&name, "icon") {
                    Some(Value::String(self.icon.clone()))
                } else if named(&name, "is_actived") {
                    Some(Value::Boolean(self.is_actived))
                } else if named(&name, "pos") {
                    Some(Value::U32(self.pos))
                } else {
                    None
                }
            },
            _ => None,
        }
    }
}

#[derive(Debug)]
pub struct SkillAffix {
    pub name: String,
    pub value: String,
}

impl Indexable for SkillAffix {
    open spec fn lookup(&self, keys: Seq<IndexView>) -> Option<ValueView> {
        if keys.len() == 0 {
            None
        } else {
            match keys[0] {
                IndexView::String(name) => {
                    let rest = keys.drop_first();
                    if name == "name"@ {
                        Some(ValueView::String(self.name@))
                    } else if name == "value"@ {
                        Some(ValueView::String(self.value@))
                    } else {
                        None
                    }
                },
                IndexView::Number(_) => None,
            }
        }
    }

    fn index(&self, keys: Vec<Index>) -> (r: Option<Value>) {
        match split_first(keys) {
            Some((Index::String(name), rest)) => {
                if named(&name, "name") {
                    Some(Value::String(self.name.clone()))
                } else if named(&name, "value") {
                    Some(Value::String(self.value.clone()))
                } else {
                    None
                }
            },
            _ => None,
        }
    }
}

#[derive(Debug)]
pub struct Skill {
    pub skill_id: u32,
    pub skill_type: u32,
    pub skill_affix_list: Vec<SkillAffix>,
    pub name: String,
    pub level: u32,
    pub desc: String,
    pub icon: String,
    pub is_unlock: bool,
}

impl Indexable for Skill {
    open spec fn lookup(&self, keys: Seq<IndexView>) -> Option<ValueView> {
        if keys.len() == 0 {
            None
        } else {
            match keys[0] {
                IndexView::String(name) => {
                    let rest = keys.drop_first();
                    if name == "skill_id"@ {
                        Some(ValueView::U32(self.skill_id))
                    } else if name == "skill_type"@ {
                        Some(ValueView::U32(self.skill_type))
                    } else if name == "skill_affix_list"@ {
                        lookup_each(self.skill_affix_list@, rest)
                    } else if name == "name"@ {
                        Some(ValueView::String(self.name@))
                    } else if name == "level"@ {
                        Some(ValueView::U32(self.level))
                    } else if name == "desc"@ {
                        Some(ValueView::String(self.desc@))
                    } else if name == "icon"@ {
                        Some(ValueView::String(self.icon@))
                    } else if name == "is_unlock"@ {
                        Some(ValueView::Boolean(self.is_unlock))
                    } else {
                        None
                    }
                },
                IndexView::Number(_) => None,
            }
        }
    }

    fn index(&self, keys: Vec<Index>) -> (r: Option<Value>) {
        match split_first(keys) {
            Some((Index::String(name), rest)) => {
                if named(&name, "skill_id") {
                    Some(Value::U32(self.skill_id))
                } else if named(&name, "skill_type") {
                    Some(Value::U32(self.skill_type))
                } else if named(&name, "skill_affix_list") {
                    index_each(&self.skill_affix_list, rest)
                } else if named(&name, "name") {
                    Some(Value::String(self.name.clone()))
                } else if named(&name, "level") {
                    Some(Value::U32(self.level))
                } else if named(&name, "desc") {
                    Some(Value::String(self.desc.clone()))
                } else if named(&name, "icon") {
                    Some(Value::String(self.icon.clone()))
                } else if named(&name, "is_unlock") {
                    Some(Value::Boolean(self.is_unlock))
                } else {
                    None
                }
            },
            _ => None,
        }
    }
}

#[derive(Debug)]
pub struct Weapon {
    pub id: u32,
    pub name: String,
    pub icon: String,
    pub kind: u32,
    pub rarity: u32,
    pub level: u32,
    pub promote_level: u32,
    pub kind_name: String,
    pub desc: String,
    pub affix_level: u32,
    pub main_property: Option<PropertyValue>,
    pub sub_property: Option<PropertyValue>,
}

impl Indexable for Weapon {
    open spec fn lookup(&self, keys: Seq<IndexView>) -> Option<ValueView> {
        if keys.len() == 0 {
            None
        } else {
            match keys[0] {
                IndexView::String(name) => {
                    let rest = keys.drop_first();
                    if name == "id"@ {
                        Some(ValueView::U32(self.id))
                    } else if name == "name"@ {
                        Some(ValueView::String(self.name@))
                    } else if name == "icon"@ {
                        Some(ValueView::String(self.icon@))
                    } else if name == "kind"@ {
                        Some(ValueView::U32(self.kind))
                    } else if name == "rarity"@ {
                        Some(ValueView::U32(self.rarity))
                    } else if name == "level"@ {
                        Some(ValueView::U32(self.level))
                    } else if name == "promote_level"@ {
                        Some(ValueView::U32(self.promote_level))
                    } else if name == "kind_name"@ {
                        Some(ValueView::String(self.kind_name@))
                    } else if name == "desc"@ {
                        Some(ValueView::String(self.desc@))
                    } else if name == "affix_level"@ {
                        Some(ValueView::U32(self.affix_level))
                    } else if name == "main_property"@ {
                        lookup_optional(self.main_property, rest)
                    } else if name == "sub_property"@ {
                        lookup_optional(self.sub_property, rest)
                    } else {
                        None
                    }
                },
                IndexView::Number(_) => None,
            }
        }
    }

    fn index(&self, keys: Vec<Index>) -> (r: Option<Value>) {
        match split_first(keys) {
            Some((Index::String(name), rest)) => {
                if named(&name, "id") {
                    Some(Value::U32(self.id))
                } else if named(&name, "name") {
                    Some(Value::String(self.name.clone()))
                } else if named(&name, "icon") {
                    Some(Value::String(self.icon.clone()))
                } else if named(&name, "kind") {
                    Some(Value::U32(self.kind))
                } else if named(&name, "rarity") {
                    Some(Value::U32(self.rarity))
                } else if named(&name, "level") {
                    Some(Value::U32(self.level))
                } else if named(&name, "promote_level") {
                    Some(Value::U32(self.promote_level))
                } else if named(&name, "kind_name") {
                    Some(Value::String(self.kind_name.clone()))
                } else if named(&name, "desc") {
                    Some(Value::String(self.desc.clone()))
                } else if named(&name, "affix_level") {
                    Some(Value::U32(self.affix_level))
                } else if named(&name, "main_property") {
                    index_optional(&self.main_property, rest)
                } else if named(&name, "sub_property") {
                    index_optional(&self.sub_property, rest)
                } else {
                    None
                }
            },
            _ => None,
        }
    }
}

#[derive(Debug)]
pub struct Costume {
    pub id: u32,
    pub name: String,
    pub icon: String,
}

impl Indexable for Costume {
    open spec fn lookup(&self, keys: Seq<IndexView>) -> Option<ValueView> {
        if keys.len() == 0 {
            None
        } else {
            match keys[0] {
                IndexView::String(name) => {
                    let rest = keys.drop_first();
                    if name == "id"@ {
                        Some(ValueView::U32(self.id))
                    } else if name == "name"@ {
                        Some(ValueView::String(self.name@))
                    } else if name == "icon"@ {
                        Some(ValueView::String(self.icon@))
                    } else {
                        None
                    }
                },
                IndexView::Number(_) => None,
            }
        }
    }

    fn index(&self, keys: Vec<Index>) -> (r: Option<Value>) {
        match split_first(keys) {
            Some((Index::String(name), rest)) => {
                if named(&name, "id") {
                    Some(Value::U32(self.id))
                } else if named(&name, "name") {
                    Some(Value::String(self.name.clone()))
                } else if named(&name, "icon") {
                    Some(Value::String(self.icon.clone()))
                } else {
                    None
                }
            },
            _ => None,
        }
    }
}

#[derive(Debug)]
pub struct BaseWeapon {
    pub id: u32,
    pub icon: String,
    pub kind: u32,
    pub rarity: u32,
    pub level: u32,
    pub affix_level: u32,
}

impl Indexable for BaseWeapon {
    open spec fn lookup(&self, keys: Seq<IndexView>) -> Option<ValueView> {
        if keys.len() == 0 {
            None
        } else {
            match keys[0] {
                IndexView::String(name) => {
                    let rest = keys.drop_first();
                    if name == "id"@ {
                        Some(ValueView::U32(self.id))
                    } else if name == "icon"@ {
                        Some(ValueView::String(self.icon@))
                    } else if name == "kind"@ {
                        Some(ValueView::U32(self.kind))
                    } else if name == "rarity"@ {
                        Some(ValueView::U32(self.rarity))
                    } else if name == "level"@ {
                        Some(ValueView::U32(self.level))
                    } else if name == "affix_level"@ {
                        Some(ValueView::U32(self.affix_level))
                    } else {
                        None
                    }
                },
                IndexView::Number(_) => None,
            }
        }
    }

    fn index(&self, keys: Vec<Index>) -> (r: Option<Value>) {
        match split_first(keys) {
            Some((Index::String(name), rest)) => {
                if named(&name, "id") {
                    Some(Value::U32(self.id))
                } else if named(&name, "icon") {
                    Some(Value::String(self.icon.clone()))
                } else if named(&name, "kind") {
                    Some(Value::U32(self.kind))
                } else if named(&name, "rarity") {
                    Some(Value::U32(self.rarity))
                } else if named(&name, "level") {
                    Some(Value::U32(self.level))
                } else if named(&name, "affix_level") {
                    Some(Value::U32(self.affix_level))
                } else {
                    None
                }
            },
            _ => None,
        }
    }
}

#[derive(Debug)]
pub struct BaseCharacter {
    pub id: u32,
    pub icon: String,
    pub name: String,
    pub element: String,
    pub fetter: u32,
    pub level: u32,
    pub rarity: u32,
    pub actived_constellation_num: u32,
    pub image: String,
    pub is_chosen: bool,
    pub side_icon: String,
    pub weapon_type: u32,
    pub weapon: BaseWeapon,
}

impl Indexable for BaseCharacter {
    open spec fn lookup(&self, keys: Seq<IndexView>) -> Option<ValueView> {
        if keys.len() == 0 {
            None
        } else {
            match keys[0] {
                IndexView::String(name) => {
                    let rest = keys.drop_first();
                    if name == "id"@ {
                        Some(ValueView::U32(self.id))
                    } else if name == "icon"@ {
                        Some(ValueView::String(self.icon@))
                    } else if name == "name"@ {
                        Some(ValueView::String(self.name@))
                    } else if name == "element"@ {
                        Some(ValueView::String(self.element@))
                    } else if name == "fetter"@ {
                        Some(ValueView::U32(self.fetter))
                    } else if name == "level"@ {
                        Some(ValueView::U32(self.level))
                    } else if name == "rarity"@ {
                        Some(ValueView::U32(self.rarity))
                    } else if name == "actived_constellation_num"@ {
                        Some(ValueView::U32(self.actived_constellation_num))
                    } else if name == "image"@ {
                        Some(ValueView::String(self.image@))
                    } else if name == "is_chosen"@ {
                        Some(ValueView::Boolean(self.is_chosen))
                    } else if name == "side_icon"@ {
                        Some(ValueView::String(self.side_icon@))
                    } else if name == "weapon_type"@ {
                        Some(ValueView::U32(self.weapon_type))
                    } else if name == "weapon"@ {
                        self.weapon.lookup(rest)
                    } else {
                        None
                    }
                },
                IndexView::Number(_) => None,
            }
        }
    }

    fn index(&self, keys: Vec<Index>) -> (r: Option<Value>) {
        match split_first(keys) {
            Some((Index::String(name), rest)) => {
                if named(&name, "id") {
                    Some(Value::U32(self.id))
                } else if named(&name, "icon") {
                    Some(Value::String(self.icon.clone()))
                } else if named(&name, "name") {
                    Some(Value::String(self.name.clone()))
                } else if named(&name, "element") {
                    Some(Value::String(self.element.clone()))
                } else if named(&name, "fetter") {
                    Some(Value::U32(self.fetter))
                } else if named(&name, "level") {
                    Some(Value::U32(self.level))
                } else if named(&name, "rarity") {
                    Some(Value::U32(self.rarity))
                } else if named(&name, "actived_constellation_num") {
                    Some(Value::U32(self.actived_constellation_num))
                } else if named(&name, "image") {
                    Some(Value::String(self.image.clone()))
                } else if named(&name, "is_chosen") {
                    Some(Value::Boolean(self.is_chosen))
                } else if named(&name, "side_icon") {
                    Some(Value::String(self.side_icon.clone()))
                } else if named(&name, "weapon_type") {
                    Some(Value::U32(self.weapon_type))
                } else if named(&name, "weapon") {
                    self.weapon.index(rest)
                } else {
                    None
                }
            },
            _ => None,
        }
    }
}

#[derive(Debug)]
pub struct Character {
    pub base: BaseCharacter,
    pub base_properties: Vec<PropertyValue>,
    pub constellations: Vec<Constellation>,
    pub costumes: Vec<Costume>,
    pub element_properties: Vec<PropertyValue>,
    pub extra_properties: Vec<PropertyValue>,
    pub skills: Vec<Skill>,
    pub weapon: Weapon,
    pub selected_properties: Vec<PropertyValue>,
}

impl Indexable for Character {
    open spec fn lookup(&self, keys: Seq<IndexView>) -> Option<ValueView> {
        if keys.len() == 0 {
            None
        } else {
            match keys[0] {
                IndexView::String(name) => {
                    let rest = keys.drop_first();
                    if name == "base"@ {
                        self.base.lookup(rest)
                    } else if name == "base_properties"@ {
                        lookup_each(self.base_properties@, rest)
                    } else if name == "constellations"@ {
                        lookup_each(self.constellations@, rest)
                    } else if name == "costumes"@ {
                        lookup_each(self.costumes@, rest)
                    } else if name == "element_properties"@ {
                        lookup_each(self.element_properties@, rest)
                    } else if name == "extra_properties"@ {
                        lookup_each(self.extra_properties@, rest)
                    } else if name == "skills"@ {
                        lookup_each(self.skills@, rest)
                    } else if name == "weapon"@ {
                        self.weapon.lookup(rest)
                    } else if name == "selected_properties"@ {
                        lookup_each(self.selected_properties@, rest)
                    } else {
                        None
                    }
                },
                IndexView::Number(_) => None,
            }
        }
    }

    fn index(&self, keys: Vec<Index>) -> (r: Option<Value>) {
        match split_first(keys) {
            Some((Index::String(name), rest)) => {
                if named(&name, "base") {
                    self.base.index(rest)
                } else if named(&name, "base_properties") {
                    index_each(&self.base_properties, rest)
                } else if named(&name, "constellations") {
                    index_each(&self.constellations, rest)
                } else if named(&name, "costumes") {
                    index_each(&self.costumes, rest)
                } else if named(&name, "element_properties") {
                    index_each(&self.element_properties, rest)
                } else if named(&name, "extra_properties") {
                    index_each(&self.extra_properties, rest)
                } else if named(&name, "skills") {
                    index_each(&self.skills, rest)
                } else if named(&name, "weapon") {
                    self.weapon.index(rest)
                } else if named(&name, "selected_properties") {
                    index_each(&self.selected_properties, rest)
                } else {
                    None
                }
            },
            _ => None,
        }
    }
}

#[derive(Debug)]
pub struct Characters {
    pub avatar_wiki: std::collections::HashMap<u32, String>,
    pub property_map: std::collections::HashMap<u32, Property>,
    pub list: Vec<Character>,
    pub relic_property_options: RelicOptions,
    pub relic_wiki: std::collections::HashMap<u32, String>,
    pub weapon_wiki: std::collections::HashMap<u32, String>,
}

impl Indexable for Characters {
    open spec fn lookup(&self, keys: Seq<IndexView>) -> Option<ValueView> {
        if keys.len() == 0 {
            None
        } else {
            match keys[0] {
                IndexView::String(name) => {
                    let rest = keys.drop_first();
                    if name == "avatar_wiki"@ {
                        lookup_text_entry(self.avatar_wiki@, rest)
                    } else if name == "property_map"@ {
                        lookup_entry(self.property_map@, rest)
                    } else if name == "list"@ {
                        lookup_each(self.list@, rest)
                    } else if name == "relic_property_options"@ {
                        self.relic_property_options.lookup(rest)
                    } else if name == "relic_wiki"@ {
                        lookup_text_entry(self.relic_wiki@, rest)
                    } else if name == "weapon_wiki"@ {
                        lookup_text_entry(self.weapon_wiki@, rest)
                    } else {
                        None
                    }
                },
                IndexView::Number(_) => None,
            }
        }
    }

    fn index(&self, keys: Vec<Index>) -> (r: Option<Value>) {
        match split_first(keys) {
            Some((Index::String(name), rest)) => {
                if named(&name, "avatar_wiki") {
                    index_text_entry(&self.avatar_wiki, rest)
                } else if named(&name, "property_map") {
                    index_entry(&self.property_map, rest)
                } else if named(&name, "list") {
                    index_each(&self.list, rest)
                } else if named(&name, "relic_property_options") {
                    self.relic_property_options.index(rest)
                } else if named(&name, "relic_wiki") {
                    index_text_entry(&self.relic_wiki, rest)
                } else if named(&name, "weapon_wiki") {
                    index_text_entry(&self.weapon_wiki, rest)
                } else {
                    None
                }
            },
            _ => None,
        }
    }
}

#[derive(Debug)]
pub struct Post {
    pub change: u32,
    pub directory: u32,
    pub hash: String,
    pub height: u32,
    pub width: u32,
    pub id: u32,
    pub image: String,
    pub owner: String,
    pub parent_id: u32,
    pub rating: String,
    pub sample: bool,
    pub sample_height: u32,
    pub sample_width: u32,
    pub score: Option<u32>,
    pub tags: String,
}

impl Indexable for Post {
    open spec fn lookup(&self, keys: Seq<IndexView>) -> Option<ValueView> {
        if keys.len() == 0 {
            None
        } else {
            match keys[0] {
                IndexView::String(name) => {
                    let rest = keys.drop_first();
                    if name == "change"@ {
                        Some(ValueView::U32(self.change))
                    } else if name == "directory"@ {
                        Some(ValueView::U32(self.directory))
                    } else if name == "hash"@ {
                        Some(ValueView::String(self.hash@))
                    } else if name == "height"@ {
                        Some(ValueView::U32(self.height))
                    } else if name == "width"@ {
                        Some(ValueView::U32(self.width))
                    } else if name == "id"@ {
                        Some(ValueView::U32(self.id))
                    } else if name == "image"@ {
                        Some(ValueView::String(self.image@))
                    } else if name == "owner"@ {
                        Some(ValueView::String(self.owner@))
                    } else if name == "parent_id"@ {
                        Some(ValueView::U32(self.parent_id))
                    } else if name == "rating"@ {
                        Some(ValueView::String(self.rating@))
                    } else if name == "sample"@ {
                        Some(ValueView::Boolean(self.sample))
                    } else if name == "sample_height"@ {
                        Some(ValueView::U32(self.sample_height))
                    } else if name == "sample_width"@ {
                        Some(ValueView::U32(self.sample_width))
                    } else if name == "score"@ {
                        match self.score { Some(value) => Some(ValueView::U32(value)), None => None }
                    } else if name == "tags"@ {
                        Some(ValueView::String(self.tags@))
                    } else {
                        None
                    }
                },
                IndexView::Number(_) => None,
            }
        }
    }

    fn index(&self, keys: Vec<Index>) -> (r: Option<Value>) {
        match split_first(keys) {
            Some((Index::String(name), rest)) => {
                if named(&name, "change") {
                    Some(Value::U32(self.change))
                } else if named(&name, "directory") {
                    Some(Value::U32(self.directory))
                } else if named(&name, "hash") {
                    Some(Value::String(self.hash.clone()))
                } else if named(&name, "height") {
                    Some(Value::U32(self.height))
                } else if named(&name, "width") {
                    Some(Value::U32(self.width))
                } else if named(&name, "id") {
                    Some(Value::U32(self.id))
                } else if named(&name, "image") {
                    Some(Value::String(self.image.clone()))
                } else if named(&name, "owner") {
                    Some(Value::String(self.owner.clone()))
                } else if named(&name, "parent_id") {
                    Some(Value::U32(self.parent_id))
                } else if named(&name, "rating") {
                    Some(Value::String(self.rating.clone()))
                } else if named(&name, "sample") {
                    Some(Value::Boolean(self.sample))
                } else if named(&name, "sample_height") {
                    Some(Value::U32(self.sample_height))
                } else if named(&name, "sample_width") {
                    Some(Value::U32(self.sample_width))
                } else if named(&name, "score") {
                    match self.score { Some(value) => Some(Value::U32(value)), None => None }
                } else if named(&name, "tags") {
                    Some(Value::String(self.tags.clone()))
                } else {
                    None
                }
            },
            _ => None,
        }
    }
}

/// The code with which the service refused a request.
#[derive(Debug, Clone, Copy, PartialEq, Eq, Structural)]
pub struct ResponseError {
    pub retcode: i32,
}

impl ResponseError {
    /// The error as a diagnostic writes it: the code in `E[`..`]`.
    pub fn to_string(&self) -> (r: String)
        ensures
            r@ == "E["@ + decimal_text(self.retcode as int) + "]"@,
    {
        let mut out = String::new();
        push_text(&mut out, "E[");
        push_decimal(&mut out, self.retcode as i64);
        push_text(&mut out, "]");
        assert(out@ =~= "E["@ + decimal_text(self.retcode as int) + "]"@);
        out
    }
}

impl Indexable for ResponseError {
    open spec fn lookup(&self, keys: Seq<IndexView>) -> Option<ValueView> {
        if keys.len() == 0 {
            None
        } else {
            match keys[0] {
                IndexView::String(name) => if name == "retcode"@ {
                    Some(ValueView::I32(self.retcode))
                } else {
                    None
                },
                IndexView::Number(_) => None,
            }
        }
    }

    fn index(&self, keys: Vec<Index>) -> (r: Option<Value>) {
        match split_first(keys) {
            Some((Index::String(name), rest)) => {
                if named(&name, "retcode") {
                    Some(Value::I32(self.retcode))
                } else {
                    None
                }
            },
            _ => None,
        }
    }
}

impl<T> Response<T> {
    /// The data of a response that carries some, else its code as an error.
    pub fn into_result(self) -> (r: Result<T, ResponseError>)
        ensures
            r == match self.data {
                Some(data) => Ok::<T, ResponseError>(data),
                None => Err::<T, ResponseError>(ResponseError { retcode: self.retcode }),
            },
    {
        match self.data {
            Some(data) => Ok(data),
            None => Err(ResponseError { retcode: self.retcode }),
        }
    }
}

/// What is asked of the service for the details of some characters.
#[derive(Debug)]
pub struct CharacterRequest<'a> {
    pub role_id: String,
    pub server: &'a str,
    pub character_ids: Vec<String>,
}

} // verus!
