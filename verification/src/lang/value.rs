//! Scalars of host data and the protocol that reaches them.

use vstd::prelude::*;
use vstd::std_specs::convert::FromSpecImpl;
use crate::text::{bool_text, decimal_string, decimal_text, natural_string};

verus! {

/// A scalar of host data.
#[derive(Debug)]
pub enum Value {
    I8(i8),
    U8(u8),
    I16(i16),
    U16(u16),
    I32(i32),
    U32(u32),
    I64(i64),
    U64(u64),
    String(String),
    Boolean(bool),
    BinaryData(Vec<u8>),
}

/// The mathematical value of a [`Value`].
pub enum ValueView {
    I8(i8),
    U8(u8),
    I16(i16),
    U16(u16),
    I32(i32),
    U32(u32),
    I64(i64),
    U64(u64),
    String(Seq<char>),
    Boolean(bool),
    BinaryData(Seq<u8>),
}

impl View for Value {
    type V = ValueView;

    open spec fn view(&self) -> ValueView {
        match self {
            Value::I8(v) => ValueView::I8(*v),
            Value::U8(v) => ValueView::U8(*v),
            Value::I16(v) => ValueView::I16(*v),
            Value::U16(v) => ValueView::U16(*v),
            Value::I32(v) => ValueView::I32(*v),
            Value::U32(v) => ValueView::U32(*v),
            Value::I64(v) => ValueView::I64(*v),
            Value::U64(v) => ValueView::U64(*v),
            Value::String(v) => ValueView::String(v@),
            Value::Boolean(v) => ValueView::Boolean(*v),
            Value::BinaryData(v) => ValueView::BinaryData(v@),
        }
    }
}

/// The value of a scalar that may be missing.
pub open spec fn optional_value(value: Option<Value>) -> Option<ValueView> {
    match value {
        Some(v) => Some(v@),
        None => None,
    }
}

/// The text that `"<binary>"` is.
pub open spec fn binary_text() -> Seq<char> {
    seq!['<', 'b', 'i', 'n', 'a', 'r', 'y', '>']
}

/// A scalar as text: a number in decimal notation, a string as it is, a
/// boolean as `true` or `false`, bytes as `<binary>`.
pub open spec fn value_text(value: ValueView) -> Seq<char> {
    match value {
        ValueView::I8(v) => decimal_text(v as int),
        ValueView::U8(v) => decimal_text(v as int),
        ValueView::I16(v) => decimal_text(v as int),
        ValueView::U16(v) => decimal_text(v as int),
        ValueView::I32(v) => decimal_text(v as int),
        ValueView::U32(v) => decimal_text(v as int),
        ValueView::I64(v) => decimal_text(v as int),
        ValueView::U64(v) => decimal_text(v as int),
        ValueView::String(v) => v,
        ValueView::Boolean(v) => bool_text(v),
        ValueView::BinaryData(_) => binary_text(),
    }
}

/// A copy of the bytes.
pub fn copy_bytes(bytes: &Vec<u8>) -> (r: Vec<u8>)
    ensures
        r@ == bytes@,
{
    let mut out: Vec<u8> = Vec::new();
    let mut i: usize = 0;
    while i < bytes.len()
        invariant
            i <= bytes.len(),
            out@ == bytes@.take(i as int),
        decreases bytes.len() - i,
    {
        out.push(bytes[i]);
        i += 1;
        assert(out@ =~= bytes@.take(i as int));
    }
    assert(out@ =~= bytes@);
    out
}

impl Value {
    /// The scalar as text.
    pub fn into_string(self) -> (r: String)
        ensures
            r@ == value_text(self@),
    {
        match self {
            Value::I8(value) => decimal_string(value as i64),
            Value::U8(value) => decimal_string(value as i64),
            Value::I16(value) => decimal_string(value as i64),
            Value::U16(value) => decimal_string(value as i64),
            Value::I32(value) => decimal_string(value as i64),
            Value::U32(value) => decimal_string(value as i64),
            Value::I64(value) => decimal_string(value),
            Value::U64(value) => natural_string(value),
            Value::String(value) => value,
            Value::Boolean(value) => {
                let mut out = String::new();
                crate::text::push_bool(&mut out, value);
                assert(out@ =~= bool_text(value));
                out
            },
            Value::BinaryData(_) => {
                proof {
                    reveal_strlit("<binary>");
                    assert("<binary>"@ =~= binary_text());
                }
                "<binary>".to_owned()
            },
        }
    }

    /// A copy with the same value.
    pub fn duplicate(&self) -> (r: Self)
        ensures
            r@ == self@,
    {
        match self {
            Value::I8(v) => Value::I8(*v),
            Value::U8(v) => Value::U8(*v),
            Value::I16(v) => Value::I16(*v),
            Value::U16(v) => Value::U16(*v),
            Value::I32(v) => Value::I32(*v),
            Value::U32(v) => Value::U32(*v),
            Value::I64(v) => Value::I64(*v),
            Value::U64(v) => Value::U64(*v),
            Value::String(v) => Value::String(v.clone()),
            Value::Boolean(v) => Value::Boolean(*v),
            Value::BinaryData(v) => Value::BinaryData(copy_bytes(v)),
        }
    }
}

impl Clone for Value {
    fn clone(&self) -> (r: Self)
        ensures
            r@ == self@,
    {
        self.duplicate()
    }
}

/// One step into structured data: the name of a field or entry, or the
/// position of a field or element.
#[derive(Debug)]
pub enum Index {
    String(String),
    Number(usize),
}

/// The mathematical value of an [`Index`].
pub enum IndexView {
    String(Seq<char>),
    Number(usize),
}

impl View for Index {
    type V = IndexView;

    open spec fn view(&self) -> IndexView {
        match self {
            Index::String(name) => IndexView::String(name@),
            Index::Number(position) => IndexView::Number(*position),
        }
    }
}

impl Index {
    /// A copy with the same value.
    pub fn duplicate(&self) -> (r: Self)
        ensures
            r@ == self@,
    {
        match self {
            Index::String(name) => Index::String(name.clone()),
            Index::Number(position) => Index::Number(*position),
        }
    }
}

impl Clone for Index {
    fn clone(&self) -> (r: Self)
        ensures
            r@ == self@,
    {
        self.duplicate()
    }
}

/// The values of a sequence of keys.
pub open spec fn index_views(keys: Seq<Index>) -> Seq<IndexView> {
    keys.map_values(|k: Index| k@)
}

/// Structured data that answers a path of keys with the scalar at its end.
///
/// The keys are taken from the left. A name picks a named field and a
/// number a positional one. A scalar field takes its key and ends the path
/// with its value, whatever keys follow. A sequence takes one number more
/// and goes on in that element; an optional goes on in what it holds,
/// taking no key; a mapping takes one key more and goes on in that entry;
/// any other field goes on with the keys that are left. A key of the wrong
/// kind, a key that is missing, and an element, entry or value that is not
/// there, make the answer `None`.
pub trait Indexable {
    /// The scalar at the end of `keys`, if there is one. An implementation
    /// that is not verified leaves this as it is declared here, and stands
    /// by its `index` answering the same for the same.
    open spec fn lookup(&self, keys: Seq<IndexView>) -> Option<ValueView> {
        arbitrary()
    }

    fn index(&self, keys: Vec<Index>) -> (r: Option<Value>)
        ensures
            optional_value(r) == self.lookup(index_views(keys@)),
    ;
}

/// What a sequence of structured elements answers: the answer of the
/// element at the first key, a number within the sequence, to the rest.
pub open spec fn lookup_each<T: Indexable>(items: Seq<T>, keys: Seq<IndexView>) -> Option<
    ValueView,
> {
    if keys.len() == 0 {
        None
    } else {
        match keys[0] {
            IndexView::Number(position) => if position < items.len() {
                items[position as int].lookup(keys.drop_first())
            } else {
                None
            },
            IndexView::String(_) => None,
        }
    }
}

/// What a sequence of scalars answers: the scalar at the first key, a
/// number within the sequence.
pub open spec fn lookup_scalar(items: Seq<ValueView>, keys: Seq<IndexView>) -> Option<ValueView> {
    if keys.len() == 0 {
        None
    } else {
        match keys[0] {
            IndexView::Number(position) => if position < items.len() {
                Some(items[position as int])
            } else {
                None
            },
            IndexView::String(_) => None,
        }
    }
}

/// What an optional structured value answers: the answer of what it holds.
pub open spec fn lookup_optional<T: Indexable>(item: Option<T>, keys: Seq<IndexView>) -> Option<
    ValueView,
> {
    match item {
        Some(value) => value.lookup(keys),
        None => None,
    }
}

/// The key of a mapping keyed by 32-bit numbers that the first key stands
/// for: the number, cut to 32 bits.
pub open spec fn entry_key(keys: Seq<IndexView>) -> Option<u32> {
    if keys.len() == 0 {
        None
    } else {
        match keys[0] {
            IndexView::Number(position) => Some(position as u32),
            IndexView::String(_) => None,
        }
    }
}

/// What a mapping from numbers to structured values answers: the answer of
/// the entry at the first key to the rest.
pub open spec fn lookup_entry<T: Indexable>(entries: Map<u32, T>, keys: Seq<IndexView>) -> Option<
    ValueView,
> {
    match entry_key(keys) {
        Some(key) => if entries.contains_key(key) {
            entries[key].lookup(keys.drop_first())
        } else {
            None
        },
        None => None,
    }
}

/// What a mapping from numbers to strings answers: the string at the first
/// key.
pub open spec fn lookup_text_entry(entries: Map<u32, String>, keys: Seq<IndexView>) -> Option<
    ValueView,
> {
    match entry_key(keys) {
        Some(key) => if entries.contains_key(key) {
            Some(ValueView::String(entries[key]@))
        } else {
            None
        },
        None => None,
    }
}

/// The first key and the keys behind it.
pub fn split_first(keys: Vec<Index>) -> (r: Option<(Index, Vec<Index>)>)
    ensures
        keys@.len() == 0 <==> r is None,
        r matches Some((first, rest)) ==> {
            &&& first@ == index_views(keys@)[0]
            &&& index_views(rest@) == index_views(keys@).drop_first()
        },
{
    let mut keys = keys;
    let ghost before = keys@;
    if keys.len() == 0 {
        None
    } else {
        let first = keys.remove(0);
        assert(index_views(keys@) =~= index_views(before).drop_first());
        Some((first, keys))
    }
}

/// Whether `name` is written `text`.
pub fn named(name: &String, text: &str) -> (r: bool)
    ensures
        r == (name@ == text@),
{
    let other = text.to_owned();
    *name == other
}

/// Answers for a sequence of structured elements.
pub fn index_each<T: Indexable>(items: &Vec<T>, keys: Vec<Index>) -> (r: Option<Value>)
    ensures
        optional_value(r) == lookup_each(items@, index_views(keys@)),
{
    match split_first(keys) {
        Some((Index::Number(position), rest)) => {
            if position < items.len() {
                items[position].index(rest)
            } else {
                None
            }
        },
        _ => None,
    }
}

/// Answers for a sequence of integers.
pub fn index_integers(items: &Vec<i32>, keys: Vec<Index>) -> (r: Option<Value>)
    ensures
        optional_value(r) == lookup_scalar(
            items@.map_values(|v: i32| ValueView::I32(v)),
            index_views(keys@),
        ),
{
    match split_first(keys) {
        Some((Index::Number(position), rest)) => {
            if position < items.len() {
                Some(Value::I32(items[position]))
            } else {
                None
            }
        },
        _ => None,
    }
}

/// Answers for a sequence of byte strings.
pub fn index_bytes(items: &Vec<Vec<u8>>, keys: Vec<Index>) -> (r: Option<Value>)
    ensures
        optional_value(r) == lookup_scalar(
            items@.map_values(|bytes: Vec<u8>| ValueView::BinaryData(bytes@)),
            index_views(keys@),
        ),
{
    match split_first(keys) {
        Some((Index::Number(position), rest)) => {
            if position < items.len() {
                Some(Value::BinaryData(copy_bytes(&items[position])))
            } else {
                None
            }
        },
        _ => None,
    }
}

/// Answers for an optional structured value.
pub fn index_optional<T: Indexable>(item: &Option<T>, keys: Vec<Index>) -> (r: Option<Value>)
    ensures
        optional_value(r) == lookup_optional(*item, index_views(keys@)),
{
    match item {
        Some(value) => value.index(keys),
        None => None,
    }
}

/// Answers for a mapping from numbers to structured values.
pub fn index_entry<T: Indexable>(
    entries: &std::collections::HashMap<u32, T>,
    keys: Vec<Index>,
) -> (r: Option<Value>)
    ensures
        optional_value(r) == lookup_entry(entries@, index_views(keys@)),
{
    broadcast use vstd::std_specs::hash::group_hash_axioms;

    match split_first(keys) {
        Some((Index::Number(position), rest)) => {
            let key: u32 = #[verifier::truncate]
            (position as u32);
            match entries.get(&key) {
                Some(value) => value.index(rest),
                None => None,
            }
        },
        _ => None,
    }
}

/// Answers for a mapping from numbers to strings.
pub fn index_text_entry(entries: &std::collections::HashMap<u32, String>, keys: Vec<Index>) -> (r:
    Option<Value>)
    ensures
        optional_value(r) == lookup_text_entry(entries@, index_views(keys@)),
{
    broadcast use vstd::std_specs::hash::group_hash_axioms;

    match split_first(keys) {
        Some((Index::Number(position), rest)) => {
            let key: u32 = #[verifier::truncate]
            (position as u32);
            match entries.get(&key) {
                Some(value) => Some(Value::String(value.clone())),
                None => None,
            }
        },
        _ => None,
    }
}

/// In a sequence of scalars, a number within the sequence answers with the
/// scalar at that place, whatever keys follow it; a number beyond the
/// sequence, a name and no key at all answer with nothing.
pub proof fn law_sequence_of_scalars(items: Seq<ValueView>, position: usize, rest: Seq<IndexView>)
    ensures
        position < items.len() ==> lookup_scalar(
            items,
            seq![IndexView::Number(position)] + rest,
        ) == Some(items[position as int]),
        position >= items.len() ==> lookup_scalar(items, seq![IndexView::Number(position)] + rest)
            is None,
        lookup_scalar(items, Seq::empty()) is None,
        forall|name: Seq<char>|
            lookup_scalar(items, seq![IndexView::String(name)] + rest) is None,
{
    assert forall|name: Seq<char>|
        lookup_scalar(items, seq![IndexView::String(name)] + rest) is None by {
        assert((seq![IndexView::String(name)] + rest)[0] == IndexView::String(name));
    }
    assert((seq![IndexView::Number(position)] + rest)[0] == IndexView::Number(position));
}

impl From<i8> for Value {
    fn from(value: i8) -> (r: Self) {
        Value::I8(value)
    }
}

impl FromSpecImpl<i8> for Value {
    open spec fn obeys_from_spec() -> bool {
        true
    }

    open spec fn from_spec(value: i8) -> Self {
        Value::I8(value)
    }
}

impl From<u8> for Value {
    fn from(value: u8) -> (r: Self) {
        Value::U8(value)
    }
}

impl FromSpecImpl<u8> for Value {
    open spec fn obeys_from_spec() -> bool {
        true
    }

    open spec fn from_spec(value: u8) -> Self {
        Value::U8(value)
    }
}

impl From<i16> for Value {
    fn from(value: i16) -> (r: Self) {
        Value::I16(value)
    }
}

impl FromSpecImpl<i16> for Value {
    open spec fn obeys_from_spec() -> bool {
        true
    }

    open spec fn from_spec(value: i16) -> Self {
        Value::I16(value)
    }
}

impl From<u16> for Value {
    fn from(value: u16) -> (r: Self) {
        Value::U16(value)
    }
}

impl FromSpecImpl<u16> for Value {
    open spec fn obeys_from_spec() -> bool {
        true
    }

    open spec fn from_spec(value: u16) -> Self {
        Value::U16(value)
    }
}

impl From<i32> for Value {
    fn from(value: i32) -> (r: Self) {
        Value::I32(value)
    }
}

impl FromSpecImpl<i32> for Value {
    open spec fn obeys_from_spec() -> bool {
        true
    }

    open spec fn from_spec(value: i32) -> Self {
        Value::I32(value)
    }
}

impl From<u32> for Value {
    fn from(value: u32) -> (r: Self) {
        Value::U32(value)
    }
}

impl FromSpecImpl<u32> for Value {
    open spec fn obeys_from_spec() -> bool {
        true
    }

    open spec fn from_spec(value: u32) -> Self {
        Value::U32(value)
    }
}

impl From<i64> for Value {
    fn from(value: i64) -> (r: Self) {
        Value::I64(value)
    }
}

impl FromSpecImpl<i64> for Value {
    open spec fn obeys_from_spec() -> bool {
        true
    }

    open spec fn from_spec(value: i64) -> Self {
        Value::I64(value)
    }
}

impl From<u64> for Value {
    fn from(value: u64) -> (r: Self) {
        Value::U64(value)
    }
}

impl FromSpecImpl<u64> for Value {
    open spec fn obeys_from_spec() -> bool {
        true
    }

    open spec fn from_spec(value: u64) -> Self {
        Value::U64(value)
    }
}

impl From<String> for Value {
    fn from(value: String) -> (r: Self) {
        Value::String(value)
    }
}

impl FromSpecImpl<String> for Value {
    open spec fn obeys_from_spec() -> bool {
        true
    }

    open spec fn from_spec(value: String) -> Self {
        Value::String(value)
    }
}

impl From<bool> for Value {
    fn from(value: bool) -> (r: Self) {
        Value::Boolean(value)
    }
}

impl FromSpecImpl<bool> for Value {
    open spec fn obeys_from_spec() -> bool {
        true
    }

    open spec fn from_spec(value: bool) -> Self {
        Value::Boolean(value)
    }
}


} // verus!
