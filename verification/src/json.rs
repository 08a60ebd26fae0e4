//! JSON documents as plain values, and the way to and from their text.

use vstd::prelude::*;
use crate::text::same_text;

verus! {

broadcast use vstd::seq_lib::group_seq_properties;

/// A JSON number: an unsigned integer by its value, any other number carried as it came.
#[derive(Debug)]
pub enum JsonNumber {
    Unsigned(u64),
    Carried(serde_json::Number),
}

/// A JSON document. Where an object names a key twice, the later entry counts.
#[derive(Debug)]
pub enum Json {
    Null,
    Bool(bool),
    Number(JsonNumber),
    Text(String),
    Array(Vec<Json>),
    Object(Vec<(String, Json)>),
}

/// What a JSON document says.
pub enum JsonView {
    Null,
    Bool(bool),
    Number(JsonNumber),
    Text(Seq<char>),
    Array(Seq<JsonView>),
    Object(Map<Seq<char>, JsonView>),
}

impl Json {
    /// What this document says.
    pub open spec fn tree(self) -> JsonView
        decreases self,
    {
        match self {
            Json::Null => JsonView::Null,
            Json::Bool(b) => JsonView::Bool(b),
            Json::Number(n) => JsonView::Number(number_tree(n)),
            Json::Text(s) => JsonView::Text(s@),
            Json::Array(items) => JsonView::Array(
                Seq::new(
                    items@.len(),
                    |i: int|
                        if 0 <= i < items@.len() {
                            items@[i].tree()
                        } else {
                            JsonView::Null
                        },
                ),
            ),
            Json::Object(entries) => JsonView::Object(entries_tree(entries@)),
        }
    }
}

/// What a number says: a carried one that is an unsigned integer counts as that integer.
pub open spec fn number_tree(number: JsonNumber) -> JsonNumber {
    match number {
        JsonNumber::Unsigned(n) => JsonNumber::Unsigned(n),
        JsonNumber::Carried(n) => number_content(n),
    }
}

/// What the entries of an object say: a later entry replaces an earlier one of the same key.
pub open spec fn entries_tree(entries: Seq<(String, Json)>) -> Map<Seq<char>, JsonView>
    decreases entries,
{
    if entries.len() == 0 {
        Map::empty()
    } else {
        entries_tree(entries.drop_last()).insert(entries.last().0@, entries.last().1.tree())
    }
}

/// What the items of an array say.
pub open spec fn items_tree(items: Seq<Json>) -> Seq<JsonView> {
    items.map_values(|item: Json| item.tree())
}

/// The value under `key`, when `tree` is an object that has it.
pub open spec fn field(tree: JsonView, key: Seq<char>) -> Option<JsonView> {
    match tree {
        JsonView::Object(map) => if map.contains_key(key) {
            Some(map[key])
        } else {
            None
        },
        _ => None,
    }
}

/// The boolean that `tree` is, when it is one.
pub open spec fn bool_of(tree: JsonView) -> Option<bool> {
    match tree {
        JsonView::Bool(b) => Some(b),
        _ => None,
    }
}

/// The unsigned integer that `tree` is, when it is one.
pub open spec fn u64_of(tree: JsonView) -> Option<u64> {
    match tree {
        JsonView::Number(JsonNumber::Unsigned(n)) => Some(n),
        _ => None,
    }
}

/// The text that `tree` is, when it is one.
pub open spec fn text_of(tree: JsonView) -> Option<Seq<char>> {
    match tree {
        JsonView::Text(text) => Some(text),
        _ => None,
    }
}

/// The items of `tree`, when it is an array.
pub open spec fn array_of(tree: JsonView) -> Option<Seq<JsonView>> {
    match tree {
        JsonView::Array(items) => Some(items),
        _ => None,
    }
}

/// Whether `a` and `b` agree in everything but the values of carried numbers.
pub open spec fn same_but_carried(a: JsonView, b: JsonView) -> bool
    decreases a,
{
    match (a, b) {
        (
            JsonView::Number(JsonNumber::Carried(_)),
            JsonView::Number(JsonNumber::Carried(_)),
        ) => true,
        (JsonView::Array(s), JsonView::Array(t)) => {
            &&& s.len() == t.len()
            &&& forall|i: int| 0 <= i < s.len() ==> same_but_carried(#[trigger] s[i], t[i])
        },
        (JsonView::Object(m), JsonView::Object(n)) => {
            &&& m.dom() == n.dom()
            &&& forall|k: Seq<char>| #[trigger]
                m.contains_key(k) ==> same_but_carried(m[k], n[k])
        },
        _ => a == b,
    }
}

/// The one key with a meaning of its own to the parser, which takes the text under it for a
/// document in the place of the object.
pub open spec fn raw_key() -> Seq<char> {
    "$serde_json::private::RawValue"@
}

/// The length of [`raw_key`], which tells it from shorter keys.
pub proof fn lemma_raw_key_length()
    ensures
        raw_key().len() == 30,
{
    reveal_strlit("$serde_json::private::RawValue");
}

/// Whether no object in `tree` has the key [`raw_key`].
pub open spec fn is_plain(tree: JsonView) -> bool
    decreases tree,
{
    match tree {
        JsonView::Array(items) => forall|i: int|
            0 <= i < items.len() ==> is_plain(#[trigger] items[i]),
        JsonView::Object(map) => !map.contains_key(raw_key()) && forall|k: Seq<char>| #[trigger]
            map.contains_key(k) ==> is_plain(map[k]),
        _ => true,
    }
}

/// Whether `tree` is plain, nests at most `depth` arrays and objects and carries no number.
pub open spec fn is_exact(tree: JsonView, depth: nat) -> bool
    decreases depth,
{
    match tree {
        JsonView::Number(JsonNumber::Carried(_)) => false,
        JsonView::Array(items) => depth > 0 && forall|i: int|
            0 <= i < items.len() ==> is_exact(#[trigger] items[i], (depth - 1) as nat),
        JsonView::Object(map) => depth > 0 && !map.contains_key(raw_key()) && forall|
            k: Seq<char>,
        | #[trigger]
            map.contains_key(k) ==> is_exact(map[k], (depth - 1) as nat),
        _ => true,
    }
}

// ---------------------------------------------------------------------------------------------
// serde_json
// ---------------------------------------------------------------------------------------------

/// `serde_json::Value`, whose content is named by [`json_content`].
#[verifier::external_type_specification]
#[verifier::external_body]
pub struct ExValue(serde_json::Value);

/// `serde_json::Map`, whose content is named by [`object_content`].
#[verifier::external_type_specification]
#[verifier::external_body]
#[verifier::reject_recursive_types(K)]
#[verifier::reject_recursive_types(V)]
pub struct ExMap<K, V>(serde_json::Map<K, V>);

/// `serde_json::Number`, carried through unread unless it is an unsigned integer.
#[verifier::external_type_specification]
#[verifier::external_body]
pub struct ExNumber(serde_json::Number);

/// `serde_json::Error`.
#[verifier::external_type_specification]
#[verifier::external_body]
pub struct ExError(serde_json::Error);

/// What a `serde_json::Value` holds.
pub uninterp spec fn json_content(value: serde_json::Value) -> JsonView;

/// What a `serde_json::Map` holds.
pub uninterp spec fn object_content(
    object: serde_json::Map<String, serde_json::Value>,
) -> Map<Seq<char>, JsonView>;

/// What `serde_json::Number::as_u64` returns.
pub uninterp spec fn number_u64(number: serde_json::Number) -> Option<u64>;

/// The document that `serde_json::from_slice` reads from `bytes`, when it reads one.
pub uninterp spec fn json_parsed(bytes: Seq<u8>) -> Option<JsonView>;

/// The bytes that `serde_json::to_vec` writes for a document.
pub uninterp spec fn json_text(tree: JsonView) -> Seq<u8>;

/// The outermost layer of a `serde_json::Value`.
enum Node {
    Null,
    Bool(bool),
    Number(serde_json::Number),
    Text(String),
    Array(Vec<serde_json::Value>),
    Object(serde_json::Map<String, serde_json::Value>),
}

/// A `serde_json::Number` as this library holds it.
pub open spec fn number_content(number: serde_json::Number) -> JsonNumber {
    match number_u64(number) {
        Some(n) => JsonNumber::Unsigned(n),
        None => JsonNumber::Carried(number),
    }
}

/// What a value with the outermost layer `node` holds.
spec fn node_content(node: Node) -> JsonView {
    match node {
        Node::Null => JsonView::Null,
        Node::Bool(b) => JsonView::Bool(b),
        Node::Number(n) => JsonView::Number(number_content(n)),
        Node::Text(s) => JsonView::Text(s@),
        Node::Array(items) => JsonView::Array(
            Seq::new(items@.len(), |i: int| json_content(items@[i])),
        ),
        Node::Object(object) => JsonView::Object(object_content(object)),
    }
}

/// What entries put one by one into a `serde_json::Map` make of it.
spec fn entries_content(entries: Seq<(String, serde_json::Value)>) -> Map<Seq<char>, JsonView>
    decreases entries.len(),
{
    if entries.len() == 0 {
        Map::empty()
    } else {
        entries_content(entries.drop_last()).insert(
            entries.last().0@,
            json_content(entries.last().1),
        )
    }
}

/// The six variants of `serde_json::Value`, told apart: a value holds what its variant says.
#[verifier::external_body]
fn value_node(value: serde_json::Value) -> (node: Node)
    ensures
        json_content(value) == node_content(node),
{
    match value {
        serde_json::Value::Null => Node::Null,
        serde_json::Value::Bool(b) => Node::Bool(b),
        serde_json::Value::Number(n) => Node::Number(n),
        serde_json::Value::String(s) => Node::Text(s),
        serde_json::Value::Array(items) => Node::Array(items),
        serde_json::Value::Object(object) => Node::Object(object),
    }
}

/// The six variants of `serde_json::Value`, built: a value holds what its variant says.
#[verifier::external_body]
fn node_value(node: Node) -> (value: serde_json::Value)
    ensures
        json_content(value) == node_content(node),
{
    match node {
        Node::Null => serde_json::Value::Null,
        Node::Bool(b) => serde_json::Value::Bool(b),
        Node::Number(n) => serde_json::Value::Number(n),
        Node::Text(s) => serde_json::Value::String(s),
        Node::Array(items) => serde_json::Value::Array(items),
        Node::Object(object) => serde_json::Value::Object(object),
    }
}

/// `serde_json::Map::into_iter`: hands out each entry once, so that no key comes twice and the
/// entries put into an empty map give the same map. Their order is left open.
#[verifier::external_body]
fn object_entries(object: serde_json::Map<String, serde_json::Value>) -> (entries: Vec<
    (String, serde_json::Value),
>)
    ensures
        object_content(object) == entries_content(entries@),
        forall|i: int, j: int|
            0 <= i < j < entries@.len() ==> #[trigger] entries@[i].0@ != #[trigger] entries@[j].0@,
{
    object.into_iter().collect()
}

/// `serde_json::Map::new`: a map that holds nothing.
#[verifier::external_body]
fn object_new() -> (object: serde_json::Map<String, serde_json::Value>)
    ensures
        (object_content(object) == Map::<Seq<char>, JsonView>::empty()),
{
    serde_json::Map::new()
}

/// `serde_json::Map::insert`: puts the value under the key, in place of what was there. The
/// value that it replaced, which `insert` hands back, is dropped.
#[verifier::external_body]
fn object_insert(
    object: &mut serde_json::Map<String, serde_json::Value>,
    key: String,
    value: serde_json::Value,
)
    ensures
        object_content(*final(object)) == object_content(*old(object)).insert(
            key@,
            json_content(value),
        ),
{
    let _ = object.insert(key, value);
}

/// `serde_json::Number::as_u64`: the number's value when it is an unsigned integer.
#[verifier::external_body]
fn number_as_u64(number: &serde_json::Number) -> (value: Option<u64>)
    ensures
        value == number_u64(*number),
{
    number.as_u64()
}

/// `serde_json::Number` from a `u64`: a number that `as_u64` reads back as `value`.
#[verifier::external_body]
fn number_from_u64(value: u64) -> (number: serde_json::Number)
    ensures
        number_u64(number) == Some(value),
{
    serde_json::Number::from(value)
}

/// `serde_json::from_slice` into a `serde_json::Value`: which bytes are a document, and which
/// document, is a function of the bytes.
#[verifier::external_body]
fn parse_value(bytes: &[u8]) -> (value: Result<serde_json::Value, serde_json::Error>)
    ensures
        match value {
            Ok(value) => json_parsed(bytes@) == Some(json_content(value)),
            Err(_) => json_parsed(bytes@) is None,
        },
{
    serde_json::from_slice(bytes)
}

/// `serde_json::to_vec` of a `serde_json::Value`: always succeeds, and the bytes are a function
/// of what the value holds. Where no object has the parser's own key, they read again as that
/// document, but for the digits of carried numbers, if they read at all; and they are sure to
/// read again where no number is carried and the nesting stays within the 127 levels that the
/// parser follows.
#[verifier::external_body]
fn write_value(value: &serde_json::Value) -> (bytes: Result<Vec<u8>, serde_json::Error>)
    ensures
        match bytes {
            Ok(bytes) => {
                &&& bytes@ == json_text(json_content(*value))
                &&& is_plain(json_content(*value)) ==> (json_parsed(bytes@) matches Some(back)
                    ==> same_but_carried(back, json_content(*value)))
                &&& is_exact(json_content(*value), 127) ==> json_parsed(bytes@) == Some(
                    json_content(*value),
                )
            },
            Err(_) => false,
        },
{
    serde_json::to_vec(value)
}

// ---------------------------------------------------------------------------------------------
// Between documents and their text
// ---------------------------------------------------------------------------------------------

/// Where no key comes twice, each entry is found under its key.
proof fn lemma_entries_content_has(entries: Seq<(String, serde_json::Value)>, i: int)
    requires
        forall|i: int, j: int|
            0 <= i < j < entries.len() ==> #[trigger] entries[i].0@ != #[trigger] entries[j].0@,
        0 <= i < entries.len(),
    ensures
        entries_content(entries).contains_key(entries[i].0@),
        entries_content(entries)[entries[i].0@] == json_content(entries[i].1),
        entries_content(entries).dom().finite(),
    decreases entries.len(),
{
    if i < entries.len() - 1 {
        let shorter = entries.drop_last();
        assert forall|a: int, b: int| 0 <= a < b < shorter.len() implies #[trigger] shorter[a].0@
            != #[trigger] shorter[b].0@ by {
            assert(shorter[a] == entries[a] && shorter[b] == entries[b]);
        }
        assert(shorter[i] == entries[i]);
        lemma_entries_content_has(shorter, i);
    } else if i > 0 {
        let shorter = entries.drop_last();
        assert forall|a: int, b: int| 0 <= a < b < shorter.len() implies #[trigger] shorter[a].0@
            != #[trigger] shorter[b].0@ by {
            assert(shorter[a] == entries[a] && shorter[b] == entries[b]);
        }
        lemma_entries_content_has(shorter, i - 1);
    } else {
        assert(entries.drop_last() =~= Seq::empty());
    }
}

/// A number as this library holds it.
fn number_from(number: serde_json::Number) -> (held: JsonNumber)
    ensures
        held == number_content(number),
{
    match number_as_u64(&number) {
        Some(value) => JsonNumber::Unsigned(value),
        None => JsonNumber::Carried(number),
    }
}

impl Json {
    /// The document that a `serde_json::Value` holds.
    pub fn from_value(value: serde_json::Value) -> (json: Json)
        ensures
            json.tree() == json_content(value),
        decreases json_content(value),
    {
        let ghost whole = json_content(value);
        match value_node(value) {
            Node::Null => Json::Null,
            Node::Bool(b) => Json::Bool(b),
            Node::Number(n) => Json::Number(number_from(n)),
            Node::Text(s) => Json::Text(s),
            Node::Array(items) => {
                let ghost all = items@;
                let mut converted: Vec<Json> = Vec::new();
                for item in it: items
                    invariant
                        it.seq() == all,
                        whole == json_content(value),
                        whole == JsonView::Array(
                            Seq::new(all.len(), |i: int| json_content(all[i])),
                        ),
                        converted@.len() == it.index(),
                        forall|i: int|
                            0 <= i < converted@.len() ==> (#[trigger] converted@[i]).tree()
                                == json_content(all[i]),
                {
                    proof {
                        let trees = whole->Array_0;
                        assert(trees[it.index()] == json_content(item));
                        assert(decreases_to!(whole => trees));
                        assert(decreases_to!(trees => trees[it.index()]));
                    }
                    converted.push(Json::from_value(item));
                }
                let json: Json = Json::Array(converted);
                assert(json.tree()->Array_0 =~= whole->Array_0);
                json
            },
            Node::Object(object) => {
                let entries: Vec<(String, serde_json::Value)> = object_entries(object);
                let ghost all = entries@;
                let mut converted: Vec<(String, Json)> = Vec::new();
                for entry in it: entries
                    invariant
                        it.seq() == all,
                        whole == json_content(value),
                        whole == JsonView::Object(entries_content(all)),
                        forall|i: int, j: int|
                            0 <= i < j < all.len() ==> #[trigger] all[i].0@
                                != #[trigger] all[j].0@,
                        entries_tree(converted@) == entries_content(all.take(it.index())),
                {
                    let (key, item) = entry;
                    proof {
                        let map = whole->Object_0;
                        lemma_entries_content_has(all, it.index());
                        assert(map[key@] == json_content(item));
                        assert(decreases_to!(whole => map));
                        assert(decreases_to!(map => map[key@]));
                        assert(all.take(it.index() + 1).drop_last() =~= all.take(it.index()));
                    }
                    let ghost before = converted@;
                    converted.push((key, Json::from_value(item)));
                    assert(converted@.drop_last() =~= before);
                }
                assert(all.take(all.len() as int) =~= all);
                Json::Object(converted)
            },
        }
    }

    /// This document as a `serde_json::Value`.
    pub fn into_value(self) -> (value: serde_json::Value)
        ensures
            json_content(value) == self.tree(),
        decreases self,
    {
        match self {
            Json::Null => node_value(Node::Null),
            Json::Bool(b) => node_value(Node::Bool(b)),
            Json::Number(JsonNumber::Unsigned(n)) => node_value(Node::Number(number_from_u64(n))),
            Json::Number(JsonNumber::Carried(n)) => node_value(Node::Number(n)),
            Json::Text(s) => node_value(Node::Text(s)),
            Json::Array(items) => {
                let ghost all = items@;
                let mut converted: Vec<serde_json::Value> = Vec::new();
                for item in it: items
                    invariant
                        it.seq() == all,
                        self == Json::Array(items),
                        all == items@,
                        converted@.len() == it.index(),
                        forall|i: int|
                            0 <= i < converted@.len() ==> json_content(#[trigger] converted@[i])
                                == all[i].tree(),
                {
                    assert(item == items@[it.index()]);
                    assert(decreases_to!(self => self->Array_0));
                    assert(decreases_to!(items => items@));
                    assert(decreases_to!(items@ => items@[it.index()]));
                    converted.push(item.into_value());
                }
                let ghost made = Seq::new(converted@.len(), |i: int| json_content(converted@[i]));
                assert(made =~= self.tree()->Array_0);
                node_value(Node::Array(converted))
            },
            Json::Object(entries) => {
                let ghost all = entries@;
                let mut object: serde_json::Map<String, serde_json::Value> = object_new();
                for entry in it: entries
                    invariant
                        it.seq() == all,
                        self == Json::Object(entries),
                        all == entries@,
                        object_content(object) == entries_tree(all.take(it.index())),
                {
                    assert(entry == entries@[it.index()]);
                    assert(decreases_to!(self => self->Object_0));
                    assert(decreases_to!(entries => entries@));
                    assert(decreases_to!(entries@ => entries@[it.index()]));
                    assert(decreases_to!(entry => entry.1));
                    assert(all.take(it.index() + 1).drop_last() =~= all.take(it.index()));
                    let (key, item) = entry;
                    object_insert(&mut object, key, item.into_value());
                }
                assert(all.take(all.len() as int) =~= all);
                node_value(Node::Object(object))
            },
        }
    }

    /// The document that `bytes` spell, when they spell one.
    pub fn parse(bytes: &[u8]) -> (json: Option<Json>)
        ensures
            match json {
                Some(json) => json_parsed(bytes@) == Some(json.tree()),
                None => json_parsed(bytes@) is None,
            },
    {
        match parse_value(bytes) {
            Ok(value) => Some(Json::from_value(value)),
            Err(_) => None,
        }
    }

    /// This document as text. Whoever parses a plain document sees the same document, but for the
    /// digits of carried numbers; where it carries none and nests no deeper than the parser
    /// follows, it parses and gives back exactly this document.
    pub fn into_bytes(self) -> (bytes: Vec<u8>)
        ensures
            bytes@ == json_text(self.tree()),
            is_plain(self.tree()) ==> (json_parsed(bytes@) matches Some(back) ==> same_but_carried(
                back,
                self.tree(),
            )),
            is_exact(self.tree(), 127) ==> json_parsed(bytes@) == Some(self.tree()),
    {
        let value: serde_json::Value = self.into_value();
        match write_value(&value) {
            Ok(bytes) => bytes,
            // Writing a document never fails.
            Err(_) => Vec::new(),
        }
    }

    /// The value under `key`, when this document is an object that has it.
    pub fn get(&self, key: &str) -> (value: Option<&Json>)
        ensures
            match value {
                Some(value) => field(self.tree(), key@) == Some(value.tree()),
                None => field(self.tree(), key@) is None,
            },
    {
        match self {
            Json::Object(entries) => {
                let mut i: usize = entries.len();
                assert(entries@.take(entries@.len() as int) =~= entries@);
                while i > 0
                    invariant
                        i <= entries@.len(),
                        self.tree() == JsonView::Object(entries_tree(entries@)),
                        field(self.tree(), key@) == field(
                            JsonView::Object(entries_tree(entries@.take(i as int))),
                            key@,
                        ),
                    decreases i,
                {
                    assert(entries@.take(i as int).drop_last() =~= entries@.take(i - 1));
                    if same_text(entries[i - 1].0.as_str(), key) {
                        return Some(&entries[i - 1].1);
                    }
                    i -= 1;
                }
                None
            },
            _ => None,
        }
    }

    /// The boolean that this document is, when it is one.
    pub fn as_bool(&self) -> (value: Option<bool>)
        ensures
            value == bool_of(self.tree()),
    {
        match self {
            Json::Bool(b) => Some(*b),
            _ => None,
        }
    }

    /// The unsigned integer that this document is, when it is one.
    pub fn as_u64(&self) -> (value: Option<u64>)
        ensures
            value == u64_of(self.tree()),
    {
        match self {
            Json::Number(JsonNumber::Unsigned(n)) => Some(*n),
            Json::Number(JsonNumber::Carried(n)) => number_as_u64(n),
            _ => None,
        }
    }

    /// The text that this document is, when it is one.
    pub fn as_str(&self) -> (value: Option<&str>)
        ensures
            match value {
                Some(value) => text_of(self.tree()) == Some(value@),
                None => text_of(self.tree()) is None,
            },
    {
        match self {
            Json::Text(s) => Some(s.as_str()),
            _ => None,
        }
    }

    /// The items of this document, when it is an array.
    pub fn as_array(&self) -> (value: Option<&Vec<Json>>)
        ensures
            match value {
                Some(items) => array_of(self.tree()) == Some(items_tree(items@)),
                None => array_of(self.tree()) is None,
            },
    {
        match self {
            Json::Array(items) => {
                assert(self.tree()->Array_0 =~= items_tree(items@));
                Some(items)
            },
            _ => None,
        }
    }

    /// A text.
    pub fn text(text: &str) -> (json: Json)
        ensures
            json.tree() == JsonView::Text(text@),
    {
        Json::Text(text.to_owned())
    }

    /// An unsigned integer.
    pub fn unsigned(n: u64) -> (json: Json)
        ensures
            json.tree() == JsonView::Number(JsonNumber::Unsigned(n)),
    {
        Json::Number(JsonNumber::Unsigned(n))
    }

    /// An unsigned integer, or null.
    pub fn unsigned_or_null(n: Option<u64>) -> (json: Json)
        ensures
            json.tree() == unsigned_or_null(n),
    {
        match n {
            Some(n) => Json::unsigned(n),
            None => Json::Null,
        }
    }
}

/// What an unsigned integer that may be missing says.
pub open spec fn unsigned_or_null(n: Option<u64>) -> JsonView {
    match n {
        Some(n) => JsonView::Number(JsonNumber::Unsigned(n)),
        None => JsonView::Null,
    }
}

/// Puts `value` under `key` into the entries of an object.
pub fn set_field(entries: &mut Vec<(String, Json)>, key: &str, value: Json)
    ensures
        entries_tree(final(entries)@) == entries_tree(old(entries)@).insert(key@, value.tree()),
{
    let ghost before = entries@;
    entries.push((key.to_owned(), value));
    assert(entries@.drop_last() =~= before);
}

/// Taking out an entry changes what the entries say under its key alone.
proof fn lemma_entries_tree_remove(entries: Seq<(String, Json)>, at: int)
    requires
        0 <= at < entries.len(),
    ensures
        entries_tree(entries.remove(at)).remove(entries[at].0@) == entries_tree(entries).remove(
            entries[at].0@,
        ),
    decreases entries.len(),
{
    let key = entries[at].0@;
    let shorter = entries.drop_last();
    if at < entries.len() - 1 {
        assert(shorter[at] == entries[at]);
        lemma_entries_tree_remove(shorter, at);
        assert(entries.remove(at).drop_last() =~= shorter.remove(at));
        assert(entries.remove(at).last() == entries.last());
        let last_key = entries.last().0@;
        assert(entries_tree(entries.remove(at)).remove(key) =~= entries_tree(entries).remove(key))
            by {
            let a = entries_tree(shorter.remove(at));
            let b = entries_tree(shorter);
            let v = entries.last().1.tree();
            if last_key == key {
                assert(a.insert(last_key, v).remove(key) =~= a.remove(key));
                assert(b.insert(last_key, v).remove(key) =~= b.remove(key));
            } else {
                assert(a.insert(last_key, v).remove(key) =~= a.remove(key).insert(last_key, v));
                assert(b.insert(last_key, v).remove(key) =~= b.remove(key).insert(last_key, v));
            }
        }
    } else {
        assert(entries.remove(at) =~= shorter);
        assert(entries_tree(shorter).insert(key, entries.last().1.tree()).remove(key)
            =~= entries_tree(shorter).remove(key));
    }
}

/// Takes the value under `key` out of the entries of an object. What is left says the same under
/// every other key.
pub fn take_field(entries: &mut Vec<(String, Json)>, key: &str) -> (value: Option<Json>)
    ensures
        match value {
            Some(value) => field(JsonView::Object(entries_tree(old(entries)@)), key@) == Some(
                value.tree(),
            ),
            None => field(JsonView::Object(entries_tree(old(entries)@)), key@) is None,
        },
        entries_tree(final(entries)@).remove(key@) == entries_tree(old(entries)@).remove(key@),
{
    let mut i: usize = entries.len();
    assert(entries@.take(entries@.len() as int) =~= entries@);
    while i > 0
        invariant
            i <= entries@.len(),
            entries@ == old(entries)@,
            field(JsonView::Object(entries_tree(entries@)), key@) == field(
                JsonView::Object(entries_tree(entries@.take(i as int))),
                key@,
            ),
        decreases i,
    {
        assert(entries@.take(i as int).drop_last() =~= entries@.take(i - 1));
        if same_text(entries[i - 1].0.as_str(), key) {
            proof {
                lemma_entries_tree_remove(entries@, i - 1);
            }
            let (_, value) = entries.remove(i - 1);
            return Some(value);
        }
        i -= 1;
    }
    None
}

// ---------------------------------------------------------------------------------------------
// What reading a document means
// ---------------------------------------------------------------------------------------------

/// An object is read by its keys: what was put under a key is found under it, and what stands
/// under any other key is not touched by that. Nothing is found in an empty object, nor in
/// anything that is no object.
pub proof fn law_fields(
    map: Map<Seq<char>, JsonView>,
    key: Seq<char>,
    other: Seq<char>,
    value: JsonView,
)
    ensures
        field(JsonView::Object(map.insert(key, value)), key) == Some(value),
        other != key ==> field(JsonView::Object(map.insert(key, value)), other) == field(
            JsonView::Object(map),
            other,
        ),
        field(JsonView::Object(map.remove(key)), key) is None,
        field(JsonView::Object(Map::empty()), key) is None,
        !(value is Object) ==> field(value, key) is None,
{
}

/// A value is read as what it is and as nothing else.
pub proof fn law_values(
    b: bool,
    n: u64,
    carried: serde_json::Number,
    text: Seq<char>,
    items: Seq<JsonView>,
    tree: JsonView,
)
    ensures
        bool_of(JsonView::Bool(b)) == Some(b),
        u64_of(JsonView::Number(JsonNumber::Unsigned(n))) == Some(n),
        u64_of(JsonView::Number(JsonNumber::Carried(carried))) is None,
        text_of(JsonView::Text(text)) == Some(text),
        array_of(JsonView::Array(items)) == Some(items),
        unsigned_or_null(Some(n)) == JsonView::Number(JsonNumber::Unsigned(n)),
        unsigned_or_null(None) == JsonView::Null,
        bool_of(tree) is Some ==> tree is Bool,
        u64_of(tree) is Some ==> tree is Number,
        text_of(tree) is Some ==> tree is Text,
        array_of(tree) is Some ==> tree is Array,
{
}

/// A document says what it is built of: each item of an array at its place, and each entry of an
/// object under its key, a later entry in the place of an earlier one. A number that is an
/// unsigned integer is that integer, however it is carried.
pub proof fn law_documents(
    b: bool,
    n: u64,
    carried: serde_json::Number,
    text: String,
    items: Vec<Json>,
    entries: Vec<(String, Json)>,
    i: int,
)
    ensures
        Json::Null.tree() == JsonView::Null,
        Json::Bool(b).tree() == JsonView::Bool(b),
        Json::Text(text).tree() == JsonView::Text(text@),
        Json::Number(JsonNumber::Unsigned(n)).tree() == JsonView::Number(JsonNumber::Unsigned(n)),
        number_u64(carried) == Some(n) ==> Json::Number(JsonNumber::Carried(carried)).tree()
            == JsonView::Number(JsonNumber::Unsigned(n)),
        number_u64(carried) is None ==> Json::Number(JsonNumber::Carried(carried)).tree()
            == JsonView::Number(JsonNumber::Carried(carried)),
        Json::Array(items).tree() matches JsonView::Array(trees) && trees.len() == items@.len()
            && (0 <= i < items@.len() ==> trees[i] == items@[i].tree()),
        entries@.len() == 0 ==> Json::Object(entries).tree() == JsonView::Object(Map::empty()),
        entries@.len() > 0 ==> {
            let last = entries@[entries@.len() - 1];
            Json::Object(entries).tree() == JsonView::Object(
                entries_tree(entries@.take(entries@.len() - 1)).insert(last.0@, last.1.tree()),
            )
        },
{
    let whole = Json::Object(entries);
    assert(whole.tree() == JsonView::Object(entries_tree(entries@)));
    if entries@.len() > 0 {
        assert(entries@.drop_last() =~= entries@.take(entries@.len() - 1));
        assert(entries_tree(entries@) == entries_tree(entries@.drop_last()).insert(
            entries@.last().0@,
            entries@.last().1.tree(),
        ));
    } else {
        assert(entries_tree(entries@) == Map::<Seq<char>, JsonView>::empty());
    }
}

/// A document has items as its list says: one for each, in the same order.
pub proof fn law_items(items: Seq<Json>, i: int)
    ensures
        items_tree(items).len() == items.len(),
        0 <= i < items.len() ==> items_tree(items)[i] == items[i].tree(),
{
}

} // verus!
