//! The calls into outside crates, each behind a contract that Verus takes on trust.
use vstd::prelude::*;
use dashmap::DashMap;
use crate::types::ExecutionResult;
use hmac::{Hmac, Mac};
use vstd::utf8::encode_utf8;
use sha2::Sha256;

verus! {

#[verifier::external_type_specification]
#[verifier::external_body]
#[verifier::reject_recursive_types(K)]
#[verifier::reject_recursive_types(V)]
#[verifier::reject_recursive_types(S)]
pub struct ExDashMap<K, V, S>(DashMap<K, V, S>);

/// The table of job results, keyed by job id.
pub type ResultMap = DashMap<String, Option<ExecutionResult>>;

/// What the table of job results holds: job id to its result, `None` while it runs.
pub uninterp spec fn result_table(m: ResultMap) -> Map<Seq<char>, Option<ExecutionResult>>;

/// `DashMap::new` for the result table: an empty map.
#[verifier::external_body]
pub(crate) fn result_table_new() -> (table: ResultMap)
    ensures
        result_table(table).is_empty(),
        result_table(table).dom().finite(),
{
    DashMap::new()
}

/// `DashMap::insert` on the result table: the entry for `id` becomes `value`, the others
/// stay.
#[verifier::external_body]
pub(crate) fn result_table_insert(table: &mut ResultMap, id: String, value: Option<ExecutionResult>)
    ensures
        result_table(*final(table)) == result_table(*old(table)).insert(id@, value),
{
    table.insert(id, value);
}

/// `DashMap::get` on the result table, with the value cloned out of the guard.
#[verifier::external_body]
pub(crate) fn result_table_get(table: &ResultMap, id: &str) -> (r: Option<Option<ExecutionResult>>)
    ensures
        r == (if result_table(*table).contains_key(id@) {
            Some(result_table(*table)[id@])
        } else {
            None
        }),
{
    table.get(id).map(|entry| entry.value().clone())
}

/// `DashMap::clear` on the result table: nothing stays.
#[verifier::external_body]
pub(crate) fn result_table_clear(table: &mut ResultMap)
    ensures
        result_table(*final(table)).is_empty(),
        result_table(*final(table)).dom().finite(),
{
    table.clear();
}

/// `DashMap::len` on the result table: the number of ids it holds.
#[verifier::external_body]
pub(crate) fn result_table_len(table: &ResultMap) -> (n: usize)
    requires
        result_table(*table).dom().finite(),
    ensures
        n == result_table(*table).len(),
{
    table.len()
}

/// `DashMap::iter` on the result table, each entry cloned out of its guard: every id once,
/// with its value, in an order that the map's hashing decides.
#[verifier::external_body]
pub(crate) fn result_table_entries(table: &ResultMap) -> (entries: Vec<(String, Option<ExecutionResult>)>)
    ensures
        forall|i: int| #![trigger entries@[i]] 0 <= i < entries@.len() ==> result_table(*table).contains_key(entries@[i].0@)
            && result_table(*table)[entries@[i].0@] == entries@[i].1,
        forall|i: int, j: int| #![trigger entries@[i], entries@[j]] 0 <= i < j < entries@.len() ==> entries@[i].0@ != entries@[j].0@,
        forall|k: Seq<char>| #[trigger] result_table(*table).contains_key(k) ==> exists|i: int| 0 <= i < entries@.len() && #[trigger] entries@[i].0@ == k,
{
    table.iter().map(|entry| (entry.key().clone(), entry.value().clone())).collect()
}

/// The table of job creation times (milliseconds since the epoch), keyed by job id.
pub type CreatedMap = DashMap<String, i64>;

/// What the table of creation times holds: job id to the time its record was written.
pub uninterp spec fn created_table(m: CreatedMap) -> Map<Seq<char>, i64>;

/// `DashMap::new` for the creation times: an empty map.
#[verifier::external_body]
pub(crate) fn created_table_new() -> (table: CreatedMap)
    ensures
        created_table(table).is_empty(),
        created_table(table).dom().finite(),
{
    DashMap::new()
}

/// `DashMap::insert` on the creation times: the entry for `id` becomes `at`, the others
/// stay.
#[verifier::external_body]
pub(crate) fn created_table_insert(table: &mut CreatedMap, id: String, at: i64)
    ensures
        created_table(*final(table)) == created_table(*old(table)).insert(id@, at),
{
    table.insert(id, at);
}

/// `DashMap::get` on the creation times, the value copied out of the guard.
#[verifier::external_body]
pub(crate) fn created_table_get(table: &CreatedMap, id: &str) -> (r: Option<i64>)
    ensures
        r == (if created_table(*table).contains_key(id@) {
            Some(created_table(*table)[id@])
        } else {
            None
        }),
{
    table.get(id).map(|entry| *entry.value())
}

/// `DashMap::iter` on the creation times, each value copied out of its guard: one value for
/// each id, in an order that the map's hashing decides.
#[verifier::external_body]
pub(crate) fn created_table_values(table: &CreatedMap) -> (values: Vec<i64>)
    ensures
        forall|i: int| 0 <= i < values@.len() ==> exists|k: Seq<char>| #[trigger] created_table(*table).contains_key(k) && created_table(*table)[k] == #[trigger] values@[i],
        forall|k: Seq<char>| #[trigger] created_table(*table).contains_key(k) ==> exists|i: int| 0 <= i < values@.len() && #[trigger] values@[i] == created_table(*table)[k],
{
    table.iter().map(|entry| *entry.value()).collect()
}

/// A JSON value that stands in an object field: a string, an integer or `null`.
#[derive(Debug, Clone)]
pub enum JsonScalar {
    Text(String),
    Int(i64),
    Null,
}

/// A JSON field value as values.
pub ghost enum JsonScalarView {
    Text(Seq<char>),
    Int(i64),
    Null,
}

impl View for JsonScalar {
    type V = JsonScalarView;

    open spec fn view(&self) -> JsonScalarView {
        match self {
            JsonScalar::Text(s) => JsonScalarView::Text(s@),
            JsonScalar::Int(i) => JsonScalarView::Int(*i),
            JsonScalar::Null => JsonScalarView::Null,
        }
    }
}

/// The fields of a JSON object, by value.
pub open spec fn json_fields_view(fields: Seq<(String, JsonScalar)>) -> Seq<(Seq<char>, JsonScalarView)> {
    fields.map_values(|f: (String, JsonScalar)| (f.0@, f.1@))
}

/// The compact text that `serde_json` writes for an object with these fields.
pub uninterp spec fn json_object_text(fields: Seq<(Seq<char>, JsonScalarView)>) -> Seq<char>;

/// `serde_json::Value::to_string` on an object built field by field with
/// `serde_json::Map::insert`: the text is named by `json_object_text` of the fields.
#[verifier::external_body]
pub(crate) fn json_object_to_string(fields: &Vec<(String, JsonScalar)>) -> (text: String)
    ensures
        text@ == json_object_text(json_fields_view(fields@)),
{
    let mut map = serde_json::Map::new();
    for (key, value) in fields.iter() {
        let v = match value {
            JsonScalar::Text(s) => serde_json::Value::String(s.clone()),
            JsonScalar::Int(i) => serde_json::Value::from(*i),
            JsonScalar::Null => serde_json::Value::Null,
        };
        map.insert(key.clone(), v);
    }
    serde_json::Value::Object(map).to_string()
}

/// The HMAC-SHA256 tag of `message` under `key`.
pub uninterp spec fn hmac_sha256(key: Seq<u8>, message: Seq<u8>) -> Seq<u8>;

/// `Hmac::<Sha256>::new_from_slice`, `update` and `finalize`: the 32-byte tag of `message`
/// under `key`, named by `hmac_sha256`. Any key length is accepted.
#[verifier::external_body]
pub(crate) fn hmac_sha256_tag(key: &[u8], message: &[u8]) -> (tag: Vec<u8>)
    ensures
        tag@ == hmac_sha256(key@, message@),
        tag@.len() == 32,
{
    let mut mac = Hmac::<Sha256>::new_from_slice(key).expect("HMAC takes a key of any size");
    mac.update(message);
    mac.finalize().into_bytes().to_vec()
}

/// The lowercase hexadecimal digit for `d < 16`.
pub open spec fn hex_digit(d: u8) -> char {
    if d < 10 {
        (d + 48) as char
    } else {
        (d + 87) as char
    }
}

/// Two lowercase hexadecimal digits for each byte, high half first.
pub open spec fn lower_hex(bytes: Seq<u8>) -> Seq<char>
    decreases bytes.len(),
{
    if bytes.len() == 0 {
        Seq::empty()
    } else {
        lower_hex(bytes.drop_last()) + seq![hex_digit(bytes.last() / 16), hex_digit(bytes.last() % 16)]
    }
}

/// `hex::encode`: two lowercase hexadecimal digits per byte.
#[verifier::external_body]
pub(crate) fn hex_encode(bytes: &[u8]) -> (text: String)
    ensures
        text@ == lower_hex(bytes@),
{
    hex::encode(bytes)
}

/// The uppercase hexadecimal digit for `d < 16`.
pub open spec fn upper_hex_digit(d: u8) -> char {
    if d < 10 {
        (d + 48) as char
    } else {
        (d + 55) as char
    }
}

/// Whether the form encoding keeps a byte as it is: ASCII letters, digits and `*-._`.
pub open spec fn form_keeps(b: u8) -> bool {
    ||| b == 0x2a
    ||| b == 0x2d
    ||| b == 0x2e
    ||| b == 0x5f
    ||| 0x30 <= b <= 0x39
    ||| 0x41 <= b <= 0x5a
    ||| 0x61 <= b <= 0x7a
}

/// How the form encoding writes one byte: kept, `+` for a space, else `%` and two
/// uppercase hexadecimal digits.
pub open spec fn form_byte(b: u8) -> Seq<char> {
    if form_keeps(b) {
        seq![b as char]
    } else if b == 0x20 {
        seq!['+']
    } else {
        seq!['%', upper_hex_digit(b / 16), upper_hex_digit(b % 16)]
    }
}

/// The form encoding of some bytes, byte by byte.
pub open spec fn form_bytes(bs: Seq<u8>) -> Seq<char>
    decreases bs.len(),
{
    if bs.len() == 0 {
        Seq::empty()
    } else {
        form_bytes(bs.drop_last()) + form_byte(bs.last())
    }
}

/// One encoded pair: the key's UTF-8 bytes encoded, `=`, the value's.
pub open spec fn form_pair(key: Seq<char>, value: Seq<char>) -> Seq<char> {
    form_bytes(encode_utf8(key)) + seq!['='] + form_bytes(encode_utf8(value))
}

/// The `application/x-www-form-urlencoded` text of some pairs: the encoded pairs joined
/// with `&`.
pub open spec fn form_urlencoded(pairs: Seq<(Seq<char>, Seq<char>)>) -> Seq<char>
    decreases pairs.len(),
{
    if pairs.len() == 0 {
        Seq::empty()
    } else if pairs.len() == 1 {
        form_pair(pairs[0].0, pairs[0].1)
    } else {
        form_urlencoded(pairs.drop_last()) + seq!['&'] + form_pair(pairs.last().0, pairs.last().1)
    }
}

/// `serde_urlencoded::to_string` on a sequence of string pairs, its error turned into
/// `None`: for string pairs it never fails, and writes each pair with
/// `form_urlencoded::Serializer::append_pair`.
#[verifier::external_body]
pub(crate) fn urlencode_pairs(pairs: &Vec<(String, String)>) -> (text: Option<String>)
    ensures
        text is Some,
        text matches Some(t) ==> t@ == form_urlencoded(pairs@.map_values(|p: (String, String)| (p.0@, p.1@))),
{
    serde_urlencoded::to_string(pairs).ok()
}

} // verus!
