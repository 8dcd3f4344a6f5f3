//! JSON objects of serde_json, kept in insertion order: the keys in order,
//! and which of them hold `null`. Values are otherwise carried unread.

use vstd::prelude::*;

verus! {

#[verifier::external_type_specification]
#[verifier::external_body]
pub struct ExJsonValue(serde_json::Value);

#[verifier::external_type_specification]
#[verifier::external_body]
#[verifier::reject_recursive_types(K)]
#[verifier::reject_recursive_types(V)]
pub struct ExJsonMap<K, V>(serde_json::Map<K, V>);

/// The keys of an object, in order.
pub uninterp spec fn object_keys(m: serde_json::Map<String, serde_json::Value>) -> Seq<Seq<char>>;

/// The keys of an object whose value is `null`.
pub uninterp spec fn null_keys(m: serde_json::Map<String, serde_json::Value>) -> Set<Seq<char>>;

pub open spec fn not_key(k: Seq<char>) -> spec_fn(Seq<char>) -> bool {
    |x: Seq<char>| x != k
}

/// `keys` without `k`.
pub open spec fn without(keys: Seq<Seq<char>>, k: Seq<char>) -> Seq<Seq<char>> {
    keys.filter(not_key(k))
}

/// `keys` with `k` last, unless it is there already.
pub open spec fn with_key(keys: Seq<Seq<char>>, k: Seq<char>) -> Seq<Seq<char>> {
    if keys.contains(k) {
        keys
    } else {
        keys.push(k)
    }
}

/// Relies on serde_json::Map::new: an empty object.
#[verifier::external_body]
pub(crate) fn new_object() -> (r: serde_json::Map<String, serde_json::Value>)
    ensures
        object_keys(r) == Seq::<Seq<char>>::empty(),
        null_keys(r) == Set::<Seq<char>>::empty(),
{
    serde_json::Map::new()
}

/// Relies on serde_json::Map::contains_key.
#[verifier::external_body]
pub(crate) fn object_has(m: &serde_json::Map<String, serde_json::Value>, k: &str) -> (r: bool)
    ensures
        r == object_keys(*m).contains(k@),
{
    m.contains_key(k)
}

/// Relies on serde_json::Map::keys: the keys in order, each once (the map
/// is an `IndexMap` with serde_json's `preserve_order`).
#[verifier::external_body]
pub(crate) fn object_key_list(m: &serde_json::Map<String, serde_json::Value>) -> (r: Vec<String>)
    ensures
        r@.map_values(|s: String| s@) == object_keys(*m),
        r@.map_values(|s: String| s@).no_duplicates(),
{
    m.keys().cloned().collect()
}

/// Relies on serde_json::Map::shift_remove: removes `k`, keeping the order
/// of the other keys.
#[verifier::external_body]
pub(crate) fn object_remove(m: &mut serde_json::Map<String, serde_json::Value>, k: &str)
    ensures
        object_keys(*final(m)) == without(object_keys(*old(m)), k@),
        null_keys(*final(m)) == null_keys(*old(m)).remove(k@),
{
    m.shift_remove(k);
}

/// Relies on serde_json::Map::insert with `Value::Null`: a new key goes
/// last, an existing one keeps its place.
#[verifier::external_body]
pub(crate) fn object_insert_null(m: &mut serde_json::Map<String, serde_json::Value>, k: &str)
    ensures
        object_keys(*final(m)) == with_key(object_keys(*old(m)), k@),
        null_keys(*final(m)) == null_keys(*old(m)).insert(k@),
{
    m.insert(k.to_string(), serde_json::Value::Null);
}

/// Relies on serde_json::Map::insert with a `Value::Array`, which is never
/// `null`.
#[verifier::external_body]
pub(crate) fn object_insert_array(
    m: &mut serde_json::Map<String, serde_json::Value>,
    k: &str,
    items: Vec<serde_json::Value>,
)
    ensures
        object_keys(*final(m)) == with_key(object_keys(*old(m)), k@),
        null_keys(*final(m)) == null_keys(*old(m)).remove(k@),
{
    m.insert(k.to_string(), serde_json::Value::Array(items));
}

/// Relies on serde_json::Map::insert with a number, which is never `null`.
#[verifier::external_body]
pub(crate) fn object_insert_int(m: &mut serde_json::Map<String, serde_json::Value>, k: &str, n: i64)
    ensures
        object_keys(*final(m)) == with_key(object_keys(*old(m)), k@),
        null_keys(*final(m)) == null_keys(*old(m)).remove(k@),
{
    m.insert(k.to_string(), serde_json::Value::from(n));
}

/// Relies on serde_json::Map::insert with a `Value::Object`, which is never
/// `null`.
#[verifier::external_body]
pub(crate) fn object_insert_object(
    m: &mut serde_json::Map<String, serde_json::Value>,
    k: &str,
    o: serde_json::Map<String, serde_json::Value>,
)
    ensures
        object_keys(*final(m)) == with_key(object_keys(*old(m)), k@),
        null_keys(*final(m)) == null_keys(*old(m)).remove(k@),
{
    m.insert(k.to_string(), serde_json::Value::Object(o));
}

/// Relies on serde_json::Map::shift_remove and Map::insert: moves the
/// entry `k`, value and all, from `from` to the end of `to`.
#[verifier::external_body]
pub(crate) fn object_transfer(
    from: &mut serde_json::Map<String, serde_json::Value>,
    to: &mut serde_json::Map<String, serde_json::Value>,
    k: &str,
)
    ensures
        object_keys(*final(from)) == without(object_keys(*old(from)), k@),
        null_keys(*final(from)) == null_keys(*old(from)).remove(k@),
        object_keys(*old(from)).contains(k@) ==> object_keys(*final(to)) == with_key(
            object_keys(*old(to)),
            k@,
        ) && (null_keys(*final(to)) == if null_keys(*old(from)).contains(k@) {
            null_keys(*old(to)).insert(k@)
        } else {
            null_keys(*old(to)).remove(k@)
        }),
        !object_keys(*old(from)).contains(k@) ==> *final(to) == *old(to),
{
    if let Some(v) = from.shift_remove(k) {
        to.insert(k.to_string(), v);
    }
}

} // verus!
