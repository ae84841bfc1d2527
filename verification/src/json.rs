//! The structured document format of the payload, behind trusted wrappers
//! over serde_json. A parsed document is opaque here: what parsing,
//! field lookup and array access return is named by uninterpreted
//! functions, and the payload logic is verified against those names.

use vstd::prelude::*;

verus! {

#[verifier::external_type_specification]
#[verifier::external_body]
pub struct ExJsonValue(serde_json::Value);

#[verifier::external_type_specification]
#[verifier::external_body]
#[verifier::reject_recursive_types(K)]
#[verifier::reject_recursive_types(V)]
pub struct ExJsonMap<K, V>(serde_json::Map<K, V>);

/// What parsing a byte string as one JSON document returns: `None`
/// exactly when the bytes are not a valid document.
pub uninterp spec fn json_document(bytes: Seq<u8>) -> Option<serde_json::Value>;

/// What looking a key up in a value returns: a field value when the value
/// is an object carrying the key, `None` otherwise.
pub uninterp spec fn object_field(v: serde_json::Value, key: Seq<char>) -> Option<serde_json::Value>;

/// Whether a value is a JSON object.
pub uninterp spec fn is_json_object(v: serde_json::Value) -> bool;

/// Whether a value is JSON null.
pub uninterp spec fn is_json_null(v: serde_json::Value) -> bool;

/// What reading a value as a JSON array returns: its items when the value
/// is an array, `None` otherwise.
pub uninterp spec fn array_items(v: serde_json::Value) -> Option<Seq<serde_json::Value>>;

/// What a JSON object map holds: its entries, keyed by field name.
pub uninterp spec fn object_entries(m: serde_json::Map<String, serde_json::Value>) -> Map<
    Seq<char>,
    serde_json::Value,
>;

/// How deeply a value is nested: a scalar stands at depth one, and an
/// array or object stands one level above its deepest content. The
/// parser spends one level of its recursion budget per depth, so a
/// serialized value parses back only when its depth stays under that
/// budget; the constructors below bound it.
pub uninterp spec fn json_depth(v: serde_json::Value) -> nat;

/// Whether every item stands at depth `bound` or less.
pub open spec fn items_depth_bound(items: Seq<serde_json::Value>, bound: nat) -> bool {
    forall|i: int| 0 <= i < items.len() ==> json_depth(#[trigger] items[i]) <= bound
}

/// Whether every entry's value stands at depth `bound` or less.
pub open spec fn entries_depth_bound(
    entries: Map<Seq<char>, serde_json::Value>,
    bound: nat,
) -> bool {
    forall|k: Seq<char>| entries.dom().contains(k) ==> json_depth(#[trigger] entries[k]) <= bound
}

/// Relies on serde_json::from_slice: parses the bytes as one JSON
/// document, with a result that depends on the bytes alone.
#[verifier::external_body]
pub(crate) fn parse_document(bytes: &Vec<u8>) -> (r: Option<serde_json::Value>)
    ensures
        r == json_document(bytes@),
{
    serde_json::from_slice(bytes.as_slice()).ok()
}

/// Relies on serde_json::Value::get: looks a key up when the value is an
/// object, and returns `None` on any other kind of value.
#[verifier::external_body]
pub(crate) fn get_field<'a>(v: &'a serde_json::Value, key: &str) -> (r: Option<
    &'a serde_json::Value,
>)
    ensures
        (match r {
            Option::Some(f) => object_field(*v, key@) == Option::Some(*f),
            Option::None => object_field(*v, key@) is None,
        }),
{
    v.get(key)
}

/// Relies on serde_json::Value::is_object.
#[verifier::external_body]
pub(crate) fn value_is_object(v: &serde_json::Value) -> (r: bool)
    ensures
        r == is_json_object(*v),
{
    v.is_object()
}

/// Relies on serde_json::Value::is_null.
#[verifier::external_body]
pub(crate) fn value_is_null(v: &serde_json::Value) -> (r: bool)
    ensures
        r == is_json_null(*v),
{
    v.is_null()
}

/// Relies on serde_json::Value::as_array: hands the items out when the
/// value is a JSON array.
#[verifier::external_body]
pub(crate) fn value_as_array<'a>(v: &'a serde_json::Value) -> (r: Option<
    &'a Vec<serde_json::Value>,
>)
    ensures
        (match r {
            Option::Some(items) => array_items(*v) == Option::Some(items@),
            Option::None => array_items(*v) is None,
        }),
{
    v.as_array()
}

/// Relies on serde_json::Map::new: an object map with no entries.
#[verifier::external_body]
pub(crate) fn object_map_new() -> (m: serde_json::Map<String, serde_json::Value>)
    ensures
        object_entries(m) =~= Map::empty(),
{
    serde_json::Map::new()
}

/// Relies on serde_json::Map::insert: stores the value under the key,
/// replacing any entry the key had.
#[verifier::external_body]
pub(crate) fn object_map_insert(
    m: &mut serde_json::Map<String, serde_json::Value>,
    key: String,
    value: serde_json::Value,
)
    ensures
        object_entries(*final(m)) == object_entries(*old(m)).insert(key@, value),
{
    m.insert(key, value);
}

/// Relies on serde_json::Value::from over Map: wraps the map as a JSON
/// object value, whose field lookup is exactly lookup among the entries,
/// and which stands one depth level above its entries' values.
#[verifier::external_body]
pub(crate) fn value_from_object(m: serde_json::Map<String, serde_json::Value>) -> (v:
    serde_json::Value)
    ensures
        is_json_object(v),
        !is_json_null(v),
        forall|key: Seq<char>|
            #[trigger] object_field(v, key) == (if object_entries(m).dom().contains(key) {
                Option::Some(object_entries(m)[key])
            } else {
                Option::<serde_json::Value>::None
            }),
        forall|bound: nat| #[trigger]
            entries_depth_bound(object_entries(m), bound) ==> json_depth(v) <= bound + 1,
{
    serde_json::Value::from(m)
}

/// Relies on serde_json::Value::from over Vec: wraps the items as a JSON
/// array value, which stands one depth level above its items.
#[verifier::external_body]
pub(crate) fn value_from_items(items: Vec<serde_json::Value>) -> (v: serde_json::Value)
    ensures
        array_items(v) == Option::Some(items@),
        !is_json_null(v),
        !is_json_object(v),
        forall|bound: nat| #[trigger]
            items_depth_bound(items@, bound) ==> json_depth(v) <= bound + 1,
{
    serde_json::Value::from(items)
}

/// Relies on serde_json::Value::Null being the null value, a scalar.
#[verifier::external_body]
pub(crate) fn null_value() -> (v: serde_json::Value)
    ensures
        is_json_null(v),
        json_depth(v) == 1,
{
    serde_json::Value::Null
}

/// Relies on serde_json::to_vec: serializing a value cannot fail; and on
/// serde_json::from_slice parsing the produced bytes back to that value,
/// which the parser's recursion budget of 128 levels grants to every
/// document whose nesting stays at the bound asked for here, far under
/// that budget.
#[verifier::external_body]
pub(crate) fn document_bytes(v: &serde_json::Value) -> (r: Vec<u8>)
    requires
        json_depth(*v) <= 64,
    ensures
        json_document(r@) == Option::Some(*v),
{
    serde_json::to_vec(v).unwrap()
}

} // verus!
