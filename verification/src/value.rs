//! The JSON values of the `json` crate, seen through their trees.
//!
//! Verus does not look inside a `JsonValue`. Every function in this module
//! is a call into the `json` crate whose contract says, over the value's
//! [`Tree`], what that crate's source shows the call to do. Nothing here is
//! proved; everything else in the library is proved from these contracts.

use vstd::prelude::*;
use json::JsonValue;
use crate::number::Decimal;
use crate::tree::Tree;

verus! {

#[verifier::external_type_specification]
#[verifier::external_body]
pub struct ExJsonValue(json::JsonValue);

#[verifier::external_type_specification]
#[verifier::external_body]
pub struct ExJsonError(json::Error);

/// The tree of a JSON value: its variant and, in order, what it holds. Short
/// and heap strings with the same characters have the same tree.
pub uninterp spec fn json_tree(v: JsonValue) -> Tree;

/// The compact JSON text of a tree, as `JsonValue::dump` writes it: no
/// spaces, object entries in the order of the tree, strings escaped and
/// numbers printed by the `json` crate's rules.
pub uninterp spec fn json_text(t: Tree) -> Seq<char>;

/// `JsonValue::new_object`: an object without entries.
#[verifier::external_body]
pub(crate) fn new_object() -> (v: JsonValue)
    ensures
        json_tree(v) == Tree::empty_object(),
{
    JsonValue::new_object()
}

/// `JsonValue::new_array`: an array without items.
#[verifier::external_body]
pub(crate) fn new_array() -> (v: JsonValue)
    ensures
        json_tree(v) == Tree::empty_array(),
{
    JsonValue::new_array()
}

/// `JsonValue::from(&str)`: a string value with the characters of `s`.
#[verifier::external_body]
pub(crate) fn text(s: &str) -> (v: JsonValue)
    ensures
        json_tree(v) == Tree::Text(s@),
{
    JsonValue::from(s)
}

/// `JsonValue::from(bool)`.
#[verifier::external_body]
pub(crate) fn boolean(b: bool) -> (v: JsonValue)
    ensures
        json_tree(v) == Tree::Boolean(b),
{
    JsonValue::from(b)
}

/// `Number::from_parts`, then `JsonValue::from(Number)`: the number with the
/// trailing zeros of a fractional mantissa stripped.
#[verifier::external_body]
pub(crate) fn number(d: Decimal) -> (v: JsonValue)
    ensures
        json_tree(v) == Tree::Number(d.normalized()),
{
    JsonValue::from(json::number::Number::from_parts(d.positive, d.mantissa, d.exponent))
}

/// `JsonValue::is_null`.
#[verifier::external_body]
pub(crate) fn is_null(v: &JsonValue) -> (b: bool)
    ensures
        b == (json_tree(*v) is Null),
{
    v.is_null()
}

/// `JsonValue::is_array`.
#[verifier::external_body]
pub(crate) fn is_array(v: &JsonValue) -> (b: bool)
    ensures
        b == (json_tree(*v) is Array),
{
    v.is_array()
}

/// `JsonValue::len`: the number of items of an array or of entries of an
/// object, and 0 for every other value.
#[verifier::external_body]
pub(crate) fn len(v: &JsonValue) -> (n: usize)
    ensures
        n == json_tree(*v).count(),
{
    v.len()
}

/// `JsonValue::push`: appends to an array; fails on every other value and
/// leaves it as it was.
#[verifier::external_body]
pub(crate) fn push(array: &mut JsonValue, item: JsonValue) -> (r: Result<(), json::Error>)
    ensures
        r is Ok <==> json_tree(*old(array)) is Array,
        r is Ok ==> json_tree(*final(array)) == json_tree(*old(array)).pushed(json_tree(item)),
        r is Err ==> *final(array) == *old(array),
{
    array.push(item)
}

/// `Index<&str>` of `JsonValue`: the value under `key`, and a null value
/// where the object has no such entry or the value is no object.
#[verifier::external_body]
pub(crate) fn member<'a>(v: &'a JsonValue, key: &str) -> (r: &'a JsonValue)
    ensures
        json_tree(*r) == json_tree(*v).member(key@),
{
    &v[key]
}

/// `IndexMut<&str>` of `JsonValue`: the place of the value under `key`. The
/// entry is made, holding null, if the object lacks it, and a value that is
/// no object is first replaced by an empty object. What is written to the
/// place is what the value then holds under `key`.
#[verifier::external_body]
pub(crate) fn member_mut<'a>(v: &'a mut JsonValue, key: &str) -> (r: &'a mut JsonValue)
    ensures
        json_tree(*r) == json_tree(*old(v)).member(key@),
        json_tree(*final(v)) == json_tree(*old(v)).with_member(key@, json_tree(*final(r))),
{
    &mut v[key]
}

/// `IndexMut<usize>` of `JsonValue`: the place of the item at `index`. Past
/// the end of an array a null item is appended and its place is given,
/// whatever the index; a value that is no array is first replaced by an
/// array of one null.
#[verifier::external_body]
pub(crate) fn slot_mut<'a>(v: &'a mut JsonValue, index: usize) -> (r: &'a mut JsonValue)
    ensures
        json_tree(*r) == json_tree(*old(v)).slot(index as int),
        json_tree(*final(v)) == json_tree(*old(v)).with_slot(index as int, json_tree(*final(r))),
{
    &mut v[index]
}

/// `JsonValue::dump`: the compact JSON text of the value.
#[verifier::external_body]
pub(crate) fn dump(v: &JsonValue) -> (s: String)
    ensures
        s@ == json_text(json_tree(*v)),
{
    v.dump()
}

} // verus!
