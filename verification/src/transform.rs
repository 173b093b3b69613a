//! Texture transforms of glTF.
//!
//! Numbers are bits of IEEE floating-point numbers, doubles (`u64`) where they come from
//! JSON.
use vstd::prelude::*;

verus! {

/// `serde_json::Value`, opaque; see [`object_entries`], [`array_items`] and [`number_bits`].
#[verifier::external_type_specification]
#[verifier::external_body]
pub struct ExValue(serde_json::Value);

/// `serde_json::Map`, opaque; see [`map_entries`].
#[verifier::external_type_specification]
#[verifier::external_body]
#[verifier::reject_recursive_types(K)]
#[verifier::reject_recursive_types(V)]
pub struct ExJsonMap<K, V>(serde_json::Map<K, V>);

/// The entries of a JSON object.
pub uninterp spec fn map_entries(map: serde_json::Map<String, serde_json::Value>) -> Map<
    Seq<char>,
    serde_json::Value,
>;

/// The entries of a JSON value that is an object.
pub uninterp spec fn object_entries(value: serde_json::Value) -> Option<
    Map<Seq<char>, serde_json::Value>,
>;

/// The items of a JSON value that is an array.
pub uninterp spec fn array_items(value: serde_json::Value) -> Option<Seq<serde_json::Value>>;

/// The bits of the double that stands for a JSON value that is a number.
pub uninterp spec fn number_bits(value: serde_json::Value) -> Option<u64>;

/// What a map holds at a key.
pub open spec fn at_key(
    entries: Map<Seq<char>, serde_json::Value>,
    key: Seq<char>,
) -> Option<serde_json::Value> {
    if entries.contains_key(key) {
        Some(entries[key])
    } else {
        None
    }
}

/// What an object holds at a key, if it is an object.
pub open spec fn in_object(
    object: Option<Map<Seq<char>, serde_json::Value>>,
    key: Seq<char>,
) -> Option<serde_json::Value> {
    match object {
        Some(entries) => at_key(entries, key),
        None => None,
    }
}

/// What a JSON value holds at a key: nothing, unless it is an object.
pub open spec fn member(value: serde_json::Value, key: Seq<char>) -> Option<serde_json::Value> {
    in_object(object_entries(value), key)
}

/// `serde_json::Map::get`: the value at a key, where there is one.
#[verifier::external_body]
fn map_get<'a>(map: &'a serde_json::Map<String, serde_json::Value>, key: &str) -> (value: Option<
    &'a serde_json::Value,
>)
    ensures
        value is Some <==> at_key(map_entries(*map), key@) is Some,
        value is Some ==> *value->0 == at_key(map_entries(*map), key@)->0,
{
    map.get(key)
}

/// `serde_json::Value::get` with a string: the value at a key of an object, where there is
/// one; nothing of a value that is no object.
#[verifier::external_body]
fn value_get<'a>(value: &'a serde_json::Value, key: &str) -> (found: Option<&'a serde_json::Value>)
    ensures
        found is Some <==> in_object(object_entries(*value), key@) is Some,
        found is Some ==> *found->0 == in_object(object_entries(*value), key@)->0,
{
    value.get(key)
}

/// `serde_json::Value::as_array`: the items of an array; nothing of another value.
#[verifier::external_body]
fn value_as_array(value: &serde_json::Value) -> (items: Option<&Vec<serde_json::Value>>)
    ensures
        items is Some <==> array_items(*value) is Some,
        items is Some ==> (*items->0)@ == array_items(*value)->0,
{
    value.as_array()
}

/// `serde_json::Value::as_f64`, as bits: the double that stands for a number; nothing of
/// another value. Which double that is, is not stated.
#[verifier::external_body]
fn value_number_bits(value: &serde_json::Value) -> (bits: Option<u64>)
    ensures
        bits == number_bits(*value),
{
    value.as_f64().map(|number| number.to_bits())
}

/// The bits of zero.
pub const ZERO: u64 = 0;

/// The bits of one.
pub const ONE: u64 = 0x3ff0_0000_0000_0000;

/// The number with the other sign.
pub open spec fn negated(bits: u64) -> u64 {
    bits ^ 0x8000_0000_0000_0000
}

/// The single with the other sign.
pub open spec fn negated_single(bits: u32) -> u32 {
    bits ^ 0x8000_0000
}

/// A scale, a rotation by an angle, and a translation, in that order.
#[derive(Debug, PartialEq, Eq)]
pub struct ScaleAngleTranslation<N> {
    pub scale: (N, N),
    pub angle: N,
    pub translation: (N, N),
}

/// How texture coordinates are transformed.
#[derive(Debug, PartialEq, Eq)]
pub enum TextureTransform {
    /// Not at all.
    Identity,
    /// By the affine transform that is made up of these.
    Affine(ScaleAngleTranslation<u64>),
}

/// The affine transform of a texture transform of glTF, given in singles. A rotation of
/// glTF is counter-clockwise around the origin: it is the angle with the other sign.
pub open spec fn parsed_transform(scale: (u32, u32), rotation: u32, offset: (u32, u32)) -> ScaleAngleTranslation<u32> {
    ScaleAngleTranslation { scale, angle: negated_single(rotation), translation: offset }
}

/// The affine transform of a texture transform of glTF, given in singles.
pub fn texture_transform_to_affine2(scale: (u32, u32), rotation: u32, offset: (u32, u32)) -> (
transform: ScaleAngleTranslation<u32>)
    ensures
        transform == parsed_transform(scale, rotation, offset),
{
    ScaleAngleTranslation { scale, angle: rotation ^ 0x8000_0000, translation: offset }
}

/// The first two items of an array, each where it is there and is a number.
pub type FirstNumbers = (Option<u64>, Option<u64>);

/// What is read of an object of the extension. What is missing, or has another form, is
/// absent: `offset` and `scale` unless they are arrays, `rotation` unless it is a number.
#[derive(Clone, Copy, Debug, PartialEq, Eq)]
pub struct ExtensionMembers {
    pub offset: Option<FirstNumbers>,
    pub rotation: Option<u64>,
    pub scale: Option<FirstNumbers>,
}

/// The pair of numbers that an array begins with, or else `default`.
pub open spec fn pair_or(numbers: Option<FirstNumbers>, default: (u64, u64)) -> (u64, u64) {
    match numbers {
        Some((Some(first), Some(second))) => (first, second),
        _ => default,
    }
}

/// The transform that the members of an extension describe. What they leave out is as in
/// the identity.
pub open spec fn transform_of(members: ExtensionMembers) -> ScaleAngleTranslation<u64> {
    ScaleAngleTranslation {
        scale: pair_or(members.scale, (ONE, ONE)),
        angle: negated(
            match members.rotation {
                Some(rotation) => rotation,
                None => ZERO,
            },
        ),
        translation: pair_or(members.offset, (ZERO, ZERO)),
    }
}

/// The pair of numbers that an array begins with, or else `default`.
fn choose_pair(numbers: Option<FirstNumbers>, default: (u64, u64)) -> (pair: (u64, u64))
    ensures
        pair == pair_or(numbers, default),
{
    match numbers {
        Some((Some(first), Some(second))) => (first, second),
        _ => default,
    }
}

/// The transform that the members of an extension describe.
pub fn transform_from_members(members: &ExtensionMembers) -> (transform: ScaleAngleTranslation<u64>)
    ensures
        transform == transform_of(*members),
{
    let rotation: u64 = match members.rotation {
        Some(rotation) => rotation,
        None => ZERO,
    };
    ScaleAngleTranslation {
        scale: choose_pair(members.scale, (ONE, ONE)),
        angle: rotation ^ 0x8000_0000_0000_0000,
        translation: choose_pair(members.offset, (ZERO, ZERO)),
    }
}

/// The number at an index, if there is one.
pub open spec fn number_in(items: Seq<serde_json::Value>, index: int) -> Option<u64> {
    if index < items.len() {
        number_bits(items[index])
    } else {
        None
    }
}

/// The first two numbers of the array at a key, if there is an array.
pub open spec fn numbers_at(value: serde_json::Value, key: Seq<char>) -> Option<FirstNumbers> {
    match member(value, key) {
        Some(found) => match array_items(found) {
            Some(items) => Some((number_in(items, 0), number_in(items, 1))),
            None => None,
        },
        None => None,
    }
}

/// The number at a key, if there is one.
pub open spec fn number_at(value: serde_json::Value, key: Seq<char>) -> Option<u64> {
    match member(value, key) {
        Some(found) => number_bits(found),
        None => None,
    }
}

/// What is read of an object of the extension.
pub open spec fn members_of(extension: serde_json::Value) -> ExtensionMembers {
    ExtensionMembers {
        offset: numbers_at(extension, "offset"@),
        rotation: number_at(extension, "rotation"@),
        scale: numbers_at(extension, "scale"@),
    }
}

/// The transform that a `KHR_texture_transform` extension describes, among the extensions
/// of a texture; the identity where there is none.
pub open spec fn transform_in(extensions: serde_json::Map<String, serde_json::Value>) -> TextureTransform {
    match at_key(map_entries(extensions), "KHR_texture_transform"@) {
        None => TextureTransform::Identity,
        Some(extension) => TextureTransform::Affine(transform_of(members_of(extension))),
    }
}

/// The number at an index, if there is one.
fn read_number_in(items: &Vec<serde_json::Value>, index: usize) -> (number: Option<u64>)
    ensures
        number == number_in(items@, index as int),
{
    if index < items.len() {
        value_number_bits(&items[index])
    } else {
        None
    }
}

/// The first two numbers of the array at a key, if there is an array.
fn read_numbers_at(value: &serde_json::Value, key: &str) -> (numbers: Option<FirstNumbers>)
    ensures
        numbers == numbers_at(*value, key@),
{
    match value_get(value, key) {
        None => None,
        Some(found) => match value_as_array(found) {
            None => None,
            Some(items) => Some((read_number_in(items, 0), read_number_in(items, 1))),
        },
    }
}

/// What is read of an object of the extension.
fn read_members(extension: &serde_json::Value) -> (members: ExtensionMembers)
    ensures
        members == members_of(*extension),
{
    ExtensionMembers {
        offset: read_numbers_at(extension, "offset"),
        rotation: match value_get(extension, "rotation") {
            None => None,
            Some(found) => value_number_bits(found),
        },
        scale: read_numbers_at(extension, "scale"),
    }
}

/// The transform that a `KHR_texture_transform` extension describes, among the extensions
/// of a texture; the identity where there is none.
pub fn texture_transform_from_extensions(
    extensions: Option<&serde_json::Map<String, serde_json::Value>>,
) -> (transform: TextureTransform)
    ensures
        transform == match extensions {
            None => TextureTransform::Identity,
            Some(map) => transform_in(*map),
        },
{
    let map = match extensions {
        Some(map) => map,
        None => {
            return TextureTransform::Identity;
        },
    };
    let extension = match map_get(map, "KHR_texture_transform") {
        Some(extension) => extension,
        None => {
            return TextureTransform::Identity;
        },
    };
    TextureTransform::Affine(transform_from_members(&read_members(extension)))
}

} // verus!
