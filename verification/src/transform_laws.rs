//! Laws of glTF texture transforms.
use vstd::arithmetic::power2::{
    lemma2_to64, lemma2_to64_rest, lemma_pow2_adds, lemma_pow2_pos, lemma_pow2_unfold, pow2,
};
use vstd::prelude::*;
use crate::transform::{
    array_items, at_key, map_entries, member, members_of, negated, negated_single, number_bits,
    object_entries, parsed_transform, texture_transform_from_extensions,
    texture_transform_to_affine2, transform_from_members, transform_in, transform_of,
    ExtensionMembers, FirstNumbers, ScaleAngleTranslation, TextureTransform, ONE, ZERO,
};

verus! {

/// Turning the sign twice gives the number back, and turning it changes nothing else.
pub proof fn negation_is_an_involution(bits: u64, single: u32)
    ensures
        negated(negated(bits)) == bits,
        negated(bits) % 0x8000_0000_0000_0000 == bits % 0x8000_0000_0000_0000,
        negated(bits) != bits,
        negated_single(negated_single(single)) == single,
        negated_single(single) % 0x8000_0000 == single % 0x8000_0000,
        negated_single(single) != single,
{
    assert((bits ^ 0x8000_0000_0000_0000) ^ 0x8000_0000_0000_0000 == bits && (bits
        ^ 0x8000_0000_0000_0000) % 0x8000_0000_0000_0000 == bits % 0x8000_0000_0000_0000 && (bits
        ^ 0x8000_0000_0000_0000) != bits) by (bit_vector);
    assert((single ^ 0x8000_0000) ^ 0x8000_0000 == single && (single ^ 0x8000_0000) % 0x8000_0000
        == single % 0x8000_0000 && (single ^ 0x8000_0000) != single) by (bit_vector);
}

/// The bits of one, as a single.
pub const ONE_SINGLE: u32 = 0x3f80_0000;

/// The exponent field of a single.
pub open spec fn single_exponent(bits: u32) -> nat {
    (bits as nat % 0x8000_0000) / 0x80_0000
}

/// The exponent field of a double.
pub open spec fn double_exponent(bits: u64) -> nat {
    (bits as nat % 0x8000_0000_0000_0000) / 0x10_0000_0000_0000
}

/// The absolute value of a single, counted in the smallest doubles.
pub open spec fn single_magnitude(bits: u32) -> nat {
    let fraction = bits as nat % 0x80_0000;
    let exponent = single_exponent(bits);
    if exponent == 0 {
        fraction * pow2(925)
    } else {
        (fraction + 0x80_0000) * pow2(exponent + 924)
    }
}

/// The absolute value of a double, counted in the smallest doubles.
pub open spec fn double_magnitude(bits: u64) -> nat {
    let fraction = bits as nat % 0x10_0000_0000_0000;
    let exponent = double_exponent(bits);
    if exponent == 0 {
        fraction
    } else {
        (fraction + 0x10_0000_0000_0000) * pow2((exponent - 1) as nat)
    }
}

/// A double stands for a single: both are finite, with the same sign and the same absolute
/// value.
pub open spec fn stands_for(double: u64, single: u32) -> bool {
    &&& double_exponent(double) < 0x7ff
    &&& single_exponent(single) < 0xff
    &&& double >= 0x8000_0000_0000_0000 <==> single >= 0x8000_0000
    &&& double_magnitude(double) == single_magnitude(single)
}

/// Zero stands for zero, and one for one.
proof fn constants_stand_for_themselves()
    ensures
        stands_for(ZERO, 0),
        stands_for(ONE, ONE_SINGLE),
{
    lemma2_to64();
    lemma2_to64_rest();
    assert(single_magnitude(0) == 0) by {
        assert(0 * pow2(925) == 0) by (nonlinear_arith);
    }
    assert(single_exponent(ONE_SINGLE) == 127);
    assert(double_exponent(ONE) == 1023);
    lemma_pow2_adds(23, 1051);
    lemma_pow2_adds(52, 1022);
}

/// Where a double stands for a single, so they do with the other sign.
pub proof fn negated_stands_for_negated(double: u64, single: u32)
    requires
        stands_for(double, single),
    ensures
        stands_for(negated(double), negated_single(single)),
{
    negation_is_an_involution(double, single);
    assert((double ^ 0x8000_0000_0000_0000 >= 0x8000_0000_0000_0000) == !(double
        >= 0x8000_0000_0000_0000) && (double ^ 0x8000_0000_0000_0000) % 0x10_0000_0000_0000
        == double % 0x10_0000_0000_0000) by (bit_vector);
    assert((single ^ 0x8000_0000 >= 0x8000_0000) == !(single >= 0x8000_0000) && (single
        ^ 0x8000_0000) % 0x80_0000 == single % 0x80_0000) by (bit_vector);
}

/// Of two singles with the same absolute value, neither has the larger exponent.
proof fn magnitude_bounds_exponent(a: u32, b: u32)
    requires
        single_magnitude(a) == single_magnitude(b),
    ensures
        single_exponent(a) <= single_exponent(b),
{
    let ea = single_exponent(a);
    let eb = single_exponent(b);
    if eb < ea {
        let place = if eb == 0 {
            925nat
        } else {
            eb + 924
        };
        let sa = a as nat % 0x80_0000 + 0x80_0000;
        let sb = if eb == 0 {
            b as nat % 0x80_0000
        } else {
            b as nat % 0x80_0000 + 0x80_0000
        };
        assert(single_magnitude(b) == sb * pow2(place));
        if ea + 924 == place {
            lemma_pow2_pos(place);
            assert(sb < sa && sb * pow2(place) < sa * pow2(place)) by (nonlinear_arith)
                requires
                    sb < sa,
                    pow2(place) > 0,
            ;
        } else {
            let gap = (ea + 924 - place) as nat;
            lemma_pow2_adds(place, gap);
            lemma_pow2_pos(place);
            lemma_pow2_unfold(gap);
            lemma_pow2_pos((gap - 1) as nat);
            assert(sb * pow2(place) < sa * (pow2(place) * pow2(gap))) by (nonlinear_arith)
                requires
                    sb < 2 * sa,
                    pow2(place) > 0,
                    pow2(gap) >= 2,
            ;
        }
    }
}

/// A double stands for one single at most.
pub proof fn stands_for_one_single(double: u64, a: u32, b: u32)
    requires
        stands_for(double, a),
        stands_for(double, b),
    ensures
        a == b,
{
    magnitude_bounds_exponent(a, b);
    magnitude_bounds_exponent(b, a);
    let exponent = single_exponent(a);
    let place = if exponent == 0 {
        925nat
    } else {
        exponent + 924
    };
    let fa = a as nat % 0x80_0000;
    let fb = b as nat % 0x80_0000;
    lemma_pow2_pos(place);
    assert(fa == fb) by (nonlinear_arith)
        requires
            pow2(place) > 0,
            fa * pow2(place) == fb * pow2(place) || (fa + 0x80_0000) * pow2(place) == (fb
                + 0x80_0000) * pow2(place),
    ;
}

/// An array gives a pair of singles: it begins with the doubles that stand for them, or it
/// is left out, or has another form, and they are the default.
pub open spec fn gives_pair(
    numbers: Option<FirstNumbers>,
    pair: (u32, u32),
    default: (u32, u32),
) -> bool {
    match numbers {
        Some((Some(first), Some(second))) => stands_for(first, pair.0) && stands_for(
            second,
            pair.1,
        ),
        _ => pair == default,
    }
}

/// The members of an extension give a scale, a rotation and an offset in singles, or leave
/// out those that are as in the identity.
pub open spec fn gives_parts(
    members: ExtensionMembers,
    scale: (u32, u32),
    rotation: u32,
    offset: (u32, u32),
) -> bool {
    &&& gives_pair(members.scale, scale, (ONE_SINGLE, ONE_SINGLE))
    &&& match members.rotation {
        Some(number) => stands_for(number, rotation),
        None => rotation == 0,
    }
    &&& gives_pair(members.offset, offset, (0, 0))
}

/// A transform in doubles stands for one in singles.
pub open spec fn transform_stands_for(
    raw: ScaleAngleTranslation<u64>,
    parsed: ScaleAngleTranslation<u32>,
) -> bool {
    &&& stands_for(raw.scale.0, parsed.scale.0)
    &&& stands_for(raw.scale.1, parsed.scale.1)
    &&& stands_for(raw.angle, parsed.angle)
    &&& stands_for(raw.translation.0, parsed.translation.0)
    &&& stands_for(raw.translation.1, parsed.translation.1)
}

/// A raw extension is the same transform as the parsed one: where it gives a scale, a
/// rotation and an offset in singles, or leaves out those that are as in the identity, it
/// stands for the transform of these, and for no other.
pub proof fn raw_and_parsed_transforms_agree(
    extensions: serde_json::Map<String, serde_json::Value>,
    extension: serde_json::Value,
    scale: (u32, u32),
    rotation: u32,
    offset: (u32, u32),
)
    requires
        at_key(map_entries(extensions), "KHR_texture_transform"@) == Some(extension),
        gives_parts(members_of(extension), scale, rotation, offset),
    ensures
        transform_in(extensions) is Affine,
        transform_stands_for(
            transform_in(extensions)->Affine_0,
            parsed_transform(scale, rotation, offset),
        ),
        forall|other: ScaleAngleTranslation<u32>| #[trigger]
            transform_stands_for(transform_in(extensions)->Affine_0, other) ==> other
                == parsed_transform(scale, rotation, offset),
{
    constants_stand_for_themselves();
    let raw = transform_in(extensions)->Affine_0;
    let parsed = parsed_transform(scale, rotation, offset);
    let turned = match members_of(extension).rotation {
        Some(number) => number,
        None => ZERO,
    };
    negated_stands_for_negated(turned, rotation);
    assert forall|other: ScaleAngleTranslation<u32>| #[trigger]
        transform_stands_for(raw, other) implies other == parsed by {
        stands_for_one_single(raw.scale.0, other.scale.0, parsed.scale.0);
        stands_for_one_single(raw.scale.1, other.scale.1, parsed.scale.1);
        stands_for_one_single(raw.angle, other.angle, parsed.angle);
        stands_for_one_single(raw.translation.0, other.translation.0, parsed.translation.0);
        stands_for_one_single(raw.translation.1, other.translation.1, parsed.translation.1);
    }
}

/// An extension that says nothing scales by one, turns by no angle and moves by nothing.
pub proof fn empty_extension_describes_identity(extension: serde_json::Value)
    requires
        member(extension, "scale"@) is None,
        member(extension, "rotation"@) is None,
        member(extension, "offset"@) is None,
    ensures
        transform_of(members_of(extension)) == (ScaleAngleTranslation {
            scale: (ONE, ONE),
            angle: negated(ZERO),
            translation: (ZERO, ZERO),
        }),
{
}

/// A parsed transform scales and moves as glTF says, and turns by the same angle the other
/// way round.
pub proof fn parsed_rotations_are_turned_round(
    scale: (u32, u32),
    rotation: u32,
    offset: (u32, u32),
    transform: ScaleAngleTranslation<u32>,
)
    requires
        call_ensures(texture_transform_to_affine2, (scale, rotation, offset), transform),
    ensures
        transform.scale.0 == scale.0,
        transform.scale.1 == scale.1,
        transform.translation.0 == offset.0,
        transform.translation.1 == offset.1,
        transform.angle as int % 0x8000_0000 == rotation as int % 0x8000_0000,
        transform.angle >= 0x8000_0000 <==> rotation < 0x8000_0000,
        call_requires(texture_transform_to_affine2, (scale, rotation, offset)),
{
    assert((rotation ^ 0x8000_0000) % 0x8000_0000 == rotation % 0x8000_0000 && (rotation
        ^ 0x8000_0000 >= 0x8000_0000) == (rotation < 0x8000_0000)) by (bit_vector);
}

/// Members that begin with two numbers scale and move by these, others by one and by
/// nothing. A rotation turns the other way round, and without one nothing is turned.
pub proof fn members_are_taken_where_they_are_whole(
    members: ExtensionMembers,
    transform: ScaleAngleTranslation<u64>,
)
    requires
        call_ensures(transform_from_members, (&members,), transform),
    ensures
        members.scale is Some && (members.scale->0).0 is Some && (members.scale->0).1 is Some
            ==> transform.scale.0 == (members.scale->0).0->0 && transform.scale.1
            == (members.scale->0).1->0,
        members.scale is None || (members.scale->0).0 is None || (members.scale->0).1 is None
            ==> transform.scale.0 == 0x3ff0_0000_0000_0000 && transform.scale.1
            == 0x3ff0_0000_0000_0000,
        members.offset is Some && (members.offset->0).0 is Some && (members.offset->0).1 is Some
            ==> transform.translation.0 == (members.offset->0).0->0 && transform.translation.1
            == (members.offset->0).1->0,
        members.offset is None || (members.offset->0).0 is None || (members.offset->0).1 is None
            ==> transform.translation.0 == 0 && transform.translation.1 == 0,
        members.rotation is Some ==> transform.angle as int % 0x8000_0000_0000_0000
            == members.rotation->0 as int % 0x8000_0000_0000_0000 && (transform.angle
            >= 0x8000_0000_0000_0000 <==> members.rotation->0 < 0x8000_0000_0000_0000),
        members.rotation is None ==> transform.angle == 0x8000_0000_0000_0000,
        call_requires(transform_from_members, (&members,)),
{
    let rotation: u64 = if members.rotation is Some {
        members.rotation->0
    } else {
        0
    };
    assert((rotation ^ 0x8000_0000_0000_0000) % 0x8000_0000_0000_0000 == rotation
        % 0x8000_0000_0000_0000 && (rotation ^ 0x8000_0000_0000_0000 >= 0x8000_0000_0000_0000) == (
    rotation < 0x8000_0000_0000_0000)) by (bit_vector);
    assert(0u64 ^ 0x8000_0000_0000_0000 == 0x8000_0000_0000_0000u64) by (bit_vector);
}

/// Nothing is transformed exactly if there are no extensions, or this one is not among them.
pub proof fn textures_without_the_extension_are_not_transformed(
    extensions: Option<&serde_json::Map<String, serde_json::Value>>,
    transform: TextureTransform,
)
    requires
        call_ensures(texture_transform_from_extensions, (extensions,), transform),
    ensures
        transform is Identity <==> extensions is None || !map_entries(
            *extensions->0,
        ).contains_key("KHR_texture_transform"@),
        call_requires(texture_transform_from_extensions, (extensions,)),
{
}

/// What an object holds at a key.
pub open spec fn holds(
    object: serde_json::Value,
    key: Seq<char>,
    value: serde_json::Value,
) -> bool {
    object_entries(object) is Some && object_entries(object)->0.contains_key(key)
        && object_entries(object)->0[key] == value
}

/// An array begins with two numbers.
pub open spec fn begins_with(array: serde_json::Value, first: u64, second: u64) -> bool {
    &&& array_items(array) is Some
    &&& array_items(array)->0.len() >= 2
    &&& number_bits(array_items(array)->0[0]) == Some(first)
    &&& number_bits(array_items(array)->0[1]) == Some(second)
}

/// The extension scales by the first two numbers at `scale`, and moves by the first two at
/// `offset`.
pub proof fn extensions_scale_and_move(
    extensions: serde_json::Map<String, serde_json::Value>,
    transform: TextureTransform,
    pair: serde_json::Value,
    first: u64,
    second: u64,
)
    requires
        call_ensures(texture_transform_from_extensions, (Some(&extensions),), transform),
        map_entries(extensions).contains_key("KHR_texture_transform"@),
        begins_with(pair, first, second),
    ensures
        holds(map_entries(extensions)["KHR_texture_transform"@], "scale"@, pair) ==> (
        transform->Affine_0).scale.0 == first && (transform->Affine_0).scale.1 == second,
        holds(map_entries(extensions)["KHR_texture_transform"@], "offset"@, pair) ==> (
        transform->Affine_0).translation.0 == first && (transform->Affine_0).translation.1 == second,
{
}

/// Where no value at `scale` begins with two numbers the extension scales by one, and where
/// none at `offset` does it moves by nothing.
pub proof fn extensions_leave_out_scale_and_offset(
    extensions: serde_json::Map<String, serde_json::Value>,
    transform: TextureTransform,
)
    requires
        call_ensures(texture_transform_from_extensions, (Some(&extensions),), transform),
        map_entries(extensions).contains_key("KHR_texture_transform"@),
    ensures
        (forall|pair: serde_json::Value, first: u64, second: u64|
            holds(map_entries(extensions)["KHR_texture_transform"@], "scale"@, pair)
                ==> !#[trigger] begins_with(pair, first, second)) ==> (
        transform->Affine_0).scale.0 == 0x3ff0_0000_0000_0000 && (transform->Affine_0).scale.1
            == 0x3ff0_0000_0000_0000,
        (forall|pair: serde_json::Value, first: u64, second: u64|
            holds(map_entries(extensions)["KHR_texture_transform"@], "offset"@, pair)
                ==> !#[trigger] begins_with(pair, first, second)) ==> (
        transform->Affine_0).translation.0 == 0 && (transform->Affine_0).translation.1 == 0,
{
    let extension = map_entries(extensions)["KHR_texture_transform"@];
    let scale = object_entries(extension)->0["scale"@];
    let offset = object_entries(extension)->0["offset"@];
    let scale_items = array_items(scale)->0;
    let offset_items = array_items(offset)->0;
    assert(begins_with(scale, number_bits(scale_items[0])->0, number_bits(scale_items[1])->0) || (
    array_items(scale) is None || scale_items.len() < 2 || number_bits(scale_items[0]) is None
        || number_bits(scale_items[1]) is None));
    assert(begins_with(offset, number_bits(offset_items[0])->0, number_bits(offset_items[1])->0) || (
    array_items(offset) is None || offset_items.len() < 2 || number_bits(offset_items[0]) is None
        || number_bits(offset_items[1]) is None));
}

/// The extension turns by the number at `rotation` the other way round, and by nothing where
/// there is no number.
pub proof fn extensions_turn_the_other_way_round(
    extensions: serde_json::Map<String, serde_json::Value>,
    transform: TextureTransform,
    value: serde_json::Value,
)
    requires
        call_ensures(texture_transform_from_extensions, (Some(&extensions),), transform),
        map_entries(extensions).contains_key("KHR_texture_transform"@),
    ensures
        holds(map_entries(extensions)["KHR_texture_transform"@], "rotation"@, value)
            && number_bits(value) is Some ==> (transform->Affine_0).angle as int
            % 0x8000_0000_0000_0000 == number_bits(value)->0 as int % 0x8000_0000_0000_0000 && ((
        transform->Affine_0).angle >= 0x8000_0000_0000_0000 <==> number_bits(value)->0
            < 0x8000_0000_0000_0000),
        (forall|v: serde_json::Value| #[trigger]
            holds(map_entries(extensions)["KHR_texture_transform"@], "rotation"@, v)
                ==> number_bits(v) is None) ==> (transform->Affine_0).angle == 0x8000_0000_0000_0000,
{
    let extension = map_entries(extensions)["KHR_texture_transform"@];
    let found = object_entries(extension)->0["rotation"@];
    assert(holds(extension, "rotation"@, found) || object_entries(extension) is None
        || !object_entries(extension)->0.contains_key("rotation"@));
    let number = if number_bits(value) is Some {
        number_bits(value)->0
    } else {
        0
    };
    assert((number ^ 0x8000_0000_0000_0000) % 0x8000_0000_0000_0000 == number
        % 0x8000_0000_0000_0000 && (number ^ 0x8000_0000_0000_0000 >= 0x8000_0000_0000_0000) == (
    number < 0x8000_0000_0000_0000)) by (bit_vector);
    assert(0u64 ^ 0x8000_0000_0000_0000 == 0x8000_0000_0000_0000u64) by (bit_vector);
}

} // verus!
