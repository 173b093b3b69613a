use depth_peeling::sampler::{
    address_mode, texture_sampler, GltfSampler, ImageAddressMode, ImageFilterMode,
    ImageSamplerDescriptor, MagFilter, MinFilter, WrappingMode,
};
use depth_peeling::transform::{
    texture_transform_from_extensions, texture_transform_to_affine2, transform_from_members,
    ExtensionMembers, ScaleAngleTranslation, TextureTransform,
};
use serde_json::Value;

fn default_sampler(anisotropy_clamp: u16) -> ImageSamplerDescriptor {
    ImageSamplerDescriptor {
        label: Some(String::from("default")),
        address_mode_u: ImageAddressMode::ClampToBorder,
        address_mode_v: ImageAddressMode::ClampToBorder,
        address_mode_w: ImageAddressMode::ClampToBorder,
        mag_filter: ImageFilterMode::Linear,
        min_filter: ImageFilterMode::Linear,
        mipmap_filter: ImageFilterMode::Linear,
        lod_min_clamp: 0.5f32.to_bits(),
        lod_max_clamp: 32.0f32.to_bits(),
        compare: None,
        anisotropy_clamp,
        border_color: None,
    }
}

#[test]
fn wrapping_modes_become_address_modes() {
    assert_eq!(address_mode(&WrappingMode::ClampToEdge), ImageAddressMode::ClampToEdge);
    assert_eq!(address_mode(&WrappingMode::Repeat), ImageAddressMode::Repeat);
    assert_eq!(address_mode(&WrappingMode::MirroredRepeat), ImageAddressMode::MirrorRepeat);
}

#[test]
fn min_filter_sets_two_filters() {
    let cases = [
        (MinFilter::Nearest, ImageFilterMode::Nearest, ImageFilterMode::Nearest),
        (MinFilter::Linear, ImageFilterMode::Linear, ImageFilterMode::Nearest),
        (MinFilter::NearestMipmapNearest, ImageFilterMode::Nearest, ImageFilterMode::Nearest),
        (MinFilter::LinearMipmapNearest, ImageFilterMode::Linear, ImageFilterMode::Nearest),
        (MinFilter::NearestMipmapLinear, ImageFilterMode::Nearest, ImageFilterMode::Linear),
        (MinFilter::LinearMipmapLinear, ImageFilterMode::Linear, ImageFilterMode::Linear),
    ];
    for (filter, min_filter, mipmap_filter) in cases {
        let sampler = GltfSampler {
            wrap_s: WrappingMode::Repeat,
            wrap_t: WrappingMode::Repeat,
            mag_filter: None,
            min_filter: Some(filter),
        };
        let descriptor = texture_sampler(&sampler, &default_sampler(1));
        assert_eq!(descriptor.mag_filter, ImageFilterMode::Linear);
        assert_eq!(descriptor.min_filter, min_filter);
        assert_eq!(descriptor.mipmap_filter, mipmap_filter);
    }
}

#[test]
fn anisotropic_samplers_keep_their_filters() {
    let sampler = GltfSampler {
        wrap_s: WrappingMode::Repeat,
        wrap_t: WrappingMode::ClampToEdge,
        mag_filter: Some(MagFilter::Nearest),
        min_filter: Some(MinFilter::Nearest),
    };
    let mut expected = default_sampler(16);
    expected.address_mode_u = ImageAddressMode::Repeat;
    expected.address_mode_v = ImageAddressMode::ClampToEdge;
    assert_eq!(texture_sampler(&sampler, &default_sampler(16)), expected);
    expected = default_sampler(1);
    expected.address_mode_u = ImageAddressMode::Repeat;
    expected.address_mode_v = ImageAddressMode::ClampToEdge;
    expected.mag_filter = ImageFilterMode::Nearest;
    expected.min_filter = ImageFilterMode::Nearest;
    expected.mipmap_filter = ImageFilterMode::Nearest;
    assert_eq!(texture_sampler(&sampler, &default_sampler(1)), expected);
    assert_eq!(texture_sampler(&sampler, &expected), expected);
}

fn extensions(json: &str) -> serde_json::Map<String, Value> {
    let value: Value = serde_json::from_str(json).unwrap();
    value.as_object().unwrap().clone()
}

fn transform(json: &str) -> TextureTransform {
    texture_transform_from_extensions(Some(&extensions(json)))
}

fn affine(scale: (f64, f64), angle: f64, translation: (f64, f64)) -> TextureTransform {
    TextureTransform::Affine(ScaleAngleTranslation {
        scale: (scale.0.to_bits(), scale.1.to_bits()),
        angle: angle.to_bits(),
        translation: (translation.0.to_bits(), translation.1.to_bits()),
    })
}

#[test]
fn without_the_extension_nothing_is_transformed() {
    assert_eq!(texture_transform_from_extensions(None), TextureTransform::Identity);
    assert_eq!(transform("{}"), TextureTransform::Identity);
    assert_eq!(transform(r#"{"KHR_other": {"scale": [2, 2]}}"#), TextureTransform::Identity);
}

#[test]
fn the_extension_describes_a_transform() {
    assert_eq!(
        transform(
            r#"{"KHR_texture_transform": {"offset": [0.25, -3], "rotation": 1.5, "scale": [2, 0.5]}}"#
        ),
        affine((2.0, 0.5), -1.5, (0.25, -3.0))
    );
}

#[test]
fn what_the_extension_leaves_out_is_the_identity() {
    let identity = affine((1.0, 1.0), -0.0, (0.0, 0.0));
    assert_eq!(transform(r#"{"KHR_texture_transform": {}}"#), identity);
    assert_eq!(transform(r#"{"KHR_texture_transform": 7}"#), identity);
    assert_eq!(
        transform(
            r#"{"KHR_texture_transform": {"offset": [1], "rotation": "1", "scale": {"0": 2}}}"#
        ),
        identity
    );
    assert_eq!(
        transform(r#"{"KHR_texture_transform": {"offset": [1, "2"], "scale": [null, 2]}}"#),
        identity
    );
    assert_eq!(
        transform(r#"{"KHR_texture_transform": {"scale": [3, 4, "x"], "rotation": -2}}"#),
        affine((3.0, 4.0), 2.0, (0.0, 0.0))
    );
}

#[test]
fn rotations_are_angles_with_the_other_sign() {
    let single = |number: f32| number.to_bits();
    assert_eq!(
        texture_transform_to_affine2(
            (single(2.0), single(3.0)),
            single(0.75),
            (single(4.0), single(5.0))
        ),
        ScaleAngleTranslation {
            scale: (single(2.0), single(3.0)),
            angle: single(-0.75),
            translation: (single(4.0), single(5.0)),
        }
    );
}

#[test]
fn rounding_and_turning_the_sign_can_be_swapped() {
    for number in [0.0f64, 1.0, -2.5, 0.1, 1e300, 1e-300, 16777217.0] {
        assert_eq!((-(number as f32)).to_bits(), ((-number) as f32).to_bits());
    }
}

#[test]
fn members_describe_a_transform() {
    let members = ExtensionMembers {
        offset: Some((Some(0.25f64.to_bits()), Some(4.0f64.to_bits()))),
        rotation: Some(1.5f64.to_bits()),
        scale: Some((Some(2.0f64.to_bits()), None)),
    };
    assert_eq!(
        transform_from_members(&members),
        ScaleAngleTranslation {
            scale: (1.0f64.to_bits(), 1.0f64.to_bits()),
            angle: (-1.5f64).to_bits(),
            translation: (0.25f64.to_bits(), 4.0f64.to_bits()),
        }
    );
    let nothing = ExtensionMembers { offset: Some((None, None)), rotation: None, scale: None };
    assert_eq!(
        transform_from_members(&nothing),
        ScaleAngleTranslation {
            scale: (1.0f64.to_bits(), 1.0f64.to_bits()),
            angle: (-0.0f64).to_bits(),
            translation: (0, 0),
        }
    );
}

#[test]
fn raw_and_parsed_transforms_are_the_same() {
    let raw = transform(r#"{"KHR_texture_transform": {"offset": [0.25, -3], "rotation": 0.5}}"#);
    let parsed = texture_transform_to_affine2(
        (1.0f32.to_bits(), 1.0f32.to_bits()),
        0.5f32.to_bits(),
        (0.25f32.to_bits(), (-3.0f32).to_bits()),
    );
    let narrow = |bits: u64| (f64::from_bits(bits) as f32).to_bits();
    match raw {
        TextureTransform::Affine(raw) => assert_eq!(
            parsed,
            ScaleAngleTranslation {
                scale: (narrow(raw.scale.0), narrow(raw.scale.1)),
                angle: narrow(raw.angle),
                translation: (narrow(raw.translation.0), narrow(raw.translation.1)),
            }
        ),
        TextureTransform::Identity => panic!("the extension is there"),
    }
}
