//! Texture samplers of glTF.
use vstd::prelude::*;

verus! {

/// How glTF handles coordinates outside a texture.
#[derive(Clone, Copy, Debug, PartialEq, Eq)]
pub enum WrappingMode {
    ClampToEdge,
    MirroredRepeat,
    Repeat,
}

/// How glTF filters a texture that is magnified.
#[derive(Clone, Copy, Debug, PartialEq, Eq)]
pub enum MagFilter {
    Nearest,
    Linear,
}

/// How glTF filters a texture that is minified, and between mip levels.
#[derive(Clone, Copy, Debug, PartialEq, Eq)]
pub enum MinFilter {
    Nearest,
    Linear,
    NearestMipmapNearest,
    LinearMipmapNearest,
    NearestMipmapLinear,
    LinearMipmapLinear,
}

/// A sampler of glTF.
#[derive(Clone, Copy, Debug, PartialEq, Eq)]
pub struct GltfSampler {
    pub wrap_s: WrappingMode,
    pub wrap_t: WrappingMode,
    pub mag_filter: Option<MagFilter>,
    pub min_filter: Option<MinFilter>,
}

/// How coordinates outside a texture are handled.
#[derive(Clone, Copy, Debug, PartialEq, Eq)]
pub enum ImageAddressMode {
    ClampToEdge,
    Repeat,
    MirrorRepeat,
    ClampToBorder,
}

/// How texels are mixed.
#[derive(Clone, Copy, Debug, PartialEq, Eq)]
pub enum ImageFilterMode {
    Nearest,
    Linear,
}

/// How a comparison sampler compares.
#[derive(Clone, Copy, Debug, PartialEq, Eq)]
pub enum ImageCompareFunction {
    Never,
    Less,
    Equal,
    LessEqual,
    Greater,
    NotEqual,
    GreaterEqual,
    Always,
}

#[derive(Clone, Copy, Debug, PartialEq, Eq)]
pub enum ImageSamplerBorderColor {
    TransparentBlack,
    OpaqueBlack,
    OpaqueWhite,
    Zero,
}

/// How a texture is sampled. Levels of detail are bits of IEEE singles.
#[derive(Debug, PartialEq, Eq)]
pub struct ImageSamplerDescriptor {
    pub label: Option<String>,
    pub address_mode_u: ImageAddressMode,
    pub address_mode_v: ImageAddressMode,
    pub address_mode_w: ImageAddressMode,
    pub mag_filter: ImageFilterMode,
    pub min_filter: ImageFilterMode,
    pub mipmap_filter: ImageFilterMode,
    pub lod_min_clamp: u32,
    pub lod_max_clamp: u32,
    pub compare: Option<ImageCompareFunction>,
    /// Anisotropic filtering is on unless this is one.
    pub anisotropy_clamp: u16,
    pub border_color: Option<ImageSamplerBorderColor>,
}

impl MagFilter {
    pub open spec fn image_filter(self) -> ImageFilterMode {
        match self {
            MagFilter::Nearest => ImageFilterMode::Nearest,
            MagFilter::Linear => ImageFilterMode::Linear,
        }
    }
}

impl MinFilter {
    /// Texels of a level are mixed.
    pub open spec fn mixes_texels(self) -> bool {
        self is Linear || self is LinearMipmapNearest || self is LinearMipmapLinear
    }

    /// Levels are mixed.
    pub open spec fn mixes_levels(self) -> bool {
        self is NearestMipmapLinear || self is LinearMipmapLinear
    }
}

/// A filter that mixes, or one that does not.
pub open spec fn filter_mode(mixes: bool) -> ImageFilterMode {
    if mixes {
        ImageFilterMode::Linear
    } else {
        ImageFilterMode::Nearest
    }
}

pub open spec fn address_mode_of(wrapping_mode: WrappingMode) -> ImageAddressMode {
    match wrapping_mode {
        WrappingMode::ClampToEdge => ImageAddressMode::ClampToEdge,
        WrappingMode::Repeat => ImageAddressMode::Repeat,
        WrappingMode::MirroredRepeat => ImageAddressMode::MirrorRepeat,
    }
}

/// How coordinates outside a texture are handled, for a wrapping mode of glTF.
pub fn address_mode(wrapping_mode: &WrappingMode) -> (mode: ImageAddressMode)
    ensures
        mode == address_mode_of(*wrapping_mode),
{
    match wrapping_mode {
        WrappingMode::ClampToEdge => ImageAddressMode::ClampToEdge,
        WrappingMode::Repeat => ImageAddressMode::Repeat,
        WrappingMode::MirroredRepeat => ImageAddressMode::MirrorRepeat,
    }
}

/// The descriptor of a texture's sampler: it addresses the texture as glTF says. It also
/// filters as glTF says, as far as glTF says anything, unless anisotropic filtering is on:
/// that needs all filters to mix, and the default descriptor is trusted to be valid. All
/// else is as in the default descriptor.
pub open spec fn sampler_of(
    sampler: GltfSampler,
    default_sampler: ImageSamplerDescriptor,
) -> ImageSamplerDescriptor {
    let isotropic = default_sampler.anisotropy_clamp == 1;
    ImageSamplerDescriptor {
        address_mode_u: address_mode_of(sampler.wrap_s),
        address_mode_v: address_mode_of(sampler.wrap_t),
        mag_filter: if isotropic && sampler.mag_filter is Some {
            sampler.mag_filter->0.image_filter()
        } else {
            default_sampler.mag_filter
        },
        min_filter: if isotropic && sampler.min_filter is Some {
            filter_mode(sampler.min_filter->0.mixes_texels())
        } else {
            default_sampler.min_filter
        },
        mipmap_filter: if isotropic && sampler.min_filter is Some {
            filter_mode(sampler.min_filter->0.mixes_levels())
        } else {
            default_sampler.mipmap_filter
        },
        ..default_sampler
    }
}

/// The descriptor of a texture's sampler.
pub fn texture_sampler(
    gltf_sampler: &GltfSampler,
    default_sampler: &ImageSamplerDescriptor,
) -> (sampler: ImageSamplerDescriptor)
    ensures
        sampler == sampler_of(*gltf_sampler, *default_sampler),
{
    let label: Option<String> = match &default_sampler.label {
        Some(label) => Some(label.clone()),
        None => None,
    };
    let mut sampler = ImageSamplerDescriptor {
        label,
        address_mode_u: address_mode(&gltf_sampler.wrap_s),
        address_mode_v: address_mode(&gltf_sampler.wrap_t),
        address_mode_w: default_sampler.address_mode_w,
        mag_filter: default_sampler.mag_filter,
        min_filter: default_sampler.min_filter,
        mipmap_filter: default_sampler.mipmap_filter,
        lod_min_clamp: default_sampler.lod_min_clamp,
        lod_max_clamp: default_sampler.lod_max_clamp,
        compare: default_sampler.compare,
        anisotropy_clamp: default_sampler.anisotropy_clamp,
        border_color: default_sampler.border_color,
    };
    if sampler.anisotropy_clamp == 1 {
        match gltf_sampler.mag_filter {
            None => {},
            Some(MagFilter::Nearest) => {
                sampler.mag_filter = ImageFilterMode::Nearest;
            },
            Some(MagFilter::Linear) => {
                sampler.mag_filter = ImageFilterMode::Linear;
            },
        }
        match gltf_sampler.min_filter {
            None => {},
            Some(filter) => {
                sampler.min_filter = match filter {
                    MinFilter::Nearest
                    | MinFilter::NearestMipmapNearest
                    | MinFilter::NearestMipmapLinear => ImageFilterMode::Nearest,
                    MinFilter::Linear
                    | MinFilter::LinearMipmapNearest
                    | MinFilter::LinearMipmapLinear => ImageFilterMode::Linear,
                };
                sampler.mipmap_filter = match filter {
                    MinFilter::Nearest
                    | MinFilter::Linear
                    | MinFilter::NearestMipmapNearest
                    | MinFilter::LinearMipmapNearest => ImageFilterMode::Nearest,
                    MinFilter::NearestMipmapLinear
                    | MinFilter::LinearMipmapLinear => ImageFilterMode::Linear,
                };
            },
        }
    }
    sampler
}

/// Where anisotropic filtering is on, the filters of glTF are not looked at.
pub proof fn anisotropic_sampler_keeps_filters(
    sampler: GltfSampler,
    default_sampler: ImageSamplerDescriptor,
)
    requires
        default_sampler.anisotropy_clamp != 1,
    ensures
        sampler_of(sampler, default_sampler) == (ImageSamplerDescriptor {
            address_mode_u: address_mode_of(sampler.wrap_s),
            address_mode_v: address_mode_of(sampler.wrap_t),
            ..default_sampler
        }),
{
}

/// A descriptor that is valid stays valid: where anisotropic filtering is on and all
/// filters of the default descriptor mix, all filters mix.
pub proof fn valid_sampler_stays_valid(
    sampler: GltfSampler,
    default_sampler: ImageSamplerDescriptor,
)
    requires
        valid_filters(default_sampler),
    ensures
        valid_filters(sampler_of(sampler, default_sampler)),
{
}

/// Anisotropic filtering needs all filters to mix.
pub open spec fn valid_filters(sampler: ImageSamplerDescriptor) -> bool {
    sampler.anisotropy_clamp != 1 ==> sampler.mag_filter is Linear && sampler.min_filter is Linear
        && sampler.mipmap_filter is Linear
}

/// Sampling as glTF says once more changes nothing.
pub proof fn sampler_is_idempotent(sampler: GltfSampler, default_sampler: ImageSamplerDescriptor)
    ensures
        sampler_of(sampler, sampler_of(sampler, default_sampler)) == sampler_of(
            sampler,
            default_sampler,
        ),
{
}

} // verus!
