//! Laws of texture samplers.
use vstd::prelude::*;
use crate::sampler::{
    address_mode, texture_sampler, GltfSampler, ImageAddressMode, ImageFilterMode,
    ImageSamplerDescriptor, MagFilter, MinFilter, WrappingMode,
};

verus! {

/// Each wrapping mode has its own address mode.
pub proof fn wrapping_modes_have_address_modes(mode: WrappingMode, address: ImageAddressMode)
    requires
        call_ensures(address_mode, (&mode,), address),
    ensures
        address is ClampToEdge <==> mode is ClampToEdge,
        address is Repeat <==> mode is Repeat,
        address is MirrorRepeat <==> mode is MirroredRepeat,
        !(address is ClampToBorder),
        call_requires(address_mode, (&mode,)),
{
}

/// A texture is addressed across as its sampler wraps across, and up as it wraps up.
pub proof fn addresses_follow_the_wrapping_modes(
    gltf: GltfSampler,
    default_sampler: ImageSamplerDescriptor,
    sampler: ImageSamplerDescriptor,
)
    requires
        call_ensures(texture_sampler, (&gltf, &default_sampler), sampler),
    ensures
        sampler.address_mode_u is ClampToEdge <==> gltf.wrap_s is ClampToEdge,
        sampler.address_mode_u is Repeat <==> gltf.wrap_s is Repeat,
        sampler.address_mode_u is MirrorRepeat <==> gltf.wrap_s is MirroredRepeat,
        sampler.address_mode_v is ClampToEdge <==> gltf.wrap_t is ClampToEdge,
        sampler.address_mode_v is Repeat <==> gltf.wrap_t is Repeat,
        sampler.address_mode_v is MirrorRepeat <==> gltf.wrap_t is MirroredRepeat,
        call_requires(texture_sampler, (&gltf, &default_sampler)),
{
}

/// Without anisotropic filtering, a filter for magnification is linear exactly if glTF asks
/// for a linear one, and stays as it is if glTF asks for none.
pub proof fn magnification_follows_gltf(
    gltf: GltfSampler,
    default_sampler: ImageSamplerDescriptor,
    sampler: ImageSamplerDescriptor,
)
    requires
        call_ensures(texture_sampler, (&gltf, &default_sampler), sampler),
        default_sampler.anisotropy_clamp == 1,
    ensures
        gltf.mag_filter is Some ==> (sampler.mag_filter is Linear <==> gltf.mag_filter->0 is Linear),
        gltf.mag_filter is None ==> sampler.mag_filter == default_sampler.mag_filter,
{
}

/// Without anisotropic filtering, the filter for minification is linear exactly if glTF asks
/// for one that is linear within a level, and that between levels exactly if glTF asks for
/// one that is linear between levels. Both stay as they are if glTF asks for none.
pub proof fn minification_follows_gltf(
    gltf: GltfSampler,
    default_sampler: ImageSamplerDescriptor,
    sampler: ImageSamplerDescriptor,
)
    requires
        call_ensures(texture_sampler, (&gltf, &default_sampler), sampler),
        default_sampler.anisotropy_clamp == 1,
    ensures
        gltf.min_filter is Some ==> (sampler.min_filter is Nearest <==> gltf.min_filter->0 is Nearest
            || gltf.min_filter->0 is NearestMipmapNearest
            || gltf.min_filter->0 is NearestMipmapLinear),
        gltf.min_filter is Some ==> (sampler.mipmap_filter is Nearest
            <==> gltf.min_filter->0 is Nearest || gltf.min_filter->0 is Linear
            || gltf.min_filter->0 is NearestMipmapNearest
            || gltf.min_filter->0 is LinearMipmapNearest),
        gltf.min_filter is None ==> sampler.min_filter == default_sampler.min_filter
            && sampler.mipmap_filter == default_sampler.mipmap_filter,
{
}

/// With anisotropic filtering all filters stay as they are, and what glTF does not speak of
/// stays as it is in any case.
pub proof fn the_rest_is_as_in_the_default(
    gltf: GltfSampler,
    default_sampler: ImageSamplerDescriptor,
    sampler: ImageSamplerDescriptor,
)
    requires
        call_ensures(texture_sampler, (&gltf, &default_sampler), sampler),
    ensures
        default_sampler.anisotropy_clamp != 1 ==> sampler.mag_filter == default_sampler.mag_filter
            && sampler.min_filter == default_sampler.min_filter && sampler.mipmap_filter
            == default_sampler.mipmap_filter,
        sampler.label == default_sampler.label,
        sampler.address_mode_w == default_sampler.address_mode_w,
        sampler.lod_min_clamp == default_sampler.lod_min_clamp,
        sampler.lod_max_clamp == default_sampler.lod_max_clamp,
        sampler.compare == default_sampler.compare,
        sampler.anisotropy_clamp == default_sampler.anisotropy_clamp,
        sampler.border_color == default_sampler.border_color,
{
}

} // verus!
