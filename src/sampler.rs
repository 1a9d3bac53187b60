use vstd::prelude::*;

verus! {

/// Minification filter of an imported sampler.
#[derive(Clone, Copy, Debug, PartialEq, Eq, Structural)]
pub enum MinFilter {
    Nearest,
    Linear,
    NearestMipmapNearest,
    LinearMipmapNearest,
    NearestMipmapLinear,
    LinearMipmapLinear,
}

/// Wrapping mode of an imported sampler along one axis.
#[derive(Clone, Copy, Debug, PartialEq, Eq, Structural)]
pub enum WrappingMode {
    ClampToEdge,
    MirroredRepeat,
    Repeat,
}

/// Filter of a GPU sampler, applied alike to minification, magnification
/// and mip selection.
#[derive(Clone, Copy, Debug, PartialEq, Eq, Structural)]
pub enum Filter {
    MinMagMipPoint,
    MinMagMipLinear,
}

/// Texture addressing mode of a GPU sampler along one axis.
#[derive(Clone, Copy, Debug, PartialEq, Eq, Structural)]
pub enum AddressMode {
    Clamp,
    Mirror,
    Wrap,
    Border,
}

/// What a GPU sampler is made from; its level-of-detail range is always
/// the whole mip chain.
#[derive(Clone, Copy, Debug, PartialEq, Eq, Structural)]
pub struct SamplerDesc {
    pub filter: Filter,
    pub address_u: AddressMode,
    pub address_v: AddressMode,
    pub address_w: AddressMode,
}

/// The filter of a minification filter: point sampling where texels are
/// picked by nearest, linear where they are blended, whatever the mip mode.
pub open spec fn filter_of(f: MinFilter) -> Filter {
    match f {
        MinFilter::Nearest | MinFilter::NearestMipmapNearest | MinFilter::NearestMipmapLinear => {
            Filter::MinMagMipPoint
        },
        _ => Filter::MinMagMipLinear,
    }
}

pub open spec fn address_of(m: WrappingMode) -> AddressMode {
    match m {
        WrappingMode::ClampToEdge => AddressMode::Clamp,
        WrappingMode::MirroredRepeat => AddressMode::Mirror,
        WrappingMode::Repeat => AddressMode::Wrap,
    }
}

pub fn extract_filter(filter: MinFilter) -> (r: Filter)
    ensures
        r == filter_of(filter),
{
    match filter {
        MinFilter::Nearest => Filter::MinMagMipPoint,
        MinFilter::Linear => Filter::MinMagMipLinear,
        MinFilter::NearestMipmapNearest => Filter::MinMagMipPoint,
        MinFilter::LinearMipmapNearest => Filter::MinMagMipLinear,
        MinFilter::NearestMipmapLinear => Filter::MinMagMipPoint,
        MinFilter::LinearMipmapLinear => Filter::MinMagMipLinear,
    }
}

pub fn extract_addressing_mode(mode: WrappingMode) -> (r: AddressMode)
    ensures
        r == address_of(mode),
{
    match mode {
        WrappingMode::ClampToEdge => AddressMode::Clamp,
        WrappingMode::MirroredRepeat => AddressMode::Mirror,
        WrappingMode::Repeat => AddressMode::Wrap,
    }
}

/// The GPU sampler for an imported one: its minification filter (nearest
/// when it names none) for all filtering, its wrapping modes along u and v,
/// and border addressing along w.
pub fn sampler_desc(min_filter: Option<MinFilter>, wrap_s: WrappingMode, wrap_t: WrappingMode) -> (r:
    SamplerDesc)
    ensures
        r == (SamplerDesc {
            filter: filter_of(
                match min_filter {
                    Some(f) => f,
                    None => MinFilter::Nearest,
                },
            ),
            address_u: address_of(wrap_s),
            address_v: address_of(wrap_t),
            address_w: AddressMode::Border,
        }),
{
    let f = match min_filter {
        Some(f) => f,
        None => MinFilter::Nearest,
    };
    SamplerDesc {
        filter: extract_filter(f),
        address_u: extract_addressing_mode(wrap_s),
        address_v: extract_addressing_mode(wrap_t),
        address_w: AddressMode::Border,
    }
}

} // verus!
