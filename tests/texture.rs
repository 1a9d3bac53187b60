use sovereign::sampler::{
    extract_addressing_mode, extract_filter, sampler_desc, AddressMode, Filter, MinFilter,
    SamplerDesc, WrappingMode,
};
use sovereign::texture::{checkerboard_pixels, pixel_bytes, BLACK, MAGENTA};

#[test]
fn checkerboard_tiles_two_by_two_pattern() {
    let base = [[0xFF000000u32, 0xFFFF00FF], [0xFFFF00FF, 0xFF000000]];
    let pixels = checkerboard_pixels();
    assert_eq!(pixels.len(), 256);
    for y in 0..16 {
        for x in 0..16 {
            assert_eq!(pixels[y * 16 + x], base[y % 2][x % 2]);
        }
    }
}

#[test]
fn checkerboard_bytes_match_pattern() {
    let bytes = pixel_bytes(&checkerboard_pixels());
    assert_eq!(bytes.len(), 16 * 16 * 4);
    assert_eq!(&bytes[0..8], &[0x00, 0x00, 0x00, 0xFF, 0xFF, 0x00, 0xFF, 0xFF]);
    let row1 = 16 * 4;
    assert_eq!(&bytes[row1..row1 + 8], &[0xFF, 0x00, 0xFF, 0xFF, 0x00, 0x00, 0x00, 0xFF]);
    let expected: Vec<u8> = checkerboard_pixels().iter().flat_map(|p| p.to_le_bytes()).collect();
    assert_eq!(bytes, expected);
}

#[test]
fn colours_are_opaque() {
    assert_eq!(MAGENTA, 0xFFFF00FF);
    assert_eq!(BLACK, 0xFF000000);
    assert_eq!(pixel_bytes(&vec![0x11223344]), vec![0x44, 0x33, 0x22, 0x11]);
}

#[test]
fn filters_map_by_texel_selection() {
    assert_eq!(extract_filter(MinFilter::Nearest), Filter::MinMagMipPoint);
    assert_eq!(extract_filter(MinFilter::NearestMipmapLinear), Filter::MinMagMipPoint);
    assert_eq!(extract_filter(MinFilter::NearestMipmapNearest), Filter::MinMagMipPoint);
    assert_eq!(extract_filter(MinFilter::Linear), Filter::MinMagMipLinear);
    assert_eq!(extract_filter(MinFilter::LinearMipmapNearest), Filter::MinMagMipLinear);
    assert_eq!(extract_filter(MinFilter::LinearMipmapLinear), Filter::MinMagMipLinear);
}

#[test]
fn wrapping_modes_map() {
    assert_eq!(extract_addressing_mode(WrappingMode::ClampToEdge), AddressMode::Clamp);
    assert_eq!(extract_addressing_mode(WrappingMode::MirroredRepeat), AddressMode::Mirror);
    assert_eq!(extract_addressing_mode(WrappingMode::Repeat), AddressMode::Wrap);
}

#[test]
fn sampler_defaults_to_nearest_with_border_w() {
    assert_eq!(
        sampler_desc(None, WrappingMode::Repeat, WrappingMode::ClampToEdge),
        SamplerDesc {
            filter: Filter::MinMagMipPoint,
            address_u: AddressMode::Wrap,
            address_v: AddressMode::Clamp,
            address_w: AddressMode::Border,
        }
    );
    assert_eq!(
        sampler_desc(Some(MinFilter::LinearMipmapLinear), WrappingMode::MirroredRepeat, WrappingMode::Repeat).filter,
        Filter::MinMagMipLinear
    );
}
