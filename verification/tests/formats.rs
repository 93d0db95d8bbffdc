//! What pixel formats say about the values they hold.

use ash::vk as native;
use reims_vgpu_vulkan::pass::ClearColor;
use reims_vgpu_vulkan::pixel::{
    clear_class, format_has_depth_aspect, format_has_stencil_aspect, srgb_spelling, storage_format,
    ClearClass, MTL_FORMAT_DEPTH16_UNORM, MTL_FORMAT_DEPTH24_UNORM_STENCIL8,
    MTL_FORMAT_DEPTH32_FLOAT, MTL_FORMAT_DEPTH32_FLOAT_STENCIL8, MTL_FORMAT_R8_SINT,
    MTL_FORMAT_R8_UINT, MTL_FORMAT_RGB10A2_UINT, MTL_FORMAT_RGBA32_SINT, MTL_FORMAT_RGBA32_UINT,
    MTL_FORMAT_RGBA8_SINT, MTL_FORMAT_RGBA8_UINT, MTL_FORMAT_RGBA8_UNORM, MTL_FORMAT_STENCIL8,
    MTL_FORMAT_X24_STENCIL8, MTL_FORMAT_X32_STENCIL8,
};
use reims_vgpu_vulkan::vulkan::Format;

fn pairs() -> Vec<(native::Format, native::Format)> {
    vec![
        (native::Format::R8_UNORM, native::Format::R8_SRGB),
        (native::Format::R8G8_UNORM, native::Format::R8G8_SRGB),
        (native::Format::R8G8B8_UNORM, native::Format::R8G8B8_SRGB),
        (native::Format::B8G8R8_UNORM, native::Format::B8G8R8_SRGB),
        (native::Format::R8G8B8A8_UNORM, native::Format::R8G8B8A8_SRGB),
        (native::Format::B8G8R8A8_UNORM, native::Format::B8G8R8A8_SRGB),
        (native::Format::A8B8G8R8_UNORM_PACK32, native::Format::A8B8G8R8_SRGB_PACK32),
        (native::Format::BC1_RGB_UNORM_BLOCK, native::Format::BC1_RGB_SRGB_BLOCK),
        (native::Format::BC1_RGBA_UNORM_BLOCK, native::Format::BC1_RGBA_SRGB_BLOCK),
        (native::Format::BC2_UNORM_BLOCK, native::Format::BC2_SRGB_BLOCK),
        (native::Format::BC3_UNORM_BLOCK, native::Format::BC3_SRGB_BLOCK),
        (native::Format::BC7_UNORM_BLOCK, native::Format::BC7_SRGB_BLOCK),
        (native::Format::ETC2_R8G8B8_UNORM_BLOCK, native::Format::ETC2_R8G8B8_SRGB_BLOCK),
        (native::Format::ETC2_R8G8B8A1_UNORM_BLOCK, native::Format::ETC2_R8G8B8A1_SRGB_BLOCK),
        (native::Format::ETC2_R8G8B8A8_UNORM_BLOCK, native::Format::ETC2_R8G8B8A8_SRGB_BLOCK),
        (native::Format::ASTC_4X4_UNORM_BLOCK, native::Format::ASTC_4X4_SRGB_BLOCK),
        (native::Format::ASTC_8X8_UNORM_BLOCK, native::Format::ASTC_8X8_SRGB_BLOCK),
        (native::Format::ASTC_12X12_UNORM_BLOCK, native::Format::ASTC_12X12_SRGB_BLOCK),
    ]
}

#[test]
fn every_srgb_format_folds_onto_its_plain_twin() {
    for (plain, srgb) in pairs() {
        let plain = Format(plain.as_raw());
        let srgb = Format(srgb.as_raw());
        assert_eq!(storage_format(srgb), plain);
        assert_eq!(storage_format(plain), plain);
        assert_eq!(srgb_spelling(plain), Some(srgb));
        assert_eq!(srgb_spelling(srgb), Some(srgb));
    }
}

#[test]
fn a_format_without_a_twin_is_stored_as_itself() {
    for format in [
        native::Format::UNDEFINED,
        native::Format::R8_UINT,
        native::Format::R8G8B8A8_UINT,
        native::Format::R32G32B32A32_SFLOAT,
        native::Format::D32_SFLOAT,
        native::Format::S8_UINT,
        native::Format::BC4_UNORM_BLOCK,
        native::Format::BC5_SNORM_BLOCK,
        native::Format::BC6H_UFLOAT_BLOCK,
        native::Format::EAC_R11_UNORM_BLOCK,
        native::Format::EAC_R11G11_SNORM_BLOCK,
    ] {
        let format = Format(format.as_raw());
        assert_eq!(storage_format(format), format);
        assert_eq!(srgb_spelling(format), None);
    }
}

#[test]
fn integer_formats_read_integers() {
    for format in [
        MTL_FORMAT_R8_UINT,
        MTL_FORMAT_RGBA8_UINT,
        MTL_FORMAT_RGB10A2_UINT,
        MTL_FORMAT_RGBA32_UINT,
    ] {
        assert_eq!(clear_class(format), ClearClass::Uint);
    }
    for format in [MTL_FORMAT_R8_SINT, MTL_FORMAT_RGBA8_SINT, MTL_FORMAT_RGBA32_SINT] {
        assert_eq!(clear_class(format), ClearClass::Sint);
    }
    for format in [0, 10, MTL_FORMAT_RGBA8_UNORM, MTL_FORMAT_DEPTH32_FLOAT, u16::MAX] {
        assert_eq!(clear_class(format), ClearClass::Float);
    }
}

#[test]
fn a_format_holds_the_aspects_its_name_says() {
    let aspects = |format: u16| {
        (format_has_depth_aspect(format), format_has_stencil_aspect(format))
    };
    assert_eq!(aspects(MTL_FORMAT_DEPTH16_UNORM), (true, false));
    assert_eq!(aspects(MTL_FORMAT_DEPTH32_FLOAT), (true, false));
    assert_eq!(aspects(MTL_FORMAT_STENCIL8), (false, true));
    assert_eq!(aspects(MTL_FORMAT_X32_STENCIL8), (false, true));
    assert_eq!(aspects(MTL_FORMAT_X24_STENCIL8), (false, true));
    assert_eq!(aspects(MTL_FORMAT_DEPTH24_UNORM_STENCIL8), (true, true));
    assert_eq!(aspects(MTL_FORMAT_DEPTH32_FLOAT_STENCIL8), (true, true));
    assert_eq!(aspects(MTL_FORMAT_RGBA8_UNORM), (false, false));
}

#[test]
fn a_clear_colour_has_the_words_its_member_reads() {
    let components = [4.75f64, -1.0, 0.5, 3.0].map(f64::to_bits);
    assert_eq!(
        ClearColor::of(MTL_FORMAT_RGBA8_UNORM, components).native(),
        [0x4098_0000, 0xbf80_0000, 0x3f00_0000, 0x4040_0000],
    );
    assert_eq!(ClearColor::of(MTL_FORMAT_RGBA8_UINT, components).native(), [4, 0, 0, 3]);
    assert_eq!(
        ClearColor::of(MTL_FORMAT_RGBA8_SINT, components).native(),
        [4, 0xffff_ffff, 0, 3],
    );
    assert_eq!(
        ClearColor::Sint([i32::MIN, i32::MAX, -2, 0]).native(),
        [0x8000_0000, 0x7fff_ffff, 0xffff_fffe, 0],
    );
}
