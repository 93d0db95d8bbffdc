//! What a guest pixel format says about the values it holds.

use crate::vulkan::Format;
use vstd::prelude::*;

verus! {

pub const MTL_FORMAT_R8_UINT: u16 = 13;

pub const MTL_FORMAT_R8_SINT: u16 = 14;

pub const MTL_FORMAT_R16_UINT: u16 = 23;

pub const MTL_FORMAT_R16_SINT: u16 = 24;

pub const MTL_FORMAT_RG8_UINT: u16 = 33;

pub const MTL_FORMAT_RG8_SINT: u16 = 34;

pub const MTL_FORMAT_R32_UINT: u16 = 53;

pub const MTL_FORMAT_R32_SINT: u16 = 54;

pub const MTL_FORMAT_RG16_UINT: u16 = 63;

pub const MTL_FORMAT_RG16_SINT: u16 = 64;

pub const MTL_FORMAT_RGBA8_UNORM: u16 = 70;

pub const MTL_FORMAT_RGBA8_UNORM_SRGB: u16 = 71;

pub const MTL_FORMAT_RGBA8_UINT: u16 = 73;

pub const MTL_FORMAT_RGBA8_SINT: u16 = 74;

pub const MTL_FORMAT_RGB10A2_UINT: u16 = 93;

pub const MTL_FORMAT_RG32_UINT: u16 = 103;

pub const MTL_FORMAT_RG32_SINT: u16 = 104;

pub const MTL_FORMAT_RGBA16_UINT: u16 = 113;

pub const MTL_FORMAT_RGBA16_SINT: u16 = 114;

pub const MTL_FORMAT_RGBA32_UINT: u16 = 123;

pub const MTL_FORMAT_RGBA32_SINT: u16 = 124;

pub const MTL_FORMAT_DEPTH16_UNORM: u16 = 250;

pub const MTL_FORMAT_DEPTH32_FLOAT: u16 = 252;

pub const MTL_FORMAT_STENCIL8: u16 = 253;

pub const MTL_FORMAT_DEPTH24_UNORM_STENCIL8: u16 = 255;

pub const MTL_FORMAT_DEPTH32_FLOAT_STENCIL8: u16 = 260;

pub const MTL_FORMAT_X32_STENCIL8: u16 = 261;

pub const MTL_FORMAT_X24_STENCIL8: u16 = 262;

/// Which member of a clear value a format reads.
#[derive(Clone, Copy, Debug, PartialEq, Eq, Structural)]
pub enum ClearClass {
    Float,
    Uint,
    Sint,
}

/// The unsigned-integer formats.
pub open spec fn holds_unsigned(format: u16) -> bool {
    ||| format == MTL_FORMAT_R8_UINT
    ||| format == MTL_FORMAT_R16_UINT
    ||| format == MTL_FORMAT_RG8_UINT
    ||| format == MTL_FORMAT_R32_UINT
    ||| format == MTL_FORMAT_RG16_UINT
    ||| format == MTL_FORMAT_RGBA8_UINT
    ||| format == MTL_FORMAT_RGB10A2_UINT
    ||| format == MTL_FORMAT_RG32_UINT
    ||| format == MTL_FORMAT_RGBA16_UINT
    ||| format == MTL_FORMAT_RGBA32_UINT
}

/// The signed-integer formats.
pub open spec fn holds_signed(format: u16) -> bool {
    ||| format == MTL_FORMAT_R8_SINT
    ||| format == MTL_FORMAT_R16_SINT
    ||| format == MTL_FORMAT_RG8_SINT
    ||| format == MTL_FORMAT_R32_SINT
    ||| format == MTL_FORMAT_RG16_SINT
    ||| format == MTL_FORMAT_RGBA8_SINT
    ||| format == MTL_FORMAT_RG32_SINT
    ||| format == MTL_FORMAT_RGBA16_SINT
    ||| format == MTL_FORMAT_RGBA32_SINT
}

/// The member each format reads: integer formats read integers, and every other
/// format reads floats.
pub open spec fn class_of(format: u16) -> ClearClass {
    if holds_unsigned(format) {
        ClearClass::Uint
    } else if holds_signed(format) {
        ClearClass::Sint
    } else {
        ClearClass::Float
    }
}

/// The member `format` reads.
#[must_use]
pub fn clear_class(format: u16) -> (class: ClearClass)
    ensures
        class == class_of(format),
{
    match format {
        MTL_FORMAT_R8_UINT
        | MTL_FORMAT_R16_UINT
        | MTL_FORMAT_RG8_UINT
        | MTL_FORMAT_R32_UINT
        | MTL_FORMAT_RG16_UINT
        | MTL_FORMAT_RGBA8_UINT
        | MTL_FORMAT_RGB10A2_UINT
        | MTL_FORMAT_RG32_UINT
        | MTL_FORMAT_RGBA16_UINT
        | MTL_FORMAT_RGBA32_UINT => ClearClass::Uint,
        MTL_FORMAT_R8_SINT
        | MTL_FORMAT_R16_SINT
        | MTL_FORMAT_RG8_SINT
        | MTL_FORMAT_R32_SINT
        | MTL_FORMAT_RG16_SINT
        | MTL_FORMAT_RGBA8_SINT
        | MTL_FORMAT_RG32_SINT
        | MTL_FORMAT_RGBA16_SINT
        | MTL_FORMAT_RGBA32_SINT => ClearClass::Sint,
        _ => ClearClass::Float,
    }
}

/// The formats that hold depth.
pub open spec fn holds_depth(format: u16) -> bool {
    ||| format == MTL_FORMAT_DEPTH16_UNORM
    ||| format == MTL_FORMAT_DEPTH32_FLOAT
    ||| format == MTL_FORMAT_DEPTH24_UNORM_STENCIL8
    ||| format == MTL_FORMAT_DEPTH32_FLOAT_STENCIL8
}

/// The formats that hold stencil.
pub open spec fn holds_stencil(format: u16) -> bool {
    ||| format == MTL_FORMAT_STENCIL8
    ||| format == MTL_FORMAT_DEPTH24_UNORM_STENCIL8
    ||| format == MTL_FORMAT_DEPTH32_FLOAT_STENCIL8
    ||| format == MTL_FORMAT_X32_STENCIL8
    ||| format == MTL_FORMAT_X24_STENCIL8
}

/// Whether `format` holds depth.
#[must_use]
pub fn format_has_depth_aspect(format: u16) -> (depth: bool)
    ensures
        depth == holds_depth(format),
{
    matches!(
        format,
        MTL_FORMAT_DEPTH16_UNORM | MTL_FORMAT_DEPTH32_FLOAT | MTL_FORMAT_DEPTH24_UNORM_STENCIL8
            | MTL_FORMAT_DEPTH32_FLOAT_STENCIL8
    )
}

/// Whether `format` holds stencil.
#[must_use]
pub fn format_has_stencil_aspect(format: u16) -> (stencil: bool)
    ensures
        stencil == holds_stencil(format),
{
    matches!(
        format,
        MTL_FORMAT_STENCIL8 | MTL_FORMAT_DEPTH24_UNORM_STENCIL8
            | MTL_FORMAT_DEPTH32_FLOAT_STENCIL8 | MTL_FORMAT_X32_STENCIL8
            | MTL_FORMAT_X24_STENCIL8
    )
}

/// The plain 8-bit formats that have an sRGB twin, six values up: one, two,
/// three and four components in each order Vulkan names.
pub open spec fn plain_twin(raw: int) -> bool {
    raw == 9 || raw == 16 || raw == 23 || raw == 30 || raw == 37 || raw == 44 || raw == 51
}

/// The block-compressed formats that have an sRGB twin, one value up: BC1, BC2,
/// BC3 and BC7, the three ETC2 ones, and every ASTC block size.
pub open spec fn block_twin(raw: int) -> bool {
    raw == 131 || raw == 133 || raw == 135 || raw == 137 || raw == 145 || raw == 147 || raw == 149
        || raw == 151 || (157 <= raw <= 183 && raw % 2 == 1)
}

/// The spelling of a format's stored texel with no transfer function on it.
pub open spec fn stored_as(format: Format) -> Format {
    if plain_twin(format.0 - 6) {
        Format((format.0 - 6) as i32)
    } else if block_twin(format.0 - 1) {
        Format((format.0 - 1) as i32)
    } else {
        format
    }
}

/// The sRGB spelling of a format's stored texel, where it has one.
pub open spec fn srgb_of(format: Format) -> Option<Format> {
    let stored = stored_as(format);
    if plain_twin(stored.0 as int) {
        Some(Format((stored.0 + 6) as i32))
    } else if block_twin(stored.0 as int) {
        Some(Format((stored.0 + 1) as i32))
    } else {
        None
    }
}

fn is_plain_twin(raw: i32) -> (twin: bool)
    ensures
        twin == plain_twin(raw as int),
{
    matches!(raw, 9 | 16 | 23 | 30 | 37 | 44 | 51)
}

fn is_block_twin(raw: i32) -> (twin: bool)
    ensures
        twin == block_twin(raw as int),
{
    matches!(raw, 131 | 133 | 135 | 137 | 145 | 147 | 149 | 151)
        || (157 <= raw && raw <= 183 && raw % 2 == 1)
}

/// The spelling of a format's stored texel with no transfer function on it,
/// which is what an allocation is keyed on.
#[must_use]
pub fn storage_format(format: Format) -> (stored: Format)
    ensures
        stored == stored_as(format),
{
    let raw: i32 = format.0;
    if raw >= 6 && is_plain_twin(raw - 6) {
        Format(raw - 6)
    } else if raw >= 1 && is_block_twin(raw - 1) {
        Format(raw - 1)
    } else {
        format
    }
}

/// The sRGB spelling of a format's stored texel, where it has one.
#[must_use]
pub fn srgb_spelling(format: Format) -> (srgb: Option<Format>)
    ensures
        srgb == srgb_of(format),
{
    let stored = storage_format(format);
    if is_plain_twin(stored.0) {
        Some(Format(stored.0 + 6))
    } else if is_block_twin(stored.0) {
        Some(Format(stored.0 + 1))
    } else {
        None
    }
}

/// The two spellings of one stored texel are told apart, fold onto one stored
/// spelling, and name each other.
pub proof fn law_spellings_come_in_pairs(format: Format)
    ensures
        stored_as(stored_as(format)) == stored_as(format),
        srgb_of(format) matches Some(srgb) ==> srgb != stored_as(format) && stored_as(srgb)
            == stored_as(format) && (format == srgb || format == stored_as(format)),
        srgb_of(format) is None ==> stored_as(format) == format,
{
}

/// No format reads both integers, and a signed format stands one above the
/// unsigned one of the same components; every unsigned format but the packed one
/// has a signed one above it.
pub proof fn law_integer_formats_come_in_pairs(format: u16, class: ClearClass)
    requires
        call_ensures(clear_class, (format,), class),
    ensures
        class is Sint ==> holds_unsigned((format - 1) as u16),
        class is Uint && format != MTL_FORMAT_RGB10A2_UINT ==> holds_signed((format + 1) as u16),
        class is Uint ==> !holds_signed(format),
        class is Sint <==> holds_signed(format),
        class is Uint <==> holds_unsigned(format),
{
}

/// A format holds both aspects exactly where it is one of the two combined ones,
/// and no colour format holds either.
pub proof fn law_aspects_are_the_formats_own(format: u16, depth: bool, stencil: bool)
    requires
        call_ensures(format_has_depth_aspect, (format,), depth),
        call_ensures(format_has_stencil_aspect, (format,), stencil),
    ensures
        depth && stencil <==> format == MTL_FORMAT_DEPTH24_UNORM_STENCIL8 || format
            == MTL_FORMAT_DEPTH32_FLOAT_STENCIL8,
        depth && !stencil <==> format == MTL_FORMAT_DEPTH16_UNORM || format
            == MTL_FORMAT_DEPTH32_FLOAT,
        stencil && !depth <==> format == MTL_FORMAT_STENCIL8 || format == MTL_FORMAT_X32_STENCIL8
            || format == MTL_FORMAT_X24_STENCIL8,
{
}

/// The formats with two spellings are the seven plain 8-bit ones, each with its
/// sRGB spelling six values up, and runs of block-compressed ones in pairs: BC1
/// to BC3, BC7, ETC2 and ASTC. Either spelling gives both, and no other format
/// has two.
pub proof fn law_which_formats_have_two_spellings(
    format: Format,
    stored: Format,
    srgb: Option<Format>,
)
    requires
        call_ensures(storage_format, (format,), stored),
        call_ensures(srgb_spelling, (format,), srgb),
    ensures
        ({
            let raw = format.0 as int;
            let plain = 9 <= raw <= 51 && (raw - 9) % 7 == 0;
            let plain_srgb = 15 <= raw <= 57 && (raw - 15) % 7 == 0;
            let block = 131 <= raw <= 138 || 145 <= raw <= 152 || 157 <= raw <= 184;
            &&& plain ==> stored == format && srgb == Some(Format((raw + 6) as i32))
            &&& plain_srgb ==> stored == Format((raw - 6) as i32) && srgb == Some(format)
            &&& block && raw % 2 == 1 ==> stored == format && srgb == Some(
                Format((raw + 1) as i32),
            )
            &&& block && raw % 2 == 0 ==> stored == Format((raw - 1) as i32) && srgb == Some(format)
            &&& !plain && !plain_srgb && !block ==> stored == format && srgb is None
        }),
{
}

} // verus!
