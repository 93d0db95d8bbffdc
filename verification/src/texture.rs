//! A guest texture, as a checked declaration.

use vstd::prelude::*;

verus! {

/// `MTLTextureType`.
#[derive(Clone, Copy, Debug, PartialEq, Eq, Hash, Structural)]
pub enum TextureKind {
    D1,
    D1Array,
    D2,
    D2Array,
    D2Multisample,
    Cube,
    CubeArray,
    D3,
    D2MultisampleArray,
}

/// How many axes a texture's texels have.
#[derive(Clone, Copy, Debug, PartialEq, Eq, Hash, Structural)]
pub enum Dimensions {
    One,
    Two,
    Three,
}

impl TextureKind {
    /// The axes of each kind.
    pub open spec fn axes(self) -> Dimensions {
        match self {
            TextureKind::D1 => Dimensions::One,
            TextureKind::D1Array => Dimensions::One,
            TextureKind::D3 => Dimensions::Three,
            _ => Dimensions::Two,
        }
    }

    /// The kinds whose slices are the faces of cubes.
    pub open spec fn has_faces(self) -> bool {
        self is Cube || self is CubeArray
    }

    /// How many axes this kind's texels have.
    #[must_use]
    pub fn dimensions(self) -> (dimensions: Dimensions)
        ensures
            dimensions == self.axes(),
    {
        match self {
            TextureKind::D1 | TextureKind::D1Array => Dimensions::One,
            TextureKind::D3 => Dimensions::Three,
            _ => Dimensions::Two,
        }
    }

    /// Whether this kind's slices are the faces of cubes.
    #[must_use]
    pub fn is_cube(self) -> (cube: bool)
        ensures
            cube == self.has_faces(),
    {
        matches!(self, TextureKind::Cube | TextureKind::CubeArray)
    }

    /// Whether this kind has more than one sample per texel.
    #[must_use]
    pub fn is_multisample(self) -> (multisample: bool)
        ensures
            multisample == (self is D2Multisample || self is D2MultisampleArray),
    {
        matches!(self, TextureKind::D2Multisample | TextureKind::D2MultisampleArray)
    }
}

/// `MTLTextureUsage`.
#[derive(Clone, Copy, Debug, PartialEq, Eq, Hash, Structural)]
pub struct TextureUsage(pub u32);

impl TextureUsage {
    /// Metal reads no usage as any usage.
    pub const UNKNOWN: u32 = 0;

    pub const SHADER_READ: u32 = 1;

    pub const SHADER_WRITE: u32 = 2;

    pub const RENDER_TARGET: u32 = 4;

    pub const PIXEL_FORMAT_VIEW: u32 = 0x10;

    pub const SHADER_ATOMIC: u32 = 0x20;

    /// Whether the guest declared no usage, which is any usage.
    #[must_use]
    pub fn is_unknown(self) -> (unknown: bool)
        ensures
            unknown == (self.0 == 0),
    {
        self.0 == 0
    }

    /// Whether the guest declared `bit`.
    #[must_use]
    pub fn contains(self, bit: u32) -> (declared: bool)
        ensures
            declared == (self.0 & bit == bit),
    {
        self.0 & bit == bit
    }
}

/// A texture whose geometry has been checked.
#[derive(Clone, Copy, Debug, PartialEq, Eq, Hash, Structural)]
pub struct Texture {
    pub kind: TextureKind,
    pub width: u32,
    pub height: u32,
    pub depth: u32,
    pub mipmap_level_count: u32,
    pub sample_count: u32,
    /// Elements, not slices: a cube is one element.
    pub array_length: u32,
    pub pixel_format: u16,
    pub usage: TextureUsage,
}

impl Texture {
    /// The slices: six for each element of a cube kind.
    pub open spec fn slices(self) -> int {
        if self.kind.has_faces() {
            6 * self.array_length
        } else {
            self.array_length as int
        }
    }

    /// A checked texture's slices can be counted.
    pub open spec fn wf(self) -> bool {
        self.slices() <= u32::MAX
    }

    /// The slices of the texture.
    #[must_use]
    pub fn layers(&self) -> (layers: u32)
        requires
            self.wf(),
        ensures
            layers == self.slices(),
    {
        if self.kind.is_cube() {
            6 * self.array_length
        } else {
            self.array_length
        }
    }
}

} // verus!
