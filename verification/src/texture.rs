//! Texture binding targets, filters, wrap modes, and texture units, with
//! the numeric tags the external graphics API documents for them.

use vstd::prelude::*;

verus! {

/// A texture binding target.
#[derive(Clone, Copy, PartialEq, Eq, Structural)]
pub enum TextureTarget {
    Texture2D,
    Texture2DArray,
}

impl TextureTarget {
    /// The numeric tag the external API documents for this target.
    pub open spec fn spec_u32(&self) -> u32 {
        match *self {
            TextureTarget::Texture2D => 0x0DE1,
            TextureTarget::Texture2DArray => 0x8C1A,
        }
    }

    /// The numeric tag, for binding calls into the external API.
    pub fn as_u32(&self) -> (r: u32)
        ensures
            r == self.spec_u32(),
    {
        match *self {
            TextureTarget::Texture2D => 0x0DE1,
            TextureTarget::Texture2DArray => 0x8C1A,
        }
    }
}

/// A texture minification or magnification filter.
#[derive(Clone, Copy, PartialEq, Eq, Structural)]
pub enum TextureFilter {
    /// The texture element nearest to the sampled coordinates.
    Nearest,
    /// The weighted average of the four nearest texture elements.
    Linear,
    /// The nearest element of the closest mipmap.
    NearestMipmapNearest,
    /// The weighted average within the closest mipmap.
    LinearMipmapNearest,
    /// The nearest element of each of the two closest mipmaps, averaged.
    NearestMipmapLinear,
    /// The weighted average within each of the two closest mipmaps,
    /// averaged.
    LinearMipmapLinear,
}

impl TextureFilter {
    /// The numeric tag the external API documents for this filter.
    pub open spec fn spec_u32(&self) -> u32 {
        match *self {
            TextureFilter::Nearest => 0x2600,
            TextureFilter::Linear => 0x2601,
            TextureFilter::NearestMipmapNearest => 0x2700,
            TextureFilter::LinearMipmapNearest => 0x2701,
            TextureFilter::NearestMipmapLinear => 0x2702,
            TextureFilter::LinearMipmapLinear => 0x2703,
        }
    }

    /// The numeric tag, for parameter calls into the external API.
    pub fn as_u32(&self) -> (r: u32)
        ensures
            r == self.spec_u32(),
    {
        match *self {
            TextureFilter::Nearest => 0x2600,
            TextureFilter::Linear => 0x2601,
            TextureFilter::NearestMipmapNearest => 0x2700,
            TextureFilter::LinearMipmapNearest => 0x2701,
            TextureFilter::NearestMipmapLinear => 0x2702,
            TextureFilter::LinearMipmapLinear => 0x2703,
        }
    }
}

/// A texture coordinate wrap mode.
#[derive(Clone, Copy, PartialEq, Eq, Structural)]
pub enum TextureWrap {
    ClampToEdge,
    ClampToBorder,
    MirroredRepeat,
    Repeat,
    MirrorClampToEdge,
}

impl TextureWrap {
    /// The numeric tag the external API documents for this wrap mode.
    pub open spec fn spec_u32(&self) -> u32 {
        match *self {
            TextureWrap::ClampToEdge => 0x812F,
            TextureWrap::ClampToBorder => 0x812D,
            TextureWrap::MirroredRepeat => 0x8370,
            TextureWrap::Repeat => 0x2901,
            TextureWrap::MirrorClampToEdge => 0x8743,
        }
    }

    /// The numeric tag, for parameter calls into the external API.
    pub fn as_u32(&self) -> (r: u32)
        ensures
            r == self.spec_u32(),
    {
        match *self {
            TextureWrap::ClampToEdge => 0x812F,
            TextureWrap::ClampToBorder => 0x812D,
            TextureWrap::MirroredRepeat => 0x8370,
            TextureWrap::Repeat => 0x2901,
            TextureWrap::MirrorClampToEdge => 0x8743,
        }
    }
}

/// The number of combined texture image units the external context
/// supports, as it reported the limit.
#[derive(Clone, Copy)]
pub struct MaxCombinedTextureImageUnits(u32);

impl View for MaxCombinedTextureImageUnits {
    type V = u32;

    closed spec fn view(&self) -> u32 {
        self.0
    }
}

impl MaxCombinedTextureImageUnits {
    /// Records the limit the external context reported.
    pub fn new(limit: u32) -> (r: Self)
        ensures
            r@ == limit,
    {
        MaxCombinedTextureImageUnits(limit)
    }
}

/// The numeric tag of the first texture unit; unit `i` is tagged
/// `TEXTURE_UNIT_BASE + i`.
pub const TEXTURE_UNIT_BASE: u32 = 0x84C0;

/// A texture unit, validated against the context's reported limit.
#[derive(Clone, Copy)]
pub struct TextureUnit(u32);

impl View for TextureUnit {
    type V = u32;

    closed spec fn view(&self) -> u32 {
        self.0
    }
}

impl TextureUnit {
    /// Tags unit `unit` when it is below the context's limit; `None` for a
    /// unit the context does not offer.
    pub fn new(unit: u32, max: MaxCombinedTextureImageUnits) -> (r: Option<Self>)
        ensures
            r is Some <==> unit < max@ && unit + TEXTURE_UNIT_BASE <= u32::MAX,
            r matches Some(t) ==> t@ == TEXTURE_UNIT_BASE + unit,
    {
        if unit < max.0 {
            match TEXTURE_UNIT_BASE.checked_add(unit) {
                Some(tag) => Some(TextureUnit(tag)),
                None => None,
            }
        } else {
            None
        }
    }

    /// The numeric tag, for activation calls into the external API.
    pub fn as_u32(&self) -> (r: u32)
        ensures
            r == self@,
    {
        self.0
    }
}

} // verus!
