use vstd::prelude::*;

verus! {

/// Shader codes of the glTF alpha modes.
pub const ALPHA_MODE_OPAQUE: u32 = 0;
pub const ALPHA_MODE_MASK: u32 = 1;
pub const ALPHA_MODE_BLEND: u32 = 2;

/// A texture reference of a material: which texture, read through which UV set.
#[derive(Clone, Copy, Debug, PartialEq, Eq, Structural)]
pub struct TextureInfo {
    index: usize,
    channel: u32,
}

impl TextureInfo {
    pub closed spec fn spec_index(&self) -> usize {
        self.index
    }

    pub closed spec fn spec_channel(&self) -> u32 {
        self.channel
    }

    /// The reference to texture `index` read with UV set `channel`.
    pub fn new(index: usize, channel: u32) -> (t: TextureInfo)
        ensures
            t.spec_index() == index,
            t.spec_channel() == channel,
    {
        TextureInfo { index, channel }
    }

    pub fn index(&self) -> (i: usize)
        ensures
            i == self.spec_index(),
    {
        self.index
    }

    pub fn channel(&self) -> (c: u32)
        ensures
            c == self.spec_channel(),
    {
        self.channel
    }
}

/// How a material's alpha channel is interpreted.
#[derive(Clone, Copy, Debug, PartialEq, Eq, Structural)]
pub enum AlphaMode {
    Opaque,
    Mask,
    Blend,
}

/// The shader code of an alpha mode.
pub fn alpha_mode_index(alpha_mode: AlphaMode) -> (code: u32)
    ensures
        code == match alpha_mode {
            AlphaMode::Opaque => ALPHA_MODE_OPAQUE,
            AlphaMode::Mask => ALPHA_MODE_MASK,
            AlphaMode::Blend => ALPHA_MODE_BLEND,
        },
{
    match alpha_mode {
        AlphaMode::Opaque => ALPHA_MODE_OPAQUE,
        AlphaMode::Mask => ALPHA_MODE_MASK,
        AlphaMode::Blend => ALPHA_MODE_BLEND,
    }
}

/// Whether an alpha-mode code asks for blending, i.e. the material is transparent.
pub fn is_transparent_mode(alpha_mode: u32) -> (r: bool)
    ensures
        r == (alpha_mode == ALPHA_MODE_BLEND),
{
    alpha_mode == ALPHA_MODE_BLEND
}

/// The shader codes are 0 for opaque, 1 for mask and 2 for blend, and only
/// blend counts as transparent.
pub proof fn law_alpha_mode_code_values()
    ensures
        ALPHA_MODE_OPAQUE == 0,
        ALPHA_MODE_MASK == 1,
        ALPHA_MODE_BLEND == 2,
{
}

/// Different alpha modes get different codes, so a code tells its mode.
pub proof fn law_alpha_mode_codes_distinct(a: AlphaMode, b: AlphaMode)
    requires
        a != b,
    ensures
        (match a {
            AlphaMode::Opaque => ALPHA_MODE_OPAQUE,
            AlphaMode::Mask => ALPHA_MODE_MASK,
            AlphaMode::Blend => ALPHA_MODE_BLEND,
        }) != (match b {
            AlphaMode::Opaque => ALPHA_MODE_OPAQUE,
            AlphaMode::Mask => ALPHA_MODE_MASK,
            AlphaMode::Blend => ALPHA_MODE_BLEND,
        }),
{
}

} // verus!
