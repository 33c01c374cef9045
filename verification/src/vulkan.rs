use vstd::prelude::*;

verus! {

/// Vulkan access-mask bits used by image layout transitions.
pub const ACCESS_NONE: u32 = 0;
pub const ACCESS_SHADER_READ: u32 = 0x20;
pub const ACCESS_COLOR_ATTACHMENT_READ: u32 = 0x80;
pub const ACCESS_COLOR_ATTACHMENT_WRITE: u32 = 0x100;
pub const ACCESS_DEPTH_STENCIL_ATTACHMENT_READ: u32 = 0x200;
pub const ACCESS_DEPTH_STENCIL_ATTACHMENT_WRITE: u32 = 0x400;
pub const ACCESS_TRANSFER_READ: u32 = 0x800;
pub const ACCESS_TRANSFER_WRITE: u32 = 0x1000;

/// Vulkan pipeline-stage bits used by image layout transitions.
pub const STAGE_NONE: u32 = 0;
pub const STAGE_TOP_OF_PIPE: u32 = 0x1;
pub const STAGE_FRAGMENT_SHADER: u32 = 0x80;
pub const STAGE_EARLY_FRAGMENT_TESTS: u32 = 0x100;
pub const STAGE_LATE_FRAGMENT_TESTS: u32 = 0x200;
pub const STAGE_COLOR_ATTACHMENT_OUTPUT: u32 = 0x400;
pub const STAGE_TRANSFER: u32 = 0x1000;

/// Vulkan image-aspect bits.
pub const ASPECT_COLOR: u32 = 0x1;
pub const ASPECT_DEPTH: u32 = 0x2;
pub const ASPECT_STENCIL: u32 = 0x4;

/// Vulkan format codes of the depth formats the renderer considers.
pub const FORMAT_D32_SFLOAT: i32 = 126;
pub const FORMAT_D24_UNORM_S8_UINT: i32 = 129;
pub const FORMAT_D32_SFLOAT_S8_UINT: i32 = 130;

/// Vulkan format-feature bit for depth/stencil attachments.
pub const FORMAT_FEATURE_DEPTH_STENCIL_ATTACHMENT: u32 = 0x200;

/// Image layouts that take part in the renderer's layout transitions; every
/// other Vulkan layout is carried by its raw code.
#[derive(Clone, Copy, Debug, PartialEq, Eq, Structural)]
pub enum ImageLayout {
    Undefined,
    ColorAttachmentOptimal,
    DepthStencilAttachmentOptimal,
    ShaderReadOnlyOptimal,
    TransferSrcOptimal,
    TransferDstOptimal,
    PresentSrc,
    Other(i32),
}

/// Access masks and pipeline stages of one image memory barrier.
#[derive(Clone, Copy, Debug, PartialEq, Eq, Structural)]
pub struct BarrierMasks {
    pub src_access: u32,
    pub dst_access: u32,
    pub src_stage: u32,
    pub dst_stage: u32,
}

/// A layout transition the renderer does not know how to perform.
#[derive(Clone, Copy, Debug, PartialEq, Eq, Structural)]
pub enum LayoutTransitionError {
    Unsupported,
}

pub open spec fn masks(src_access: u32, dst_access: u32, src_stage: u32, dst_stage: u32) -> BarrierMasks {
    BarrierMasks { src_access, dst_access, src_stage, dst_stage }
}

/// The barrier for each supported `(old, new)` layout pair; `None` for the rest.
pub open spec fn transition_table(old: ImageLayout, new: ImageLayout) -> Option<BarrierMasks> {
    match (old, new) {
        (ImageLayout::Undefined, ImageLayout::TransferDstOptimal) => Some(
            masks(ACCESS_NONE, ACCESS_TRANSFER_WRITE, STAGE_TOP_OF_PIPE, STAGE_TRANSFER),
        ),
        (ImageLayout::TransferDstOptimal, ImageLayout::ShaderReadOnlyOptimal) => Some(
            masks(ACCESS_TRANSFER_WRITE, ACCESS_SHADER_READ, STAGE_TRANSFER, STAGE_FRAGMENT_SHADER),
        ),
        (ImageLayout::Undefined, ImageLayout::DepthStencilAttachmentOptimal) => Some(
            masks(
                ACCESS_NONE,
                ACCESS_DEPTH_STENCIL_ATTACHMENT_READ | ACCESS_DEPTH_STENCIL_ATTACHMENT_WRITE,
                STAGE_NONE,
                STAGE_EARLY_FRAGMENT_TESTS,
            ),
        ),
        (ImageLayout::Undefined, ImageLayout::ColorAttachmentOptimal) => Some(
            masks(
                ACCESS_NONE,
                ACCESS_COLOR_ATTACHMENT_READ | ACCESS_COLOR_ATTACHMENT_WRITE,
                STAGE_NONE,
                STAGE_COLOR_ATTACHMENT_OUTPUT,
            ),
        ),
        (ImageLayout::ColorAttachmentOptimal, ImageLayout::ShaderReadOnlyOptimal) => Some(
            masks(
                ACCESS_COLOR_ATTACHMENT_WRITE,
                ACCESS_SHADER_READ,
                STAGE_COLOR_ATTACHMENT_OUTPUT,
                STAGE_FRAGMENT_SHADER,
            ),
        ),
        (ImageLayout::ColorAttachmentOptimal, ImageLayout::TransferDstOptimal) => Some(
            masks(
                ACCESS_COLOR_ATTACHMENT_WRITE,
                ACCESS_TRANSFER_WRITE,
                STAGE_COLOR_ATTACHMENT_OUTPUT,
                STAGE_TRANSFER,
            ),
        ),
        (ImageLayout::ColorAttachmentOptimal, ImageLayout::PresentSrc) => Some(
            masks(
                ACCESS_COLOR_ATTACHMENT_WRITE,
                ACCESS_COLOR_ATTACHMENT_READ,
                STAGE_COLOR_ATTACHMENT_OUTPUT,
                STAGE_COLOR_ATTACHMENT_OUTPUT,
            ),
        ),
        (ImageLayout::DepthStencilAttachmentOptimal, ImageLayout::ShaderReadOnlyOptimal) => Some(
            masks(
                ACCESS_DEPTH_STENCIL_ATTACHMENT_WRITE,
                ACCESS_SHADER_READ,
                STAGE_EARLY_FRAGMENT_TESTS | STAGE_LATE_FRAGMENT_TESTS,
                STAGE_FRAGMENT_SHADER,
            ),
        ),
        (ImageLayout::Undefined, ImageLayout::ShaderReadOnlyOptimal) => Some(
            masks(ACCESS_NONE, ACCESS_SHADER_READ, STAGE_NONE, STAGE_FRAGMENT_SHADER),
        ),
        (ImageLayout::ShaderReadOnlyOptimal, ImageLayout::ColorAttachmentOptimal) => Some(
            masks(
                ACCESS_SHADER_READ,
                ACCESS_COLOR_ATTACHMENT_WRITE,
                STAGE_FRAGMENT_SHADER,
                STAGE_COLOR_ATTACHMENT_OUTPUT,
            ),
        ),
        (ImageLayout::TransferDstOptimal, ImageLayout::TransferSrcOptimal) => Some(
            masks(ACCESS_TRANSFER_WRITE, ACCESS_TRANSFER_READ, STAGE_TRANSFER, STAGE_TRANSFER),
        ),
        (ImageLayout::TransferSrcOptimal, ImageLayout::ShaderReadOnlyOptimal) => Some(
            masks(ACCESS_TRANSFER_WRITE, ACCESS_SHADER_READ, STAGE_TRANSFER, STAGE_FRAGMENT_SHADER),
        ),
        _ => None,
    }
}

/// Access masks and pipeline stages of the barrier that moves an image from
/// `old_layout` to `new_layout`; an error for a pair outside the table.
pub fn layout_transition_masks(old_layout: ImageLayout, new_layout: ImageLayout) -> (r: Result<
    BarrierMasks,
    LayoutTransitionError,
>)
    ensures
        match transition_table(old_layout, new_layout) {
            Some(m) => r == Ok::<BarrierMasks, LayoutTransitionError>(m),
            None => r == Err::<BarrierMasks, LayoutTransitionError>(
                LayoutTransitionError::Unsupported,
            ),
        },
{
    match (old_layout, new_layout) {
        (ImageLayout::Undefined, ImageLayout::TransferDstOptimal) => Ok(
            BarrierMasks {
                src_access: ACCESS_NONE,
                dst_access: ACCESS_TRANSFER_WRITE,
                src_stage: STAGE_TOP_OF_PIPE,
                dst_stage: STAGE_TRANSFER,
            },
        ),
        (ImageLayout::TransferDstOptimal, ImageLayout::ShaderReadOnlyOptimal) => Ok(
            BarrierMasks {
                src_access: ACCESS_TRANSFER_WRITE,
                dst_access: ACCESS_SHADER_READ,
                src_stage: STAGE_TRANSFER,
                dst_stage: STAGE_FRAGMENT_SHADER,
            },
        ),
        (ImageLayout::Undefined, ImageLayout::DepthStencilAttachmentOptimal) => Ok(
            BarrierMasks {
                src_access: ACCESS_NONE,
                dst_access: ACCESS_DEPTH_STENCIL_ATTACHMENT_READ
                    | ACCESS_DEPTH_STENCIL_ATTACHMENT_WRITE,
                src_stage: STAGE_NONE,
                dst_stage: STAGE_EARLY_FRAGMENT_TESTS,
            },
        ),
        (ImageLayout::Undefined, ImageLayout::ColorAttachmentOptimal) => Ok(
            BarrierMasks {
                src_access: ACCESS_NONE,
                dst_access: ACCESS_COLOR_ATTACHMENT_READ | ACCESS_COLOR_ATTACHMENT_WRITE,
                src_stage: STAGE_NONE,
                dst_stage: STAGE_COLOR_ATTACHMENT_OUTPUT,
            },
        ),
        (ImageLayout::ColorAttachmentOptimal, ImageLayout::ShaderReadOnlyOptimal) => Ok(
            BarrierMasks {
                src_access: ACCESS_COLOR_ATTACHMENT_WRITE,
                dst_access: ACCESS_SHADER_READ,
                src_stage: STAGE_COLOR_ATTACHMENT_OUTPUT,
                dst_stage: STAGE_FRAGMENT_SHADER,
            },
        ),
        (ImageLayout::ColorAttachmentOptimal, ImageLayout::TransferDstOptimal) => Ok(
            BarrierMasks {
                src_access: ACCESS_COLOR_ATTACHMENT_WRITE,
                dst_access: ACCESS_TRANSFER_WRITE,
                src_stage: STAGE_COLOR_ATTACHMENT_OUTPUT,
                dst_stage: STAGE_TRANSFER,
            },
        ),
        (ImageLayout::ColorAttachmentOptimal, ImageLayout::PresentSrc) => Ok(
            BarrierMasks {
                src_access: ACCESS_COLOR_ATTACHMENT_WRITE,
                dst_access: ACCESS_COLOR_ATTACHMENT_READ,
                src_stage: STAGE_COLOR_ATTACHMENT_OUTPUT,
                dst_stage: STAGE_COLOR_ATTACHMENT_OUTPUT,
            },
        ),
        (ImageLayout::DepthStencilAttachmentOptimal, ImageLayout::ShaderReadOnlyOptimal) => Ok(
            BarrierMasks {
                src_access: ACCESS_DEPTH_STENCIL_ATTACHMENT_WRITE,
                dst_access: ACCESS_SHADER_READ,
                src_stage: STAGE_EARLY_FRAGMENT_TESTS | STAGE_LATE_FRAGMENT_TESTS,
                dst_stage: STAGE_FRAGMENT_SHADER,
            },
        ),
        (ImageLayout::Undefined, ImageLayout::ShaderReadOnlyOptimal) => Ok(
            BarrierMasks {
                src_access: ACCESS_NONE,
                dst_access: ACCESS_SHADER_READ,
                src_stage: STAGE_NONE,
                dst_stage: STAGE_FRAGMENT_SHADER,
            },
        ),
        (ImageLayout::ShaderReadOnlyOptimal, ImageLayout::ColorAttachmentOptimal) => Ok(
            BarrierMasks {
                src_access: ACCESS_SHADER_READ,
                dst_access: ACCESS_COLOR_ATTACHMENT_WRITE,
                src_stage: STAGE_FRAGMENT_SHADER,
                dst_stage: STAGE_COLOR_ATTACHMENT_OUTPUT,
            },
        ),
        (ImageLayout::TransferDstOptimal, ImageLayout::TransferSrcOptimal) => Ok(
            BarrierMasks {
                src_access: ACCESS_TRANSFER_WRITE,
                dst_access: ACCESS_TRANSFER_READ,
                src_stage: STAGE_TRANSFER,
                dst_stage: STAGE_TRANSFER,
            },
        ),
        (ImageLayout::TransferSrcOptimal, ImageLayout::ShaderReadOnlyOptimal) => Ok(
            BarrierMasks {
                src_access: ACCESS_TRANSFER_WRITE,
                dst_access: ACCESS_SHADER_READ,
                src_stage: STAGE_TRANSFER,
                dst_stage: STAGE_FRAGMENT_SHADER,
            },
        ),
        _ => Err(LayoutTransitionError::Unsupported),
    }
}

/// Every transition that texture upload and mipmap generation perform is in
/// the table: undefined to transfer destination, transfer destination to
/// transfer source or shader read, and transfer source to shader read.
pub proof fn law_texture_upload_transitions_supported()
    ensures
        transition_table(ImageLayout::Undefined, ImageLayout::TransferDstOptimal) is Some,
        transition_table(ImageLayout::TransferDstOptimal, ImageLayout::TransferSrcOptimal) is Some,
        transition_table(ImageLayout::TransferSrcOptimal, ImageLayout::ShaderReadOnlyOptimal) is Some,
        transition_table(ImageLayout::TransferDstOptimal, ImageLayout::ShaderReadOnlyOptimal) is Some,
{
}

/// The barrier of every layout transition the renderer performs, with the
/// Vulkan bit values written out: texture upload (undefined to transfer
/// destination, then to shader read), mipmapping (transfer destination to
/// transfer source, transfer source to shader read), attachments (undefined
/// to depth or colour attachment, attachment to shader read), the cubemap
/// generator (colour attachment to transfer destination), presentation, and
/// reuse of sampled images as render targets.
pub proof fn law_renderer_transition_barriers()
    ensures
        transition_table(ImageLayout::Undefined, ImageLayout::TransferDstOptimal) == Some(
            BarrierMasks { src_access: 0, dst_access: 0x1000, src_stage: 0x1, dst_stage: 0x1000 },
        ),
        transition_table(ImageLayout::TransferDstOptimal, ImageLayout::ShaderReadOnlyOptimal)
            == Some(
            BarrierMasks { src_access: 0x1000, dst_access: 0x20, src_stage: 0x1000, dst_stage: 0x80 },
        ),
        transition_table(ImageLayout::Undefined, ImageLayout::DepthStencilAttachmentOptimal)
            == Some(
            BarrierMasks { src_access: 0, dst_access: 0x600, src_stage: 0, dst_stage: 0x100 },
        ),
        transition_table(ImageLayout::Undefined, ImageLayout::ColorAttachmentOptimal) == Some(
            BarrierMasks { src_access: 0, dst_access: 0x180, src_stage: 0, dst_stage: 0x400 },
        ),
        transition_table(ImageLayout::ColorAttachmentOptimal, ImageLayout::ShaderReadOnlyOptimal)
            == Some(
            BarrierMasks { src_access: 0x100, dst_access: 0x20, src_stage: 0x400, dst_stage: 0x80 },
        ),
        transition_table(ImageLayout::ColorAttachmentOptimal, ImageLayout::TransferDstOptimal)
            == Some(
            BarrierMasks {
                src_access: 0x100,
                dst_access: 0x1000,
                src_stage: 0x400,
                dst_stage: 0x1000,
            },
        ),
        transition_table(ImageLayout::ColorAttachmentOptimal, ImageLayout::PresentSrc) == Some(
            BarrierMasks { src_access: 0x100, dst_access: 0x80, src_stage: 0x400, dst_stage: 0x400 },
        ),
        transition_table(
            ImageLayout::DepthStencilAttachmentOptimal,
            ImageLayout::ShaderReadOnlyOptimal,
        ) == Some(
            BarrierMasks { src_access: 0x400, dst_access: 0x20, src_stage: 0x300, dst_stage: 0x80 },
        ),
        transition_table(ImageLayout::Undefined, ImageLayout::ShaderReadOnlyOptimal) == Some(
            BarrierMasks { src_access: 0, dst_access: 0x20, src_stage: 0, dst_stage: 0x80 },
        ),
        transition_table(ImageLayout::ShaderReadOnlyOptimal, ImageLayout::ColorAttachmentOptimal)
            == Some(
            BarrierMasks { src_access: 0x20, dst_access: 0x100, src_stage: 0x80, dst_stage: 0x400 },
        ),
        transition_table(ImageLayout::TransferDstOptimal, ImageLayout::TransferSrcOptimal)
            == Some(
            BarrierMasks {
                src_access: 0x1000,
                dst_access: 0x800,
                src_stage: 0x1000,
                dst_stage: 0x1000,
            },
        ),
        transition_table(ImageLayout::TransferSrcOptimal, ImageLayout::ShaderReadOnlyOptimal)
            == Some(
            BarrierMasks { src_access: 0x1000, dst_access: 0x20, src_stage: 0x1000, dst_stage: 0x80 },
        ),
{
    assert(0x200u32 | 0x400u32 == 0x600u32) by (bit_vector);
    assert(0x80u32 | 0x100u32 == 0x180u32) by (bit_vector);
    assert(0x100u32 | 0x200u32 == 0x300u32) by (bit_vector);
}

/// Transitions outside the renderer's set are refused: the table is empty for
/// any pair that starts or ends in a layout it does not name, for a
/// transition back to undefined, and for a layout staying as it is.
pub proof fn law_unlisted_transitions_refused(old: ImageLayout, new: ImageLayout, raw: i32)
    ensures
        transition_table(ImageLayout::Other(raw), new) is None,
        transition_table(old, ImageLayout::Other(raw)) is None,
        transition_table(old, ImageLayout::Undefined) is None,
        transition_table(old, old) is None,
        transition_table(ImageLayout::PresentSrc, new) is None,
{
}

/// The aspect of a transition, with the bit values written out: depth (2)
/// for a transition into or out of the depth-attachment layout, plus stencil
/// (4) for the two formats with a stencil part (codes 129 and 130); colour (1)
/// otherwise.
pub proof fn law_transition_aspect_values(format: i32, old: ImageLayout, new: ImageLayout)
    ensures
        (old != ImageLayout::DepthStencilAttachmentOptimal && new
            != ImageLayout::DepthStencilAttachmentOptimal) ==> transition_aspect(format, old, new)
            == 1,
        (old == ImageLayout::DepthStencilAttachmentOptimal || new
            == ImageLayout::DepthStencilAttachmentOptimal) ==> transition_aspect(format, old, new)
            == if format == 129 || format == 130 {
            6u32
        } else {
            2u32
        },
{
    assert(0x2u32 | 0x4u32 == 0x6u32) by (bit_vector);
}

/// The aspect bits a transition touches: depth, plus stencil for formats
/// with a stencil part, when either side is the depth-attachment layout;
/// colour otherwise.
pub open spec fn transition_aspect(format: i32, old_layout: ImageLayout, new_layout: ImageLayout) -> u32 {
    if new_layout == ImageLayout::DepthStencilAttachmentOptimal || old_layout
        == ImageLayout::DepthStencilAttachmentOptimal {
        if format == FORMAT_D32_SFLOAT_S8_UINT || format == FORMAT_D24_UNORM_S8_UINT {
            ASPECT_DEPTH | ASPECT_STENCIL
        } else {
            ASPECT_DEPTH
        }
    } else {
        ASPECT_COLOR
    }
}

/// Whether a Vulkan format code is one of the depth formats with a stencil part.
pub fn has_stencil_component(format: i32) -> (r: bool)
    ensures
        r == (format == FORMAT_D32_SFLOAT_S8_UINT || format == FORMAT_D24_UNORM_S8_UINT),
{
    format == FORMAT_D32_SFLOAT_S8_UINT || format == FORMAT_D24_UNORM_S8_UINT
}

/// The aspect of an image touched by a transition: depth (plus stencil when
/// the format has one) if either side is the depth-attachment layout, colour
/// otherwise.
pub fn transition_aspect_mask(format: i32, old_layout: ImageLayout, new_layout: ImageLayout) -> (r:
    u32)
    ensures
        r == transition_aspect(format, old_layout, new_layout),
{
    let new_is_depth = match new_layout {
        ImageLayout::DepthStencilAttachmentOptimal => true,
        _ => false,
    };
    let old_is_depth = match old_layout {
        ImageLayout::DepthStencilAttachmentOptimal => true,
        _ => false,
    };
    if new_is_depth || old_is_depth {
        let mut mask = ASPECT_DEPTH;
        if has_stencil_component(format) {
            mask = mask | ASPECT_STENCIL;
        }
        mask
    } else {
        ASPECT_COLOR
    }
}

/// Edge length of mip level `level` for a base edge length `base`: each level
/// halves the previous one until it reaches one.
pub open spec fn mip_extent(base: u32, level: nat) -> u32
    decreases level,
{
    if level == 0 {
        base
    } else {
        let prev = mip_extent(base, (level - 1) as nat);
        if prev > 1 {
            (prev / 2) as u32
        } else {
            prev
        }
    }
}

/// Edge length that a blit from a level of edge `extent` writes to.
pub open spec fn mip_target(extent: u32) -> u32 {
    if extent > 1 {
        (extent / 2) as u32
    } else {
        1
    }
}

/// One downsampling blit of the mipmap chain: level `dst_level` is written
/// from level `dst_level - 1`.
#[derive(Clone, Copy, Debug, PartialEq, Eq, Structural)]
pub struct MipBlit {
    pub dst_level: u32,
    pub src_width: u32,
    pub src_height: u32,
    pub dst_width: u32,
    pub dst_height: u32,
}

pub open spec fn mip_blit_spec(width: u32, height: u32, dst_level: nat) -> MipBlit {
    MipBlit {
        dst_level: dst_level as u32,
        src_width: mip_extent(width, (dst_level - 1) as nat),
        src_height: mip_extent(height, (dst_level - 1) as nat),
        dst_width: mip_target(mip_extent(width, (dst_level - 1) as nat)),
        dst_height: mip_target(mip_extent(height, (dst_level - 1) as nat)),
    }
}

/// The blits that build mip levels `1..mip_levels` of a `width` x `height`
/// image, in order: blit `k` reads level `k` and writes level `k + 1`.
pub fn mip_blits(width: u32, height: u32, mip_levels: u32) -> (blits: Vec<MipBlit>)
    ensures
        blits@.len() == if mip_levels > 0 { mip_levels - 1 } else { 0 },
        forall|k: int|
            0 <= k < blits@.len() ==> #[trigger] blits@[k] == mip_blit_spec(
                width,
                height,
                (k + 1) as nat,
            ),
{
    let mut blits: Vec<MipBlit> = Vec::new();
    let mut mip_width = width;
    let mut mip_height = height;
    let mut i: u32 = 1;
    while i < mip_levels
        invariant
            1 <= i,
            i <= mip_levels || i == 1,
            blits@.len() == i - 1,
            mip_width == mip_extent(width, (i - 1) as nat),
            mip_height == mip_extent(height, (i - 1) as nat),
            forall|k: int|
                0 <= k < blits@.len() ==> #[trigger] blits@[k] == mip_blit_spec(
                    width,
                    height,
                    (k + 1) as nat,
                ),
        decreases mip_levels - i,
    {
        let dst_width = if mip_width > 1 {
            mip_width / 2
        } else {
            1
        };
        let dst_height = if mip_height > 1 {
            mip_height / 2
        } else {
            1
        };
        blits.push(
            MipBlit {
                dst_level: i,
                src_width: mip_width,
                src_height: mip_height,
                dst_width,
                dst_height,
            },
        );
        if mip_width > 1 {
            mip_width = mip_width / 2;
        }
        if mip_height > 1 {
            mip_height = mip_height / 2;
        }
        i = i + 1;
    }
    blits
}

/// For a non-empty base edge, every mip level is at least one texel wide and
/// each blit writes exactly the extent that the next blit reads from.
pub proof fn law_mip_chain_links(base: u32, level: nat)
    requires
        base >= 1,
    ensures
        mip_extent(base, level) >= 1,
        mip_target(mip_extent(base, level)) == mip_extent(base, level + 1),
    decreases level,
{
    if level > 0 {
        law_mip_chain_links(base, (level - 1) as nat);
    }
}

/// Each mip level halves the previous edge (rounding down) while that edge
/// exceeds one texel and keeps it otherwise; a blit writes half of its
/// source edge (rounding down), but never less than one texel.
pub proof fn law_mip_levels_halve(base: u32, level: nat)
    ensures
        mip_extent(base, 0) == base,
        mip_extent(base, level) > 1 ==> 2 * mip_extent(base, level + 1) <= mip_extent(base, level)
            < 2 * mip_extent(base, level + 1) + 2,
        mip_extent(base, level) <= 1 ==> mip_extent(base, level + 1) == mip_extent(base, level),
        mip_extent(base, level + 1) <= mip_extent(base, level),
        mip_target(mip_extent(base, level)) >= 1,
        mip_extent(base, level) > 1 ==> 2 * mip_target(mip_extent(base, level)) <= mip_extent(
            base,
            level,
        ) < 2 * mip_target(mip_extent(base, level)) + 2,
        mip_extent(base, level) <= 1 ==> mip_target(mip_extent(base, level)) == 1,
{
}

/// Image tiling modes whose format features the renderer checks.
#[derive(Clone, Copy, Debug, PartialEq, Eq, Structural)]
pub enum ImageTiling {
    Optimal,
    Linear,
    Other(i32),
}

/// Format features a device reports for one candidate format.
#[derive(Clone, Copy, Debug, PartialEq, Eq, Structural)]
pub struct FormatProperties {
    pub format: i32,
    pub linear_tiling_features: u32,
    pub optimal_tiling_features: u32,
}

/// Whether a candidate offers all `features` under `tiling`.
pub open spec fn supports(props: FormatProperties, tiling: ImageTiling, features: u32) -> bool {
    match tiling {
        ImageTiling::Linear => props.linear_tiling_features & features == features,
        ImageTiling::Optimal => props.optimal_tiling_features & features == features,
        ImageTiling::Other(_) => false,
    }
}

/// A candidate supports features under linear or optimal tiling exactly
/// when adding the requested bits to that tiling's feature bits changes
/// nothing; other tilings support nothing, and requesting no bits is always
/// met under the two known tilings.
pub proof fn law_supports_means_feature_bits(props: FormatProperties, features: u32, raw: i32)
    ensures
        supports(props, ImageTiling::Linear, features) <==> (props.linear_tiling_features
            | features) == props.linear_tiling_features,
        supports(props, ImageTiling::Optimal, features) <==> (props.optimal_tiling_features
            | features) == props.optimal_tiling_features,
        !supports(props, ImageTiling::Other(raw), features),
        supports(props, ImageTiling::Linear, 0),
        supports(props, ImageTiling::Optimal, 0),
{
    let l = props.linear_tiling_features;
    let o = props.optimal_tiling_features;
    assert(l & 0 == 0) by (bit_vector);
    assert(o & 0 == 0) by (bit_vector);
    assert((l & features == features) <==> (l | features == l)) by (bit_vector);
    assert((o & features == features) <==> (o | features == o)) by (bit_vector);
}

/// The first candidate format that supports `features` under `tiling`, or
/// `None` when no candidate does.
pub fn get_supported_format(candidates: &Vec<FormatProperties>, tiling: ImageTiling, features: u32) -> (r:
    Option<i32>)
    ensures
        match r {
            Some(f) => exists|i: int|
                0 <= i < candidates@.len() && candidates@[i].format == f && supports(
                    candidates@[i],
                    tiling,
                    features,
                ) && forall|j: int|
                    0 <= j < i ==> !supports(#[trigger] candidates@[j], tiling, features),
            None => forall|j: int|
                0 <= j < candidates@.len() ==> !supports(
                    #[trigger] candidates@[j],
                    tiling,
                    features,
                ),
        },
{
    let mut i: usize = 0;
    while i < candidates.len()
        invariant
            i <= candidates@.len(),
            forall|j: int| 0 <= j < i ==> !supports(#[trigger] candidates@[j], tiling, features),
        decreases candidates@.len() - i,
    {
        let props = candidates[i];
        let ok = match tiling {
            ImageTiling::Linear => props.linear_tiling_features & features == features,
            ImageTiling::Optimal => props.optimal_tiling_features & features == features,
            ImageTiling::Other(_) => false,
        };
        if ok {
            return Some(props.format);
        }
        i = i + 1;
    }
    None
}

/// Depth formats in the order of preference in which they are tried.
pub fn depth_format_candidates() -> (v: Vec<i32>)
    ensures
        v@ == seq![FORMAT_D32_SFLOAT, FORMAT_D32_SFLOAT_S8_UINT, FORMAT_D24_UNORM_S8_UINT],
{
    let mut v: Vec<i32> = Vec::new();
    v.push(FORMAT_D32_SFLOAT);
    v.push(FORMAT_D32_SFLOAT_S8_UINT);
    v.push(FORMAT_D24_UNORM_S8_UINT);
    v
}

} // verus!
