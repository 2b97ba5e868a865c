//! The image and texture manager: mip-chain arithmetic, the capability probe
//! for depth/stencil support, the container-format decision for texture
//! files, and the barrier/copy/blit choreography of a texture upload.

use vstd::prelude::*;

use crate::buffer::{BufferState, MemoryType, RenderError, TransferFence, pixel_row};
use crate::buffer::{no_suitable_memory_type, PROP_COHERENT, PROP_CPU_VISIBLE, PROP_DEVICE_LOCAL};
use crate::desc::{DescSet, DescSetWrite, DescSetLayout, DescriptorPool, DescriptorType, LayoutBinding, STAGE_FRAGMENT};
use crate::model::Dimensions;

verus! {

/// Format code of the engine's texture and swapchain fallback format.
pub const FORMAT_RGBA8_SRGB: u32 = 43;

/// Format code of the engine's depth/stencil attachment format.
pub const FORMAT_D32_SFLOAT_S8_UINT: u32 = 130;

/// Tiling feature bit: the format can back a depth/stencil attachment.
pub const FEATURE_DEPTH_STENCIL_ATTACHMENT: u32 = 0x200;

/// Tiling feature bit: the format can be sampled with a linear filter.
pub const FEATURE_SAMPLED_LINEAR: u32 = 0x1000;

/// Floor of the base-two logarithm.
pub open spec fn floor_log2(n: nat) -> nat
    decreases n,
{
    if n <= 1 {
        0
    } else {
        1 + floor_log2(n / 2)
    }
}

/// Extent of mip level `i` along one axis whose level-zero extent is `n`:
/// each level is half the previous one, clamped to at least one texel.
pub open spec fn mip_size(n: nat, i: nat) -> nat
    decreases i,
{
    if i == 0 {
        n
    } else {
        let prev = mip_size(n, (i - 1) as nat);
        if prev / 2 >= 1 {
            prev / 2
        } else {
            1
        }
    }
}

/// The number of mip levels generated for a `width` by `height` image:
/// `floor(log2(max(width, height))) + 1`.
pub fn mip_levels_for(width: u32, height: u32) -> (r: u32)
    requires
        width >= 1,
        height >= 1,
    ensures
        width >= height ==> r == floor_log2(width as nat) + 1,
        height > width ==> r == floor_log2(height as nat) + 1,
        r >= 1,
{
    let mut n: u32 = if width > height {
        width
    } else {
        height
    };
    let ghost n0 = n as nat;
    proof {
        if n >= 2 {
            lemma_floor_log2_half(n as nat);
        }
    }
    let mut levels: u32 = 1;
    while n > 1
        invariant
            n >= 1,
            levels >= 1,
            levels - 1 + floor_log2(n as nat) == floor_log2(n0),
            floor_log2(n0) <= 0x8000_0000,
        decreases n,
    {
        proof {
            assert(floor_log2((n / 2) as nat) == floor_log2(n as nat) - 1);
        }
        n = n / 2;
        levels = levels + 1;
    }
    levels
}

/// The mip extent chain of a `width` by `height` image: entry `i` is the
/// extent of level `i`, each axis of a level being half the previous one,
/// clamped to a minimum of one texel. The chain is exactly as long as the
/// generated mip count, and its last entry is one texel by one texel.
pub fn mip_extent_chain(width: u32, height: u32) -> (r: Vec<crate::model::Dimensions<u32>>)
    requires
        width >= 1,
        height >= 1,
    ensures
        width >= height ==> r@.len() == floor_log2(width as nat) + 1,
        height > width ==> r@.len() == floor_log2(height as nat) + 1,
        forall|i: int|
            0 <= i < r@.len() ==> (#[trigger] r@[i]).width == mip_size(width as nat, i as nat)
                && r@[i].height == mip_size(height as nat, i as nat),
        r@.len() >= 1,
        r@[r@.len() - 1].width == 1 && r@[r@.len() - 1].height == 1,
{
    let levels = mip_levels_for(width, height);
    let mut r: Vec<crate::model::Dimensions<u32>> = Vec::new();
    let mut w = width;
    let mut h = height;
    let mut i: u32 = 0;
    while i < levels
        invariant
            i <= levels,
            r@.len() == i,
            w == mip_size(width as nat, i as nat) || i == levels,
            h == mip_size(height as nat, i as nat) || i == levels,
            w >= 1,
            h >= 1,
            forall|j: int|
                0 <= j < i ==> (#[trigger] r@[j]).width == mip_size(width as nat, j as nat)
                    && r@[j].height == mip_size(height as nat, j as nat),
        decreases levels - i,
    {
        r.push(crate::model::Dimensions { width: w, height: h });
        w = if w > 1 {
            w / 2
        } else {
            1
        };
        h = if h > 1 {
            h / 2
        } else {
            1
        };
        i = i + 1;
    }
    proof {
        lemma_mip_size_at_levels(width as nat, height as nat);
    }
    r
}

/// Mip-chain monotonicity: along either axis, every level past the first is
/// the previous level halved, clamped to a minimum of one texel — so the
/// chain shrinks monotonically down to one.
pub proof fn lemma_mip_halving(n: nat, i: nat)
    requires
        i >= 1,
    ensures
        mip_size(n, i) == (if mip_size(n, (i - 1) as nat) / 2 >= 1 {
            mip_size(n, (i - 1) as nat) / 2
        } else {
            1nat
        }),
        mip_size(n, i) <= mip_size(n, (i - 1) as nat) || mip_size(n, (i - 1) as nat) == 0,
{
}

/// At the last generated level both axes have shrunk to one texel: halving
/// `floor(log2(n))` times takes `n` down to one.
proof fn lemma_mip_size_to_one(n: nat, i: nat)
    requires
        n >= 1,
        i >= floor_log2(n),
    ensures
        mip_size(n, i) == 1,
    decreases n,
{
    if n <= 1 {
        lemma_mip_size_of_one(i);
    } else {
        lemma_mip_size_shift(n, i);
        lemma_mip_size_to_one(n / 2, (i - 1) as nat);
    }
}

/// A coarse bound on the logarithm, enough to rule out counter overflow.
proof fn lemma_floor_log2_half(n: nat)
    requires
        n >= 2,
    ensures
        floor_log2(n) <= n / 2,
    decreases n,
{
    if n >= 4 {
        lemma_floor_log2_half(n / 2);
    } else {
        assert(floor_log2(n / 2) == 0);
    }
}

/// A one-texel axis stays one texel at every level.
proof fn lemma_mip_size_of_one(i: nat)
    ensures
        mip_size(1, i) == 1,
    decreases i,
{
    if i > 0 {
        lemma_mip_size_of_one((i - 1) as nat);
    }
}

/// Level `i` of `n` is level `i - 1` of `n / 2`, for `n` of at least two.
proof fn lemma_mip_size_shift(n: nat, i: nat)
    requires
        n >= 2,
        i >= 1,
    ensures
        mip_size(n, i) == mip_size(n / 2, (i - 1) as nat),
    decreases i,
{
    if i > 1 {
        lemma_mip_size_shift(n, (i - 1) as nat);
    } else {
        assert(mip_size(n, 0) == n);
        assert(mip_size(n / 2, 0) == n / 2);
    }
}

/// Both axes of the final mip level are a single texel.
proof fn lemma_mip_size_at_levels(width: nat, height: nat)
    requires
        width >= 1,
        height >= 1,
    ensures
        width >= height ==> mip_size(width, floor_log2(width)) == 1 && mip_size(
            height,
            floor_log2(width),
        ) == 1,
        height > width ==> mip_size(width, floor_log2(height)) == 1 && mip_size(
            height,
            floor_log2(height),
        ) == 1,
{
    if width >= height {
        lemma_floor_log2_monotonic(height, width);
        lemma_mip_size_to_one(width, floor_log2(width));
        lemma_mip_size_to_one(height, floor_log2(width));
    } else {
        lemma_floor_log2_monotonic(width, height);
        lemma_mip_size_to_one(width, floor_log2(height));
        lemma_mip_size_to_one(height, floor_log2(height));
    }
}

/// `floor_log2` is monotonic.
proof fn lemma_floor_log2_monotonic(a: nat, b: nat)
    requires
        a <= b,
    ensures
        floor_log2(a) <= floor_log2(b),
    decreases b,
{
    if a > 1 {
        lemma_floor_log2_monotonic(a / 2, b / 2);
    }
}

/// The capability probe gating depth-buffer creation: the depth format must
/// support a depth/stencil attachment in linear or optimal tiling.
pub fn stencil_support(linear_tiling_features: u32, optimal_tiling_features: u32) -> (r: bool)
    ensures
        r == (linear_tiling_features & FEATURE_DEPTH_STENCIL_ATTACHMENT != 0
            || optimal_tiling_features & FEATURE_DEPTH_STENCIL_ATTACHMENT != 0),
{
    linear_tiling_features & FEATURE_DEPTH_STENCIL_ATTACHMENT != 0
        || optimal_tiling_features & FEATURE_DEPTH_STENCIL_ATTACHMENT != 0
}

/// One recorded step of an image upload: the barrier, copy and blit commands
/// a one-shot command buffer carries, in submission order.
#[derive(Clone, Copy, PartialEq, Eq, Structural, Debug)]
pub enum ImageOp {
    /// Layout transition UNDEFINED to TRANSFER_DST over a mip level range.
    BarrierUndefinedToTransferDst { level_start: u32, level_count: u32 },
    /// Copy of the pitched staging buffer into mip level zero.
    CopyBufferToImage { buffer_row_texels: u32, width: u32, height: u32 },
    /// Layout transition TRANSFER_DST to TRANSFER_SRC of one mip level.
    BarrierTransferDstToSrc { level: u32 },
    /// Linear-filtered blit of one mip level into the next, halved extents.
    Blit {
        src_level: u32,
        dst_level: u32,
        src_width: u32,
        src_height: u32,
        dst_width: u32,
        dst_height: u32,
    },
    /// Layout transition TRANSFER_SRC to SHADER_READ_ONLY of one mip level.
    BarrierSrcToShaderRead { level: u32 },
    /// Layout transition TRANSFER_DST to SHADER_READ_ONLY of one mip level.
    BarrierDstToShaderRead { level: u32 },
    /// Layout transition UNDEFINED to DEPTH_STENCIL_ATTACHMENT_OPTIMAL.
    BarrierUndefinedToDepthStencil,
}

/// The blit section of the upload plan for mip levels `i` to `levels`: for
/// each level in turn, its source level is made readable, blitted into it
/// with both extents halved and clamped, and then made shader-readable. The
/// sequence is inherently ordered: each level is produced from the previous
/// one.
pub open spec fn spec_mip_blit_ops(width: nat, height: nat, levels: nat, i: nat) -> Seq<ImageOp>
    decreases levels - i,
{
    if i >= levels || i < 1 {
        Seq::empty()
    } else {
        seq![
            ImageOp::BarrierTransferDstToSrc { level: (i - 1) as u32 },
            ImageOp::Blit {
                src_level: (i - 1) as u32,
                dst_level: i as u32,
                src_width: mip_size(width, (i - 1) as nat) as u32,
                src_height: mip_size(height, (i - 1) as nat) as u32,
                dst_width: mip_size(width, i) as u32,
                dst_height: mip_size(height, i) as u32,
            },
            ImageOp::BarrierSrcToShaderRead { level: (i - 1) as u32 },
        ] + spec_mip_blit_ops(width, height, levels, i + 1)
    }
}

/// The whole upload plan of a sampled texture: transition every level to
/// TRANSFER_DST, copy the staging buffer into level zero, generate the mip
/// chain when the device supports linear-filtered blits, and finally make
/// the last level shader-readable.
pub open spec fn spec_texture_upload_plan(
    width: nat,
    height: nat,
    levels: nat,
    buffer_row_texels: nat,
    linear_filter: bool,
) -> Seq<ImageOp> {
    seq![
        ImageOp::BarrierUndefinedToTransferDst { level_start: 0u32, level_count: levels as u32 },
        ImageOp::CopyBufferToImage {
            buffer_row_texels: buffer_row_texels as u32,
            width: width as u32,
            height: height as u32,
        },
    ] + (if linear_filter {
        spec_mip_blit_ops(width, height, levels, 1)
    } else {
        Seq::empty()
    }) + seq![ImageOp::BarrierDstToShaderRead { level: (levels - 1) as u32 }]
}

/// Records the upload plan of a sampled texture with `mip_levels` levels.
pub fn texture_upload_plan(
    width: u32,
    height: u32,
    mip_levels: u32,
    buffer_row_texels: u32,
    linear_filter: bool,
) -> (r: Vec<ImageOp>)
    requires
        width >= 1,
        height >= 1,
        mip_levels >= 1,
    ensures
        r@ == spec_texture_upload_plan(
            width as nat,
            height as nat,
            mip_levels as nat,
            buffer_row_texels as nat,
            linear_filter,
        ),
{
    let mut r: Vec<ImageOp> = Vec::new();
    r.push(ImageOp::BarrierUndefinedToTransferDst { level_start: 0, level_count: mip_levels });
    r.push(ImageOp::CopyBufferToImage { buffer_row_texels, width, height });
    if linear_filter {
        let mut mip_width = width;
        let mut mip_height = height;
        let mut i: u32 = 1;
        while i < mip_levels
            invariant
                1 <= i <= mip_levels,
                mip_width == mip_size(width as nat, (i - 1) as nat),
                mip_height == mip_size(height as nat, (i - 1) as nat),
                mip_width >= 1,
                mip_height >= 1,
                r@.len() == 2 + 3 * (i - 1),
                spec_mip_blit_ops(width as nat, height as nat, mip_levels as nat, 1) == r@.skip(2)
                    + spec_mip_blit_ops(width as nat, height as nat, mip_levels as nat, i as nat),
                r@.take(2) == seq![
                    ImageOp::BarrierUndefinedToTransferDst {
                        level_start: 0u32,
                        level_count: mip_levels,
                    },
                    ImageOp::CopyBufferToImage { buffer_row_texels, width, height },
                ],
            decreases mip_levels - i,
        {
            let next_width = if mip_width > 1 {
                mip_width / 2
            } else {
                1
            };
            let next_height = if mip_height > 1 {
                mip_height / 2
            } else {
                1
            };
            let ghost pre = r@;
            r.push(ImageOp::BarrierTransferDstToSrc { level: i - 1 });
            r.push(ImageOp::Blit {
                src_level: i - 1,
                dst_level: i,
                src_width: mip_width,
                src_height: mip_height,
                dst_width: next_width,
                dst_height: next_height,
            });
            r.push(ImageOp::BarrierSrcToShaderRead { level: i - 1 });
            proof {
                assert(next_width == mip_size(width as nat, i as nat));
                assert(next_height == mip_size(height as nat, i as nat));
                assert(r@.skip(2) =~= pre.skip(2) + spec_mip_blit_ops(
                    width as nat,
                    height as nat,
                    mip_levels as nat,
                    i as nat,
                ).take(3));
                assert(spec_mip_blit_ops(
                    width as nat,
                    height as nat,
                    mip_levels as nat,
                    i as nat,
                ) =~= spec_mip_blit_ops(
                    width as nat,
                    height as nat,
                    mip_levels as nat,
                    i as nat,
                ).take(3) + spec_mip_blit_ops(
                    width as nat,
                    height as nat,
                    mip_levels as nat,
                    (i + 1) as nat,
                ));
                assert(r@.take(2) =~= pre.take(2));
            }
            mip_width = next_width;
            mip_height = next_height;
            i = i + 1;
        }
    }
    let ghost pre_final = r@;
    r.push(ImageOp::BarrierDstToShaderRead { level: mip_levels - 1 });
    proof {
        assert(r@ =~= spec_texture_upload_plan(
            width as nat,
            height as nat,
            mip_levels as nat,
            buffer_row_texels as nat,
            linear_filter,
        ));
    }
    r
}

/// The container formats texture files are decoded from.
#[derive(Clone, Copy, PartialEq, Eq, Structural, Debug)]
pub enum ImageContainerFormat {
    Png,
    Jpeg,
    Gif,
    Ico,
}

/// The first capture group of `pattern` applied to `text`, as the regex
/// engine computes it: a function of the two strings alone.
pub uninterp spec fn capture_of(pattern: Seq<char>, text: Seq<char>) -> Option<Seq<char>>;

/// Relies on regex::Regex::new and regex::Regex::captures: the first capture
/// group of the pattern in the text, None when the pattern is invalid or
/// does not match.
#[verifier::external_body]
fn capture_first_group(pattern: &str, text: &str) -> (r: Option<String>)
    ensures
        match r {
            Some(s) => capture_of(pattern@, text@) == Some(s@),
            None => capture_of(pattern@, text@) is None,
        },
{
    let re = regex::Regex::new(pattern).ok()?;
    let group = re.captures(text)?.get(1)?;
    Some(group.as_str().to_string())
}

/// The pattern that captures a texture path's file extension: the letters
/// after the final dot.
pub open spec fn spec_ext_pattern() -> Seq<char> {
    "[.]([a-zA-Z]*)$"@
}

/// Extracts the file extension of a texture path, as the letters after the
/// final dot; None when the path has no such extension.
pub fn extension_of(path: &str) -> (r: Option<String>)
    ensures
        match r {
            Some(s) => capture_of(spec_ext_pattern(), path@) == Some(s@),
            None => capture_of(spec_ext_pattern(), path@) is None,
        },
{
    capture_first_group("[.]([a-zA-Z]*)$", path)
}

/// The container format a file extension selects; anything unrecognised is
/// decoded as PNG.
pub open spec fn spec_format_for_extension(ext: Seq<char>) -> ImageContainerFormat {
    if ext == "png"@ {
        ImageContainerFormat::Png
    } else if ext == "jpg"@ || ext == "jpeg"@ {
        ImageContainerFormat::Jpeg
    } else if ext == "gif"@ {
        ImageContainerFormat::Gif
    } else if ext == "ico"@ {
        ImageContainerFormat::Ico
    } else {
        ImageContainerFormat::Png
    }
}

/// Maps a file extension to the container format it is decoded as.
pub fn format_for_extension(ext: &String) -> (r: ImageContainerFormat)
    ensures
        r == spec_format_for_extension(ext@),
{
    if *ext == "png".to_owned() {
        ImageContainerFormat::Png
    } else if *ext == "jpg".to_owned() || *ext == "jpeg".to_owned() {
        ImageContainerFormat::Jpeg
    } else if *ext == "gif".to_owned() {
        ImageContainerFormat::Gif
    } else if *ext == "ico".to_owned() {
        ImageContainerFormat::Ico
    } else {
        ImageContainerFormat::Png
    }
}

/// The container format for a texture path: the extension's format when the
/// path has an extension, None when it has none (the engine then falls back
/// to its bundled placeholder texture, which is a PNG).
pub fn format_for_path(path: &str) -> (r: Option<ImageContainerFormat>)
    ensures
        r is Some <==> capture_of(spec_ext_pattern(), path@) is Some,
        r is Some ==> r == Some(
            spec_format_for_extension(capture_of(spec_ext_pattern(), path@).unwrap()),
        ),
{
    match extension_of(path) {
        Some(ext) => Some(format_for_extension(&ext)),
        None => None,
    }
}

/// A sampled texture or depth attachment: image, view, sampler and backing
/// memory handles, the staging buffer kept alive until the upload finishes,
/// and the fence that signals "upload complete". The manager does not block
/// on that fence itself; a caller that needs the upload finished waits
/// explicitly.
pub struct ImageState {
    pub desc: DescSet,
    pub buffer: Option<BufferState>,
    pub sampler_live: bool,
    pub image_view_live: bool,
    pub image_live: bool,
    pub memory_live: bool,
    pub transfered_image_fence: TransferFence,
    pub mip_levels: u32,
}

impl ImageState {
    /// The handles still to be released, and the rule that a kept staging
    /// buffer is exactly the in-flight upload source: its pending flag and
    /// the fence state agree.
    pub open spec fn wf(&self) -> bool {
        &&& match self.buffer {
            Some(b) => b.wf() && b.ready && (b.gpu_pending
                <==> !self.transfered_image_fence.signaled),
            None => true,
        }
    }

    /// Creates a sampled texture: stages the pixels row-pitch-aligned,
    /// writes the image and sampler bindings into `desc`, and records the
    /// upload plan (transitions, copy, mip-chain blits) submitted under the
    /// returned state's fence. The fence is not waited on here: the staging
    /// buffer stays alive and pending until a caller waits.
    pub fn new_texture(
        desc: DescSet,
        img_pixels: &[u8],
        width: u32,
        height: u32,
        pitch_alignment: u32,
        memory_types: &Vec<MemoryType>,
        usage: u32,
        type_mask: u32,
        linear_filter_supported: bool,
    ) -> (r: Result<(ImageState, Vec<ImageOp>), RenderError>)
        requires
            desc.allocated,
            desc.layout.live,
            width >= 1,
            height >= 1,
            memory_types@.len() <= 32,
            img_pixels@.len() == width * height * 4,
            pitch_alignment >= 1,
            pitch_alignment & ((pitch_alignment - 1) as u32) == 0,
            width * 4 + pitch_alignment <= u32::MAX,
            height * (width * 4 + pitch_alignment) <= usize::MAX,
        ensures
            match r {
                Ok((img, plan)) => {
                    &&& img.wf()
                    &&& img.buffer is Some
                    &&& img.buffer.unwrap().gpu_pending
                    &&& img.buffer.unwrap().usage == usage
                    &&& forall|y: int|
                        0 <= y < height ==> #[trigger] pixel_row(
                            img.buffer.unwrap()@,
                            (img.buffer.unwrap().size as int / height as int) as int,
                            width * 4,
                            y,
                        ) == pixel_row(img_pixels@, width * 4, width * 4, y)
                    &&& img.sampler_live
                    &&& img.image_view_live
                    &&& img.image_live
                    &&& img.memory_live
                    &&& img.transfered_image_fence.live
                    &&& !img.transfered_image_fence.signaled
                    &&& (width >= height ==> img.mip_levels == floor_log2(width as nat) + 1)
                    &&& (height > width ==> img.mip_levels == floor_log2(height as nat) + 1)
                    &&& img.desc.allocated
                    &&& img.desc.layout.live
                    &&& img.desc.layout.bindings@ == desc.layout.bindings@
                    &&& img.desc.writes@ == desc.writes@ + seq![
                        DescSetWrite {
                            binding: 0u32,
                            array_offset: 0u32,
                            kind: DescriptorType::SampledImage,
                            resource_ready: true,
                        },
                        DescSetWrite {
                            binding: 1u32,
                            array_offset: 0u32,
                            kind: DescriptorType::Sampler,
                            resource_ready: true,
                        },
                    ]
                    &&& plan@ == spec_texture_upload_plan(
                        width as nat,
                        height as nat,
                        img.mip_levels as nat,
                        (img.buffer.unwrap().size as int / height as int / 4) as nat,
                        linear_filter_supported,
                    )
                },
                Err(e) => {
                    &&& e == RenderError::NoSuitableMemoryType
                    &&& no_suitable_memory_type(
                        memory_types@,
                        type_mask,
                        PROP_CPU_VISIBLE | PROP_COHERENT,
                    )
                },
            },
    {
        let mip_levels = mip_levels_for(width, height);
        let (mut staging, _dims, row_pitch, stride) = match BufferState::new_texture(
            img_pixels,
            width,
            height,
            pitch_alignment,
            memory_types,
            usage,
            type_mask,
        ) {
            Ok(t) => t,
            Err(e) => {
                return Err(e);
            },
        };
        let ghost staged = staging@;
        proof {
            assert(forall|y: int|
                0 <= y < height ==> #[trigger] pixel_row(staged, row_pitch as int, width * 4, y)
                    == pixel_row(img_pixels@, width * 4, width * 4, y));
        }
        let mut desc = desc;
        let mut writes: Vec<DescSetWrite> = Vec::new();
        writes.push(DescSetWrite {
            binding: 0,
            array_offset: 0,
            kind: DescriptorType::SampledImage,
            resource_ready: true,
        });
        writes.push(DescSetWrite {
            binding: 1,
            array_offset: 0,
            kind: DescriptorType::Sampler,
            resource_ready: true,
        });
        desc.write_to_state(writes);
        let plan = texture_upload_plan(
            width,
            height,
            mip_levels,
            row_pitch / (stride as u32),
            linear_filter_supported,
        );
        // the copy is submitted under the fence; the staging buffer is in
        // flight until someone waits
        staging.gpu_pending = true;
        let fence = TransferFence::new(false);
        proof {
            assert(staging.size as int / height as int == row_pitch as int) by (nonlinear_arith)
                requires
                    staging.size == height * row_pitch,
                    height >= 1,
            ;
            assert(row_pitch as int / 4 == (row_pitch / (stride as u32)) as int) by (nonlinear_arith)
                requires
                    stride == 4,
            ;
            assert(staging@ == staged);
            assert forall|y: int| 0 <= y < height implies #[trigger] pixel_row(
                staging@,
                staging.size as int / height as int,
                width * 4,
                y,
            ) == pixel_row(img_pixels@, width * 4, width * 4, y) by {
                assert(pixel_row(staged, row_pitch as int, width * 4, y) == pixel_row(
                    img_pixels@,
                    width * 4,
                    width * 4,
                    y,
                ));
                assert(pixel_row(staging@, staging.size as int / height as int, width * 4, y)
                    == pixel_row(staged, row_pitch as int, width * 4, y));
            }
        }
        Ok((
            ImageState {
                desc,
                buffer: Some(staging),
                sampler_live: true,
                image_view_live: true,
                image_live: true,
                memory_live: true,
                transfered_image_fence: fence,
                mip_levels,
            },
            plan,
        ))
    }

    /// Creates a depth/stencil attachment image: no host data, a single
    /// barrier to the depth-stencil layout submitted under the fence.
    pub fn new_depth_image(
        desc: DescSet,
        dims: Dimensions<u32>,
        memory_types: &Vec<MemoryType>,
        type_mask: u32,
    ) -> (r: Result<(ImageState, Vec<ImageOp>), RenderError>)
        requires
            desc.allocated,
            desc.layout.live,
            memory_types@.len() <= 32,
        ensures
            match r {
                Ok((img, plan)) => {
                    &&& img.wf()
                    &&& img.buffer is None
                    &&& img.sampler_live
                    &&& img.image_view_live
                    &&& img.image_live
                    &&& img.memory_live
                    &&& img.transfered_image_fence.live
                    &&& !img.transfered_image_fence.signaled
                    &&& img.mip_levels == 0
                    &&& img.desc.allocated
                    &&& img.desc.writes@ == desc.writes@
                    &&& img.desc.layout.bindings@ == desc.layout.bindings@
                    &&& plan@ == seq![ImageOp::BarrierUndefinedToDepthStencil]
                    &&& exists|i: int|
                        crate::buffer::memory_type_suitable(
                            memory_types@,
                            type_mask,
                            PROP_DEVICE_LOCAL,
                            i,
                        )
                },
                Err(e) => {
                    &&& e == RenderError::NoSuitableMemoryType
                    &&& forall|i: int|
                        0 <= i < memory_types@.len() ==> !crate::buffer::memory_type_suitable(
                            memory_types@,
                            type_mask,
                            PROP_DEVICE_LOCAL,
                            i,
                        )
                },
            },
    {
        match crate::buffer::select_memory_type(memory_types, type_mask, PROP_DEVICE_LOCAL) {
            None => Err(RenderError::NoSuitableMemoryType),
            Some(_) => {
                let mut plan: Vec<ImageOp> = Vec::new();
                plan.push(ImageOp::BarrierUndefinedToDepthStencil);
                proof {
                    assert(plan@ =~= seq![ImageOp::BarrierUndefinedToDepthStencil]);
                }
                let _ = dims;
                Ok((
                    ImageState {
                        desc,
                        buffer: None,
                        sampler_live: true,
                        image_view_live: true,
                        image_live: true,
                        memory_live: true,
                        transfered_image_fence: TransferFence::new(false),
                        mip_levels: 0,
                    },
                    plan,
                ))
            },
        }
    }

    /// Blocks until the upload fence signals: afterwards the staging buffer
    /// is no longer referenced by the GPU.
    pub fn wait_for_transfer_completion(&mut self)
        requires
            old(self).wf(),
            old(self).transfered_image_fence.live,
        ensures
            final(self).wf(),
            final(self).transfered_image_fence == (TransferFence {
                signaled: true,
                live: true,
            }),
            match final(self).buffer {
                Some(b) => {
                    &&& !b.gpu_pending
                    &&& old(self).buffer is Some
                    &&& b@ == old(self).buffer.unwrap()@
                    &&& b.size == old(self).buffer.unwrap().size
                    &&& b.usage == old(self).buffer.unwrap().usage
                    &&& b.properties == old(self).buffer.unwrap().properties
                    &&& b.ready
                },
                None => old(self).buffer is None,
            },
            final(self).buffer is Some <==> old(self).buffer is Some,
            final(self).sampler_live == old(self).sampler_live,
            final(self).image_view_live == old(self).image_view_live,
            final(self).image_live == old(self).image_live,
            final(self).memory_live == old(self).memory_live,
            final(self).mip_levels == old(self).mip_levels,
            final(self).desc.writes@ == old(self).desc.writes@,
            final(self).desc.allocated == old(self).desc.allocated,
            final(self).desc.layout.bindings@ == old(self).desc.layout.bindings@,
            final(self).desc.layout.live == old(self).desc.layout.live,
    {
        self.transfered_image_fence.wait();
        match &mut self.buffer {
            Some(b) => {
                b.gpu_pending = false;
            },
            None => {},
        }
    }

    /// Whether the image still exposes a view handle.
    pub fn has_image_view(&self) -> (r: bool)
        ensures
            r == self.image_view_live,
    {
        self.image_view_live
    }

    /// Releases everything the image owns, in reverse creation order, and
    /// strictly after the upload fence has signaled: first wait, then
    /// destroy the fence, sampler, view, image and memory, and only then the
    /// staging buffer, which by that point nothing references.
    pub fn teardown(&mut self)
        requires
            old(self).wf(),
            old(self).transfered_image_fence.live,
        ensures
            !final(self).transfered_image_fence.live,
            final(self).transfered_image_fence.signaled,
            !final(self).sampler_live,
            !final(self).image_view_live,
            !final(self).image_live,
            !final(self).memory_live,
            match final(self).buffer {
                Some(b) => !b.ready && !b.gpu_pending,
                None => true,
            },
    {
        self.wait_for_transfer_completion();
        self.transfered_image_fence.destroy();
        self.sampler_live = false;
        self.image_view_live = false;
        self.image_live = false;
        self.memory_live = false;
        match &mut self.buffer {
            Some(b) => {
                b.teardown();
            },
            None => {},
        }
    }
}

/// The depth attachment: a depth/stencil image with its own descriptor pool,
/// created only after the capability probe allowed it, and complete (fence
/// signaled) by the time the constructor returns.
pub struct DepthBuffer {
    pub depth_buffer: ImageState,
    pub depth_desc_pool: DescriptorPool,
}

impl DepthBuffer {
    /// Builds the depth attachment: descriptor layout and pool, the depth
    /// image with its single transition barrier, and a blocking wait for the
    /// transition to complete.
    pub fn new(dims: Dimensions<u32>, memory_types: &Vec<MemoryType>, type_mask: u32) -> (r: Result<
        (DepthBuffer, Vec<ImageOp>),
        RenderError,
    >)
        requires
            memory_types@.len() <= 32,
        ensures
            match r {
                Ok((d, plan)) => {
                    &&& d.depth_buffer.wf()
                    &&& d.depth_buffer.buffer is None
                    &&& d.depth_buffer.transfered_image_fence == (TransferFence {
                        signaled: true,
                        live: true,
                    })
                    &&& d.depth_buffer.image_live
                    &&& d.depth_buffer.image_view_live
                    &&& d.depth_buffer.desc.allocated
                    &&& d.depth_desc_pool.live
                    &&& d.depth_desc_pool.allocated == 1
                    &&& d.depth_desc_pool.max_sets == 1
                    &&& plan@ == seq![ImageOp::BarrierUndefinedToDepthStencil]
                },
                Err(e) => {
                    &&& e == RenderError::NoSuitableMemoryType
                    &&& forall|i: int|
                        0 <= i < memory_types@.len() ==> !crate::buffer::memory_type_suitable(
                            memory_types@,
                            type_mask,
                            PROP_DEVICE_LOCAL,
                            i,
                        )
                },
            },
    {
        let mut bindings: Vec<LayoutBinding> = Vec::new();
        bindings.push(LayoutBinding {
            binding: 0,
            ty: DescriptorType::SampledImage,
            count: 1,
            stage_flags: STAGE_FRAGMENT,
        });
        bindings.push(LayoutBinding {
            binding: 1,
            ty: DescriptorType::Sampler,
            count: 1,
            stage_flags: STAGE_FRAGMENT,
        });
        let depth_desc = DescSetLayout::new(bindings);
        let mut depth_desc_pool = DescriptorPool::new(1);
        let depth_desc = match depth_desc.create_desc_set(&mut depth_desc_pool) {
            Ok(set) => set,
            Err(_) => {
                // a fresh pool of capacity one cannot be exhausted
                proof {
                    assert(false);
                }
                return Err(RenderError::PoolExhausted);
            },
        };
        let (mut depth_buffer, plan) = match ImageState::new_depth_image(
            depth_desc,
            dims,
            memory_types,
            type_mask,
        ) {
            Ok(t) => t,
            Err(e) => {
                return Err(e);
            },
        };
        depth_buffer.wait_for_transfer_completion();
        Ok((DepthBuffer { depth_buffer, depth_desc_pool }, plan))
    }
}

} // verus!
