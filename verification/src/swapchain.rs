//! The swapchain manager: surface format selection (an SRGB format when the
//! surface offers one, else the first supported, else the engine's fallback),
//! present mode selection (MAILBOX when available, else FIFO, which every
//! surface supports and which never tears), and the swapchain's own state:
//! format, extent, image count and the monotonically increasing frame index.

use vstd::prelude::*;

use crate::image::FORMAT_RGBA8_SRGB;
use crate::model::Dimensions;

verus! {

/// A surface format as the logic reads it: its format code and whether its
/// channel type is SRGB.
#[derive(Clone, Copy, PartialEq, Eq, Structural, Debug)]
pub struct SurfaceFormat {
    pub code: u32,
    pub srgb: bool,
}

/// The present modes the engine chooses between.
#[derive(Clone, Copy, PartialEq, Eq, Structural, Debug)]
pub enum PresentMode {
    Mailbox,
    Fifo,
}

/// The format used when the surface reports no format list at all.
pub fn fallback_format() -> (r: SurfaceFormat)
    ensures
        r == (SurfaceFormat { code: FORMAT_RGBA8_SRGB, srgb: true }),
{
    SurfaceFormat { code: FORMAT_RGBA8_SRGB, srgb: true }
}

/// The first SRGB format of the list, if any.
pub open spec fn first_srgb(formats: Seq<SurfaceFormat>) -> Option<SurfaceFormat>
    decreases formats.len(),
{
    if formats.len() == 0 {
        None
    } else if formats[0].srgb {
        Some(formats[0])
    } else {
        first_srgb(formats.drop_first())
    }
}

/// The format the swapchain is created with, given the surface's reported
/// format list: the first SRGB format when there is one, else the first
/// reported format, and the fallback when the surface reports no list.
pub open spec fn spec_select_format(formats: Option<Seq<SurfaceFormat>>) -> SurfaceFormat {
    match formats {
        Option::None => SurfaceFormat { code: FORMAT_RGBA8_SRGB, srgb: true },
        Option::Some(fs) => match first_srgb(fs) {
            Option::Some(f) => f,
            Option::None => fs[0],
        },
    }
}

/// Scanning past a non-SRGB head leaves the first SRGB format unchanged.
proof fn lemma_first_srgb_skip(formats: Seq<SurfaceFormat>, i: int)
    requires
        0 <= i < formats.len(),
        !formats[i].srgb,
    ensures
        first_srgb(formats.skip(i)) == first_srgb(formats.skip(i + 1)),
{
    assert(formats.skip(i).len() > 0);
    assert(formats.skip(i)[0] == formats[i]);
    assert(formats.skip(i).drop_first() =~= formats.skip(i + 1));
}

/// Picks the swapchain's surface format from the surface's reported list.
#[verifier::loop_isolation(false)]
pub fn select_surface_format(formats: Option<Vec<SurfaceFormat>>) -> (r: SurfaceFormat)
    requires
        match formats {
            Option::Some(fs) => fs@.len() > 0,
            Option::None => true,
        },
    ensures
        r == spec_select_format(
            match formats {
                Option::Some(fs) => Option::Some(fs@),
                Option::None => Option::None,
            },
        ),
{
    match formats {
        None => fallback_format(),
        Some(fs) => {
            let mut i: usize = 0;
            proof {
                assert(fs@.skip(0) =~= fs@);
            }
            while i < fs.len()
                invariant
                    i <= fs@.len(),
                    first_srgb(fs@) == first_srgb(fs@.skip(i as int)),
                decreases fs@.len() - i,
            {
                if fs[i].srgb {
                    proof {
                        assert(fs@.skip(i as int)[0] == fs@[i as int]);
                        assert(first_srgb(fs@) == Some(fs@[i as int]));
                    }
                    return fs[i];
                }
                proof {
                    lemma_first_srgb_skip(fs@, i as int);
                }
                i = i + 1;
            }
            proof {
                assert(fs@.skip(fs@.len() as int).len() == 0);
            }
            fs[0]
        },
    }
}

/// Picks MAILBOX when the surface supports it, else FIFO: the fallback that
/// is always available and never tears.
pub fn choose_present_mode(supports_mailbox: bool) -> (r: PresentMode)
    ensures
        r == (if supports_mailbox {
            PresentMode::Mailbox
        } else {
            PresentMode::Fifo
        }),
{
    if supports_mailbox {
        PresentMode::Mailbox
    } else {
        PresentMode::Fifo
    }
}

/// The fixed number of presentable images the swapchain is configured with.
pub const SWAPCHAIN_IMAGE_COUNT: u32 = 3;

/// One generation of the swapchain: its format, extent, image count and the
/// frame counter, which increments once per submitted frame and is never
/// reset.
pub struct SwapchainState {
    pub extent: Dimensions<u32>,
    pub format: SurfaceFormat,
    pub size: u32,
    pub frame_index: u32,
    /// A swapchain is configured on the surface.
    pub configured: bool,
}

impl SwapchainState {
    /// Configures a fresh swapchain on the surface: the chosen format, the
    /// chosen present mode, the fixed image count and the current window
    /// extent. The frame index starts at the image count.
    pub fn new(
        window_dimensions: Dimensions<u32>,
        formats: Option<Vec<SurfaceFormat>>,
        supports_mailbox: bool,
    ) -> (r: (SwapchainState, PresentMode))
        requires
            match formats {
                Option::Some(fs) => fs@.len() > 0,
                Option::None => true,
            },
        ensures
            r.0.format == spec_select_format(
                match formats {
                    Option::Some(fs) => Option::Some(fs@),
                    Option::None => Option::None,
                },
            ),
            r.0.extent == window_dimensions,
            r.0.size == SWAPCHAIN_IMAGE_COUNT,
            r.0.frame_index == SWAPCHAIN_IMAGE_COUNT,
            r.0.configured,
            r.1 == (if supports_mailbox {
                PresentMode::Mailbox
            } else {
                PresentMode::Fifo
            }),
    {
        let format = select_surface_format(formats);
        let present_mode = choose_present_mode(supports_mailbox);
        (
            SwapchainState {
                extent: window_dimensions,
                format,
                size: SWAPCHAIN_IMAGE_COUNT,
                frame_index: SWAPCHAIN_IMAGE_COUNT,
                configured: true,
            },
            present_mode,
        )
    }
}

} // verus!
