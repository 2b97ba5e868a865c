//! The frame scheduler: the top-level state machine that ties image
//! acquisition, command recording, submission and presentation together,
//! owns the swapchain recreation policy, and carries the keyboard-driven
//! colour state. Everything the loop decides — when a frame is skipped, when
//! the swapchain is rebuilt, which slot a frame lands in, what the command
//! buffer records — is stated here; the window pump and the GPU submissions
//! themselves are the host's side of the bargain.

use vstd::prelude::*;

use crate::buffer::{MemoryType, RenderError, TransferFence};
use crate::camera::CameraState;
use crate::desc::LayoutBinding;
use crate::framebuffer::{FrameSlot, FramebufferState};
use crate::image::{stencil_support, DepthBuffer};
use crate::input::Key;
use crate::model::{
    spec_apply_channel, spec_color_bytes, Color, Dimensions, RenderCommand, RgbaValue,
    ViewportRect,
};
use crate::obj::RenderObject;
use crate::swapchain::{
    spec_select_format, SurfaceFormat, SwapchainState, SWAPCHAIN_IMAGE_COUNT,
};

verus! {

/// The error returned when a draw is attempted before a level is loaded.
#[derive(Debug)]
pub struct NoLevelLoadedError {
    pub message: String,
}

/// The graphics pipeline and its layout; empty until a level is loaded,
/// rebuilt on every swapchain recreation because it is created against the
/// render pass object that recreation destroys. The pipeline remembers the
/// descriptor set layouts it was built over, in binding order.
pub struct PipelineState {
    pub pipeline_live: bool,
    pub pipeline_layout_live: bool,
    /// The set layouts the pipeline layout was created with, set by set.
    pub desc_layouts: Vec<Vec<LayoutBinding>>,
}

impl PipelineState {
    /// No pipeline yet.
    pub fn empty() -> (r: PipelineState)
        ensures
            !r.pipeline_live,
            !r.pipeline_layout_live,
            r.desc_layouts@.len() == 0,
    {
        PipelineState {
            pipeline_live: false,
            pipeline_layout_live: false,
            desc_layouts: Vec::new(),
        }
    }

    /// Builds the pipeline and its layout over exactly the given descriptor
    /// set layouts, in the given order, against a live render pass.
    pub fn new_pipeline(&mut self, desc_layouts: Vec<Vec<LayoutBinding>>, render_pass_live: bool)
        requires
            render_pass_live,
        ensures
            final(self).pipeline_live,
            final(self).pipeline_layout_live,
            final(self).desc_layouts == desc_layouts,
    {
        self.desc_layouts = desc_layouts;
        self.pipeline_live = true;
        self.pipeline_layout_live = true;
    }

    /// Whether no pipeline has been built yet.
    pub fn is_empty(&self) -> (r: bool)
        ensures
            r == !self.pipeline_live,
    {
        !self.pipeline_live
    }
}

/// What the top of a frame iteration decides.
#[derive(Clone, Copy, PartialEq, Eq, Structural, Debug)]
pub enum FrameGate {
    /// Less than the frame interval has passed: skip the iteration.
    Throttled,
    /// A recreation was requested: rebuild the swapchain before acquiring.
    RecreateFirst,
    /// Proceed to acquisition.
    Ready,
}

/// The commands one frame records, in order: begin, viewport and scissor,
/// pipeline, render pass with colour (and depth, when present) clears,
/// vertex and optional index buffer, the camera set first and then the
/// object's sets, the indexed draw, and the closing pair.
pub open spec fn spec_record_plan(
    viewport: ViewportRect,
    bg: RgbaValue,
    index_count: u32,
    with_depth: bool,
    has_index_buffer: bool,
) -> Seq<RenderCommand> {
    seq![
        RenderCommand::BeginCommandBuffer,
        RenderCommand::SetViewport { rect: viewport },
        RenderCommand::SetScissor { rect: viewport },
        RenderCommand::BindGraphicsPipeline,
        RenderCommand::BeginRenderPass { bg: bg, with_depth_clear: with_depth },
        RenderCommand::BindVertexBuffer { binding: 0u32 },
    ] + (if has_index_buffer {
        seq![RenderCommand::BindIndexBuffer]
    } else {
        Seq::empty()
    }) + seq![
        RenderCommand::BindCameraDescriptorSet,
        RenderCommand::BindObjectTextureDescriptorSet,
        RenderCommand::BindObjectColorDescriptorSet,
        RenderCommand::DrawIndexed { index_count: index_count },
        RenderCommand::EndRenderPass,
        RenderCommand::FinishCommandBuffer,
    ]
}

/// The background colour with the channel named by `color` set to `value`;
/// alpha is not a background channel and leaves it unchanged.
pub open spec fn spec_bg_apply(bg: RgbaValue, color: Color, value: u32) -> RgbaValue {
    match color {
        Color::Red => RgbaValue { r: value, ..bg },
        Color::Green => RgbaValue { g: value, ..bg },
        Color::Blue => RgbaValue { b: value, ..bg },
        Color::Alpha => bg,
    }
}

/// The renderer: swapchain, per-frame resources, pipeline, camera, the
/// loaded object, the recreation request flag, the keyboard-driven colour
/// state, and the live-object accounting that recreation must preserve.
pub struct RendererState {
    pub swapchain: SwapchainState,
    pub object: Option<RenderObject>,
    pub render_pass_live: bool,
    pub pipeline: PipelineState,
    pub framebuffer: FramebufferState,
    pub camera: CameraState,
    pub viewport: ViewportRect,
    pub window_dimensions: Dimensions<u32>,
    pub recreate_swapchain: bool,
    pub bg_color: RgbaValue,
    pub cur_color: Color,
    pub cur_value: u32,
    pub depth_buffer: Option<DepthBuffer>,
    /// Swapchains currently alive: always exactly one once initialised.
    pub live_swapchains: u32,
    /// Render passes currently alive: always exactly one once initialised.
    pub live_render_passes: u32,
}

impl RendererState {
    /// The scheduler's standing invariant: one live swapchain and render
    /// pass, one frame slot and one camera buffer per presentable image,
    /// live per-frame resources, and a usable object once loaded.
    pub open spec fn wf(&self) -> bool {
        &&& self.swapchain.size == SWAPCHAIN_IMAGE_COUNT
        &&& self.swapchain.configured
        &&& self.framebuffer.slots@.len() == self.swapchain.size
        &&& self.framebuffer.wf()
        &&& self.framebuffer.live
        &&& self.camera.wf()
        &&& self.camera.buffers@.len() == self.swapchain.size
        &&& self.live_swapchains == 1
        &&& self.live_render_passes == 1
        &&& self.render_pass_live
        &&& self.window_dimensions.width <= i16::MAX
        &&& self.window_dimensions.height <= i16::MAX
        &&& match self.object {
            Some(o) => o.wf(),
            None => true,
        }
        &&& match self.depth_buffer {
            Some(d) => d.depth_buffer.wf() && d.depth_buffer.transfered_image_fence.live
                && d.depth_desc_pool.live,
            None => true,
        }
    }

    /// The viewport covering the swapchain's extent.
    pub fn create_viewport(swapchain: &SwapchainState) -> (r: ViewportRect)
        requires
            swapchain.extent.width <= i16::MAX,
            swapchain.extent.height <= i16::MAX,
        ensures
            r == (ViewportRect {
                x: 0i16,
                y: 0i16,
                w: swapchain.extent.width as i16,
                h: swapchain.extent.height as i16,
            }),
    {
        ViewportRect {
            x: 0,
            y: 0,
            w: swapchain.extent.width as i16,
            h: swapchain.extent.height as i16,
        }
    }

    /// Brings the renderer up: swapchain, camera buffers, render pass, the
    /// depth buffer when the device's depth format supports an attachment
    /// (degraded mode without one otherwise), per-frame resources, and an
    /// empty pipeline. The first frame will request a recreation, as the
    /// loop expects.
    pub fn new(
        window_dimensions: Dimensions<u32>,
        formats: Option<Vec<SurfaceFormat>>,
        supports_mailbox: bool,
        depth_linear_features: u32,
        depth_optimal_features: u32,
        memory_types: &Vec<MemoryType>,
        type_mask: u32,
    ) -> (r: Result<RendererState, RenderError>)
        requires
            window_dimensions.width <= i16::MAX,
            window_dimensions.height <= i16::MAX,
            memory_types@.len() <= 32,
            match formats {
                Option::Some(fs) => fs@.len() > 0,
                Option::None => true,
            },
        ensures
            match r {
                Ok(s) => {
                    &&& s.wf()
                    &&& s.swapchain.format == spec_select_format(
                        match formats {
                            Option::Some(fs) => Option::Some(fs@),
                            Option::None => Option::None,
                        },
                    )
                    &&& s.swapchain.extent == window_dimensions
                    &&& s.swapchain.frame_index == SWAPCHAIN_IMAGE_COUNT
                    &&& s.window_dimensions == window_dimensions
                    &&& s.recreate_swapchain
                    &&& s.object is None
                    &&& !s.pipeline.pipeline_live
                    &&& s.bg_color == (RgbaValue { r: 0u32, g: 0u32, b: 0u32, a: 255u32 })
                    &&& s.cur_color == Color::Red
                    &&& s.cur_value == 0
                    &&& (s.depth_buffer is Some <==> (depth_linear_features
                        & crate::image::FEATURE_DEPTH_STENCIL_ATTACHMENT != 0
                        || depth_optimal_features
                        & crate::image::FEATURE_DEPTH_STENCIL_ATTACHMENT != 0))
                    &&& forall|i: int|
                        0 <= i < s.framebuffer.slots@.len() ==> #[trigger] s.framebuffer.slots@[i]
                            == FrameSlot::initial()
                    &&& s.viewport == (ViewportRect {
                        x: 0i16,
                        y: 0i16,
                        w: window_dimensions.width as i16,
                        h: window_dimensions.height as i16,
                    })
                },
                Err(e) => {
                    &&& e == RenderError::NoSuitableMemoryType
                    &&& (crate::buffer::no_suitable_memory_type(
                        memory_types@,
                        type_mask,
                        crate::buffer::PROP_CPU_VISIBLE | crate::buffer::PROP_COHERENT,
                    ) || ((depth_linear_features
                        & crate::image::FEATURE_DEPTH_STENCIL_ATTACHMENT != 0
                        || depth_optimal_features
                        & crate::image::FEATURE_DEPTH_STENCIL_ATTACHMENT != 0)
                        && crate::buffer::no_suitable_memory_type(
                        memory_types@,
                        type_mask,
                        crate::buffer::PROP_DEVICE_LOCAL,
                    )))
                },
            },
    {
        let (swapchain, _present_mode) = SwapchainState::new(
            window_dimensions,
            formats,
            supports_mailbox,
        );
        let camera = match CameraState::new(
            SWAPCHAIN_IMAGE_COUNT as usize,
            memory_types,
            type_mask,
        ) {
            Ok(c) => c,
            Err(e) => {
                return Err(e);
            },
        };
        let viewport = Self::create_viewport(&swapchain);
        let render_pass_live = true;
        let depth_buffer = if stencil_support(depth_linear_features, depth_optimal_features) {
            match DepthBuffer::new(
                Dimensions {
                    width: window_dimensions.width,
                    height: window_dimensions.height,
                },
                memory_types,
                type_mask,
            ) {
                Ok((d, _plan)) => Some(d),
                Err(e) => {
                    return Err(e);
                },
            }
        } else {
            None
        };
        let framebuffer = FramebufferState::new(SWAPCHAIN_IMAGE_COUNT);
        let pipeline = PipelineState::empty();
        Ok(RendererState {
            swapchain,
            object: None,
            render_pass_live,
            pipeline,
            framebuffer,
            camera,
            viewport,
            window_dimensions,
            recreate_swapchain: true,
            bg_color: RgbaValue { r: 0, g: 0, b: 0, a: 255 },
            cur_color: Color::Red,
            cur_value: 0,
            depth_buffer,
            live_swapchains: 1,
            live_render_passes: 1,
        })
    }

    /// The descriptor set layouts a pipeline is built over: the camera's,
    /// then the object's texture and colour layouts.
    fn collect_layouts(&self) -> (r: Vec<Vec<LayoutBinding>>)
        requires
            self.object is Some,
            self.object.unwrap().wf(),
        ensures
            r@.len() == 3,
            r@[0]@ == self.camera.desc.layout.bindings@,
            r@[1]@ == self.object.unwrap().image.desc.layout.bindings@,
            r@[2]@ == self.object.unwrap().color_uniform.desc.unwrap().layout.bindings@,
    {
        let mut layouts: Vec<Vec<LayoutBinding>> = Vec::new();
        layouts.push(copy_bindings(&self.camera.desc.layout.bindings));
        match &self.object {
            Some(o) => {
                layouts.push(copy_bindings(&o.image.desc.layout.bindings));
                match &o.color_uniform.desc {
                    Some(d) => {
                        layouts.push(copy_bindings(&d.layout.bindings));
                    },
                    None => {
                        proof {
                            assert(false);
                        }
                    },
                }
            },
            None => {
                proof {
                    assert(false);
                }
            },
        }
        layouts
    }

    /// Rebuilds the swapchain wholesale after the device has gone idle:
    /// every swapchain-dependent object — the depth buffer, the per-frame
    /// pools and semaphores, the render pass, the swapchain itself — is torn
    /// down in reverse creation order and created anew, the pipeline is
    /// rebuilt against the new render pass, and the viewport follows the new
    /// extent. Recreation leaves exactly one live swapchain, one live render
    /// pass and one fresh frame slot per image, however often it runs, and
    /// the frame counter carries across generations. The request flag is
    /// cleared once recreation has succeeded.
    pub fn recreate_swapchain(
        &mut self,
        formats: Option<Vec<SurfaceFormat>>,
        supports_mailbox: bool,
        depth_linear_features: u32,
        depth_optimal_features: u32,
        memory_types: &Vec<MemoryType>,
        type_mask: u32,
    ) -> (r: Result<(), RenderError>)
        requires
            old(self).wf(),
            old(self).object is Some,
            memory_types@.len() <= 32,
            match formats {
                Option::Some(fs) => fs@.len() > 0,
                Option::None => true,
            },
        ensures
            match r {
                Ok(()) => {
                    &&& final(self).wf()
                    &&& final(self).live_swapchains == 1
                    &&& final(self).live_render_passes == 1
                    &&& final(self).framebuffer.slots@.len() == final(self).swapchain.size
                    &&& final(self).swapchain.size == SWAPCHAIN_IMAGE_COUNT
                    &&& forall|i: int|
                        0 <= i < final(self).framebuffer.slots@.len()
                            ==> #[trigger] final(self).framebuffer.slots@[i]
                            == FrameSlot::initial()
                    &&& final(self).swapchain.format == spec_select_format(
                        match formats {
                            Option::Some(fs) => Option::Some(fs@),
                            Option::None => Option::None,
                        },
                    )
                    &&& final(self).swapchain.extent == old(self).window_dimensions
                    &&& final(self).swapchain.frame_index == old(self).swapchain.frame_index
                    &&& final(self).pipeline.pipeline_live
                    &&& final(self).pipeline.pipeline_layout_live
                    &&& final(self).pipeline.desc_layouts@.len() == 3
                    &&& final(self).pipeline.desc_layouts@[0]@ == final(self).camera.desc.layout.bindings@
                    &&& final(self).pipeline.desc_layouts@[1]@ == final(self).object.unwrap().image.desc.layout.bindings@
                    &&& final(self).pipeline.desc_layouts@[2]@ == final(self).object.unwrap().color_uniform.desc.unwrap().layout.bindings@
                    &&& !final(self).recreate_swapchain
                    &&& final(self).object == old(self).object
                    &&& (final(self).depth_buffer is Some <==> (depth_linear_features
                        & crate::image::FEATURE_DEPTH_STENCIL_ATTACHMENT != 0
                        || depth_optimal_features
                        & crate::image::FEATURE_DEPTH_STENCIL_ATTACHMENT != 0))
                    &&& final(self).window_dimensions == old(self).window_dimensions
                    &&& final(self).bg_color == old(self).bg_color
                    &&& final(self).cur_color == old(self).cur_color
                    &&& final(self).cur_value == old(self).cur_value
                    &&& final(self).camera == old(self).camera
                    &&& final(self).viewport == (ViewportRect {
                        x: 0i16,
                        y: 0i16,
                        w: old(self).window_dimensions.width as i16,
                        h: old(self).window_dimensions.height as i16,
                    })
                },
                Err(e) => {
                    &&& e == RenderError::NoSuitableMemoryType
                    &&& (depth_linear_features & crate::image::FEATURE_DEPTH_STENCIL_ATTACHMENT
                        != 0 || depth_optimal_features
                        & crate::image::FEATURE_DEPTH_STENCIL_ATTACHMENT != 0)
                    &&& crate::buffer::no_suitable_memory_type(
                        memory_types@,
                        type_mask,
                        crate::buffer::PROP_DEVICE_LOCAL,
                    )
                    &&& final(self).wf()
                    &&& final(self).live_swapchains == 1
                    &&& final(self).live_render_passes == 1
                },
            },
    {
        // the device-idle wait: nothing in flight may reference what is
        // about to be destroyed
        self.framebuffer.wait_all_fences();

        // the only fallible step runs before anything is torn down
        let new_depth = if stencil_support(depth_linear_features, depth_optimal_features) {
            match DepthBuffer::new(
                Dimensions {
                    width: self.window_dimensions.width,
                    height: self.window_dimensions.height,
                },
                memory_types,
                type_mask,
            ) {
                Ok((d, _plan)) => Some(d),
                Err(e) => {
                    return Err(e);
                },
            }
        } else {
            None
        };

        // the old depth buffer goes first, waiting on its own fence
        match &mut self.depth_buffer {
            Some(d) => {
                d.depth_buffer.teardown();
                d.depth_desc_pool.teardown();
            },
            None => {},
        }
        self.depth_buffer = new_depth;

        // per-frame pools and semaphores, after their fences
        self.framebuffer.teardown();

        // the old swapchain is replaced wholesale, never patched; the frame
        // counter carries across generations
        let old_frame_index = self.swapchain.frame_index;
        self.live_swapchains = self.live_swapchains - 1;
        let (mut swapchain, _present_mode) = SwapchainState::new(
            self.window_dimensions,
            formats,
            supports_mailbox,
        );
        swapchain.frame_index = old_frame_index;
        self.swapchain = swapchain;
        self.live_swapchains = self.live_swapchains + 1;

        // the render pass is rebuilt against the new swapchain's format
        self.live_render_passes = self.live_render_passes - 1;
        self.render_pass_live = true;
        self.live_render_passes = self.live_render_passes + 1;

        self.framebuffer = FramebufferState::new(SWAPCHAIN_IMAGE_COUNT);

        // the pipeline was created against the old render pass object
        let layouts = self.collect_layouts();
        self.pipeline.new_pipeline(layouts, self.render_pass_live);

        self.viewport = Self::create_viewport(&self.swapchain);
        self.recreate_swapchain = false;
        Ok(())
    }

    /// Loads a level: stores the object, builds the pipeline over the camera
    /// and object layouts, and runs a full recreation so the first frame
    /// draws against fresh per-frame resources.
    pub fn load_level(
        &mut self,
        object: RenderObject,
        formats: Option<Vec<SurfaceFormat>>,
        supports_mailbox: bool,
        depth_linear_features: u32,
        depth_optimal_features: u32,
        memory_types: &Vec<MemoryType>,
        type_mask: u32,
    ) -> (r: Result<(), RenderError>)
        requires
            old(self).wf(),
            object.wf(),
            memory_types@.len() <= 32,
            match formats {
                Option::Some(fs) => fs@.len() > 0,
                Option::None => true,
            },
        ensures
            match r {
                Ok(()) => {
                    &&& final(self).wf()
                    &&& final(self).object == Some(object)
                    &&& final(self).pipeline.pipeline_live
                    &&& final(self).pipeline.desc_layouts@.len() == 3
                    &&& final(self).pipeline.desc_layouts@[0]@ == final(self).camera.desc.layout.bindings@
                    &&& final(self).pipeline.desc_layouts@[1]@
                        == object.image.desc.layout.bindings@
                    &&& final(self).pipeline.desc_layouts@[2]@
                        == object.color_uniform.desc.unwrap().layout.bindings@
                    &&& !final(self).recreate_swapchain
                    &&& final(self).live_swapchains == 1
                    &&& final(self).live_render_passes == 1
                    &&& final(self).framebuffer.slots@.len() == final(self).swapchain.size
                    &&& final(self).swapchain.size == SWAPCHAIN_IMAGE_COUNT
                    &&& forall|i: int|
                        0 <= i < final(self).framebuffer.slots@.len()
                            ==> #[trigger] final(self).framebuffer.slots@[i]
                            == FrameSlot::initial()
                    &&& final(self).swapchain.frame_index == old(self).swapchain.frame_index
                    &&& final(self).swapchain.extent == old(self).window_dimensions
                },
                Err(e) => {
                    &&& e == RenderError::NoSuitableMemoryType
                    &&& (depth_linear_features & crate::image::FEATURE_DEPTH_STENCIL_ATTACHMENT
                        != 0 || depth_optimal_features
                        & crate::image::FEATURE_DEPTH_STENCIL_ATTACHMENT != 0)
                    &&& crate::buffer::no_suitable_memory_type(
                        memory_types@,
                        type_mask,
                        crate::buffer::PROP_DEVICE_LOCAL,
                    )
                },
            },
    {
        self.object = Some(object);
        let layouts = self.collect_layouts();
        self.pipeline.new_pipeline(layouts, self.render_pass_live);
        match self.recreate_swapchain(
            formats,
            supports_mailbox,
            depth_linear_features,
            depth_optimal_features,
            memory_types,
            type_mask,
        ) {
            Ok(()) => Ok(()),
            Err(e) => Err(e),
        }
    }

    /// The top of a frame iteration: with no level loaded, the frame is not
    /// drawable and the caller gets an error value rather than a panic; a
    /// frame arriving within the minimum interval is throttled; a pending
    /// recreation request must be honoured before acquiring; otherwise the
    /// frame proceeds.
    pub fn begin_frame(&self, elapsed_ms: u128) -> (r: Result<FrameGate, NoLevelLoadedError>)
        ensures
            match r {
                Ok(gate) => {
                    &&& self.pipeline.pipeline_live
                    &&& gate == (if elapsed_ms < 1 {
                        FrameGate::Throttled
                    } else if self.recreate_swapchain {
                        FrameGate::RecreateFirst
                    } else {
                        FrameGate::Ready
                    })
                },
                Err(e) => {
                    &&& !self.pipeline.pipeline_live
                    &&& e.message@ == "No level is loaded! Load a level before drawing the scene."@
                },
            },
    {
        if self.pipeline.is_empty() {
            return Err(NoLevelLoadedError {
                message: "No level is loaded! Load a level before drawing the scene.".to_owned(),
            });
        }
        if elapsed_ms < 1 {
            return Ok(FrameGate::Throttled);
        }
        if self.recreate_swapchain {
            return Ok(FrameGate::RecreateFirst);
        }
        Ok(FrameGate::Ready)
    }

    /// Everything except the frame counter and the recreation flag is
    /// untouched.
    pub open spec fn same_except_frame(pre: RendererState, post: RendererState) -> bool {
        &&& post.object == pre.object
        &&& post.render_pass_live == pre.render_pass_live
        &&& post.pipeline == pre.pipeline
        &&& post.framebuffer.slots@ == pre.framebuffer.slots@
        &&& post.framebuffer.last_ref == pre.framebuffer.last_ref
        &&& post.framebuffer.live == pre.framebuffer.live
        &&& post.camera == pre.camera
        &&& post.viewport == pre.viewport
        &&& post.window_dimensions == pre.window_dimensions
        &&& post.bg_color == pre.bg_color
        &&& post.cur_color == pre.cur_color
        &&& post.cur_value == pre.cur_value
        &&& post.depth_buffer == pre.depth_buffer
        &&& post.live_swapchains == pre.live_swapchains
        &&& post.live_render_passes == pre.live_render_passes
        &&& post.swapchain.extent == pre.swapchain.extent
        &&& post.swapchain.format == pre.swapchain.format
        &&& post.swapchain.size == pre.swapchain.size
        &&& post.swapchain.configured == pre.swapchain.configured
    }

    /// Consumes the acquisition result. A failed acquisition schedules a
    /// recreation and skips the frame: nothing is submitted, nothing is
    /// presented, the counter does not move. A successful one selects the
    /// frame slot `frameCounter mod N` — always in bounds — and advances the
    /// counter.
    pub fn on_acquire(&mut self, acquired: bool) -> (r: Option<usize>)
        requires
            old(self).wf(),
            acquired ==> old(self).swapchain.frame_index < u32::MAX,
        ensures
            final(self).wf(),
            Self::same_except_frame(*old(self), *final(self)),
            !acquired ==> {
                &&& r is None
                &&& final(self).recreate_swapchain
                &&& final(self).swapchain.frame_index == old(self).swapchain.frame_index
            },
            acquired ==> {
                &&& r == Some(
                    (old(self).swapchain.frame_index % old(self).swapchain.size) as usize,
                )
                &&& r.unwrap() < old(self).swapchain.size
                &&& final(self).swapchain.frame_index == old(self).swapchain.frame_index + 1
                &&& final(self).recreate_swapchain == old(self).recreate_swapchain
            },
    {
        if !acquired {
            self.recreate_swapchain = true;
            return None;
        }
        let slot = (self.swapchain.frame_index % self.swapchain.size) as usize;
        self.swapchain.frame_index = self.swapchain.frame_index + 1;
        Some(slot)
    }

    /// Records and submits one frame into `slot`: the slot's pool is reset —
    /// only allowed because its guarding fence has signaled — a command
    /// buffer is reused from the recycle list or freshly allocated, the
    /// frame's commands are recorded in their fixed order, the submission
    /// leaves the fence unsignaled until the GPU finishes, and the buffer
    /// goes back on the recycle list.
    pub fn record_and_submit(&mut self, slot: usize) -> (plan: Vec<RenderCommand>)
        requires
            old(self).wf(),
            old(self).pipeline.pipeline_live,
            old(self).object is Some,
            slot < old(self).framebuffer.slots@.len(),
            old(self).framebuffer.slots@[slot as int].fence.signaled,
            old(self).framebuffer.slots@[slot as int].allocated_buffers < u32::MAX,
            old(self).framebuffer.slots@[slot as int].recycled_buffers < u32::MAX,
        ensures
            final(self).wf(),
            plan@ == spec_record_plan(
                old(self).viewport,
                old(self).bg_color,
                old(self).object.unwrap().indices@.len() as u32,
                old(self).depth_buffer is Some,
                old(self).object.unwrap().index_buffer is Some,
            ),
            final(self).framebuffer.slots@.len() == old(self).framebuffer.slots@.len(),
            !final(self).framebuffer.slots@[slot as int].fence.signaled,
            final(self).framebuffer.slots@ == old(self).framebuffer.slots@.update(
                slot as int,
                final(self).framebuffer.slots@[slot as int],
            ),
            old(self).framebuffer.slots@[slot as int].recycled_buffers > 0
                ==> final(self).framebuffer.slots@[slot as int] == (FrameSlot {
                fence: TransferFence { signaled: false, live: true },
                ..old(self).framebuffer.slots@[slot as int]
            }),
            old(self).framebuffer.slots@[slot as int].recycled_buffers == 0
                ==> final(self).framebuffer.slots@[slot as int] == (FrameSlot {
                fence: TransferFence { signaled: false, live: true },
                allocated_buffers: (old(self).framebuffer.slots@[slot as int].allocated_buffers
                    + 1) as u32,
                recycled_buffers: 1u32,
                ..old(self).framebuffer.slots@[slot as int]
            }),
            final(self).object == old(self).object,
            final(self).swapchain == old(self).swapchain,
            final(self).camera == old(self).camera,
            final(self).pipeline == old(self).pipeline,
            final(self).render_pass_live == old(self).render_pass_live,
            final(self).window_dimensions == old(self).window_dimensions,
            final(self).recreate_swapchain == old(self).recreate_swapchain,
            final(self).viewport == old(self).viewport,
            final(self).bg_color == old(self).bg_color,
            final(self).cur_color == old(self).cur_color,
            final(self).cur_value == old(self).cur_value,
            final(self).depth_buffer == old(self).depth_buffer,
            final(self).live_swapchains == old(self).live_swapchains,
            final(self).live_render_passes == old(self).live_render_passes,
    {
        self.framebuffer.prepare_slot(slot);
        let mut plan: Vec<RenderCommand> = Vec::new();
        plan.push(RenderCommand::BeginCommandBuffer);
        plan.push(RenderCommand::SetViewport { rect: self.viewport });
        plan.push(RenderCommand::SetScissor { rect: self.viewport });
        plan.push(RenderCommand::BindGraphicsPipeline);
        plan.push(RenderCommand::BeginRenderPass {
            bg: self.bg_color,
            with_depth_clear: match &self.depth_buffer {
                Some(_) => true,
                None => false,
            },
        });
        let index_count: u32 = match &self.object {
            Some(o) => {
                let _next_binding = o.bind_buffers(&mut plan, 0);
                o.indices.len() as u32
            },
            None => {
                proof {
                    assert(false);
                }
                0
            },
        };
        plan.push(RenderCommand::BindCameraDescriptorSet);
        plan.push(RenderCommand::BindObjectTextureDescriptorSet);
        plan.push(RenderCommand::BindObjectColorDescriptorSet);
        plan.push(RenderCommand::DrawIndexed { index_count });
        plan.push(RenderCommand::EndRenderPass);
        plan.push(RenderCommand::FinishCommandBuffer);
        self.framebuffer.recycle_slot_buffer(slot);
        proof {
            assert(plan@ =~= spec_record_plan(
                old(self).viewport,
                old(self).bg_color,
                old(self).object.unwrap().indices@.len() as u32,
                old(self).depth_buffer is Some,
                old(self).object.unwrap().index_buffer is Some,
            ));
            assert(self.framebuffer.slots@ =~= old(self).framebuffer.slots@.update(
                slot as int,
                self.framebuffer.slots@[slot as int],
            ));
        }
        plan
    }

    /// Consumes the presentation result: a failed present schedules a
    /// recreation for the top of the next iteration, nothing else changes.
    pub fn on_present(&mut self, presented: bool)
        ensures
            *final(self) == (RendererState {
                recreate_swapchain: old(self).recreate_swapchain || !presented,
                ..*old(self)
            }),
    {
        if !presented {
            self.recreate_swapchain = true;
        }
    }

    /// Everything except the colour-input state (entered value, selected
    /// channel, background colour and the object's colour) is untouched.
    pub open spec fn same_except_color_state(pre: RendererState, post: RendererState) -> bool {
        &&& post.swapchain == pre.swapchain
        &&& post.render_pass_live == pre.render_pass_live
        &&& post.pipeline == pre.pipeline
        &&& post.framebuffer.slots@ == pre.framebuffer.slots@
        &&& post.framebuffer.last_ref == pre.framebuffer.last_ref
        &&& post.framebuffer.live == pre.framebuffer.live
        &&& post.camera == pre.camera
        &&& post.viewport == pre.viewport
        &&& post.window_dimensions == pre.window_dimensions
        &&& post.recreate_swapchain == pre.recreate_swapchain
        &&& post.depth_buffer == pre.depth_buffer
        &&& post.live_swapchains == pre.live_swapchains
        &&& post.live_render_passes == pre.live_render_passes
    }

    /// The loaded object's colour was set through the named channel and its
    /// uniform buffer holds the new colour; nothing else of it changed.
    pub open spec fn object_color_updated(
        pre: RendererState,
        post: RendererState,
        channel: Color,
        value: u32,
    ) -> bool {
        &&& pre.object is Some
        &&& post.object is Some
        &&& post.object.unwrap().color == spec_apply_channel(
            pre.object.unwrap().color,
            channel,
            value,
        )
        &&& post.object.unwrap().color_uniform.buffer.unwrap()@ == spec_color_bytes(
            post.object.unwrap().color,
        )
        &&& post.object.unwrap().vertices@ == pre.object.unwrap().vertices@
        &&& post.object.unwrap().indices@ == pre.object.unwrap().indices@
        &&& post.object.unwrap().vertex_buffer == pre.object.unwrap().vertex_buffer
        &&& post.object.unwrap().index_buffer == pre.object.unwrap().index_buffer
        &&& post.object.unwrap().image == pre.object.unwrap().image
    }

    /// Writes `value` into the selected channel of the object's colour
    /// uniform.
    fn update_uniform_buffer(&mut self, value: u32)
        requires
            old(self).wf(),
            old(self).object is Some,
        ensures
            final(self).wf(),
            Self::same_except_color_state(*old(self), *final(self)),
            Self::object_color_updated(*old(self), *final(self), old(self).cur_color, value),
            final(self).cur_value == old(self).cur_value,
            final(self).cur_color == old(self).cur_color,
            final(self).bg_color == old(self).bg_color,
    {
        let channel = self.cur_color;
        match &mut self.object {
            Some(o) => {
                o.update_color(&channel, value);
            },
            None => {
                proof {
                    assert(false);
                }
            },
        }
    }

    /// Writes `value` into the selected channel of the background colour;
    /// alpha is not a background channel and changes nothing.
    fn update_bg(&mut self, value: u32)
        requires
            old(self).wf(),
        ensures
            final(self).wf(),
            *final(self) == (RendererState {
                bg_color: spec_bg_apply(old(self).bg_color, old(self).cur_color, value),
                ..*old(self)
            }),
    {
        match self.cur_color {
            Color::Red => {
                self.bg_color.r = value;
            },
            Color::Green => {
                self.bg_color.g = value;
            },
            Color::Blue => {
                self.bg_color.b = value;
            },
            Color::Alpha => {},
        }
    }

    /// One key of the colour controls: digits build up a value, `R`, `G`,
    /// `B` and `V` select the channel (resetting the value), enter confirms
    /// the value into the object's colour and `C` into the background, and
    /// the arrow keys nudge the value by one — clamped to 0..=255 — applying
    /// it as they go: up/down to the object's colour, right/left to the
    /// background. Keys outside the colour controls change nothing here.
    pub fn input(&mut self, kc: Key)
        requires
            old(self).wf(),
            match kc {
                Key::Key0 | Key::Key1 | Key::Key2 | Key::Key3 | Key::Key4 | Key::Key5 | Key::Key6
                    | Key::Key7 | Key::Key8 | Key::Key9 => old(self).cur_value * 10 + 9
                    <= u32::MAX,
                Key::Return | Key::Up | Key::Down => old(self).object is Some,
                _ => true,
            },
        ensures
            final(self).wf(),
            Self::same_except_color_state(*old(self), *final(self)),
            match kc {
                Key::Key0 => *final(self) == (RendererState {
                    cur_value: (old(self).cur_value * 10) as u32,
                    ..*old(self)
                }),
                Key::Key1 => *final(self) == (RendererState {
                    cur_value: (old(self).cur_value * 10 + 1) as u32,
                    ..*old(self)
                }),
                Key::Key2 => *final(self) == (RendererState {
                    cur_value: (old(self).cur_value * 10 + 2) as u32,
                    ..*old(self)
                }),
                Key::Key3 => *final(self) == (RendererState {
                    cur_value: (old(self).cur_value * 10 + 3) as u32,
                    ..*old(self)
                }),
                Key::Key4 => *final(self) == (RendererState {
                    cur_value: (old(self).cur_value * 10 + 4) as u32,
                    ..*old(self)
                }),
                Key::Key5 => *final(self) == (RendererState {
                    cur_value: (old(self).cur_value * 10 + 5) as u32,
                    ..*old(self)
                }),
                Key::Key6 => *final(self) == (RendererState {
                    cur_value: (old(self).cur_value * 10 + 6) as u32,
                    ..*old(self)
                }),
                Key::Key7 => *final(self) == (RendererState {
                    cur_value: (old(self).cur_value * 10 + 7) as u32,
                    ..*old(self)
                }),
                Key::Key8 => *final(self) == (RendererState {
                    cur_value: (old(self).cur_value * 10 + 8) as u32,
                    ..*old(self)
                }),
                Key::Key9 => *final(self) == (RendererState {
                    cur_value: (old(self).cur_value * 10 + 9) as u32,
                    ..*old(self)
                }),
                Key::R => *final(self) == (RendererState {
                    cur_value: 0u32,
                    cur_color: Color::Red,
                    ..*old(self)
                }),
                Key::G => *final(self) == (RendererState {
                    cur_value: 0u32,
                    cur_color: Color::Green,
                    ..*old(self)
                }),
                Key::B => *final(self) == (RendererState {
                    cur_value: 0u32,
                    cur_color: Color::Blue,
                    ..*old(self)
                }),
                Key::V => *final(self) == (RendererState {
                    cur_value: 0u32,
                    cur_color: Color::Alpha,
                    ..*old(self)
                }),
                Key::Return => {
                    &&& final(self).cur_value == 0
                    &&& final(self).cur_color == old(self).cur_color
                    &&& final(self).bg_color == old(self).bg_color
                    &&& Self::object_color_updated(
                        *old(self),
                        *final(self),
                        old(self).cur_color,
                        old(self).cur_value,
                    )
                },
                Key::C => *final(self) == (RendererState {
                    cur_value: 0u32,
                    bg_color: spec_bg_apply(
                        old(self).bg_color,
                        old(self).cur_color,
                        old(self).cur_value,
                    ),
                    ..*old(self)
                }),
                Key::Up => {
                    let v = if old(self).cur_value < 255 {
                        (old(self).cur_value + 1) as u32
                    } else {
                        old(self).cur_value
                    };
                    &&& final(self).cur_value == v
                    &&& final(self).cur_color == old(self).cur_color
                    &&& final(self).bg_color == old(self).bg_color
                    &&& Self::object_color_updated(*old(self), *final(self), old(self).cur_color, v)
                },
                Key::Down => {
                    let v = if old(self).cur_value > 0 {
                        (old(self).cur_value - 1) as u32
                    } else {
                        old(self).cur_value
                    };
                    &&& final(self).cur_value == v
                    &&& final(self).cur_color == old(self).cur_color
                    &&& final(self).bg_color == old(self).bg_color
                    &&& Self::object_color_updated(*old(self), *final(self), old(self).cur_color, v)
                },
                Key::Right => {
                    let v = if old(self).cur_value < 255 {
                        (old(self).cur_value + 1) as u32
                    } else {
                        old(self).cur_value
                    };
                    *final(self) == (RendererState {
                        cur_value: v,
                        bg_color: spec_bg_apply(old(self).bg_color, old(self).cur_color, v),
                        ..*old(self)
                    })
                },
                Key::Left => {
                    let v = if old(self).cur_value > 0 {
                        (old(self).cur_value - 1) as u32
                    } else {
                        old(self).cur_value
                    };
                    *final(self) == (RendererState {
                        cur_value: v,
                        bg_color: spec_bg_apply(old(self).bg_color, old(self).cur_color, v),
                        ..*old(self)
                    })
                },
                _ => *final(self) == *old(self),
            },
    {
        match kc {
            Key::Key0 => {
                self.cur_value = self.cur_value * 10;
            },
            Key::Key1 => {
                self.cur_value = self.cur_value * 10 + 1;
            },
            Key::Key2 => {
                self.cur_value = self.cur_value * 10 + 2;
            },
            Key::Key3 => {
                self.cur_value = self.cur_value * 10 + 3;
            },
            Key::Key4 => {
                self.cur_value = self.cur_value * 10 + 4;
            },
            Key::Key5 => {
                self.cur_value = self.cur_value * 10 + 5;
            },
            Key::Key6 => {
                self.cur_value = self.cur_value * 10 + 6;
            },
            Key::Key7 => {
                self.cur_value = self.cur_value * 10 + 7;
            },
            Key::Key8 => {
                self.cur_value = self.cur_value * 10 + 8;
            },
            Key::Key9 => {
                self.cur_value = self.cur_value * 10 + 9;
            },
            Key::R => {
                self.cur_value = 0;
                self.cur_color = Color::Red;
            },
            Key::G => {
                self.cur_value = 0;
                self.cur_color = Color::Green;
            },
            Key::B => {
                self.cur_value = 0;
                self.cur_color = Color::Blue;
            },
            Key::V => {
                self.cur_value = 0;
                self.cur_color = Color::Alpha;
            },
            Key::Return => {
                self.update_uniform_buffer(self.cur_value);
                self.cur_value = 0;
            },
            Key::C => {
                self.update_bg(self.cur_value);
                self.cur_value = 0;
            },
            Key::Up => {
                if self.cur_value < 255 {
                    self.cur_value = self.cur_value + 1;
                }
                self.update_uniform_buffer(self.cur_value);
            },
            Key::Down => {
                if self.cur_value > 0 {
                    self.cur_value = self.cur_value - 1;
                }
                self.update_uniform_buffer(self.cur_value);
            },
            Key::Right => {
                if self.cur_value < 255 {
                    self.cur_value = self.cur_value + 1;
                }
                self.update_bg(self.cur_value);
            },
            Key::Left => {
                if self.cur_value > 0 {
                    self.cur_value = self.cur_value - 1;
                }
                self.update_bg(self.cur_value);
            },
            _ => {},
        }
    }

    /// A window resize: remember the new extent and request a recreation.
    /// Nothing is rebuilt here — however many resizes arrive before the next
    /// frame, the one pending request leads to exactly one recreation cycle.
    pub fn update_window_dimensions(&mut self, width: u32, height: u32)
        requires
            width <= i16::MAX,
            height <= i16::MAX,
        ensures
            *final(self) == (RendererState {
                window_dimensions: Dimensions { width, height },
                recreate_swapchain: true,
                ..*old(self)
            }),
    {
        self.window_dimensions = Dimensions { width, height };
        self.recreate_swapchain = true;
    }
}

/// The order in which the frame loop polls the colour-control keys, one
/// `input` step per held key: the digits, the channel selectors, the two
/// confirmations, then the four arrows.
pub fn color_key_order() -> (r: Vec<Key>)
    ensures
        r@ == seq![
            Key::Key0, Key::Key1, Key::Key2, Key::Key3, Key::Key4, Key::Key5, Key::Key6,
            Key::Key7, Key::Key8, Key::Key9, Key::R, Key::G, Key::B, Key::V, Key::Return, Key::C,
            Key::Up, Key::Down, Key::Right, Key::Left,
        ],
{
    let mut r: Vec<Key> = Vec::new();
    r.push(Key::Key0);
    r.push(Key::Key1);
    r.push(Key::Key2);
    r.push(Key::Key3);
    r.push(Key::Key4);
    r.push(Key::Key5);
    r.push(Key::Key6);
    r.push(Key::Key7);
    r.push(Key::Key8);
    r.push(Key::Key9);
    r.push(Key::R);
    r.push(Key::G);
    r.push(Key::B);
    r.push(Key::V);
    r.push(Key::Return);
    r.push(Key::C);
    r.push(Key::Up);
    r.push(Key::Down);
    r.push(Key::Right);
    r.push(Key::Left);
    proof {
        assert(r@ =~= seq![
            Key::Key0, Key::Key1, Key::Key2, Key::Key3, Key::Key4, Key::Key5, Key::Key6,
            Key::Key7, Key::Key8, Key::Key9, Key::R, Key::G, Key::B, Key::V, Key::Return, Key::C,
            Key::Up, Key::Down, Key::Right, Key::Left,
        ]);
    }
    r
}

/// Copies a layout's binding list.
fn copy_bindings(bindings: &Vec<LayoutBinding>) -> (r: Vec<LayoutBinding>)
    ensures
        r@ == bindings@,
{
    let mut out: Vec<LayoutBinding> = Vec::new();
    let mut i: usize = 0;
    while i < bindings.len()
        invariant
            i <= bindings@.len(),
            out@ == bindings@.take(i as int),
        decreases bindings@.len() - i,
    {
        out.push(bindings[i]);
        proof {
            assert(out@ =~= bindings@.take(i + 1));
        }
        i = i + 1;
    }
    proof {
        assert(bindings@.take(bindings@.len() as int) =~= bindings@);
    }
    out
}

} // verus!
