//! Decisions taken when the presentable-image chain is (re)built:
//! surface format, present mode, extent, image count and sharing mode.
//! The host executes the resulting plan against the driver.

use vstd::prelude::*;

verus! {

/// Sentinel format value meaning "the surface does not care".
pub const FORMAT_UNDEFINED: u32 = 0;

/// 8-bit BGRA, the fixed default pixel format.
pub const FORMAT_B8G8R8A8_UNORM: u32 = 44;

/// The sRGB nonlinear color space, the fixed default.
pub const COLOR_SPACE_SRGB_NONLINEAR: u32 = 0;

/// Sentinel extent component meaning "any size".
pub const EXTENT_ANY_SIZE: u32 = 0xffff_ffff;

/// A surface color format together with its color space.
#[derive(Clone, Copy, PartialEq, Eq, Structural, Debug)]
pub struct SurfaceFormat {
    pub format: u32,
    pub color_space: u32,
}

/// How acquired images are queued for display.
#[derive(Clone, Copy, PartialEq, Eq, Structural, Debug)]
pub enum PresentMode {
    Immediate,
    Mailbox,
    Fifo,
    FifoRelaxed,
}

/// A width and height in pixels.
#[derive(Clone, Copy, PartialEq, Eq, Structural, Debug)]
pub struct Extent2D {
    pub width: u32,
    pub height: u32,
}

/// What the surface reports about the sizes and counts it accepts.
#[derive(Clone, Copy, PartialEq, Eq, Structural, Debug)]
pub struct SurfaceCapabilities {
    pub min_image_count: u32,
    /// Zero means the surface declares no upper cap.
    pub max_image_count: u32,
    pub current_extent: Extent2D,
    pub min_image_extent: Extent2D,
    pub max_image_extent: Extent2D,
}

/// Whether both queue families may touch the images or only one.
#[derive(Clone, Copy, PartialEq, Eq, Structural, Debug)]
pub enum SharingMode {
    Exclusive,
    Concurrent,
}

/// The fixed default format pair: 8-bit BGRA with sRGB nonlinear.
pub open spec fn default_surface_format() -> SurfaceFormat {
    SurfaceFormat { format: FORMAT_B8G8R8A8_UNORM, color_space: COLOR_SPACE_SRGB_NONLINEAR }
}

/// The chosen format: the fixed default when the surface reports only
/// the undefined sentinel or lists the default pair anywhere; otherwise
/// the first reported format.
pub open spec fn spec_choose_format(formats: Seq<SurfaceFormat>) -> SurfaceFormat
    recommends
        formats.len() > 0,
{
    if formats.len() == 1 && formats[0].format == FORMAT_UNDEFINED {
        default_surface_format()
    } else if formats.contains(default_surface_format()) {
        default_surface_format()
    } else {
        formats[0]
    }
}

/// Picks the surface format as the surface reports them: a lone
/// undefined entry yields the fixed BGRA8/sRGB default, an exact match
/// of that default anywhere in the list is preferred, and otherwise the
/// first reported format stands.
pub fn choose_swap_surface_format(available_formats: &Vec<SurfaceFormat>) -> (chosen:
    SurfaceFormat)
    requires
        available_formats@.len() > 0,
    ensures
        chosen == spec_choose_format(available_formats@),
{
    let undefined_only = available_formats.len() == 1 && available_formats[0].format
        == FORMAT_UNDEFINED;
    if undefined_only {
        return SurfaceFormat {
            format: FORMAT_B8G8R8A8_UNORM,
            color_space: COLOR_SPACE_SRGB_NONLINEAR,
        };
    }
    let n = available_formats.len();
    for i in 0..n
        invariant
            n == available_formats@.len(),
            forall|j: int| 0 <= j < i ==> available_formats@[j] != default_surface_format(),
    {
        let candidate = available_formats[i];
        if candidate.format == FORMAT_B8G8R8A8_UNORM && candidate.color_space
            == COLOR_SPACE_SRGB_NONLINEAR {
            assert(available_formats@.contains(default_surface_format()));
            return candidate;
        }
    }
    assert(!available_formats@.contains(default_surface_format()));
    available_formats[0]
}

/// Present-mode priority, independent of the order the surface lists
/// them in: mailbox first, then immediate, then the mandatory FIFO.
pub open spec fn spec_choose_present_mode(modes: Seq<PresentMode>) -> PresentMode {
    if modes.contains(PresentMode::Mailbox) {
        PresentMode::Mailbox
    } else if modes.contains(PresentMode::Immediate) {
        PresentMode::Immediate
    } else {
        PresentMode::Fifo
    }
}

/// Picks the present mode by the fixed priority mailbox, then
/// immediate, then FIFO, whatever order the surface reported.
pub fn choose_swap_present_mode(available_present_modes: &Vec<PresentMode>) -> (chosen:
    PresentMode)
    ensures
        chosen == spec_choose_present_mode(available_present_modes@),
{
    let mut best_mode = PresentMode::Fifo;
    let n = available_present_modes.len();
    for i in 0..n
        invariant
            n == available_present_modes@.len(),
            forall|j: int| 0 <= j < i ==> available_present_modes@[j] != PresentMode::Mailbox,
            (exists|j: int| 0 <= j < i && available_present_modes@[j] == PresentMode::Immediate)
                ==> best_mode == PresentMode::Immediate,
            !(exists|j: int| 0 <= j < i && available_present_modes@[j] == PresentMode::Immediate)
                ==> best_mode == PresentMode::Fifo,
    {
        let mode = available_present_modes[i];
        if mode == PresentMode::Mailbox {
            assert(available_present_modes@.contains(PresentMode::Mailbox));
            return mode;
        } else if mode == PresentMode::Immediate {
            best_mode = PresentMode::Immediate;
            assert(exists|j: int|
                0 <= j < i + 1 && available_present_modes@[j] == PresentMode::Immediate);
        }
    }
    proof {
        let modes = available_present_modes@;
        assert(!modes.contains(PresentMode::Mailbox));
        if modes.contains(PresentMode::Immediate) {
            let k = choose|k: int| 0 <= k < modes.len() && modes[k] == PresentMode::Immediate;
            assert(exists|j: int| 0 <= j < n && modes[j] == PresentMode::Immediate);
        } else {
            assert(forall|j: int| 0 <= j < modes.len() ==> modes[j] != PresentMode::Immediate);
        }
    }
    best_mode
}

/// The present-mode priority reads only which modes the surface
/// offers, never the order it lists them in: two reports offering the
/// same modes get the same choice.
pub proof fn lemma_present_mode_order_independent(a: Seq<PresentMode>, b: Seq<PresentMode>)
    requires
        forall|m: PresentMode| a.contains(m) <==> b.contains(m),
    ensures
        spec_choose_present_mode(a) == spec_choose_present_mode(b),
{
    assert(a.contains(PresentMode::Mailbox) <==> b.contains(PresentMode::Mailbox));
    assert(a.contains(PresentMode::Immediate) <==> b.contains(PresentMode::Immediate));
}

/// A component clamped into the inclusive range the surface allows.
pub open spec fn spec_clamp(lo: u32, hi: u32, v: u32) -> u32 {
    let capped = if v < hi {
        v
    } else {
        hi
    };
    if capped > lo {
        capped
    } else {
        lo
    }
}

/// The chosen extent: the surface's own concrete extent when it
/// reports one, otherwise the window size clamped component-wise.
pub open spec fn spec_choose_extent(window: Extent2D, caps: SurfaceCapabilities) -> Extent2D {
    if caps.current_extent.width != EXTENT_ANY_SIZE {
        caps.current_extent
    } else {
        Extent2D {
            width: spec_clamp(caps.min_image_extent.width, caps.max_image_extent.width, window.width),
            height: spec_clamp(
                caps.min_image_extent.height,
                caps.max_image_extent.height,
                window.height,
            ),
        }
    }
}

/// Uses the surface's concrete current extent when it reports one;
/// otherwise derives the extent from the window's pixel size, clamped
/// component-wise into the surface's allowed range.
pub fn choose_swap_extent(window_size: Extent2D, capabilities: &SurfaceCapabilities) -> (extent:
    Extent2D)
    ensures
        extent == spec_choose_extent(window_size, *capabilities),
{
    if capabilities.current_extent.width != EXTENT_ANY_SIZE {
        capabilities.current_extent
    } else {
        let width_capped = if window_size.width < capabilities.max_image_extent.width {
            window_size.width
        } else {
            capabilities.max_image_extent.width
        };
        let width = if width_capped > capabilities.min_image_extent.width {
            width_capped
        } else {
            capabilities.min_image_extent.width
        };
        let height_capped = if window_size.height < capabilities.max_image_extent.height {
            window_size.height
        } else {
            capabilities.max_image_extent.height
        };
        let height = if height_capped > capabilities.min_image_extent.height {
            height_capped
        } else {
            capabilities.min_image_extent.height
        };
        Extent2D { width, height }
    }
}

/// One image more than the minimum, capped by the surface's maximum
/// when the surface declares one (zero means uncapped).
pub open spec fn spec_image_count(caps: SurfaceCapabilities) -> u32
    recommends
        caps.min_image_count < u32::MAX,
{
    if caps.max_image_count > 0 && caps.min_image_count + 1 > caps.max_image_count {
        caps.max_image_count
    } else {
        (caps.min_image_count + 1) as u32
    }
}

/// Requests one image more than the surface's minimum, capped at the
/// surface's maximum when it declares a nonzero cap.
pub fn swap_image_count(capabilities: &SurfaceCapabilities) -> (count: u32)
    requires
        capabilities.min_image_count < u32::MAX,
    ensures
        count == spec_image_count(*capabilities),
{
    let desired = capabilities.min_image_count + 1;
    if capabilities.max_image_count > 0 && desired > capabilities.max_image_count {
        capabilities.max_image_count
    } else {
        desired
    }
}

/// Concurrent sharing across both families when graphics and present
/// differ; exclusive when they coincide.
pub fn choose_sharing_mode(graphics_family: u32, present_family: u32) -> (mode: SharingMode)
    ensures
        mode == (if graphics_family == present_family {
            SharingMode::Exclusive
        } else {
            SharingMode::Concurrent
        }),
{
    if graphics_family == present_family {
        SharingMode::Exclusive
    } else {
        SharingMode::Concurrent
    }
}

/// Everything the host needs to create the presentable-image chain.
pub struct SwapchainPlan {
    pub surface_format: SurfaceFormat,
    pub present_mode: PresentMode,
    pub extent: Extent2D,
    pub image_count: u32,
    pub sharing_mode: SharingMode,
    /// The families listed on the chain under concurrent sharing.
    pub queue_family_indices: Vec<u32>,
}

/// Combines the format, present-mode, extent, image-count and sharing
/// decisions into the plan the host executes against the driver.
pub fn plan_swapchain(
    surface_formats: &Vec<SurfaceFormat>,
    surface_present_modes: &Vec<PresentMode>,
    surface_capabilities: &SurfaceCapabilities,
    window_size: Extent2D,
    graphics_family: u32,
    present_family: u32,
) -> (plan: SwapchainPlan)
    requires
        surface_formats@.len() > 0,
        surface_capabilities.min_image_count < u32::MAX,
    ensures
        plan.surface_format == spec_choose_format(surface_formats@),
        plan.present_mode == spec_choose_present_mode(surface_present_modes@),
        plan.extent == spec_choose_extent(window_size, *surface_capabilities),
        plan.image_count == spec_image_count(*surface_capabilities),
        plan.sharing_mode == (if graphics_family == present_family {
            SharingMode::Exclusive
        } else {
            SharingMode::Concurrent
        }),
        graphics_family == present_family ==> plan.queue_family_indices@ =~= seq![graphics_family],
        graphics_family != present_family ==> plan.queue_family_indices@ =~= seq![
            graphics_family,
            present_family,
        ],
{
    let surface_format = choose_swap_surface_format(surface_formats);
    let present_mode = choose_swap_present_mode(surface_present_modes);
    let extent = choose_swap_extent(window_size, surface_capabilities);
    let image_count = swap_image_count(surface_capabilities);
    let sharing_mode = choose_sharing_mode(graphics_family, present_family);
    let mut queue_family_indices: Vec<u32> = Vec::new();
    queue_family_indices.push(graphics_family);
    if graphics_family != present_family {
        queue_family_indices.push(present_family);
    }
    SwapchainPlan {
        surface_format,
        present_mode,
        extent,
        image_count,
        sharing_mode,
        queue_family_indices,
    }
}

/// One command of a pre-recorded command buffer.
#[derive(Clone, Copy, PartialEq, Eq, Structural, Debug)]
pub enum DrawCommand {
    /// Begin the render pass on the image's framebuffer, clearing to
    /// opaque black.
    BeginRenderPass { image: usize },
    /// Bind the one fixed graphics pipeline.
    BindPipeline,
    /// The draw call itself.
    Draw { vertex_count: u32, instance_count: u32, first_vertex: u32, first_instance: u32 },
    /// End the render pass.
    EndRenderPass,
}

/// The fixed command sequence of one image's buffer: begin the pass on
/// that image, bind the pipeline, draw three vertices in one instance
/// with no index buffer, end the pass.
pub open spec fn spec_command_script(image: usize) -> Seq<DrawCommand> {
    seq![
        (DrawCommand::BeginRenderPass { image }),
        DrawCommand::BindPipeline,
        (DrawCommand::Draw {
            vertex_count: 3,
            instance_count: 1,
            first_vertex: 0,
            first_instance: 0,
        }),
        DrawCommand::EndRenderPass,
    ]
}

/// Records one command buffer per swapchain image. The buffers'
/// contents are state-independent, so the host records them once with
/// a simultaneous-use flag and replays them every frame.
pub fn record_command_scripts(image_count: usize) -> (scripts: Vec<Vec<DrawCommand>>)
    ensures
        scripts@.len() == image_count,
        forall|i: int| 0 <= i < image_count ==> (#[trigger] scripts@[i])@ == spec_command_script(
            i as usize,
        ),
{
    let mut scripts: Vec<Vec<DrawCommand>> = Vec::new();
    for i in 0..image_count
        invariant
            scripts@.len() == i,
            forall|j: int| 0 <= j < i ==> (#[trigger] scripts@[j])@ == spec_command_script(
                j as usize,
            ),
    {
        let mut script: Vec<DrawCommand> = Vec::new();
        script.push(DrawCommand::BeginRenderPass { image: i });
        script.push(DrawCommand::BindPipeline);
        script.push(
            DrawCommand::Draw {
                vertex_count: 3,
                instance_count: 1,
                first_vertex: 0,
                first_instance: 0,
            },
        );
        script.push(DrawCommand::EndRenderPass);
        assert(script@ =~= spec_command_script(i as usize));
        scripts.push(script);
    }
    scripts
}

/// The classes of swapchain-dependent objects, named in the order they
/// must be destroyed.
#[derive(Clone, Copy, PartialEq, Eq, Structural, Debug)]
pub enum SwapchainResource {
    CommandBuffers,
    Framebuffers,
    Pipeline,
    PipelineLayout,
    RenderPass,
    ImageViews,
    SwapchainHandle,
}

/// The fixed order in which the swapchain-dependent objects are
/// released, before any rebuild and before the device goes away:
/// command buffers, framebuffers, pipeline, pipeline layout, render
/// pass, image views, then the swapchain handle. The device and the
/// instance are never touched here.
pub open spec fn spec_cleanup_swapchain_order() -> Seq<SwapchainResource> {
    seq![
        SwapchainResource::CommandBuffers,
        SwapchainResource::Framebuffers,
        SwapchainResource::Pipeline,
        SwapchainResource::PipelineLayout,
        SwapchainResource::RenderPass,
        SwapchainResource::ImageViews,
        SwapchainResource::SwapchainHandle,
    ]
}

/// Lists the swapchain-dependent objects in the order the host must
/// release them.
pub fn cleanup_swapchain_order() -> (order: Vec<SwapchainResource>)
    ensures
        order@ == spec_cleanup_swapchain_order(),
{
    let mut order: Vec<SwapchainResource> = Vec::new();
    order.push(SwapchainResource::CommandBuffers);
    order.push(SwapchainResource::Framebuffers);
    order.push(SwapchainResource::Pipeline);
    order.push(SwapchainResource::PipelineLayout);
    order.push(SwapchainResource::RenderPass);
    order.push(SwapchainResource::ImageViews);
    order.push(SwapchainResource::SwapchainHandle);
    assert(order@ =~= spec_cleanup_swapchain_order());
    order
}

} // verus!
