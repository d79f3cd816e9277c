use evn_engine::rendering::device::{
    device_extension_names, find_graphics_family, find_present_family, instance_extension_names,
    instance_layer_names, select_physical_device, unique_queue_families, DeviceCandidate,
    QueueFamily,
};
use evn_engine::rendering::frame::{AcquireResult, FrameAction, FrameScheduler, FrameStep};
use evn_engine::rendering::swapchain::{
    choose_sharing_mode, choose_swap_extent, choose_swap_present_mode, choose_swap_surface_format,
    cleanup_swapchain_order, plan_swapchain, record_command_scripts, swap_image_count, DrawCommand,
    Extent2D, PresentMode, SharingMode, SurfaceCapabilities, SurfaceFormat, SwapchainResource,
    COLOR_SPACE_SRGB_NONLINEAR, EXTENT_ANY_SIZE, FORMAT_B8G8R8A8_UNORM, FORMAT_UNDEFINED,
};
use evn_engine::rendering::{
    renderer_teardown_steps, teardown_order, RendererResource, MAX_FRAMES_IN_FLIGHT,
};

fn default_format() -> SurfaceFormat {
    SurfaceFormat {
        format: FORMAT_B8G8R8A8_UNORM,
        color_space: COLOR_SPACE_SRGB_NONLINEAR,
    }
}

fn caps(min_count: u32, max_count: u32, current: (u32, u32), lo: (u32, u32), hi: (u32, u32)) -> SurfaceCapabilities {
    SurfaceCapabilities {
        min_image_count: min_count,
        max_image_count: max_count,
        current_extent: Extent2D { width: current.0, height: current.1 },
        min_image_extent: Extent2D { width: lo.0, height: lo.1 },
        max_image_extent: Extent2D { width: hi.0, height: hi.1 },
    }
}

#[test]
fn present_mode_fifo_alone() {
    let modes = vec![PresentMode::Fifo];
    assert_eq!(choose_swap_present_mode(&modes), PresentMode::Fifo);
}

#[test]
fn present_mode_mailbox_beats_fifo() {
    let modes = vec![PresentMode::Fifo, PresentMode::Mailbox];
    assert_eq!(choose_swap_present_mode(&modes), PresentMode::Mailbox);
    let reordered = vec![PresentMode::Mailbox, PresentMode::Fifo];
    assert_eq!(choose_swap_present_mode(&reordered), PresentMode::Mailbox);
}

#[test]
fn present_mode_immediate_beats_fifo() {
    let modes = vec![PresentMode::Fifo, PresentMode::Immediate];
    assert_eq!(choose_swap_present_mode(&modes), PresentMode::Immediate);
    let reordered = vec![PresentMode::Immediate, PresentMode::Fifo];
    assert_eq!(choose_swap_present_mode(&reordered), PresentMode::Immediate);
}

#[test]
fn present_mode_mailbox_beats_immediate() {
    let modes = vec![PresentMode::Fifo, PresentMode::Immediate, PresentMode::Mailbox];
    assert_eq!(choose_swap_present_mode(&modes), PresentMode::Mailbox);
    let reordered = vec![PresentMode::Mailbox, PresentMode::Immediate, PresentMode::Fifo];
    assert_eq!(choose_swap_present_mode(&reordered), PresentMode::Mailbox);
    let another = vec![PresentMode::Immediate, PresentMode::Mailbox, PresentMode::Fifo];
    assert_eq!(choose_swap_present_mode(&another), PresentMode::Mailbox);
}

#[test]
fn format_undefined_sentinel_gives_default() {
    let formats = vec![SurfaceFormat { format: FORMAT_UNDEFINED, color_space: 7 }];
    assert_eq!(choose_swap_surface_format(&formats), default_format());
}

#[test]
fn format_exact_match_anywhere_is_preferred() {
    let formats = vec![
        SurfaceFormat { format: 3, color_space: 1 },
        SurfaceFormat { format: 9, color_space: 2 },
        default_format(),
    ];
    assert_eq!(choose_swap_surface_format(&formats), default_format());
}

#[test]
fn format_falls_back_to_first_entry() {
    let first = SurfaceFormat { format: 3, color_space: 1 };
    let formats = vec![first, SurfaceFormat { format: 9, color_space: 2 }];
    assert_eq!(choose_swap_surface_format(&formats), first);
}

#[test]
fn extent_clamps_up_small_window() {
    let c = caps(2, 0, (EXTENT_ANY_SIZE, EXTENT_ANY_SIZE), (64, 64), (4096, 4096));
    let e = choose_swap_extent(Extent2D { width: 10, height: 10 }, &c);
    assert_eq!((e.width, e.height), (64, 64));
}

#[test]
fn extent_clamps_down_large_window() {
    let c = caps(2, 0, (EXTENT_ANY_SIZE, EXTENT_ANY_SIZE), (64, 64), (4096, 4096));
    let e = choose_swap_extent(Extent2D { width: 9000, height: 9000 }, &c);
    assert_eq!((e.width, e.height), (4096, 4096));
}

#[test]
fn extent_in_bounds_passes_through() {
    let c = caps(2, 0, (EXTENT_ANY_SIZE, EXTENT_ANY_SIZE), (64, 64), (4096, 4096));
    let e = choose_swap_extent(Extent2D { width: 800, height: 600 }, &c);
    assert_eq!((e.width, e.height), (800, 600));
}

#[test]
fn extent_concrete_current_extent_wins() {
    let c = caps(2, 0, (1280, 720), (64, 64), (4096, 4096));
    let e = choose_swap_extent(Extent2D { width: 800, height: 600 }, &c);
    assert_eq!((e.width, e.height), (1280, 720));
}

#[test]
fn image_count_is_min_plus_one() {
    let c = caps(2, 0, (1, 1), (1, 1), (1, 1));
    assert_eq!(swap_image_count(&c), 3);
}

#[test]
fn image_count_respects_nonzero_cap() {
    let c = caps(2, 3, (1, 1), (1, 1), (1, 1));
    assert_eq!(swap_image_count(&c), 3);
    let capped = caps(3, 3, (1, 1), (1, 1), (1, 1));
    assert_eq!(swap_image_count(&capped), 3);
}

#[test]
fn sharing_mode_by_family_equality() {
    assert_eq!(choose_sharing_mode(1, 1), SharingMode::Exclusive);
    assert_eq!(choose_sharing_mode(0, 2), SharingMode::Concurrent);
}

#[test]
fn swapchain_plan_combines_choices() {
    let formats = vec![SurfaceFormat { format: 3, color_space: 1 }, default_format()];
    let modes = vec![PresentMode::Fifo, PresentMode::Immediate];
    let c = caps(2, 0, (EXTENT_ANY_SIZE, EXTENT_ANY_SIZE), (64, 64), (4096, 4096));
    let plan = plan_swapchain(&formats, &modes, &c, Extent2D { width: 800, height: 600 }, 0, 1);
    assert_eq!(plan.surface_format, default_format());
    assert_eq!(plan.present_mode, PresentMode::Immediate);
    assert_eq!((plan.extent.width, plan.extent.height), (800, 600));
    assert_eq!(plan.image_count, 3);
    assert_eq!(plan.sharing_mode, SharingMode::Concurrent);
    assert_eq!(plan.queue_family_indices, vec![0, 1]);
}

#[test]
fn queue_families_deduplicated() {
    assert_eq!(unique_queue_families(2, 2), vec![2]);
    assert_eq!(unique_queue_families(0, 1), vec![0, 1]);
    assert_eq!(unique_queue_families(3, 1), vec![1, 3]);
}

#[test]
fn device_selection_is_first_fit() {
    let unsuitable = DeviceCandidate {
        has_swapchain_extension: false,
        surface_formats: vec![default_format()],
        surface_present_modes: vec![PresentMode::Fifo],
        queue_families: vec![QueueFamily { supports_graphics: true, supports_present: true }],
    };
    let suitable = DeviceCandidate {
        has_swapchain_extension: true,
        surface_formats: vec![default_format()],
        surface_present_modes: vec![PresentMode::Fifo],
        queue_families: vec![
            QueueFamily { supports_graphics: false, supports_present: true },
            QueueFamily { supports_graphics: true, supports_present: false },
        ],
    };
    let also_suitable = DeviceCandidate {
        has_swapchain_extension: true,
        surface_formats: vec![default_format()],
        surface_present_modes: vec![PresentMode::Fifo],
        queue_families: vec![QueueFamily { supports_graphics: true, supports_present: true }],
    };
    let candidates = vec![unsuitable, suitable, also_suitable];
    let selected = select_physical_device(&candidates).expect("a device qualifies");
    assert_eq!(selected, (1, 1, 0));
}

#[test]
fn device_selection_rejects_all_unsuitable() {
    let no_formats = DeviceCandidate {
        has_swapchain_extension: true,
        surface_formats: vec![],
        surface_present_modes: vec![PresentMode::Fifo],
        queue_families: vec![QueueFamily { supports_graphics: true, supports_present: true }],
    };
    assert!(select_physical_device(&vec![no_formats]).is_none());
}

#[test]
fn queue_family_scans_find_first() {
    let families = vec![
        QueueFamily { supports_graphics: false, supports_present: false },
        QueueFamily { supports_graphics: true, supports_present: false },
        QueueFamily { supports_graphics: true, supports_present: true },
    ];
    assert_eq!(find_graphics_family(&families), Some(1));
    assert_eq!(find_present_family(&families), Some(2));
    assert_eq!(find_present_family(&vec![]), None);
}

#[test]
fn layer_and_extension_lists_follow_validation_flag() {
    assert_eq!(instance_layer_names(true), vec!["VK_LAYER_LUNARG_standard_validation"]);
    assert!(instance_layer_names(false).is_empty());
    assert_eq!(instance_extension_names(true), vec!["VK_EXT_debug_utils"]);
    assert!(instance_extension_names(false).is_empty());
    assert_eq!(device_extension_names(), vec!["VK_KHR_swapchain"]);
}

#[test]
fn frame_slots_cycle_zero_one() {
    let mut scheduler = FrameScheduler::new();
    let mut seen = Vec::new();
    for tick in 0..6u32 {
        let action = scheduler.tick(AcquireResult::Acquired(tick));
        match action {
            FrameAction::Render { slot, image_index } => {
                assert_eq!(image_index, tick);
                seen.push(slot);
            }
            _ => panic!("acquired image must render"),
        }
    }
    assert_eq!(seen, vec![0, 1, 0, 1, 0, 1]);
    assert!(seen.iter().all(|slot| *slot < MAX_FRAMES_IN_FLIGHT));
}

#[test]
fn out_of_date_rebuilds_without_advancing() {
    let mut scheduler = FrameScheduler::new();
    scheduler.tick(AcquireResult::Acquired(0));
    let before = scheduler.slot();
    assert_eq!(scheduler.tick(AcquireResult::OutOfDate), FrameAction::RebuildSwapchain);
    assert_eq!(scheduler.slot(), before);
    assert_eq!(scheduler.tick(AcquireResult::DriverError(-4)), FrameAction::Fatal);
    assert_eq!(scheduler.slot(), before);
}

#[test]
fn tick_steps_follow_state_machine() {
    let scheduler = FrameScheduler::new();
    let steps = scheduler.tick_steps(AcquireResult::Acquired(5));
    assert_eq!(
        steps,
        vec![
            FrameStep::WaitFence { slot: 0 },
            FrameStep::AcquireImage { slot: 0 },
            FrameStep::ResetFence { slot: 0 },
            FrameStep::Submit { slot: 0, image_index: 5 },
            FrameStep::Present { slot: 0, image_index: 5 },
            FrameStep::Advance,
        ]
    );
    let rebuild = scheduler.tick_steps(AcquireResult::OutOfDate);
    assert_eq!(
        rebuild,
        vec![FrameStep::WaitFence { slot: 0 }, FrameStep::AcquireImage { slot: 0 }]
    );
}

#[test]
fn teardown_is_exact_reverse_of_creation() {
    let instance = 1u64;
    let device = 2u64;
    let swapchain = 3u64;
    let views = 4u64;
    let pipeline = 5u64;
    let created = vec![instance, device, swapchain, views, pipeline];
    let order = teardown_order(&created);
    assert_eq!(order, vec![pipeline, views, swapchain, device, instance]);
}

#[test]
fn swapchain_cleanup_order_is_fixed() {
    assert_eq!(
        cleanup_swapchain_order(),
        vec![
            SwapchainResource::CommandBuffers,
            SwapchainResource::Framebuffers,
            SwapchainResource::Pipeline,
            SwapchainResource::PipelineLayout,
            SwapchainResource::RenderPass,
            SwapchainResource::ImageViews,
            SwapchainResource::SwapchainHandle,
        ]
    );
}

#[test]
fn shutdown_releases_in_reverse_creation_order() {
    assert_eq!(
        renderer_teardown_steps(),
        vec![
            RendererResource::SyncObjects,
            RendererResource::SwapchainObjects,
            RendererResource::CommandPool,
            RendererResource::ShaderModules,
            RendererResource::Device,
            RendererResource::Surface,
            RendererResource::DebugMessenger,
            RendererResource::Instance,
        ]
    );
}

#[test]
fn command_scripts_draw_one_triangle_per_image() {
    let scripts = record_command_scripts(3);
    assert_eq!(scripts.len(), 3);
    for (i, script) in scripts.iter().enumerate() {
        assert_eq!(
            script,
            &vec![
                DrawCommand::BeginRenderPass { image: i },
                DrawCommand::BindPipeline,
                DrawCommand::Draw {
                    vertex_count: 3,
                    instance_count: 1,
                    first_vertex: 0,
                    first_instance: 0,
                },
                DrawCommand::EndRenderPass,
            ]
        );
    }
}
