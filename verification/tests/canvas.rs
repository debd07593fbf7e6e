use pao::context::{present_mode, Presentation};
use pao::{
    clamp_extent, first_setup_step, frame_schedule, next_setup_step, sample_count_for,
    setup_error_message, surface_plan, surface_view_format, CanvasState, ColorAttachment,
    Commands, DepthStencil, FeatureCall, MsaaTarget, ScheduledCall, Multisample, Options, SetupOrder, SetupStep, StoreAction,
    SurfaceAlpha, SurfacePlan, TargetDimension, TargetFormat, TargetUsage, TargetView,
};

fn options(width: u32, height: u32, multisample: Multisample) -> Options {
    Options {
        width,
        height,
        multisample,
        ..Default::default()
    }
}

fn features(frame_commands: Vec<Commands<u32>>) -> Vec<u32> {
    frame_commands
        .into_iter()
        .map(|c| match c {
            Commands::FeatureCommand(f) => f,
        })
        .collect()
}

#[test]
fn multisample_default_is_x1() {
    assert_eq!(Multisample::default(), Multisample::X1);
}

#[test]
fn sample_count_for_each_case() {
    assert_eq!(sample_count_for(Multisample::X4, true), 4);
    assert_eq!(sample_count_for(Multisample::X4, false), 1);
    assert_eq!(sample_count_for(Multisample::X1, true), 1);
    assert_eq!(sample_count_for(Multisample::X1, false), 1);
}

#[test]
fn clamp_extent_values() {
    assert_eq!(clamp_extent(0), 1);
    assert_eq!(clamp_extent(1), 1);
    assert_eq!(clamp_extent(800), 800);
    assert_eq!(clamp_extent(u32::MAX), u32::MAX);
}

#[test]
fn default_options_give_one_pixel_single_sample_canvas() {
    let canvas: CanvasState<u32> = CanvasState::new(&Options::default(), 0xffff_ffff);
    assert_eq!(canvas.width(), 1);
    assert_eq!(canvas.height(), 1);
    assert_eq!(*canvas.get_multisample_count(), 1);
    assert_eq!(canvas.queued_len(), 0);
}

#[test]
fn new_keeps_nonzero_size() {
    let canvas: CanvasState<u32> = CanvasState::new(&options(800, 600, Multisample::X1), 0);
    assert_eq!(canvas.width(), 800);
    assert_eq!(canvas.height(), 600);
}

#[test]
fn new_raises_each_zero_dimension() {
    let canvas: CanvasState<u32> = CanvasState::new(&options(0, 600, Multisample::X1), 0);
    assert_eq!((canvas.width(), canvas.height()), (1, 600));
    let canvas: CanvasState<u32> = CanvasState::new(&options(800, 0, Multisample::X1), 0);
    assert_eq!((canvas.width(), canvas.height()), (800, 1));
}

#[test]
fn x4_requested_and_supported_gives_four_samples() {
    // MULTISAMPLE_X4 alone
    let flags = pao::wgpu::TextureFormatFeatureFlags::MULTISAMPLE_X4.bits();
    let canvas: CanvasState<u32> = CanvasState::new(&options(10, 10, Multisample::X4), flags);
    assert_eq!(*canvas.get_multisample_count(), 4);
    // MULTISAMPLE_X4 among other flags
    let flags = (pao::wgpu::TextureFormatFeatureFlags::FILTERABLE
        | pao::wgpu::TextureFormatFeatureFlags::MULTISAMPLE_X4
        | pao::wgpu::TextureFormatFeatureFlags::BLENDABLE)
        .bits();
    let canvas: CanvasState<u32> = CanvasState::new(&options(10, 10, Multisample::X4), flags);
    assert_eq!(*canvas.get_multisample_count(), 4);
}

#[test]
fn x4_requested_but_unsupported_gives_one_sample() {
    let flags = (pao::wgpu::TextureFormatFeatureFlags::FILTERABLE
        | pao::wgpu::TextureFormatFeatureFlags::MULTISAMPLE_X2
        | pao::wgpu::TextureFormatFeatureFlags::MULTISAMPLE_X8)
        .bits();
    let canvas: CanvasState<u32> = CanvasState::new(&options(10, 10, Multisample::X4), flags);
    assert_eq!(*canvas.get_multisample_count(), 1);
    let canvas: CanvasState<u32> = CanvasState::new(&options(10, 10, Multisample::X4), 0);
    assert_eq!(*canvas.get_multisample_count(), 1);
}

#[test]
fn x4_bit_value_is_what_the_contract_states() {
    assert_eq!(pao::wgpu::TextureFormatFeatureFlags::MULTISAMPLE_X4.bits(), 4);
    let canvas: CanvasState<u32> = CanvasState::new(&options(10, 10, Multisample::X4), 4);
    assert_eq!(*canvas.get_multisample_count(), 4);
    let canvas: CanvasState<u32> = CanvasState::new(&options(10, 10, Multisample::X4), 3);
    assert_eq!(*canvas.get_multisample_count(), 1);
}

#[test]
fn x1_requested_ignores_support() {
    let canvas: CanvasState<u32> = CanvasState::new(&options(10, 10, Multisample::X1), 4);
    assert_eq!(*canvas.get_multisample_count(), 1);
    assert_eq!(canvas.msaa_target(), None);
}

#[test]
fn resize_clamps_and_keeps_samples_and_queue() {
    let mut canvas: CanvasState<u32> = CanvasState::new(&options(800, 600, Multisample::X4), 4);
    canvas.draw_feature(7);
    canvas.resize(0, 0);
    assert_eq!((canvas.width(), canvas.height()), (1, 1));
    assert_eq!(*canvas.get_multisample_count(), 4);
    assert_eq!(canvas.queued_len(), 1);
    canvas.resize(1024, 768);
    assert_eq!((canvas.width(), canvas.height()), (1024, 768));
}

#[test]
fn resize_to_current_size_changes_nothing() {
    let mut canvas: CanvasState<u32> = CanvasState::new(&options(0, 300, Multisample::X1), 0);
    let (w, h) = (canvas.width(), canvas.height());
    canvas.resize(w, h);
    assert_eq!((canvas.width(), canvas.height()), (w, h));
}

#[test]
fn msaa_target_exists_only_with_four_samples_and_follows_resize() {
    let mut canvas: CanvasState<u32> = CanvasState::new(&options(640, 480, Multisample::X4), 4);
    assert_eq!(
        canvas.msaa_target(),
        Some(MsaaTarget {
            width: 640,
            height: 480,
            depth_or_array_layers: 1,
            mip_level_count: 1,
            sample_count: 4,
            dimension: TargetDimension::D2,
            format: TargetFormat::Rgba8UnormSrgb,
            usage: TargetUsage { render_attachment: true, transient: true },
        })
    );
    canvas.resize(0, 200);
    assert_eq!(
        canvas.msaa_target(),
        Some(MsaaTarget {
            width: 1,
            height: 200,
            depth_or_array_layers: 1,
            mip_level_count: 1,
            sample_count: 4,
            dimension: TargetDimension::D2,
            format: TargetFormat::Rgba8UnormSrgb,
            usage: TargetUsage { render_attachment: true, transient: true },
        })
    );
    let single: CanvasState<u32> = CanvasState::new(&options(640, 480, Multisample::X4), 0);
    assert_eq!(single.msaa_target(), None);
}

#[test]
fn multisampled_pass_resolves_into_surface_and_discards() {
    let canvas: CanvasState<u32> = CanvasState::new(&options(640, 480, Multisample::X4), 4);
    assert_eq!(
        canvas.color_attachment(),
        ColorAttachment {
            view: TargetView::Multisample,
            resolve_target: Some(TargetView::Surface),
            store: StoreAction::Discard,
        }
    );
}

#[test]
fn single_sampled_pass_draws_into_surface_and_stores() {
    let canvas: CanvasState<u32> = CanvasState::new(&options(640, 480, Multisample::X1), 4);
    assert_eq!(
        canvas.color_attachment(),
        ColorAttachment {
            view: TargetView::Surface,
            resolve_target: None,
            store: StoreAction::Store,
        }
    );
}

#[test]
fn render_runs_queued_features_in_order_then_empties_the_queue() {
    let mut canvas: CanvasState<u32> = CanvasState::new(&options(64, 64, Multisample::X4), 4);
    canvas.draw_feature(3);
    canvas.draw_feature(1);
    canvas.draw_feature(2);
    assert_eq!(canvas.queued_len(), 3);
    let frame = canvas.render();
    assert_eq!(frame.attachment.view, TargetView::Multisample);
    assert_eq!(features(frame.commands), vec![3, 1, 2]);
    assert_eq!(canvas.queued_len(), 0);
    let next = canvas.render();
    assert!(next.commands.is_empty());
    assert_eq!((canvas.width(), canvas.height()), (64, 64));
    assert_eq!(*canvas.get_multisample_count(), 4);
}

#[test]
fn features_queued_after_a_frame_go_to_the_next() {
    let mut canvas: CanvasState<u32> = CanvasState::new(&options(64, 64, Multisample::X1), 0);
    canvas.draw_feature(1);
    let first = canvas.render();
    canvas.draw_feature(2);
    canvas.draw_feature(2);
    let second = canvas.render();
    assert_eq!(first.attachment.store, StoreAction::Store);
    assert_eq!(features(first.commands), vec![1]);
    assert_eq!(features(second.commands), vec![2, 2]);
}

#[test]
fn setup_error_messages() {
    assert_eq!(setup_error_message(SetupStep::CreateSurface), "Can't create a surface");
    assert_eq!(setup_error_message(SetupStep::RequestAdapter), "Can't get adapter");
    assert_eq!(setup_error_message(SetupStep::RequestDevice), "Can't get device");
}

#[test]
fn context_presentation_follows_vsync() {
    assert_eq!(present_mode(true), Presentation::AutoVsync);
    assert_eq!(present_mode(false), Presentation::AutoNoVsync);
    let defaults = pao::context::Options::default();
    assert_eq!(defaults.width(), 0);
    assert_eq!(defaults.height(), 0);
    assert_eq!(defaults.presentation(), Presentation::AutoNoVsync);
}

#[test]
fn default_options_ask_for_nothing() {
    let defaults = Options::default();
    assert_eq!(defaults.width, 0);
    assert_eq!(defaults.height, 0);
    assert_eq!(defaults.multisample, Multisample::X1);
    assert_eq!(defaults.mode, pao::wgpu::PresentMode::default());
}

#[test]
fn canvas_surface_config_is_viewable_in_srgb() {
    let mut canvas: CanvasState<u32> = CanvasState::new(&options(0, 720, Multisample::X1), 0);
    assert_eq!(surface_view_format(), TargetFormat::Rgba8UnormSrgb);
    assert_eq!(
        canvas.surface_config(),
        SurfacePlan {
            width: 1,
            height: 720,
            usage: TargetUsage { render_attachment: true, transient: false },
            alpha_mode: SurfaceAlpha::Auto,
            view_format: Some(TargetFormat::Rgba8UnormSrgb),
            desired_maximum_frame_latency: 2,
        }
    );
    canvas.resize(1280, 0);
    assert_eq!((canvas.surface_config().width, canvas.surface_config().height), (1280, 1));
}

#[test]
fn context_surface_config_keeps_size_and_has_no_view_format() {
    let defaults = pao::context::Options::default();
    assert_eq!(
        defaults.surface_config(),
        SurfacePlan {
            width: 0,
            height: 0,
            usage: TargetUsage { render_attachment: true, transient: false },
            alpha_mode: SurfaceAlpha::Auto,
            view_format: None,
            desired_maximum_frame_latency: 2,
        }
    );
    assert_eq!(surface_plan(640, 0, None).height, 0);
}

#[test]
fn canvas_setup_runs_surface_adapter_device() {
    let order = SetupOrder::Canvas;
    assert_eq!(first_setup_step(order), SetupStep::CreateSurface);
    assert_eq!(
        next_setup_step(order, SetupStep::CreateSurface, true),
        Ok(Some(SetupStep::RequestAdapter))
    );
    assert_eq!(
        next_setup_step(order, SetupStep::RequestAdapter, true),
        Ok(Some(SetupStep::RequestDevice))
    );
    assert_eq!(next_setup_step(order, SetupStep::RequestDevice, true), Ok(None));
}

#[test]
fn context_setup_runs_adapter_device_surface() {
    let order = SetupOrder::Context;
    assert_eq!(first_setup_step(order), SetupStep::RequestAdapter);
    assert_eq!(
        next_setup_step(order, SetupStep::RequestAdapter, true),
        Ok(Some(SetupStep::RequestDevice))
    );
    assert_eq!(
        next_setup_step(order, SetupStep::RequestDevice, true),
        Ok(Some(SetupStep::CreateSurface))
    );
    assert_eq!(next_setup_step(order, SetupStep::CreateSurface, true), Ok(None));
}

#[test]
fn failed_setup_step_ends_with_its_message() {
    assert_eq!(
        next_setup_step(SetupOrder::Canvas, SetupStep::CreateSurface, false),
        Err("Can't create a surface".to_string())
    );
    assert_eq!(
        next_setup_step(SetupOrder::Context, SetupStep::RequestAdapter, false),
        Err("Can't get adapter".to_string())
    );
    assert_eq!(
        next_setup_step(SetupOrder::Canvas, SetupStep::RequestDevice, false),
        Err("Can't get device".to_string())
    );
}

#[test]
fn frame_prepares_and_renders_each_feature_in_turn() {
    let call = |feature: usize, call: FeatureCall| ScheduledCall { feature, call };
    assert_eq!(
        frame_schedule(3),
        vec![
            call(0, FeatureCall::Prepare),
            call(0, FeatureCall::Render),
            call(1, FeatureCall::Prepare),
            call(1, FeatureCall::Render),
            call(2, FeatureCall::Prepare),
            call(2, FeatureCall::Render),
        ]
    );
    assert!(frame_schedule(0).is_empty());
}

#[test]
fn frame_has_no_depth_stencil_attachment() {
    let mut canvas: CanvasState<u32> = CanvasState::new(&options(8, 8, Multisample::X4), 4);
    canvas.draw_feature(5);
    assert_eq!(canvas.render().depth_stencil, DepthStencil::Absent);
}

#[test]
fn canvas_keeps_the_requested_present_mode() {
    let mut opts = options(8, 8, Multisample::X1);
    opts.mode = pao::wgpu::PresentMode::Mailbox;
    let mut canvas: CanvasState<u32> = CanvasState::new(&opts, 0);
    assert_eq!(canvas.present_mode(), pao::wgpu::PresentMode::Mailbox);
    canvas.resize(3, 3);
    canvas.draw_feature(1);
    let _ = canvas.render();
    assert_eq!(canvas.present_mode(), pao::wgpu::PresentMode::Mailbox);
}
