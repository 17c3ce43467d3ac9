use gravylib::registry::{load_plan, ModuleRegistry};
use gravylib::render::{select_format_index, FrameOutcome, Phase, RenderLoop, WindowEvent};

fn rendering_loop() -> RenderLoop {
    let mut render = RenderLoop::new("main_vs".to_string(), "main_fs".to_string(), 1280, 720);
    let initial = ModuleRegistry::from_single(vec![7]);
    render.initialize(&initial).expect("wildcard snapshot must initialize");
    render.start_rendering();
    render
}

#[test]
fn initialize_walks_uninitialized_to_rendering() {
    let mut render = RenderLoop::new("main_vs".to_string(), "main_fs".to_string(), 1280, 720);
    assert_eq!(render.phase, Phase::Uninitialized);
    assert!(render.pipeline.is_none());
    let initial = ModuleRegistry::from_single(vec![7]);
    render.initialize(&initial).expect("wildcard snapshot must initialize");
    assert_eq!(render.phase, Phase::Ready);
    assert_eq!(render.pipeline_generation, 1);
    render.start_rendering();
    assert_eq!(render.phase, Phase::Rendering);
}

#[test]
fn initialize_fails_fatally_on_missing_entry_point() {
    let mut render = RenderLoop::new("main_vs".to_string(), "main_fs".to_string(), 1280, 720);
    let pairs = vec![("main_fs".to_string(), "out/fs.spv".to_string())];
    let plan = load_plan(&pairs);
    let snapshot = ModuleRegistry::from_multi(&plan, &vec![vec![1]]);
    let err = render.initialize(&snapshot).unwrap_err();
    assert_eq!(err.entry_point, "main_vs".to_string());
    // The loop is untouched: no pipeline, still uninitialized.
    assert_eq!(render.phase, Phase::Uninitialized);
    assert!(render.pipeline.is_none());
}

#[test]
fn zero_sized_resize_is_ignored_and_never_rebuilds() {
    let mut render = rendering_loop();
    let generation_before = render.pipeline_generation;
    render.handle_window_event(&WindowEvent::Resized(0, 0));
    assert_eq!(render.width, 1280);
    assert_eq!(render.height, 720);
    assert!(!render.needs_reconfigure);
    render.handle_window_event(&WindowEvent::Resized(800, 600));
    assert_eq!(render.width, 800);
    assert_eq!(render.height, 600);
    assert!(render.needs_reconfigure);
    render.surface_reconfigured();
    assert!(!render.needs_reconfigure);
    // No resize ever rebuilt the pipeline.
    assert_eq!(render.pipeline_generation, generation_before);
    assert_eq!(render.phase, Phase::Rendering);
}

#[test]
fn close_and_escape_begin_shutdown() {
    let mut render = rendering_loop();
    render.handle_window_event(&WindowEvent::CloseRequested);
    assert_eq!(render.phase, Phase::ShuttingDown);
    render.finish();
    assert_eq!(render.phase, Phase::Terminated);

    let mut render2 = rendering_loop();
    render2.handle_window_event(&WindowEvent::EscapePressed);
    assert_eq!(render2.phase, Phase::ShuttingDown);
}

#[test]
fn fullscreen_toggle_is_orthogonal() {
    let mut render = rendering_loop();
    let generation_before = render.pipeline_generation;
    assert!(!render.fullscreen);
    render.handle_window_event(&WindowEvent::FullscreenTogglePressed);
    assert!(render.fullscreen);
    assert_eq!(render.phase, Phase::Rendering);
    assert_eq!(render.pipeline_generation, generation_before);
    assert_eq!(render.width, 1280);
    render.handle_window_event(&WindowEvent::FullscreenTogglePressed);
    assert!(!render.fullscreen);
}

#[test]
fn frame_outcomes_follow_the_recovery_rules() {
    let mut render = rendering_loop();
    render.handle_frame_outcome(&FrameOutcome::Presented);
    assert_eq!(render.phase, Phase::Rendering);
    assert!(!render.needs_reconfigure);
    render.handle_frame_outcome(&FrameOutcome::SurfaceOutdated);
    assert_eq!(render.phase, Phase::Rendering);
    render.handle_frame_outcome(&FrameOutcome::SurfaceLost);
    assert!(render.needs_reconfigure);
    assert_eq!(render.phase, Phase::Rendering);
    render.handle_frame_outcome(&FrameOutcome::OutOfMemory);
    assert_eq!(render.phase, Phase::ShuttingDown);

    let mut render2 = rendering_loop();
    render2.handle_frame_outcome(&FrameOutcome::DeviceLost);
    assert_eq!(render2.phase, Phase::ShuttingDown);
}

#[test]
fn frame_constants_carry_size_and_time() {
    let render = rendering_loop();
    let constants = render.frame_constants(0x3F80_0000);
    assert_eq!(constants.width, 1280);
    assert_eq!(constants.height, 720);
    assert_eq!(constants.time_bits, 0x3F80_0000);
    assert_eq!(constants.reserved, [0, 1, 0]);
    let bytes = constants.to_le_bytes();
    assert_eq!(bytes.len(), 24);
    assert_eq!(&bytes[0..4], &[0x00, 0x05, 0x00, 0x00]);
    assert_eq!(&bytes[4..8], &[0xD0, 0x02, 0x00, 0x00]);
    assert_eq!(&bytes[8..12], &[0x00, 0x00, 0x80, 0x3F]);
    assert_eq!(&bytes[12..16], &[0x00, 0x00, 0x00, 0x00]);
    assert_eq!(&bytes[16..20], &[0x01, 0x00, 0x00, 0x00]);
    assert_eq!(&bytes[20..24], &[0x00, 0x00, 0x00, 0x00]);
}

#[test]
fn surface_format_prefers_first_srgb() {
    assert_eq!(select_format_index(&vec![false, true, true]), 1);
    assert_eq!(select_format_index(&vec![true, false]), 0);
    assert_eq!(select_format_index(&vec![false, false, false]), 0);
}
