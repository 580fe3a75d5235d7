use hello_glyph::config::{
    adapter_options, chain_config, device_options, rasterizer_config, Backends, ChainUsage,
    DeviceLimits, PowerPreference, PresentMode, TextureFormat, FONT_PATH,
};
use hello_glyph::error::AppError;
use hello_glyph::events::{ControlFlow, LoopAction, LoopEvent, LoopState};
use hello_glyph::frame::{check_acquired, frame_plan, greeting, FrameOp};
use hello_glyph::startup::{first_stage, next_stage, StartupStage};

fn run_startup(outs: &[bool]) -> Vec<StartupStage> {
    let mut stage = first_stage();
    let mut seen = vec![stage];
    for &ok in outs {
        stage = next_stage(stage, ok);
        seen.push(stage);
    }
    seen
}

#[test]
fn startup_without_failure_reaches_loop_with_one_window() {
    let seen = run_startup(&[true; 7]);
    assert_eq!(seen[0], StartupStage::ReadFont);
    assert_eq!(seen[7], StartupStage::Running);
    let windows = seen.iter().filter(|s| **s == StartupStage::CreateWindow).count();
    assert_eq!(windows, 1);
    assert_eq!(next_stage(StartupStage::Running, true), StartupStage::Running);
}

#[test]
fn missing_font_fails_before_window() {
    let seen = run_startup(&[false, true, true, true, true]);
    assert!(!seen.contains(&StartupStage::CreateWindow));
    assert_eq!(seen[1], StartupStage::Failed(AppError::FontMissing));
    assert_eq!(*seen.last().unwrap(), StartupStage::Failed(AppError::FontMissing));
}

#[test]
fn invalid_font_fails_before_window() {
    let seen = run_startup(&[true, false, true]);
    assert!(!seen.contains(&StartupStage::CreateWindow));
    assert_eq!(seen[2], StartupStage::Failed(AppError::FontInvalid));
}

#[test]
fn window_failure_is_fatal() {
    let seen = run_startup(&[true, true, false]);
    assert_eq!(seen[3], StartupStage::Failed(AppError::WindowUnavailable));
}

#[test]
fn missing_adapter_fails_before_loop() {
    let seen = run_startup(&[true, true, true, false, true, true, true, true]);
    assert!(!seen.contains(&StartupStage::Running));
    assert_eq!(seen[4], StartupStage::Failed(AppError::NoAdapter));
    assert_eq!(*seen.last().unwrap(), StartupStage::Failed(AppError::NoAdapter));
}

#[test]
fn device_and_chain_steps_cannot_fail() {
    assert_eq!(next_stage(StartupStage::RequestDevice, false), StartupStage::ConfigureChain);
    assert_eq!(next_stage(StartupStage::ConfigureChain, false), StartupStage::BuildRasterizer);
    assert_eq!(next_stage(StartupStage::BuildRasterizer, false), StartupStage::Running);
}

#[test]
fn frame_clears_white_then_draws_hello() {
    let ops = frame_plan(800, 600);
    assert_eq!(ops.len(), 6);
    assert!(matches!(ops[0], FrameOp::Acquire));
    assert!(matches!(ops[1], FrameOp::BeginEncoder));
    match ops[2] {
        FrameOp::ClearPass { color } => {
            assert_eq!((color.r, color.g, color.b, color.a), (255, 255, 255, 255));
        }
        _ => panic!("third operation is not the clear"),
    }
    match ops[3] {
        FrameOp::QueueText { section } => {
            assert_eq!(section.text, "hello");
            assert_eq!((section.x, section.y), (10, 10));
        }
        _ => panic!("fourth operation does not queue text"),
    }
    assert!(matches!(ops[4], FrameOp::DrawQueued { width: 800, height: 600 }));
    assert!(matches!(ops[5], FrameOp::Submit));
}

#[test]
fn greeting_is_hello_at_ten_ten() {
    let s = greeting();
    assert_eq!(s.text, "hello");
    assert_eq!(s.x, 10);
    assert_eq!(s.y, 10);
}

#[test]
fn acquisition_timeout_is_surface_stale() {
    assert_eq!(check_acquired(true), Ok(()));
    assert_eq!(check_acquired(false), Err(AppError::SurfaceStale));
}

#[test]
fn chain_is_bgra_srgb_fifo_at_window_size() {
    let c = chain_config(1024, 768);
    assert_eq!(c.usage, ChainUsage::RenderTarget);
    assert_eq!(c.format, TextureFormat::Bgra8UnormSrgb);
    assert_eq!((c.width, c.height), (1024, 768));
    assert_eq!(c.present_mode, PresentMode::Fifo);
}

#[test]
fn rasterizer_skips_position_cache() {
    let chain = chain_config(800, 600);
    let r = rasterizer_config(&chain);
    assert!(!r.cache_glyph_positioning);
    assert_eq!(r.format, chain.format);
    assert_eq!(r.format, TextureFormat::Bgra8UnormSrgb);
    assert_eq!(FONT_PATH, "assets/fonts/Inconsolata-Regular.ttf");
}

#[test]
fn loop_stays_open_until_close() {
    let mut s = LoopState::new(chain_config(640, 480));
    assert_eq!(s.control_flow(), ControlFlow::Poll);
    assert_eq!(s.handle(LoopEvent::MainEventsCleared), LoopAction::RequestRedraw);
    assert_eq!(s.handle(LoopEvent::RedrawRequested), LoopAction::RenderFrame);
    assert_eq!(s.handle(LoopEvent::Other), LoopAction::Nothing);
    assert!(s.open);
    assert_eq!(s.control_flow(), ControlFlow::Poll);
    assert_eq!(s.handle(LoopEvent::CloseRequested), LoopAction::Exit);
    assert!(!s.open);
    assert_eq!(s.control_flow(), ControlFlow::Exit);
    assert_eq!(s.handle(LoopEvent::RedrawRequested), LoopAction::Nothing);
}

#[test]
fn resize_keeps_loop_and_chain() {
    let mut s = LoopState::new(chain_config(640, 480));
    let before = s;
    assert_eq!(s.handle(LoopEvent::Resized { width: 300, height: 200 }), LoopAction::Nothing);
    assert_eq!(s, before);
    assert_eq!(s.handle(LoopEvent::RedrawRequested), LoopAction::RenderFrame);
    let ops = s.frame();
    assert!(matches!(ops[4], FrameOp::DrawQueued { width: 640, height: 480 }));
}

#[test]
fn every_error_has_its_message() {
    assert_eq!(AppError::FontMissing.message(), "Failed to open");
    assert_eq!(AppError::FontInvalid.message(), "Failed to generate glyph brush for");
    assert_eq!(AppError::WindowUnavailable.message(), "Failed to create the window.");
    assert_eq!(AppError::NoAdapter.message(), "No compatible GPU adapter.");
    assert_eq!(
        AppError::SurfaceStale.message(),
        "Timed out acquiring next swap chain texture."
    );
}

#[test]
fn font_errors_name_the_path() {
    assert!(AppError::FontMissing.names_font_path());
    assert!(AppError::FontInvalid.names_font_path());
    assert!(!AppError::WindowUnavailable.names_font_path());
    assert!(!AppError::NoAdapter.names_font_path());
    assert!(!AppError::SurfaceStale.names_font_path());
    let line = format!("{} {:?}", AppError::FontMissing.message(), FONT_PATH);
    assert_eq!(line, "Failed to open \"assets/fonts/Inconsolata-Regular.ttf\"");
}

#[test]
fn only_stale_surface_is_not_fatal() {
    assert!(AppError::FontMissing.is_fatal());
    assert!(AppError::FontInvalid.is_fatal());
    assert!(AppError::WindowUnavailable.is_fatal());
    assert!(AppError::NoAdapter.is_fatal());
    assert!(!AppError::SurfaceStale.is_fatal());
}

#[test]
fn adapter_and_device_options() {
    let a = adapter_options();
    assert_eq!(a.power_preference, PowerPreference::HighPerformance);
    assert_eq!(a.backends, Backends::Primary);
    assert!(a.compatible_with_surface);
    let d = device_options();
    assert!(!d.anisotropic_filtering);
    assert_eq!(d.limits, DeviceLimits::Default);
}
