use wgpu_template::settings::GraphicsSettings;
use wgpu_template::surface::{
    AcquireOutcome, AlphaMode, FatalError, PixelFormat, Surface, SurfaceBuilder,
    SurfaceCapabilities,
};

fn surface_with(drawable: u64, size: (u32, u32)) -> Surface {
    let builder = SurfaceBuilder::new(drawable, true).unwrap();
    let settings = GraphicsSettings::default();
    let caps = SurfaceCapabilities {
        formats: vec![PixelFormat(1), PixelFormat(2)],
        alpha_modes: vec![AlphaMode::PreMultiplied],
    };
    builder.build(&settings, caps, size).unwrap()
}

#[test]
fn acquire_returns_the_frame_of_the_third_attempt() {
    let mut s = surface_with(1, (640, 480));
    let script = vec![
        AcquireOutcome::Suboptimal,
        AcquireOutcome::Timeout,
        AcquireOutcome::Optimal,
    ];
    let frame = s.acquire(&script, (640, 480)).unwrap();
    // Two absorbed retries before the frame, which belongs to the third
    // backend call.
    assert_eq!(frame.attempt, 2);
    assert_eq!(s.attempts, 3);
    // Of the two retries only the suboptimal one reconfigured.
    assert_eq!(s.config.version, 2);
    assert_eq!(s.generation, 0);
}

#[test]
fn acquire_absorbs_every_recoverable_outcome() {
    let mut s = surface_with(1, (640, 480));
    let script = vec![
        AcquireOutcome::Timeout,
        AcquireOutcome::Outdated,
        AcquireOutcome::Lost,
        AcquireOutcome::Suboptimal,
        AcquireOutcome::Optimal,
    ];
    let frame = s.acquire(&script, (640, 480)).unwrap();
    assert_eq!(frame.attempt, 4);
    assert_eq!(s.attempts, 5);
    assert_eq!(s.generation, 1);
    // outdated + lost + suboptimal reconfigured, on top of version 1 from
    // the build.
    assert_eq!(s.config.version, 4);
    assert_eq!(s.drawable, 1);
    frame.present();
}

#[test]
fn acquire_propagates_out_of_memory_with_zero_retries() {
    let mut s = surface_with(1, (640, 480));
    let before = s.config;
    let script = vec![AcquireOutcome::OutOfMemory, AcquireOutcome::Optimal];
    let err = s.acquire(&script, (640, 480)).unwrap_err();
    assert_eq!(err, FatalError::OutOfMemory);
    // The fatal outcome was the first and only attempt; nothing was
    // retried or reconfigured after it.
    assert_eq!(s.attempts, 1);
    assert_eq!(s.config, before);
    assert_eq!(s.generation, 0);
}

#[test]
fn out_of_memory_is_fatal_even_after_recoveries() {
    let mut s = surface_with(1, (640, 480));
    let script = vec![
        AcquireOutcome::Timeout,
        AcquireOutcome::OutOfMemory,
        AcquireOutcome::Optimal,
    ];
    let err = s.acquire(&script, (640, 480)).unwrap_err();
    assert_eq!(err, FatalError::OutOfMemory);
    assert_eq!(s.attempts, 2);
}

#[test]
fn suboptimal_reconfigures_to_the_current_drawable_size() {
    let mut s = surface_with(1, (640, 480));
    // The drawable has grown since the last configuration; the recovery
    // must re-read the authoritative size, not reuse the cached one.
    let r = s.try_acquire(AcquireOutcome::Suboptimal, (1024, 768));
    assert_eq!(r.unwrap(), None);
    assert_eq!((s.config.width, s.config.height), (1024, 768));
    assert_eq!(s.config.version, 2);
    assert_eq!(s.generation, 0);
}

#[test]
fn outdated_reconfigures_to_the_current_drawable_size() {
    let mut s = surface_with(1, (640, 480));
    let r = s.try_acquire(AcquireOutcome::Outdated, (333, 222));
    assert_eq!(r.unwrap(), None);
    assert_eq!((s.config.width, s.config.height), (333, 222));
    assert_eq!(s.config.version, 2);
}

#[test]
fn timeout_changes_nothing() {
    let mut s = surface_with(1, (640, 480));
    let before = s.config;
    let r = s.try_acquire(AcquireOutcome::Timeout, (1024, 768));
    assert_eq!(r.unwrap(), None);
    assert_eq!(s.config, before);
    assert_eq!(s.generation, 0);
    assert_eq!(s.attempts, 1);
}

#[test]
fn lost_recreates_exactly_once_on_the_same_drawable() {
    let mut s = surface_with(42, (640, 480));
    let r = s.try_acquire(AcquireOutcome::Lost, (640, 480));
    assert_eq!(r.unwrap(), None);
    // One rebuild of the native object, bound to the original drawable.
    assert_eq!(s.generation, 1);
    assert_eq!(s.drawable, 42);
    assert_eq!(s.config.version, 2);
}

#[test]
fn optimal_attempt_hands_out_a_frame_of_the_current_generation() {
    let mut s = surface_with(1, (640, 480));
    s.try_acquire(AcquireOutcome::Lost, (640, 480)).unwrap();
    let frame = s
        .try_acquire(AcquireOutcome::Optimal, (640, 480))
        .unwrap()
        .unwrap();
    assert_eq!(frame.generation, 1);
    assert_eq!(frame.attempt, 1);
}

#[test]
fn resized_applies_the_event_size_directly() {
    let mut s = surface_with(1, (640, 480));
    s.resized((1920, 1080));
    assert_eq!((s.config.width, s.config.height), (1920, 1080));
    assert_eq!(s.config.version, 2);
    assert_eq!(s.generation, 0);
}

#[test]
fn format_survives_every_recovery() {
    let mut s = surface_with(1, (640, 480));
    assert_eq!(s.format(), PixelFormat(1));
    s.try_acquire(AcquireOutcome::Lost, (640, 480)).unwrap();
    s.try_acquire(AcquireOutcome::Suboptimal, (640, 480)).unwrap();
    s.resized((10, 10));
    assert_eq!(s.format(), PixelFormat(1));
    assert_eq!(s.config.format, PixelFormat(1));
}
