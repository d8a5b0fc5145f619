use wgpu_template::settings::GraphicsSettings;
use wgpu_template::surface::{
    negotiate, select_alpha, AlphaMode, BindError, PixelFormat, PresentMode, SurfaceBuilder,
    SurfaceCapabilities,
};

fn caps(formats: Vec<PixelFormat>, alpha_modes: Vec<AlphaMode>) -> SurfaceCapabilities {
    SurfaceCapabilities { formats, alpha_modes }
}

#[test]
fn alpha_prefers_postmultiplied_over_premultiplied() {
    let modes = vec![AlphaMode::PostMultiplied, AlphaMode::PreMultiplied];
    assert_eq!(select_alpha(&modes), AlphaMode::PostMultiplied);
    let modes = vec![AlphaMode::PreMultiplied, AlphaMode::PostMultiplied];
    assert_eq!(select_alpha(&modes), AlphaMode::PostMultiplied);
}

#[test]
fn alpha_takes_premultiplied_when_postmultiplied_is_missing() {
    let modes = vec![AlphaMode::PreMultiplied];
    assert_eq!(select_alpha(&modes), AlphaMode::PreMultiplied);
    let modes = vec![AlphaMode::Opaque, AlphaMode::PreMultiplied];
    assert_eq!(select_alpha(&modes), AlphaMode::PreMultiplied);
}

#[test]
fn alpha_falls_back_to_auto() {
    assert_eq!(select_alpha(&vec![]), AlphaMode::Auto);
    let modes = vec![AlphaMode::Opaque, AlphaMode::Inherit];
    assert_eq!(select_alpha(&modes), AlphaMode::Auto);
}

#[test]
fn format_is_the_first_reported() {
    let c = caps(
        vec![PixelFormat(30), PixelFormat(10), PixelFormat(20)],
        vec![AlphaMode::Auto],
    );
    let config = negotiate(&c, false, None, (100, 100)).unwrap();
    assert_eq!(config.format, PixelFormat(30));
}

#[test]
fn empty_format_list_fails_with_incompatible() {
    let c = caps(vec![], vec![AlphaMode::Auto]);
    let r = negotiate(&c, true, None, (100, 100));
    assert_eq!(r.unwrap_err(), BindError::Incompatible);
}

#[test]
fn vsync_request_maps_to_present_mode() {
    let c = caps(vec![PixelFormat(1)], vec![]);
    let on = negotiate(&c, true, None, (1, 1)).unwrap();
    assert_eq!(on.present_mode, PresentMode::AutoVsync);
    let off = negotiate(&c, false, None, (1, 1)).unwrap();
    assert_eq!(off.present_mode, PresentMode::AutoNoVsync);
}

#[test]
fn size_defaults_to_drawable_unless_overridden() {
    let c = caps(vec![PixelFormat(1)], vec![]);
    let fit = negotiate(&c, true, None, (1280, 720)).unwrap();
    assert_eq!((fit.width, fit.height), (1280, 720));
    let forced = negotiate(&c, true, Some((64, 32)), (1280, 720)).unwrap();
    assert_eq!((forced.width, forced.height), (64, 32));
}

#[test]
fn negotiated_config_for_premultiplied_vsync_scenario() {
    let c = caps(
        vec![PixelFormat(100), PixelFormat(200)],
        vec![AlphaMode::PreMultiplied],
    );
    let config = negotiate(&c, true, None, (800, 600)).unwrap();
    assert_eq!(config.format, PixelFormat(100));
    assert_eq!(config.alpha_mode, AlphaMode::PreMultiplied);
    assert_eq!(config.present_mode, PresentMode::AutoVsync);
    assert_eq!((config.width, config.height), (800, 600));
}

#[test]
fn binding_fails_on_unsupported_platform() {
    let r = SurfaceBuilder::new(3, false);
    assert_eq!(r.unwrap_err(), BindError::UnsupportedPlatform);
    let b = SurfaceBuilder::new(3, true).unwrap();
    assert_eq!(b.drawable, 3);
}

#[test]
fn build_applies_the_negotiated_config() {
    let b = SurfaceBuilder::new(9, true).unwrap();
    let settings = GraphicsSettings::default();
    let c = caps(
        vec![PixelFormat(5)],
        vec![AlphaMode::PostMultiplied, AlphaMode::PreMultiplied],
    );
    let s = b.build(&settings, c, (320, 240)).unwrap();
    assert_eq!(s.drawable, 9);
    assert_eq!(s.format(), PixelFormat(5));
    assert_eq!(s.config.alpha_mode, AlphaMode::PostMultiplied);
    assert_eq!(s.config.present_mode, PresentMode::AutoVsync);
    assert_eq!((s.config.width, s.config.height), (320, 240));
    assert_eq!(s.config.version, 1);
    assert_eq!(s.generation, 0);
}

#[test]
fn build_fails_without_formats() {
    let b = SurfaceBuilder::new(9, true).unwrap();
    let settings = GraphicsSettings::default();
    let c = caps(vec![], vec![AlphaMode::Auto]);
    let r = b.build(&settings, c, (320, 240));
    assert_eq!(r.unwrap_err(), BindError::Incompatible);
}
