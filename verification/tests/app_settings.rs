use checker_scene::config::{app_config, FilterMode};
use checker_scene::geometry::ColorMilli;

#[test]
fn window_and_clear_color() {
    let cfg = app_config();
    assert_eq!(cfg.window.width_px, 1920);
    assert_eq!(cfg.window.height_px, 1080);
    assert_eq!(cfg.clear_color, ColorMilli { red: 530, green: 530, blue: 530 });
}

#[test]
fn nearest_sampling_and_asset_watching() {
    let cfg = app_config();
    assert_eq!(cfg.sampler.mag, FilterMode::Nearest);
    assert_eq!(cfg.sampler.min, FilterMode::Nearest);
    assert_eq!(cfg.sampler.mipmap, FilterMode::Nearest);
    assert!(cfg.watch_assets);
}
