//! Engine-level settings the application runs with: window size, the
//! colour the viewport is cleared to, the texture sampler filters, and
//! whether asset files are watched for live reloading.

use vstd::prelude::*;
use crate::geometry::ColorMilli;

verus! {

/// Requested window width, in pixels.
pub const WINDOW_WIDTH_PX: u32 = 1920;

/// Requested window height, in pixels.
pub const WINDOW_HEIGHT_PX: u32 = 1080;

/// The grey level the viewport is cleared to, in thousandths.
pub const CLEAR_GREY_MILLI: i64 = 530;

/// How a texture sampler picks texels.
#[derive(Clone, Copy, PartialEq, Eq, Structural, Debug)]
pub enum FilterMode {
    /// Take the nearest texel, giving hard pixel edges.
    Nearest,
    /// Blend neighbouring texels.
    Linear,
}

/// The default texture sampler: one filter choice each for magnification,
/// minification and mip-level selection.
#[derive(Clone, Copy, PartialEq, Eq, Structural, Debug)]
pub struct SamplerConfig {
    pub mag: FilterMode,
    pub min: FilterMode,
    pub mipmap: FilterMode,
}

/// The requested window surface, in pixels.
#[derive(Clone, Copy, PartialEq, Eq, Structural, Debug)]
pub struct WindowConfig {
    pub width_px: u32,
    pub height_px: u32,
}

/// Everything the application asks of the engine besides the scene itself.
#[derive(Clone, Copy, PartialEq, Eq, Structural, Debug)]
pub struct AppConfig {
    pub window: WindowConfig,
    pub clear_color: ColorMilli,
    pub sampler: SamplerConfig,
    pub watch_assets: bool,
}

/// The one fixed configuration this application runs with: a 1920 by 1080
/// window, a mid-grey clear colour, nearest-neighbour sampling throughout,
/// and live asset reloading on.
pub open spec fn configured_app() -> AppConfig {
    AppConfig {
        window: WindowConfig { width_px: WINDOW_WIDTH_PX, height_px: WINDOW_HEIGHT_PX },
        clear_color: ColorMilli::grey_spec(CLEAR_GREY_MILLI),
        sampler: SamplerConfig {
            mag: FilterMode::Nearest,
            min: FilterMode::Nearest,
            mipmap: FilterMode::Nearest,
        },
        watch_assets: true,
    }
}

/// Builds the configuration of `configured_app`.
pub fn app_config() -> (c: AppConfig)
    ensures
        c == configured_app(),
{
    AppConfig {
        window: WindowConfig { width_px: WINDOW_WIDTH_PX, height_px: WINDOW_HEIGHT_PX },
        clear_color: ColorMilli::grey(CLEAR_GREY_MILLI),
        sampler: SamplerConfig {
            mag: FilterMode::Nearest,
            min: FilterMode::Nearest,
            mipmap: FilterMode::Nearest,
        },
        watch_assets: true,
    }
}

} // verus!
