use vstd::prelude::*;

verus! {

/// The color format of the presentation chain's images.
#[derive(Clone, Copy, Debug, PartialEq, Eq, Structural)]
pub enum TextureFormat {
    /// 8-bit blue, green, red, alpha, gamma-corrected.
    Bgra8UnormSrgb,
    /// 8-bit red, green, blue, alpha, gamma-corrected.
    Rgba8UnormSrgb,
}

/// How the presentation chain hands finished images to the display.
#[derive(Clone, Copy, Debug, PartialEq, Eq, Structural)]
pub enum PresentMode {
    /// Present at once; may tear.
    Immediate,
    /// Replace a waiting image with the newest one.
    Mailbox,
    /// First in, first out, locked to the display's refresh: never tears.
    Fifo,
}

/// What the presentation chain's images are used for.
#[derive(Clone, Copy, Debug, PartialEq, Eq, Structural)]
pub enum ChainUsage {
    /// Color targets of render passes.
    RenderTarget,
}

/// How the presentation chain is set up.
#[derive(Clone, Copy, Debug, PartialEq, Eq, Structural)]
pub struct ChainConfig {
    pub usage: ChainUsage,
    pub format: TextureFormat,
    pub width: u32,
    pub height: u32,
    pub present_mode: PresentMode,
}

/// Which adapter to prefer when several are available.
#[derive(Clone, Copy, Debug, PartialEq, Eq, Structural)]
pub enum PowerPreference {
    Default,
    LowPower,
    HighPerformance,
}

/// The graphics backends searched for an adapter.
#[derive(Clone, Copy, Debug, PartialEq, Eq, Structural)]
pub enum Backends {
    /// The backends with first-class support (Vulkan, Metal, DX12, WebGPU).
    Primary,
    /// The backends with second-class support (OpenGL, DX11).
    Secondary,
}

/// The resource limits asked of the device.
#[derive(Clone, Copy, Debug, PartialEq, Eq, Structural)]
pub enum DeviceLimits {
    /// The API's default limits.
    Default,
}

/// How the adapter is searched for.
#[derive(Clone, Copy, Debug, PartialEq, Eq, Structural)]
pub struct AdapterOptions {
    pub power_preference: PowerPreference,
    pub backends: Backends,
    /// Whether the adapter must be able to present to the window's surface.
    pub compatible_with_surface: bool,
}

/// What the logical device is asked for.
#[derive(Clone, Copy, Debug, PartialEq, Eq, Structural)]
pub struct DeviceOptions {
    pub anisotropic_filtering: bool,
    pub limits: DeviceLimits,
}

/// How the text rasterizer is set up.
#[derive(Clone, Copy, Debug, PartialEq, Eq, Structural)]
pub struct RasterizerConfig {
    /// Whether glyph positions are cached between frames.
    pub cache_glyph_positioning: bool,
    /// The color format that the rasterizer's pipeline renders to.
    pub format: TextureFormat,
}

/// Where the font is read from, relative to the working directory.
pub const FONT_PATH: &'static str = "assets/fonts/Inconsolata-Regular.ttf";

/// The presentation chain for a window of `width` by `height` pixels: render
/// targets in gamma-corrected BGRA, the window's size, presented in FIFO order.
pub fn chain_config(width: u32, height: u32) -> (r: ChainConfig)
    ensures
        r == (ChainConfig {
            usage: ChainUsage::RenderTarget,
            format: TextureFormat::Bgra8UnormSrgb,
            width,
            height,
            present_mode: PresentMode::Fifo,
        }),
{
    ChainConfig {
        usage: ChainUsage::RenderTarget,
        format: TextureFormat::Bgra8UnormSrgb,
        width,
        height,
        present_mode: PresentMode::Fifo,
    }
}

/// The text rasterizer for `chain`: no glyph-position cache, so text that
/// changes between frames is never drawn from stale positions, and a pipeline
/// that renders in the chain's format.
pub fn rasterizer_config(chain: &ChainConfig) -> (r: RasterizerConfig)
    ensures
        r == (RasterizerConfig { cache_glyph_positioning: false, format: chain.format }),
{
    RasterizerConfig { cache_glyph_positioning: false, format: chain.format }
}

/// The adapter search: a high-performance adapter among the primary backends
/// that can present to the window's surface.
pub fn adapter_options() -> (r: AdapterOptions)
    ensures
        r == (AdapterOptions {
            power_preference: PowerPreference::HighPerformance,
            backends: Backends::Primary,
            compatible_with_surface: true,
        }),
{
    AdapterOptions {
        power_preference: PowerPreference::HighPerformance,
        backends: Backends::Primary,
        compatible_with_surface: true,
    }
}

/// The device request: no extensions (anisotropic filtering off) and the
/// default limits.
pub fn device_options() -> (r: DeviceOptions)
    ensures
        r == (DeviceOptions { anisotropic_filtering: false, limits: DeviceLimits::Default }),
{
    DeviceOptions { anisotropic_filtering: false, limits: DeviceLimits::Default }
}

} // verus!
