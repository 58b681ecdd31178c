use vstd::prelude::*;

verus! {

/// How presented frames are handed to the display.
#[derive(Clone, Copy, Debug, PartialEq, Eq, Structural)]
pub enum PresentMode {
    AutoVsync,
    AutoNoVsync,
    Fifo,
    FifoRelaxed,
    Immediate,
    /// Low latency: the newest frame replaces a waiting one.
    Mailbox,
}

/// How the surface's alpha channel is composited with the desktop.
#[derive(Clone, Copy, Debug, PartialEq, Eq, Structural)]
pub enum AlphaMode {
    Auto,
    Opaque,
    PreMultiplied,
    PostMultiplied,
    Inherit,
}

/// The frame-latency cap with which every surface is configured.
pub const FRAME_LATENCY: u32 = 2;

/// The configuration applied to a surface. `F` is the pixel format type of
/// the graphics backend; the library only carries it.
#[derive(Debug)]
pub struct SurfaceConfig<F> {
    pub width: u32,
    pub height: u32,
    pub format: F,
    pub present_mode: PresentMode,
    pub alpha_mode: AlphaMode,
    pub desired_maximum_frame_latency: u32,
}

/// A dimension as a surface accepts it: never below one pixel.
pub open spec fn clamped(v: u32) -> u32 {
    if v == 0 { 1 } else { v }
}

impl<F> SurfaceConfig<F> {
    /// Both dimensions are at least one pixel.
    pub open spec fn wf(self) -> bool {
        self.width >= 1 && self.height >= 1
    }

    /// The same configuration with the given size, each dimension clamped.
    pub open spec fn with_size(self, width: u32, height: u32) -> SurfaceConfig<F> {
        SurfaceConfig { width: clamped(width), height: clamped(height), ..self }
    }
}

/// The configuration that activation builds for a window of the given size
/// from the first format that its surface reports: that format, low-latency
/// presentation, automatic alpha and a frame-latency cap of two.
pub open spec fn initial_config<F>(width: u32, height: u32, format: F) -> SurfaceConfig<F> {
    SurfaceConfig {
        width: clamped(width),
        height: clamped(height),
        format,
        present_mode: PresentMode::Mailbox,
        alpha_mode: AlphaMode::Auto,
        desired_maximum_frame_latency: FRAME_LATENCY,
    }
}

/// Clamps a requested surface dimension to at least one pixel.
pub fn clamp_dimension(v: u32) -> (r: u32)
    ensures
        r == clamped(v),
        r >= 1,
        r as int == if v >= 1 { v as int } else { 1 },
{
    if v == 0 { 1 } else { v }
}

/// Builds the initial configuration of a surface of `width` x `height`
/// pixels from the formats that the surface reports. `None` when it reports
/// none, since no configuration can then be built.
pub fn configuration_for<F: Copy>(width: u32, height: u32, formats: &Vec<F>) -> (r: Option<
    SurfaceConfig<F>,
>)
    ensures
        formats@.len() == 0 <==> r is None,
        formats@.len() > 0 ==> r == Some(initial_config(width, height, formats@[0])),
{
    if formats.len() == 0 {
        return None;
    }
    let format: F = formats[0];
    Some(
        SurfaceConfig {
            width: clamp_dimension(width),
            height: clamp_dimension(height),
            format,
            present_mode: PresentMode::Mailbox,
            alpha_mode: AlphaMode::Auto,
            desired_maximum_frame_latency: FRAME_LATENCY,
        },
    )
}

} // verus!
