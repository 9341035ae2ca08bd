use vstd::prelude::*;

verus! {

/// The rendering API a context was created for.
#[derive(Clone, Copy, Debug, PartialEq, Eq, Structural)]
pub enum Api {
    /// The classical OpenGL, available on desktop.
    OpenGl,
    /// OpenGL embedded system.
    OpenGlEs,
    /// OpenGL for the web.
    WebGl,
}

/// Describes the pixel format of a main framebuffer.
#[derive(Clone, Copy, Debug, PartialEq, Eq)]
pub struct PixelFormat {
    pub hardware_accelerated: bool,
    pub color_bits: u8,
    pub alpha_bits: u8,
    pub depth_bits: u8,
    pub stencil_bits: u8,
    pub stereoscopy: bool,
    pub double_buffer: bool,
    pub multisampling: Option<u16>,
    pub srgb: bool,
}

/// A rectangle of a surface, in pixels, used for damage reports.
#[derive(Clone, Copy, Debug, PartialEq, Eq, Structural)]
pub struct Rect {
    pub x: u32,
    pub y: u32,
    pub width: u32,
    pub height: u32,
}

/// A size in physical pixels.
#[derive(Clone, Copy, Debug, PartialEq, Eq, Structural)]
pub struct PhysicalSize {
    pub width: u32,
    pub height: u32,
}

/// The windowing backend that a Unix event loop runs on.
#[derive(Clone, Copy, Debug, PartialEq, Eq, Structural)]
pub enum Backend {
    /// An X11 server.
    X,
    /// A Wayland compositor.
    Wayland,
    /// Direct rendering on a KMS/DRM device.
    Kms,
}

/// Errors that can happen while creating a context.
#[derive(Debug)]
pub enum CreationError {
    OsError(String),
    NotSupported(String),
    RobustnessNotSupported,
    OpenGlVersionNotSupported,
    NoAvailablePixelFormat,
    PlatformSpecific(String),
}

/// Errors that can happen when a context is used.
#[derive(Debug)]
pub enum ContextError {
    /// The operating system or the driver reported an error.
    OsError(String),
    /// The context was lost.
    ContextLost,
    /// The requested function is not available.
    FunctionUnavailable,
}

} // verus!
