//! The Unix platform layer of a GL context library: one context type over
//! the X11, Wayland, KMS/DRM and OSMesa backends, with the rules that decide
//! which backend handles a request and which contexts may share.
pub mod context;
pub mod creation;
pub mod laws;
pub mod types;

pub use context::{
    BackendCall, BackendRequest, Context, ContextType, CurrentContext, PlatformContext, RawHandle,
};
pub use creation::{ContextBuilder, CreationPlan};
pub use types::{Api, Backend, ContextError, CreationError, PhysicalSize, PixelFormat, Rect};
