use vstd::prelude::*;
use vstd::pervasive::unreached;

use crate::context::{
    backend_context_type, compatibility_result, compatible, deref_platform, deref_sharing,
    shared_platform_spec, Context, ContextType, PlatformContext,
};
use crate::types::{Backend, CreationError, PhysicalSize};

verus! {

/// What a backend is asked to create: a context of one type, sharing with
/// the given backend context of that same type, if any, and of the given
/// size where the request names one.
#[derive(Debug)]
pub struct CreationPlan<'a> {
    pub context_type: ContextType,
    pub sharing: Option<&'a PlatformContext>,
    pub size: Option<PhysicalSize>,
}

/// The plan for a context of type `ct` that shares with `sharing` and has
/// size `size`, or the error when `sharing` has another type.
pub open spec fn plan_result(
    ct: ContextType,
    sharing: Option<Context>,
    size: Option<PhysicalSize>,
    res: Result<CreationPlan, CreationError>,
) -> bool {
    if compatible(sharing, ct) {
        &&& res is Ok
        &&& res->Ok_0.context_type == ct
        &&& deref_platform(res->Ok_0.sharing) == shared_platform_spec(sharing)
        &&& res->Ok_0.size == size
    } else {
        &&& res is Err
        &&& compatibility_result(sharing, ct, Err(res->Err_0))
    }
}

/// What the context builder knows: the context the new one shares with.
pub struct ContextBuilder<'a> {
    pub sharing: Option<&'a Context>,
}

/// The backend context of the shared context, taken out of its variant.
///
/// The caller has checked that the shared context has type `ct`, so the
/// variant is always the one of `ct`.
fn shared_platform<'a>(sharing: Option<&'a Context>, ct: ContextType) -> (res: Option<&'a PlatformContext>)
    requires
        compatible(deref_sharing(sharing), ct),
    ensures
        deref_platform(res) == shared_platform_spec(deref_sharing(sharing)),
{
    match sharing {
        None => None,
        Some(c) => match ct {
            ContextType::X11 => match *c {
                Context::X11(ref p) => Some(p),
                _ => unreached(),
            },
            ContextType::Wayland => match *c {
                Context::Wayland(ref p) => Some(p),
                _ => unreached(),
            },
            ContextType::Drm => match *c {
                Context::Drm(ref p) => Some(p),
                _ => unreached(),
            },
            ContextType::OsMesa => match *c {
                Context::OsMesa(ref p) => Some(p),
                _ => unreached(),
            },
        },
    }
}

/// Checks the sharing request and plans a context of type `ct`.
fn plan<'a>(ct: ContextType, sharing: Option<&'a Context>, size: Option<PhysicalSize>) -> (res:
    Result<CreationPlan<'a>, CreationError>)
    ensures
        plan_result(ct, deref_sharing(sharing), size, res),
{
    match Context::is_compatible(&sharing, ct) {
        Err(e) => Err(e),
        Ok(()) => {
            let shared = shared_platform(sharing, ct);
            Ok(CreationPlan { context_type: ct, sharing: shared, size })
        },
    }
}

/// The type of context that `backend` creates.
fn backend_type(backend: Backend) -> (ct: ContextType)
    ensures
        ct == backend_context_type(backend),
{
    match backend {
        Backend::X => ContextType::X11,
        Backend::Wayland => ContextType::Wayland,
        Backend::Kms => ContextType::Drm,
    }
}

impl Context {
    /// Plans a context with a window on the event loop's backend.
    pub fn new_windowed<'a>(backend: Backend, sharing: Option<&'a Context>) -> (res: Result<
        CreationPlan<'a>,
        CreationError,
    >)
        ensures
            plan_result(backend_context_type(backend), deref_sharing(sharing), None, res),
    {
        plan(backend_type(backend), sharing, None)
    }

    /// Plans a headless context of the given size on the event loop's backend.
    pub fn new_headless<'a>(backend: Backend, sharing: Option<&'a Context>, size: PhysicalSize) -> (res:
        Result<CreationPlan<'a>, CreationError>)
        ensures
            plan_result(backend_context_type(backend), deref_sharing(sharing), Some(size), res),
    {
        Self::new_headless_impl(backend, sharing, Some(size))
    }

    /// Plans a headless context on the event loop's backend; without a size
    /// the context has no surface.
    pub fn new_headless_impl<'a>(
        backend: Backend,
        sharing: Option<&'a Context>,
        size: Option<PhysicalSize>,
    ) -> (res: Result<CreationPlan<'a>, CreationError>)
        ensures
            plan_result(backend_context_type(backend), deref_sharing(sharing), size, res),
    {
        plan(backend_type(backend), sharing, size)
    }

    /// Wraps the backend context that a plan of type `ct` produced, or
    /// passes on the backend's error.
    pub fn from_created(ct: ContextType, created: Result<PlatformContext, CreationError>) -> (res:
        Result<Context, CreationError>)
        ensures
            match created {
                Ok(p) => res == Ok::<Context, CreationError>(Context::build(ct, p)),
                Err(e) => res == Err::<Context, CreationError>(e),
            },
    {
        match created {
            Err(e) => Err(e),
            Ok(p) => match ct {
                ContextType::X11 => Ok(Context::X11(p)),
                ContextType::Wayland => Ok(Context::Wayland(p)),
                ContextType::Drm => Ok(Context::Drm(p)),
                ContextType::OsMesa => Ok(Context::OsMesa(p)),
            },
        }
    }
}

impl<'a> ContextBuilder<'a> {
    /// Plans an OSMesa context of the given size, whatever the backend.
    pub fn build_osmesa(self, size: PhysicalSize) -> (res: Result<CreationPlan<'a>, CreationError>)
        ensures
            plan_result(ContextType::OsMesa, deref_sharing(self.sharing), Some(size), res),
    {
        plan(ContextType::OsMesa, self.sharing, Some(size))
    }

    /// Plans a surfaceless EGL context on the event loop's backend.
    pub fn build_surfaceless(self, backend: Backend) -> (res: Result<CreationPlan<'a>, CreationError>)
        ensures
            plan_result(backend_context_type(backend), deref_sharing(self.sharing), None, res),
    {
        Context::new_headless_impl(backend, self.sharing, None)
    }

    /// Plans a Wayland context on a surface the caller provides.
    pub fn build_raw_wayland_context(self, width: u32, height: u32) -> (res: Result<
        CreationPlan<'a>,
        CreationError,
    >)
        ensures
            plan_result(
                ContextType::Wayland,
                deref_sharing(self.sharing),
                Some(PhysicalSize { width, height }),
                res,
            ),
    {
        plan(ContextType::Wayland, self.sharing, Some(PhysicalSize { width, height }))
    }

    /// Plans an X11 context on a window the caller provides.
    pub fn build_raw_x11_context(self) -> (res: Result<CreationPlan<'a>, CreationError>)
        ensures
            plan_result(ContextType::X11, deref_sharing(self.sharing), None, res),
    {
        plan(ContextType::X11, self.sharing, None)
    }

    /// Plans a KMS/DRM context on a device the caller provides.
    pub fn build_raw_drm_context(self, width: u32, height: u32) -> (res: Result<
        CreationPlan<'a>,
        CreationError,
    >)
        ensures
            plan_result(
                ContextType::Drm,
                deref_sharing(self.sharing),
                Some(PhysicalSize { width, height }),
                res,
            ),
    {
        plan(ContextType::Drm, self.sharing, Some(PhysicalSize { width, height }))
    }
}

} // verus!
