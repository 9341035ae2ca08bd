use vstd::prelude::*;
use vstd::pervasive::unreached;

use crate::types::{Api, Backend, ContextError, CreationError, PhysicalSize, PixelFormat, Rect};

verus! {

/// The handle of a context as the platform API knows it.
///
/// The handle is kept as the integer value of the platform's pointer.
#[derive(Clone, Copy, Debug, PartialEq, Eq, Structural)]
pub enum RawHandle {
    /// Handle of a GLX context.
    Glx(usize),
    /// Handle of an EGL context. An OSMesa context reports its own context
    /// handle under this variant too.
    Egl(usize),
}

impl RawHandle {
    /// The pointer value the handle carries, whatever its kind.
    pub open spec fn value(self) -> usize {
        match self {
            RawHandle::Glx(v) => v,
            RawHandle::Egl(v) => v,
        }
    }
}

/// The kinds of context a Unix platform can create.
#[derive(Clone, Copy, Debug, PartialEq, Eq, Structural)]
pub enum ContextType {
    X11,
    Wayland,
    Drm,
    OsMesa,
}

/// The kind of context that a windowing backend creates.
pub open spec fn backend_context_type(backend: Backend) -> ContextType {
    match backend {
        Backend::X => ContextType::X11,
        Backend::Wayland => ContextType::Wayland,
        Backend::Kms => ContextType::Drm,
    }
}

/// What the library knows of one backend context: the values that the
/// backend reported when it created the context, and those that change as
/// the context is used.
#[derive(Clone, Copy, Debug)]
pub struct PlatformContext {
    /// The platform handle; an X11 context has a GLX or an EGL handle,
    /// the other backends hand out their context pointer as is.
    pub handle: RawHandle,
    /// The EGL display the context lives on, where it has one.
    pub egl_display: Option<usize>,
    /// The API the context was created for.
    pub api: Api,
    /// The pixel format of the context's framebuffer.
    pub pixel_format: PixelFormat,
    /// The age of the back buffer, as the driver last reported it.
    pub buffer_age: u32,
    /// Whether the surface accepts damage rectangles on a swap.
    pub damage_supported: bool,
    /// The width of the surface, in pixels.
    pub width: u32,
    /// The height of the surface, in pixels.
    pub height: u32,
}

impl PlatformContext {
    /// The same context with the age of its back buffer set to `age`.
    pub open spec fn with_buffer_age(self, age: u32) -> PlatformContext {
        PlatformContext { buffer_age: age, ..self }
    }

    /// The same context with its surface resized.
    pub open spec fn with_size(self, width: u32, height: u32) -> PlatformContext {
        PlatformContext { width, height, ..self }
    }
}

/// The context that is current on the calling thread, named by its handle,
/// as the platform reports it; `None` when no context is current.
#[derive(Clone, Copy, Debug, PartialEq, Eq, Structural)]
pub struct CurrentContext {
    pub handle: Option<RawHandle>,
}

/// A successful switch of the thread's current context.
pub enum Switch {
    /// The context with this handle was made current.
    MakeCurrent(RawHandle),
    /// The context with this handle was released.
    MakeNotCurrent(RawHandle),
}

/// The thread's current context after a successful switch: making a context
/// current replaces whatever was current; releasing a context releases it
/// only if it is the current one.
pub open spec fn after_switch(current: Option<RawHandle>, switch: Switch) -> Option<RawHandle> {
    match switch {
        Switch::MakeCurrent(h) => Some(h),
        Switch::MakeNotCurrent(h) => if current == Some(h) {
            None
        } else {
            current
        },
    }
}

/// The thread's current context after the successful switches `switches`,
/// in order.
pub open spec fn after_switches(current: Option<RawHandle>, switches: Seq<Switch>) -> Option<
    RawHandle,
>
    decreases switches.len(),
{
    if switches.len() == 0 {
        current
    } else {
        after_switches(after_switch(current, switches[0]), switches.drop_first())
    }
}

/// What a context asks of its backend.
pub enum BackendRequest {
    /// Swap the buffers of the surface.
    Swap,
    /// Swap the buffers of the surface, reporting these damaged rectangles.
    SwapWithDamage(Vec<Rect>),
    /// Look up the address of the GL function with this name.
    ProcAddress(String),
}

/// A call to the backend of one context: the backend's type, the context's
/// handle, and the request.
pub struct BackendCall {
    pub context_type: ContextType,
    pub handle: RawHandle,
    pub request: BackendRequest,
}

/// A GL context on a Unix platform, one variant per backend.
#[derive(Debug)]
pub enum Context {
    X11(PlatformContext),
    Wayland(PlatformContext),
    Drm(PlatformContext),
    OsMesa(PlatformContext),
}

/// The message of the error returned when a context of type `ct` is asked to
/// share with a context of another type.
pub open spec fn share_error_message(ct: ContextType) -> Seq<char> {
    match ct {
        ContextType::OsMesa => "Cannot share an OSMesa context with a non-OSMesa context"@,
        ContextType::X11 => "Cannot share an X11 context with a non-X11 context"@,
        ContextType::Wayland => "Cannot share a Wayland context with a non-Wayland context"@,
        ContextType::Drm => "Cannot share a KMS/DRM context with a non-KMS/DRM context"@,
    }
}

/// Whether a context of type `ct` may share with `sharing`: either it shares
/// with nothing, or it shares with a context of the same type.
pub open spec fn compatible(sharing: Option<Context>, ct: ContextType) -> bool {
    match sharing {
        Some(c) => c.context_type() == ct,
        None => true,
    }
}

/// What a call of `Context::is_compatible` returns.
pub open spec fn compatibility_result(
    sharing: Option<Context>,
    ct: ContextType,
    res: Result<(), CreationError>,
) -> bool {
    if compatible(sharing, ct) {
        res is Ok
    } else {
        res matches Err(CreationError::PlatformSpecific(m)) && m@ == share_error_message(ct)
    }
}

/// The context that `sharing` refers to, by value.
pub open spec fn deref_sharing(sharing: Option<&Context>) -> Option<Context> {
    match sharing {
        Some(c) => Some(*c),
        None => None,
    }
}

/// The backend context that `sharing` refers to, by value.
pub open spec fn deref_platform(sharing: Option<&PlatformContext>) -> Option<PlatformContext> {
    match sharing {
        Some(p) => Some(*p),
        None => None,
    }
}

/// The backend context of a shared context, by value.
pub open spec fn shared_platform_spec(sharing: Option<Context>) -> Option<PlatformContext> {
    match sharing {
        Some(c) => Some(c.inner()),
        None => None,
    }
}

impl Context {
    /// The type of this context.
    pub open spec fn context_type(self) -> ContextType {
        match self {
            Context::X11(_) => ContextType::X11,
            Context::Wayland(_) => ContextType::Wayland,
            Context::Drm(_) => ContextType::Drm,
            Context::OsMesa(_) => ContextType::OsMesa,
        }
    }

    /// The backend context inside this context.
    pub open spec fn inner(self) -> PlatformContext {
        match self {
            Context::X11(p) => p,
            Context::Wayland(p) => p,
            Context::Drm(p) => p,
            Context::OsMesa(p) => p,
        }
    }

    /// The context of type `ct` around the backend context `p`.
    pub open spec fn build(ct: ContextType, p: PlatformContext) -> Context {
        match ct {
            ContextType::X11 => Context::X11(p),
            ContextType::Wayland => Context::Wayland(p),
            ContextType::Drm => Context::Drm(p),
            ContextType::OsMesa => Context::OsMesa(p),
        }
    }

    /// The same context around another backend context.
    pub open spec fn with_inner(self, p: PlatformContext) -> Context {
        Context::build(self.context_type(), p)
    }

    /// The raw handle that this context reports: an X11 context reports the
    /// GLX or EGL handle it was created with, every other context reports its
    /// handle as an EGL handle.
    pub open spec fn raw_handle_spec(self) -> RawHandle {
        match self {
            Context::X11(p) => p.handle,
            Context::Wayland(p) => RawHandle::Egl(p.handle.value()),
            Context::Drm(p) => RawHandle::Egl(p.handle.value()),
            Context::OsMesa(p) => RawHandle::Egl(p.handle.value()),
        }
    }

    /// The EGL display that this context reports: none for an OSMesa
    /// context, the backend's display otherwise.
    pub open spec fn egl_display_spec(self) -> Option<usize> {
        match self {
            Context::OsMesa(_) => None,
            _ => self.inner().egl_display,
        }
    }

    /// This context after a resize of its surface: an X11 context is left as
    /// it is, a Wayland or KMS/DRM context gets the new size.
    pub open spec fn resized(self, width: u32, height: u32) -> Context {
        match self {
            Context::X11(_) => self,
            _ => self.with_inner(self.inner().with_size(width, height)),
        }
    }

    /// Checks that a context of type `ct` can share with `c`.
    ///
    /// Succeeds when `c` is `None` or a context of type `ct`; otherwise fails
    /// with a platform-specific error that names the two kinds.
    pub fn is_compatible(c: &Option<&Context>, ct: ContextType) -> (res: Result<(), CreationError>)
        ensures
            compatibility_result(deref_sharing(*c), ct, res),
    {
        if let Some(c) = *c {
            match ct {
                ContextType::OsMesa => match *c {
                    Context::OsMesa(_) => Ok(()),
                    _ => {
                        let msg = "Cannot share an OSMesa context with a non-OSMesa context";
                        Err(CreationError::PlatformSpecific(String::from_str(msg)))
                    },
                },
                ContextType::X11 => match *c {
                    Context::X11(_) => Ok(()),
                    _ => {
                        let msg = "Cannot share an X11 context with a non-X11 context";
                        Err(CreationError::PlatformSpecific(String::from_str(msg)))
                    },
                },
                ContextType::Wayland => match *c {
                    Context::Wayland(_) => Ok(()),
                    _ => {
                        let msg = "Cannot share a Wayland context with a non-Wayland context";
                        Err(CreationError::PlatformSpecific(String::from_str(msg)))
                    },
                },
                ContextType::Drm => match *c {
                    Context::Drm(_) => Ok(()),
                    _ => {
                        let msg = "Cannot share a KMS/DRM context with a non-KMS/DRM context";
                        Err(CreationError::PlatformSpecific(String::from_str(msg)))
                    },
                },
            }
        } else {
            Ok(())
        }
    }

    /// The backend context inside this context.
    fn platform(&self) -> (p: PlatformContext)
        ensures
            p == self.inner(),
    {
        match *self {
            Context::X11(ctx) => ctx,
            Context::Wayland(ctx) => ctx,
            Context::Drm(ctx) => ctx,
            Context::OsMesa(ctx) => ctx,
        }
    }

    /// Puts `p` in place of the backend context, keeping the variant.
    fn replace_inner(&mut self, p: PlatformContext)
        ensures
            *final(self) == old(self).with_inner(p),
    {
        match *self {
            Context::X11(_) => {
                *self = Context::X11(p);
            },
            Context::Wayland(_) => {
                *self = Context::Wayland(p);
            },
            Context::Drm(_) => {
                *self = Context::Drm(p);
            },
            Context::OsMesa(_) => {
                *self = Context::OsMesa(p);
            },
        }
    }

    /// Whether this context is the one current on the thread whose current
    /// context is `thread`.
    pub fn is_current(&self, thread: &CurrentContext) -> (res: bool)
        ensures
            res == (thread.handle == Some(self.inner().handle)),
    {
        let p = self.platform();
        match thread.handle {
            Some(h) => h == p.handle,
            None => false,
        }
    }

    /// The API this context was created for.
    pub fn get_api(&self) -> (res: Api)
        ensures
            res == self.inner().api,
    {
        match *self {
            Context::X11(ref ctx) => ctx.api,
            Context::Wayland(ref ctx) => ctx.api,
            Context::Drm(ref ctx) => ctx.api,
            Context::OsMesa(ref ctx) => ctx.api,
        }
    }

    /// Makes this context current on the thread whose current context is
    /// `thread`.
    ///
    /// `driver` is what the backend's platform call reported. On success the
    /// thread's current context is this one; on failure it is left as it
    /// was, as the EGL and GLX make-current calls leave the current context
    /// unchanged when they fail. The result is the driver's.
    pub fn make_current(&self, thread: &mut CurrentContext, driver: Result<(), ContextError>) -> (res:
        Result<(), ContextError>)
        ensures
            res == driver,
            driver is Ok ==> final(thread).handle == after_switch(
                old(thread).handle,
                Switch::MakeCurrent(self.inner().handle),
            ),
            driver is Err ==> *final(thread) == *old(thread),
    {
        if driver.is_ok() {
            let p = self.platform();
            thread.handle = Some(p.handle);
        }
        driver
    }

    /// Releases this context on the thread whose current context is
    /// `thread`, if it is the current one there.
    ///
    /// `driver` is what the backend's platform call reported. On success this
    /// context is no longer current and a different current context stays
    /// current; on failure the thread is left as it was. The result is the
    /// driver's.
    pub fn make_not_current(&self, thread: &mut CurrentContext, driver: Result<(), ContextError>) -> (res:
        Result<(), ContextError>)
        ensures
            res == driver,
            driver is Ok ==> final(thread).handle == after_switch(
                old(thread).handle,
                Switch::MakeNotCurrent(self.inner().handle),
            ),
            driver is Err ==> *final(thread) == *old(thread),
    {
        if driver.is_ok() {
            let p = self.platform();
            let is_this = match thread.handle {
                Some(h) => h == p.handle,
                None => false,
            };
            if is_this {
                thread.handle = None;
            }
        }
        driver
    }

    /// The raw handle of this context: an X11 context reports its GLX or EGL
    /// handle, the others report theirs as an EGL handle.
    pub fn raw_handle(&self) -> (res: RawHandle)
        ensures
            res == self.raw_handle_spec(),
    {
        match *self {
            Context::X11(ref ctx) => match ctx.handle {
                RawHandle::Glx(h) => RawHandle::Glx(h),
                RawHandle::Egl(h) => RawHandle::Egl(h),
            },
            Context::Wayland(ref ctx) => RawHandle::Egl(handle_value(ctx.handle)),
            Context::Drm(ref ctx) => RawHandle::Egl(handle_value(ctx.handle)),
            Context::OsMesa(ref ctx) => RawHandle::Egl(handle_value(ctx.handle)),
        }
    }

    /// The EGL display of this context: `None` for an OSMesa context.
    pub fn get_egl_display(&self) -> (res: Option<usize>)
        ensures
            res == self.egl_display_spec(),
    {
        match *self {
            Context::X11(ref ctx) => ctx.egl_display,
            Context::Wayland(ref ctx) => ctx.egl_display,
            Context::Drm(ref ctx) => ctx.egl_display,
            _ => None,
        }
    }

    /// Resizes the surface of this context. An X11 context is left alone
    /// (the X server resizes the window); a Wayland or KMS/DRM context takes
    /// the new size. An OSMesa context cannot be resized here.
    pub fn resize(&mut self, width: u32, height: u32)
        requires
            old(self).context_type() != ContextType::OsMesa,
        ensures
            *final(self) == old(self).resized(width, height),
    {
        match *self {
            Context::X11(_) => {},
            Context::Wayland(ctx) => {
                *self = Context::Wayland(PlatformContext { width, height, ..ctx });
            },
            Context::Drm(ctx) => {
                *self = Context::Drm(PlatformContext { width, height, ..ctx });
            },
            Context::OsMesa(_) => {
                unreached()
            },
        }
    }

    /// The call that swaps the buffers of this context's surface. An OSMesa
    /// context has no surface to swap.
    pub fn swap_buffers(&self) -> (call: BackendCall)
        requires
            self.context_type() != ContextType::OsMesa,
        ensures
            call.context_type == self.context_type(),
            call.handle == self.inner().handle,
            call.request is Swap,
    {
        let p = self.platform();
        match *self {
            Context::X11(_) => BackendCall { context_type: ContextType::X11, handle: p.handle, request: BackendRequest::Swap },
            Context::Wayland(_) => BackendCall { context_type: ContextType::Wayland, handle: p.handle, request: BackendRequest::Swap },
            Context::Drm(_) => BackendCall { context_type: ContextType::Drm, handle: p.handle, request: BackendRequest::Swap },
            Context::OsMesa(_) => unreached(),
        }
    }

    /// The call that swaps the buffers of this context's surface and reports
    /// the damaged rectangles `rects`, all of them and in their order. An
    /// OSMesa context has no surface to swap.
    pub fn swap_buffers_with_damage(&self, rects: &[Rect]) -> (call: BackendCall)
        requires
            self.context_type() != ContextType::OsMesa,
        ensures
            call.context_type == self.context_type(),
            call.handle == self.inner().handle,
            call.request matches BackendRequest::SwapWithDamage(damage) && damage@ == rects@,
    {
        let p = self.platform();
        let mut damage: Vec<Rect> = Vec::new();
        let mut i: usize = 0;
        while i < rects.len()
            invariant
                i <= rects@.len(),
                damage@ == rects@.take(i as int),
            decreases rects@.len() - i,
        {
            damage.push(rects[i]);
            i = i + 1;
            assert(damage@ == rects@.take(i as int));
        }
        assert(rects@.take(rects@.len() as int) == rects@);
        let request = BackendRequest::SwapWithDamage(damage);
        match *self {
            Context::X11(_) => BackendCall { context_type: ContextType::X11, handle: p.handle, request },
            Context::Wayland(_) => BackendCall { context_type: ContextType::Wayland, handle: p.handle, request },
            Context::Drm(_) => BackendCall { context_type: ContextType::Drm, handle: p.handle, request },
            Context::OsMesa(_) => unreached(),
        }
    }

    /// Records what the backend reported for a swap of this context: on
    /// success the age of the new back buffer, which `buffer_age` reports
    /// from then on; on failure the context is left as it was. The result is
    /// the driver's, without the age.
    pub fn finish_swap(&mut self, driver: Result<u32, ContextError>) -> (res: Result<(), ContextError>)
        requires
            old(self).context_type() != ContextType::OsMesa,
        ensures
            match driver {
                Ok(age) => {
                    &&& res is Ok
                    &&& *final(self) == old(self).with_inner(old(self).inner().with_buffer_age(age))
                },
                Err(e) => {
                    &&& res == Err::<(), ContextError>(e)
                    &&& *final(self) == *old(self)
                },
            },
    {
        match driver {
            Ok(age) => {
                let p = self.platform();
                self.replace_inner(PlatformContext { buffer_age: age, ..p });
                Ok(())
            },
            Err(e) => Err(e),
        }
    }

    /// The call that looks up the GL function named `addr` through this
    /// context's backend; every backend answers it.
    pub fn get_proc_address(&self, addr: &str) -> (call: BackendCall)
        ensures
            call.context_type == self.context_type(),
            call.handle == self.inner().handle,
            call.request matches BackendRequest::ProcAddress(name) && name@ == addr@,
    {
        let p = self.platform();
        let request = BackendRequest::ProcAddress(String::from_str(addr));
        match *self {
            Context::X11(_) => BackendCall { context_type: ContextType::X11, handle: p.handle, request },
            Context::Wayland(_) => BackendCall { context_type: ContextType::Wayland, handle: p.handle, request },
            Context::Drm(_) => BackendCall { context_type: ContextType::Drm, handle: p.handle, request },
            Context::OsMesa(_) => BackendCall { context_type: ContextType::OsMesa, handle: p.handle, request },
        }
    }

    /// The age of the back buffer, as the driver last reported it. Only X11
    /// and Wayland contexts report one.
    pub fn buffer_age(&self) -> (res: u32)
        requires
            self.context_type() == ContextType::X11 || self.context_type() == ContextType::Wayland,
        ensures
            res == self.inner().buffer_age,
    {
        match *self {
            Context::X11(ref ctx) => ctx.buffer_age,
            Context::Wayland(ref ctx) => ctx.buffer_age,
            _ => unreached(),
        }
    }

    /// Whether the surface accepts damage rectangles on a swap. An OSMesa
    /// context has no surface to ask.
    pub fn swap_buffers_with_damage_supported(&self) -> (res: bool)
        requires
            self.context_type() != ContextType::OsMesa,
        ensures
            res == self.inner().damage_supported,
    {
        match *self {
            Context::X11(ref ctx) => ctx.damage_supported,
            Context::Wayland(ref ctx) => ctx.damage_supported,
            Context::Drm(ref ctx) => ctx.damage_supported,
            _ => unreached(),
        }
    }

    /// The pixel format of the context's framebuffer. An OSMesa context has
    /// no framebuffer to ask.
    pub fn get_pixel_format(&self) -> (res: PixelFormat)
        requires
            self.context_type() != ContextType::OsMesa,
        ensures
            res == self.inner().pixel_format,
    {
        match *self {
            Context::X11(ref ctx) => ctx.pixel_format,
            Context::Wayland(ref ctx) => ctx.pixel_format,
            Context::Drm(ref ctx) => ctx.pixel_format,
            _ => unreached(),
        }
    }
}

/// The pointer value a handle carries.
fn handle_value(h: RawHandle) -> (v: usize)
    ensures
        v == h.value(),
{
    match h {
        RawHandle::Glx(v) => v,
        RawHandle::Egl(v) => v,
    }
}

} // verus!
