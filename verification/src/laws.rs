use vstd::prelude::*;

use crate::context::{
    after_switch, after_switches, backend_context_type, compatibility_result, compatible,
    deref_platform, Context, ContextType, PlatformContext, RawHandle, Switch,
};
use crate::creation::{plan_result, CreationPlan};
use crate::types::{Backend, CreationError, PhysicalSize};

verus! {

/// A context may share with another exactly when the two have one type; in
/// particular every context may share with a context of its own type.
pub proof fn law_sharing_needs_one_type(shared: Context, ct: ContextType)
    ensures
        compatible(Some(shared), ct) <==> shared.context_type() == ct,
        compatible(Some(shared), shared.context_type()),
        compatible(None, ct),
{
}

/// When a plan for a context of type `ct` that shares with `shared` is
/// granted, whatever backend context comes of it, the new context has the
/// type of the one it shares with, and the backend is handed the shared
/// context's own backend context.
pub proof fn law_shared_contexts_have_one_type(
    ct: ContextType,
    shared: Context,
    size: Option<PhysicalSize>,
    planned: CreationPlan,
    created: PlatformContext,
)
    requires
        plan_result(ct, Some(shared), size, Ok(planned)),
    ensures
        Context::build(planned.context_type, created).context_type() == shared.context_type(),
        deref_platform(planned.sharing) == Some(shared.inner()),
{
}

/// A context is made of its type and its backend context: building a context
/// gives back the type and the backend context it was built from, and a
/// context rebuilt from its own parts is the same context.
pub proof fn law_context_parts(ct: ContextType, p: PlatformContext, c: Context)
    ensures
        Context::build(ct, p).context_type() == ct,
        Context::build(ct, p).inner() == p,
        c.with_inner(c.inner()) == c,
        Context::build(c.context_type(), c.inner()) == c,
{
}

/// Once a context is made current on a thread it stays current there until
/// another context is made current or it is released: after a successful
/// make-current of the context with handle `h`, followed by any successful
/// switches none of which makes another context current or releases `h`,
/// the thread's current context is `h`.
pub proof fn law_current_after_make_current(current: Option<RawHandle>, h: RawHandle, later: Seq<Switch>)
    requires
        forall|i: int|
            0 <= i < later.len() ==> match #[trigger] later[i] {
                Switch::MakeCurrent(g) => g == h,
                Switch::MakeNotCurrent(g) => g != h,
            },
    ensures
        after_switches(current, seq![Switch::MakeCurrent(h)] + later) == Some(h),
{
    assert((seq![Switch::MakeCurrent(h)] + later).drop_first() =~= later);
    lemma_stays_current(h, later);
}

/// A context that is current stays current through switches that neither
/// make another context current nor release it.
proof fn lemma_stays_current(h: RawHandle, later: Seq<Switch>)
    requires
        forall|i: int|
            0 <= i < later.len() ==> match #[trigger] later[i] {
                Switch::MakeCurrent(g) => g == h,
                Switch::MakeNotCurrent(g) => g != h,
            },
    ensures
        after_switches(Some(h), later) == Some(h),
    decreases later.len(),
{
    if later.len() > 0 {
        assert forall|i: int| 0 <= i < later.drop_first().len() implies match #[trigger] later.drop_first()[i] {
            Switch::MakeCurrent(g) => g == h,
            Switch::MakeNotCurrent(g) => g != h,
        } by {
            assert(later.drop_first()[i] == later[i + 1]);
        }
        lemma_stays_current(h, later.drop_first());
    }
}

/// Once a context is released on a thread it is not current there until it
/// is made current again: after a successful make-not-current of the
/// context with handle `h`, followed by any successful switches none of
/// which makes `h` current, the thread's current context is not `h`.
pub proof fn law_not_current_after_make_not_current(
    current: Option<RawHandle>,
    h: RawHandle,
    later: Seq<Switch>,
)
    requires
        forall|i: int|
            0 <= i < later.len() ==> match #[trigger] later[i] {
                Switch::MakeCurrent(g) => g != h,
                Switch::MakeNotCurrent(_) => true,
            },
    ensures
        after_switches(current, seq![Switch::MakeNotCurrent(h)] + later) != Some(h),
{
    assert((seq![Switch::MakeNotCurrent(h)] + later).drop_first() =~= later);
    lemma_stays_not_current(after_switch(current, Switch::MakeNotCurrent(h)), h, later);
}

/// A context that is not current stays so through switches that do not make
/// it current.
proof fn lemma_stays_not_current(current: Option<RawHandle>, h: RawHandle, later: Seq<Switch>)
    requires
        current != Some(h),
        forall|i: int|
            0 <= i < later.len() ==> match #[trigger] later[i] {
                Switch::MakeCurrent(g) => g != h,
                Switch::MakeNotCurrent(_) => true,
            },
    ensures
        after_switches(current, later) != Some(h),
    decreases later.len(),
{
    if later.len() > 0 {
        let first = later[0];
        assert forall|i: int| 0 <= i < later.drop_first().len() implies match #[trigger] later.drop_first()[i] {
            Switch::MakeCurrent(g) => g != h,
            Switch::MakeNotCurrent(_) => true,
        } by {
            assert(later.drop_first()[i] == later[i + 1]);
        }
        lemma_stays_not_current(after_switch(current, first), h, later.drop_first());
    }
}

/// After a successful swap the context reports the age the driver gave for
/// the new back buffer, and is otherwise unchanged.
pub proof fn law_buffer_age_after_swap(c: Context, age: u32)
    ensures
        c.with_inner(c.inner().with_buffer_age(age)).inner().buffer_age == age,
        c.with_inner(c.inner().with_buffer_age(age)).context_type() == c.context_type(),
        c.with_inner(c.inner().with_buffer_age(age)).inner().with_buffer_age(c.inner().buffer_age) == c.inner(),
{
}

/// A resize keeps the type of the context and everything but the size; an
/// X11 context is not changed at all, a Wayland or KMS/DRM context takes
/// exactly the new size, and resizing twice is resizing once to the last
/// size.
pub proof fn law_resize(c: Context, w1: u32, h1: u32, w2: u32, h2: u32)
    ensures
        c.resized(w1, h1).context_type() == c.context_type(),
        c.resized(w1, h1).inner().with_size(c.inner().width, c.inner().height) == c.inner(),
        c.context_type() == ContextType::X11 ==> c.resized(w1, h1) == c,
        (c.context_type() == ContextType::Wayland || c.context_type() == ContextType::Drm) ==> {
            &&& c.resized(w1, h1).inner().width == w1
            &&& c.resized(w1, h1).inner().height == h1
        },
        c.resized(w1, h1).resized(w2, h2) == c.resized(w2, h2),
{
}

/// The raw handle of a context carries the backend's pointer value; only an
/// X11 context may report a GLX handle.
pub proof fn law_raw_handle(c: Context)
    ensures
        c.raw_handle_spec().value() == c.inner().handle.value(),
        c.raw_handle_spec() is Glx ==> c.context_type() == ContextType::X11,
        c.context_type() == ContextType::X11 ==> c.raw_handle_spec() == c.inner().handle,
{
}

/// Only an OSMesa context hides its EGL display.
pub proof fn law_egl_display(c: Context)
    ensures
        c.context_type() == ContextType::OsMesa ==> c.egl_display_spec() is None,
        c.context_type() != ContextType::OsMesa ==> c.egl_display_spec() == c.inner().egl_display,
{
}

/// The message that refuses a context of type `ct` a shared context of
/// another type, written out.
pub open spec fn refusal_message(ct: ContextType) -> Seq<char> {
    match ct {
        ContextType::OsMesa => "Cannot share an OSMesa context with a non-OSMesa context"@,
        ContextType::X11 => "Cannot share an X11 context with a non-X11 context"@,
        ContextType::Wayland => "Cannot share a Wayland context with a non-Wayland context"@,
        ContextType::Drm => "Cannot share a KMS/DRM context with a non-KMS/DRM context"@,
    }
}

/// The sharing check accepts a context to share with exactly when it has the
/// requested type, whatever else it holds (API, handle, display, format),
/// and otherwise refuses it with the message that names the requested type;
/// sharing with nothing is always accepted.
pub proof fn law_sharing_check(shared: Option<Context>, ct: ContextType, res: Result<(), CreationError>)
    requires
        compatibility_result(shared, ct, res),
    ensures
        shared is None ==> res is Ok,
        shared matches Some(c) ==> (res is Ok <==> c.context_type() == ct),
        res is Err ==> (res matches Err(CreationError::PlatformSpecific(m)) && m@ == refusal_message(ct)),
{
}

/// Two contexts of one type are treated alike by the sharing check: the
/// check's answer does not depend on what the backend context holds.
pub proof fn law_sharing_check_ignores_contents(
    ct: ContextType,
    kind: ContextType,
    p1: PlatformContext,
    p2: PlatformContext,
    r1: Result<(), CreationError>,
    r2: Result<(), CreationError>,
)
    requires
        compatibility_result(Some(Context::build(kind, p1)), ct, r1),
        compatibility_result(Some(Context::build(kind, p2)), ct, r2),
    ensures
        r1 is Ok <==> r2 is Ok,
        r1 is Ok <==> kind == ct,
{
}

/// A plan is granted whenever the shared context, if any, has the requested
/// type, every type included: it is for that type, hands the backend the
/// shared context's own backend context, and carries the requested size
/// unchanged.
pub proof fn law_plan_granted(
    ct: ContextType,
    shared: Option<Context>,
    size: Option<PhysicalSize>,
    res: Result<CreationPlan, CreationError>,
)
    requires
        plan_result(ct, shared, size, res),
        match shared {
            Some(s) => s.context_type() == ct,
            None => true,
        },
    ensures
        res is Ok,
        res->Ok_0.context_type == ct,
        res->Ok_0.size == size,
        size matches Some(sz) ==> (res->Ok_0.size matches Some(got) && got.width == sz.width
            && got.height == sz.height),
        match shared {
            Some(s) => res->Ok_0.sharing matches Some(p) && *p == s.inner(),
            None => res->Ok_0.sharing is None,
        },
{
}

/// A plan whatever the shared context: a granted plan is always for the
/// requested type and of the requested size, and a plan is refused exactly
/// when the shared context has another type, with the message that names
/// the requested type.
pub proof fn law_plan_outcome(
    ct: ContextType,
    shared: Option<Context>,
    size: Option<PhysicalSize>,
    res: Result<CreationPlan, CreationError>,
)
    requires
        plan_result(ct, shared, size, res),
    ensures
        res is Ok ==> res->Ok_0.context_type == ct && res->Ok_0.size == size,
        res is Err <==> (shared matches Some(s) && s.context_type() != ct),
        res is Err ==> (res matches Err(CreationError::PlatformSpecific(m)) && m@ == refusal_message(ct)),
{
}

/// The context type a backend creates: X11 on an X server, Wayland on a
/// Wayland compositor, KMS/DRM on a KMS device.
pub proof fn law_backend_context_type(backend: Backend)
    ensures
        backend_context_type(backend) == match backend {
            Backend::X => ContextType::X11,
            Backend::Wayland => ContextType::Wayland,
            Backend::Kms => ContextType::Drm,
        },
{
}

/// The pointer value a handle carries is its payload, whatever its kind.
pub proof fn law_handle_value(v: usize)
    ensures
        RawHandle::Egl(v).value() == v,
        RawHandle::Glx(v).value() == v,
{
}

/// The raw handle a context reports carries its backend's pointer exactly:
/// an X11 context reports its own handle, any other context an EGL handle
/// with the payload of its backend handle.
pub proof fn law_raw_handle_payload(c: Context)
    ensures
        c.context_type() == ContextType::X11 ==> c.raw_handle_spec() == c.inner().handle,
        c.context_type() != ContextType::X11 ==> match c.inner().handle {
            RawHandle::Glx(v) => c.raw_handle_spec() == RawHandle::Egl(v),
            RawHandle::Egl(v) => c.raw_handle_spec() == RawHandle::Egl(v),
        },
{
}

} // verus!
