use glutin_unix::{
    Api, Backend, BackendRequest, Context, ContextBuilder, ContextError, ContextType,
    CreationError, CurrentContext, PhysicalSize, PixelFormat, PlatformContext, RawHandle, Rect,
};

fn pixel_format() -> PixelFormat {
    PixelFormat {
        hardware_accelerated: true,
        color_bits: 24,
        alpha_bits: 8,
        depth_bits: 24,
        stencil_bits: 8,
        stereoscopy: false,
        double_buffer: true,
        multisampling: Some(4),
        srgb: true,
    }
}

fn platform(handle: RawHandle) -> PlatformContext {
    PlatformContext {
        handle,
        egl_display: Some(0x1000),
        api: Api::OpenGlEs,
        pixel_format: pixel_format(),
        buffer_age: 2,
        damage_supported: true,
        width: 640,
        height: 480,
    }
}

fn all_kinds() -> Vec<(ContextType, Context)> {
    vec![
        (ContextType::X11, Context::X11(platform(RawHandle::Glx(11)))),
        (ContextType::Wayland, Context::Wayland(platform(RawHandle::Egl(12)))),
        (ContextType::Drm, Context::Drm(platform(RawHandle::Egl(13)))),
        (ContextType::OsMesa, Context::OsMesa(platform(RawHandle::Egl(14)))),
    ]
}

fn message(ct: ContextType) -> &'static str {
    match ct {
        ContextType::OsMesa => "Cannot share an OSMesa context with a non-OSMesa context",
        ContextType::X11 => "Cannot share an X11 context with a non-X11 context",
        ContextType::Wayland => "Cannot share a Wayland context with a non-Wayland context",
        ContextType::Drm => "Cannot share a KMS/DRM context with a non-KMS/DRM context",
    }
}

#[test]
fn sharing_with_nothing_is_compatible() {
    for ct in [ContextType::X11, ContextType::Wayland, ContextType::Drm, ContextType::OsMesa] {
        assert!(Context::is_compatible(&None, ct).is_ok());
    }
}

#[test]
fn sharing_is_compatible_exactly_within_one_type() {
    let contexts = all_kinds();
    for (shared_ty, shared) in &contexts {
        for ct in [ContextType::X11, ContextType::Wayland, ContextType::Drm, ContextType::OsMesa] {
            let res = Context::is_compatible(&Some(shared), ct);
            if *shared_ty == ct {
                assert!(res.is_ok());
            } else {
                match res {
                    Err(CreationError::PlatformSpecific(m)) => assert_eq!(m, message(ct)),
                    other => panic!("unexpected result {:?}", other),
                }
            }
        }
    }
}

#[test]
fn reads_give_the_backend_values() {
    let thread = CurrentContext { handle: None };
    for (_, c) in all_kinds() {
        assert!(!c.is_current(&thread));
        assert_eq!(c.get_api(), Api::OpenGlEs);
    }
    let x = Context::X11(platform(RawHandle::Glx(11)));
    assert_eq!(x.get_pixel_format(), pixel_format());
    assert_eq!(x.buffer_age(), 2);
    assert!(x.swap_buffers_with_damage_supported());
    let w = Context::Wayland(platform(RawHandle::Egl(12)));
    assert_eq!(w.buffer_age(), 2);
    let mut d = platform(RawHandle::Egl(13));
    d.damage_supported = false;
    let d = Context::Drm(d);
    assert!(!d.swap_buffers_with_damage_supported());
    assert_eq!(d.get_pixel_format().multisampling, Some(4));
}

#[test]
fn raw_handles_by_backend() {
    assert_eq!(Context::X11(platform(RawHandle::Glx(11))).raw_handle(), RawHandle::Glx(11));
    assert_eq!(Context::X11(platform(RawHandle::Egl(21))).raw_handle(), RawHandle::Egl(21));
    assert_eq!(Context::Wayland(platform(RawHandle::Glx(12))).raw_handle(), RawHandle::Egl(12));
    assert_eq!(Context::Drm(platform(RawHandle::Egl(13))).raw_handle(), RawHandle::Egl(13));
    assert_eq!(Context::OsMesa(platform(RawHandle::Glx(14))).raw_handle(), RawHandle::Egl(14));
}

#[test]
fn egl_display_is_hidden_only_for_osmesa() {
    for (ct, c) in all_kinds() {
        if ct == ContextType::OsMesa {
            assert_eq!(c.get_egl_display(), None);
        } else {
            assert_eq!(c.get_egl_display(), Some(0x1000));
        }
    }
}

#[test]
fn resize_x11_is_a_no_op() {
    let mut x = Context::X11(platform(RawHandle::Glx(11)));
    x.resize(100, 50);
    match x {
        Context::X11(p) => {
            assert_eq!((p.width, p.height), (640, 480));
        }
        _ => panic!("variant changed"),
    }
}

#[test]
fn resize_wayland_and_drm_takes_the_new_size() {
    let mut w = Context::Wayland(platform(RawHandle::Egl(12)));
    w.resize(100, 50);
    w.resize(300, 200);
    match w {
        Context::Wayland(p) => {
            assert_eq!((p.width, p.height), (300, 200));
            assert_eq!(p.api, Api::OpenGlEs);
        }
        _ => panic!("variant changed"),
    }
    let mut d = Context::Drm(platform(RawHandle::Egl(13)));
    d.resize(1920, 1080);
    match d {
        Context::Drm(p) => assert_eq!((p.width, p.height), (1920, 1080)),
        _ => panic!("variant changed"),
    }
}

#[test]
fn make_current_then_not_current() {
    let mut thread = CurrentContext { handle: None };
    let w = Context::Wayland(platform(RawHandle::Egl(12)));
    assert!(w.make_current(&mut thread, Ok(())).is_ok());
    assert!(w.is_current(&thread));
    assert!(w.make_not_current(&mut thread, Ok(())).is_ok());
    assert!(!w.is_current(&thread));
    assert_eq!(thread.handle, None);
}

#[test]
fn only_the_last_context_made_current_is_current() {
    let mut thread = CurrentContext { handle: None };
    let x = Context::X11(platform(RawHandle::Glx(11)));
    let w = Context::Wayland(platform(RawHandle::Egl(12)));
    assert!(x.make_current(&mut thread, Ok(())).is_ok());
    assert!(w.make_current(&mut thread, Ok(())).is_ok());
    assert!(!x.is_current(&thread));
    assert!(w.is_current(&thread));
    // releasing a context that is not current leaves the current one
    assert!(x.make_not_current(&mut thread, Ok(())).is_ok());
    assert!(w.is_current(&thread));
    assert_eq!(thread.handle, Some(RawHandle::Egl(12)));
}

#[test]
fn failed_switches_change_nothing() {
    let mut thread = CurrentContext { handle: None };
    let x = Context::X11(platform(RawHandle::Glx(11)));
    match x.make_current(&mut thread, Err(ContextError::ContextLost)) {
        Err(ContextError::ContextLost) => {}
        other => panic!("unexpected {:?}", other),
    }
    assert!(!x.is_current(&thread));
    assert!(x.make_current(&mut thread, Ok(())).is_ok());
    match x.make_not_current(&mut thread, Err(ContextError::OsError("bad display".to_string()))) {
        Err(ContextError::OsError(m)) => assert_eq!(m, "bad display"),
        other => panic!("unexpected {:?}", other),
    }
    assert!(x.is_current(&thread));
}

#[test]
fn swap_calls_go_to_the_context_backend() {
    let x = Context::X11(platform(RawHandle::Glx(11)));
    let call = x.swap_buffers();
    assert_eq!(call.context_type, ContextType::X11);
    assert_eq!(call.handle, RawHandle::Glx(11));
    assert!(matches!(call.request, BackendRequest::Swap));

    let rects = [
        Rect { x: 0, y: 0, width: 10, height: 10 },
        Rect { x: 5, y: 6, width: 7, height: 8 },
    ];
    let d = Context::Drm(platform(RawHandle::Egl(13)));
    let call = d.swap_buffers_with_damage(&rects);
    assert_eq!(call.context_type, ContextType::Drm);
    assert_eq!(call.handle, RawHandle::Egl(13));
    match call.request {
        BackendRequest::SwapWithDamage(damage) => assert_eq!(damage, rects.to_vec()),
        _ => panic!("wrong request"),
    }
    match d.swap_buffers_with_damage(&[]).request {
        BackendRequest::SwapWithDamage(damage) => assert!(damage.is_empty()),
        _ => panic!("wrong request"),
    }
}

#[test]
fn finished_swaps_record_the_buffer_age() {
    let mut w = Context::Wayland(platform(RawHandle::Egl(12)));
    assert!(w.finish_swap(Ok(3)).is_ok());
    assert_eq!(w.buffer_age(), 3);
    match w.finish_swap(Err(ContextError::FunctionUnavailable)) {
        Err(ContextError::FunctionUnavailable) => {}
        other => panic!("unexpected {:?}", other),
    }
    assert_eq!(w.buffer_age(), 3);
    assert!(w.finish_swap(Ok(1)).is_ok());
    assert_eq!(w.buffer_age(), 1);
}

#[test]
fn proc_address_lookups_go_to_every_backend() {
    for (ct, c) in all_kinds() {
        let call = c.get_proc_address("glClear");
        assert_eq!(call.context_type, ct);
        match call.request {
            BackendRequest::ProcAddress(name) => assert_eq!(name, "glClear"),
            _ => panic!("wrong request"),
        }
    }
    let o = Context::OsMesa(platform(RawHandle::Egl(14)));
    assert_eq!(o.get_proc_address("").handle, RawHandle::Egl(14));
}

#[test]
fn windowed_plan_follows_the_backend() {
    for (backend, ct) in [
        (Backend::X, ContextType::X11),
        (Backend::Wayland, ContextType::Wayland),
        (Backend::Kms, ContextType::Drm),
    ] {
        let plan = Context::new_windowed(backend, None).unwrap();
        assert_eq!(plan.context_type, ct);
        assert!(plan.sharing.is_none());
        assert!(plan.size.is_none());
    }
}

#[test]
fn windowed_plan_refuses_foreign_sharing() {
    let x = Context::X11(platform(RawHandle::Glx(11)));
    match Context::new_windowed(Backend::Wayland, Some(&x)) {
        Err(CreationError::PlatformSpecific(m)) => assert_eq!(m, message(ContextType::Wayland)),
        other => panic!("unexpected {:?}", other),
    }
    let plan = Context::new_windowed(Backend::X, Some(&x)).unwrap();
    assert_eq!(plan.sharing.unwrap().handle, RawHandle::Glx(11));
}

#[test]
fn headless_plans_carry_the_size() {
    let size = PhysicalSize { width: 32, height: 16 };
    let plan = Context::new_headless(Backend::Kms, None, size).unwrap();
    assert_eq!(plan.context_type, ContextType::Drm);
    assert_eq!(plan.size, Some(size));
    let plan = Context::new_headless_impl(Backend::Wayland, None, None).unwrap();
    assert_eq!(plan.context_type, ContextType::Wayland);
    assert_eq!(plan.size, None);
    let o = Context::OsMesa(platform(RawHandle::Egl(14)));
    assert!(Context::new_headless(Backend::X, Some(&o), size).is_err());
}

#[test]
fn builder_plans() {
    let o = Context::OsMesa(platform(RawHandle::Egl(14)));
    let w = Context::Wayland(platform(RawHandle::Egl(12)));
    let size = PhysicalSize { width: 8, height: 8 };

    let plan = ContextBuilder { sharing: Some(&o) }.build_osmesa(size).unwrap();
    assert_eq!(plan.context_type, ContextType::OsMesa);
    assert_eq!(plan.sharing.unwrap().handle, RawHandle::Egl(14));
    assert_eq!(plan.size, Some(size));
    match (ContextBuilder { sharing: Some(&w) }).build_osmesa(size) {
        Err(CreationError::PlatformSpecific(m)) => assert_eq!(m, message(ContextType::OsMesa)),
        other => panic!("unexpected {:?}", other),
    }

    let plan = ContextBuilder { sharing: Some(&w) }.build_surfaceless(Backend::Wayland).unwrap();
    assert_eq!(plan.context_type, ContextType::Wayland);
    assert_eq!(plan.size, None);
    assert!((ContextBuilder { sharing: Some(&w) }).build_surfaceless(Backend::X).is_err());

    let plan = ContextBuilder { sharing: None }.build_raw_wayland_context(5, 6).unwrap();
    assert_eq!(plan.context_type, ContextType::Wayland);
    assert_eq!(plan.size, Some(PhysicalSize { width: 5, height: 6 }));

    let plan = ContextBuilder { sharing: None }.build_raw_x11_context().unwrap();
    assert_eq!(plan.context_type, ContextType::X11);
    match (ContextBuilder { sharing: Some(&w) }).build_raw_x11_context() {
        Err(CreationError::PlatformSpecific(m)) => assert_eq!(m, message(ContextType::X11)),
        other => panic!("unexpected {:?}", other),
    }

    let plan = ContextBuilder { sharing: None }.build_raw_drm_context(7, 9).unwrap();
    assert_eq!(plan.context_type, ContextType::Drm);
    assert_eq!(plan.size, Some(PhysicalSize { width: 7, height: 9 }));
    match (ContextBuilder { sharing: Some(&o) }).build_raw_drm_context(7, 9) {
        Err(CreationError::PlatformSpecific(m)) => assert_eq!(m, message(ContextType::Drm)),
        other => panic!("unexpected {:?}", other),
    }
}

#[test]
fn created_contexts_take_the_planned_type() {
    for ct in [ContextType::X11, ContextType::Wayland, ContextType::Drm, ContextType::OsMesa] {
        let c = Context::from_created(ct, Ok(platform(RawHandle::Egl(1)))).unwrap();
        let back = match c {
            Context::X11(_) => ContextType::X11,
            Context::Wayland(_) => ContextType::Wayland,
            Context::Drm(_) => ContextType::Drm,
            Context::OsMesa(_) => ContextType::OsMesa,
        };
        assert_eq!(back, ct);
        // the new context may share with the one it came from
        assert!(Context::is_compatible(&Some(&c), ct).is_ok());
    }
    match Context::from_created(ContextType::X11, Err(CreationError::NoAvailablePixelFormat)) {
        Err(CreationError::NoAvailablePixelFormat) => {}
        other => panic!("unexpected {:?}", other),
    }
}
