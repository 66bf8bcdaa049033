use shell_surface::event::{suggested_size, translate_states, Event, WindowState};
use shell_surface::protocol::{teardown, translate, Operation, Request, ResizeEdge, ShellVariant};
use shell_surface::shell::{create_shell_surface, NativeEvent, ShellSurface, ShellSurfaceHandle};

const ALL: [ShellVariant; 3] = [ShellVariant::Legacy, ShellVariant::Versioned, ShellVariant::Current];

fn configure(width: i32, height: i32, states: Vec<u32>) -> NativeEvent {
    NativeEvent::ToplevelConfigure { width, height, states }
}

fn feed(h: &mut ShellSurfaceHandle, events: Vec<NativeEvent>) -> Vec<Event> {
    let mut out = Vec::new();
    for e in events {
        if let Some(ev) = h.handle_event(e).event {
            out.push(ev);
        }
    }
    out
}

#[test]
fn fullscreen_then_configure_end_to_end() {
    let mut h = create_shell_surface(ShellVariant::Current, 7);
    assert_eq!(h.set_fullscreen(None), vec![Request::SetFullscreen { output: None }]);
    let r1 = h.handle_event(configure(800, 600, vec![2]));
    assert_eq!(r1.event, None);
    assert_eq!(r1.reply, None);
    let r2 = h.handle_event(NativeEvent::SurfaceConfigure { serial: 31 });
    assert_eq!(
        r2.event,
        Some(Event::Configure { new_size: Some((800, 600)), states: vec![WindowState::Fullscreen] })
    );
    assert_eq!(r2.reply, Some(Request::AckConfigure { serial: 31 }));
}

#[test]
fn batch_keeps_last_size_and_last_states() {
    for v in [ShellVariant::Versioned, ShellVariant::Current] {
        let mut h = create_shell_surface(v, 1);
        let events = feed(
            &mut h,
            vec![
                configure(100, 50, vec![1]),
                configure(300, 200, vec![4, 3]),
                configure(0, 0, vec![2, 4]),
                NativeEvent::SurfaceConfigure { serial: 5 },
            ],
        );
        assert_eq!(
            events,
            vec![Event::Configure {
                new_size: Some((300, 200)),
                states: vec![WindowState::Fullscreen, WindowState::Activated],
            }]
        );
    }
}

#[test]
fn batch_without_size_reports_none() {
    let mut h = create_shell_surface(ShellVariant::Current, 1);
    let events = feed(&mut h, vec![configure(0, 0, vec![]), NativeEvent::SurfaceConfigure { serial: 1 }]);
    assert_eq!(events, vec![Event::Configure { new_size: None, states: vec![] }]);
}

#[test]
fn empty_batch_emits_nothing_but_is_acknowledged() {
    let mut h = create_shell_surface(ShellVariant::Versioned, 1);
    let r = h.handle_event(NativeEvent::SurfaceConfigure { serial: 9 });
    assert_eq!(r.event, None);
    assert_eq!(r.reply, Some(Request::AckConfigure { serial: 9 }));
}

#[test]
fn batches_are_separate() {
    let mut h = create_shell_surface(ShellVariant::Current, 1);
    let events = feed(
        &mut h,
        vec![
            configure(640, 480, vec![]),
            NativeEvent::SurfaceConfigure { serial: 1 },
            configure(0, 0, vec![1]),
            NativeEvent::SurfaceConfigure { serial: 2 },
        ],
    );
    assert_eq!(
        events,
        vec![
            Event::Configure { new_size: Some((640, 480)), states: vec![] },
            Event::Configure { new_size: None, states: vec![WindowState::Maximized] },
        ]
    );
}

#[test]
fn legacy_configure_is_its_own_batch() {
    let mut h = create_shell_surface(ShellVariant::Legacy, 1);
    let events = feed(
        &mut h,
        vec![
            NativeEvent::LegacyConfigure { edges: 0, width: 320, height: 240 },
            NativeEvent::LegacyConfigure { edges: 0, width: 0, height: 10 },
        ],
    );
    assert_eq!(
        events,
        vec![
            Event::Configure { new_size: Some((320, 240)), states: vec![] },
            Event::Configure { new_size: None, states: vec![] },
        ]
    );
}

#[test]
fn legacy_ping_is_answered() {
    let mut h = create_shell_surface(ShellVariant::Legacy, 1);
    let r = h.handle_event(NativeEvent::LegacyPing { serial: 44 });
    assert_eq!(r.event, None);
    assert_eq!(r.reply, Some(Request::LegacyPong { serial: 44 }));
}

#[test]
fn one_close_per_close_notification() {
    for v in [ShellVariant::Versioned, ShellVariant::Current] {
        let mut h = create_shell_surface(v, 1);
        let r = h.handle_event(NativeEvent::ToplevelClose);
        assert_eq!(r.event, Some(Event::Close));
        assert_eq!(r.reply, None);
        let events = feed(
            &mut h,
            vec![NativeEvent::ToplevelClose, configure(10, 10, vec![]), NativeEvent::ToplevelClose],
        );
        assert_eq!(events, vec![Event::Close, Event::Close]);
    }
}

#[test]
fn events_of_another_protocol_are_ignored() {
    let mut legacy = create_shell_surface(ShellVariant::Legacy, 1);
    assert_eq!(feed(&mut legacy, vec![NativeEvent::ToplevelClose, configure(5, 5, vec![])]), vec![]);
    let mut current = create_shell_surface(ShellVariant::Current, 1);
    let r = current.handle_event(NativeEvent::LegacyPing { serial: 3 });
    assert_eq!(r.reply, None);
    assert_eq!(feed(&mut current, vec![NativeEvent::LegacyConfigure { edges: 0, width: 5, height: 5 }]), vec![]);
}

#[test]
fn destroyed_handle_is_silent() {
    let mut h = create_shell_surface(ShellVariant::Current, 1);
    h.handle_event(configure(800, 600, vec![]));
    assert_eq!(h.destroy(), vec![Request::DestroyToplevel, Request::DestroySurfaceRole]);
    assert!(h.is_destroyed());
    let r = h.handle_event(NativeEvent::SurfaceConfigure { serial: 2 });
    assert_eq!(r.event, None);
    assert_eq!(r.reply, None);
    assert_eq!(h.handle_event(NativeEvent::ToplevelClose).event, None);
    assert_eq!(h.set_title("x".to_string()), vec![]);
    assert_eq!(h.destroy(), vec![]);
}

#[test]
fn legacy_teardown_sends_nothing() {
    let mut h = create_shell_surface(ShellVariant::Legacy, 1);
    assert_eq!(h.destroy(), vec![]);
    assert_eq!(feed(&mut h, vec![NativeEvent::LegacyConfigure { edges: 0, width: 5, height: 5 }]), vec![]);
}

#[test]
fn clearing_bounds_sends_zero() {
    for v in [ShellVariant::Versioned, ShellVariant::Current] {
        let h = create_shell_surface(v, 1);
        assert_eq!(h.set_min_size(Some((100, 80))), vec![Request::SetMinSize { width: 100, height: 80 }]);
        assert_eq!(h.set_min_size(None), vec![Request::SetMinSize { width: 0, height: 0 }]);
        assert_eq!(h.set_min_size(None), vec![Request::SetMinSize { width: 0, height: 0 }]);
        assert_eq!(h.set_max_size(Some((900, 700))), vec![Request::SetMaxSize { width: 900, height: 700 }]);
        assert_eq!(h.set_max_size(None), vec![Request::SetMaxSize { width: 0, height: 0 }]);
    }
    let legacy = create_shell_surface(ShellVariant::Legacy, 1);
    assert_eq!(legacy.set_min_size(None), vec![]);
    assert_eq!(legacy.set_max_size(None), vec![]);
}

#[test]
fn legacy_unsupported_operations_send_nothing() {
    let h = create_shell_surface(ShellVariant::Legacy, 1);
    assert_eq!(h.set_app_id("org.example".to_string()), vec![]);
    assert_eq!(h.set_geometry(0, 0, 640, 480), vec![]);
    assert_eq!(h.set_min_size(Some((10, 10))), vec![]);
    assert_eq!(h.set_max_size(Some((1000, 1000))), vec![]);
    assert_eq!(h.set_minimized(), vec![]);
}

#[test]
fn legacy_supported_operations() {
    let h = create_shell_surface(ShellVariant::Legacy, 1);
    assert_eq!(h.set_title("t".to_string()), vec![Request::LegacySetTitle { title: "t".to_string() }]);
    assert_eq!(h.move_(3, 12), vec![Request::LegacyMove { seat: 3, serial: 12 }]);
    assert_eq!(
        h.resize(3, 12, ResizeEdge::BottomRight),
        vec![Request::LegacyResize { seat: 3, serial: 12, edges: 10 }]
    );
    assert_eq!(h.set_fullscreen(Some(4)), vec![Request::LegacySetFullscreen { output: Some(4) }]);
    assert_eq!(h.unset_fullscreen(), vec![Request::LegacySetToplevel]);
    assert_eq!(h.set_maximized(), vec![Request::LegacySetMaximized { output: None }]);
    assert_eq!(h.unset_maximized(), vec![Request::LegacySetToplevel]);
}

#[test]
fn current_operations() {
    let h = create_shell_surface(ShellVariant::Current, 1);
    assert_eq!(h.set_app_id("app".to_string()), vec![Request::SetAppId { app_id: "app".to_string() }]);
    assert_eq!(
        h.set_geometry(5, 6, 640, 480),
        vec![Request::SetWindowGeometry { x: 5, y: 6, width: 640, height: 480 }]
    );
    assert_eq!(h.set_minimized(), vec![Request::SetMinimized]);
    assert_eq!(h.unset_fullscreen(), vec![Request::UnsetFullscreen]);
    assert_eq!(h.set_maximized(), vec![Request::SetMaximized]);
    assert_eq!(h.unset_maximized(), vec![Request::UnsetMaximized]);
    assert_eq!(h.resize(2, 9, ResizeEdge::TopLeft), vec![Request::Resize { seat: 2, serial: 9, edges: 5 }]);
    assert_eq!(h.move_(2, 9), vec![Request::Move { seat: 2, serial: 9 }]);
}

#[test]
fn escape_accessor_only_on_current() {
    for v in ALL {
        let h = create_shell_surface(v, 42);
        let expected = if v == ShellVariant::Current { Some(42) } else { None };
        assert_eq!(h.get_xdg(), expected);
    }
}

#[test]
fn unknown_states_are_dropped() {
    assert_eq!(
        translate_states(ShellVariant::Current, &vec![0, 4, 17, 1, 3, 2, 9]),
        vec![WindowState::Activated, WindowState::Maximized, WindowState::Resizing, WindowState::Fullscreen]
    );
    assert_eq!(WindowState::from_raw(ShellVariant::Current, 9), None);
    assert_eq!(WindowState::from_raw(ShellVariant::Current, 2), Some(WindowState::Fullscreen));
    assert_eq!(WindowState::from_raw(ShellVariant::Versioned, 5), None);
    assert_eq!(WindowState::from_raw(ShellVariant::Legacy, 1), None);
}

#[test]
fn suggested_size_needs_both_dimensions() {
    assert_eq!(suggested_size(800, 600), Some((800, 600)));
    assert_eq!(suggested_size(0, 600), None);
    assert_eq!(suggested_size(800, -1), None);
}

#[test]
fn edge_wire_values() {
    let edges = [
        (ResizeEdge::Unset, 0),
        (ResizeEdge::Top, 1),
        (ResizeEdge::Bottom, 2),
        (ResizeEdge::Left, 4),
        (ResizeEdge::TopLeft, 5),
        (ResizeEdge::BottomLeft, 6),
        (ResizeEdge::Right, 8),
        (ResizeEdge::TopRight, 9),
        (ResizeEdge::BottomRight, 10),
    ];
    for (e, raw) in edges {
        assert_eq!(e.to_raw(), raw);
    }
}

#[test]
fn teardown_requests() {
    assert_eq!(teardown(ShellVariant::Versioned), vec![Request::DestroyToplevel, Request::DestroySurfaceRole]);
    assert_eq!(teardown(ShellVariant::Legacy), vec![]);
}

#[test]
fn translate_matches_handle_operations() {
    for v in ALL {
        let h = create_shell_surface(v, 1);
        assert_eq!(translate(v, Operation::SetTitle { title: "a".to_string() }), h.set_title("a".to_string()));
        assert_eq!(h.variant(), v);
        assert!(!h.is_destroyed());
    }
}

#[test]
fn tiled_states_on_current_only() {
    assert_eq!(
        translate_states(ShellVariant::Current, &vec![5, 6, 7, 8]),
        vec![WindowState::TiledLeft, WindowState::TiledRight, WindowState::TiledTop, WindowState::TiledBottom]
    );
    assert_eq!(translate_states(ShellVariant::Versioned, &vec![5, 6, 7, 8, 4]), vec![WindowState::Activated]);
}

#[test]
fn current_batch_reports_tiled_state() {
    let mut h = create_shell_surface(ShellVariant::Current, 1);
    let events = feed(
        &mut h,
        vec![configure(500, 400, vec![1]), configure(0, 0, vec![4, 5]), NativeEvent::SurfaceConfigure { serial: 8 }],
    );
    assert_eq!(
        events,
        vec![Event::Configure {
            new_size: Some((500, 400)),
            states: vec![WindowState::Activated, WindowState::TiledLeft],
        }]
    );
    let mut v = create_shell_surface(ShellVariant::Versioned, 1);
    let events = feed(&mut v, vec![configure(0, 0, vec![4, 5]), NativeEvent::SurfaceConfigure { serial: 8 }]);
    assert_eq!(events, vec![Event::Configure { new_size: None, states: vec![WindowState::Activated] }]);
}
