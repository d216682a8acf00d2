use swamp_window::WindowRunner;
use swamp_window::events::Action;
use swamp_window::events::Event;
use swamp_window::events::WindowEventKind;
use swamp_window::session::Session;

fn fresh_session() -> Session {
    Session::new(String::from("demo"), (640, 480), (1280, 960))
}

/// Builds a session that already owns a window with the given identifier.
fn session_with_window(id: u64) -> Session {
    let mut s = fresh_session();
    let created = s.step(Event::Resumed);
    assert_eq!(created.len(), 1);
    let announced = s.step(Event::WindowReady { id });
    assert_eq!(announced, vec![Action::CallWindowCreated]);
    s
}

fn redraw_tick(id: u64, cursor_want: bool) -> Event {
    Event::Window { id, kind: WindowEventKind::RedrawRequested { cursor_want } }
}

#[test]
fn quiescent_before_resume() {
    let mut s = fresh_session();
    let events = vec![
        Event::Window { id: 1, kind: WindowEventKind::CloseRequested },
        Event::Window { id: 1, kind: WindowEventKind::Resized { width: 10, height: 10 } },
        Event::Window { id: 1, kind: WindowEventKind::RedrawRequested { cursor_want: false } },
        Event::Window { id: 1, kind: WindowEventKind::Focused { focused: true } },
        Event::Window { id: 1, kind: WindowEventKind::CursorMoved },
        Event::Window { id: 1, kind: WindowEventKind::KeyboardInput { pressed: true } },
        Event::DeviceMouseMotion,
        Event::DeviceOther,
        Event::RedrawDone { keep_going: false },
        Event::WindowReady { id: 1 },
    ];
    for event in events {
        assert_eq!(s.step(event), vec![]);
    }
    assert_eq!(s.window_id(), None);
    assert!(!s.is_focused());
    assert!(s.cursor_is_visible());
    assert!(!s.has_exited());
}

#[test]
fn window_created_once_with_declared_attributes() {
    let mut s = fresh_session();
    let created = s.step(Event::Resumed);
    assert_eq!(
        created,
        vec![Action::CreateWindow {
            min_width: 640,
            min_height: 480,
            start_width: 1280,
            start_height: 960,
            resizable: true,
        }]
    );
    // A repeated resume while the creation is still pending asks for nothing.
    assert_eq!(s.step(Event::Resumed), vec![]);
    // Window-identified events are ignored until the window is installed.
    assert_eq!(
        s.step(Event::Window { id: 7, kind: WindowEventKind::CursorMoved }),
        vec![]
    );
    assert_eq!(s.step(Event::WindowReady { id: 7 }), vec![Action::CallWindowCreated]);
    assert_eq!(s.window_id(), Some(7));
    // Later resumes and stray creation reports are ignored: one window only.
    assert_eq!(s.step(Event::Resumed), vec![]);
    assert_eq!(s.step(Event::WindowReady { id: 9 }), vec![]);
    assert_eq!(s.window_id(), Some(7));
}

#[test]
fn cursor_moved_follows_tracked_visibility() {
    let mut s = session_with_window(3);
    let moved = Event::Window { id: 3, kind: WindowEventKind::CursorMoved };
    // Visible by default: the move is delivered.
    assert_eq!(s.step(moved), vec![Action::CallCursorMoved]);
    // The handler hides the cursor on the next tick.
    assert_eq!(
        s.step(redraw_tick(3, false)),
        vec![
            Action::RequestRedraw,
            Action::SetCursorVisible { visible: false },
            Action::CallRedraw,
        ]
    );
    assert_eq!(s.step(Event::RedrawDone { keep_going: true }), vec![]);
    assert!(!s.cursor_is_visible());
    // Hidden: moves are suppressed from now on, not retroactively.
    assert_eq!(s.step(moved), vec![]);
    assert_eq!(s.step(moved), vec![]);
    // Shown again: deliveries resume.
    assert_eq!(
        s.step(redraw_tick(3, true)),
        vec![
            Action::RequestRedraw,
            Action::SetCursorVisible { visible: true },
            Action::CallRedraw,
        ]
    );
    assert_eq!(s.step(Event::RedrawDone { keep_going: true }), vec![]);
    assert_eq!(s.step(moved), vec![Action::CallCursorMoved]);
}

#[test]
fn mouse_motion_follows_focus() {
    let mut s = session_with_window(3);
    // Unfocused: raw motion is suppressed.
    assert_eq!(s.step(Event::DeviceMouseMotion), vec![]);
    assert_eq!(
        s.step(Event::Window { id: 3, kind: WindowEventKind::Focused { focused: true } }),
        vec![Action::CallGotFocus]
    );
    assert!(s.is_focused());
    assert_eq!(s.step(Event::DeviceMouseMotion), vec![Action::CallMouseMotion]);
    // A focus loss in the middle of a batch suppresses only what follows it.
    assert_eq!(
        s.step(Event::Window { id: 3, kind: WindowEventKind::Focused { focused: false } }),
        vec![Action::CallLostFocus]
    );
    assert!(!s.is_focused());
    assert_eq!(s.step(Event::DeviceMouseMotion), vec![]);
}

#[test]
fn cursor_visibility_applied_only_on_change() {
    let mut s = session_with_window(4);
    // The handler keeps asking for the value already applied: no platform call.
    for _ in 0..5 {
        assert_eq!(
            s.step(redraw_tick(4, true)),
            vec![Action::RequestRedraw, Action::CallRedraw]
        );
        assert_eq!(s.step(Event::RedrawDone { keep_going: true }), vec![]);
    }
    // First actual change: exactly one platform call.
    assert_eq!(
        s.step(redraw_tick(4, false)),
        vec![
            Action::RequestRedraw,
            Action::SetCursorVisible { visible: false },
            Action::CallRedraw,
        ]
    );
    assert_eq!(s.step(Event::RedrawDone { keep_going: true }), vec![]);
    // Unchanged again: zero further platform calls.
    for _ in 0..5 {
        assert_eq!(
            s.step(redraw_tick(4, false)),
            vec![Action::RequestRedraw, Action::CallRedraw]
        );
        assert_eq!(s.step(Event::RedrawDone { keep_going: true }), vec![]);
    }
}

#[test]
fn redraw_tick_keeps_fixed_order() {
    let mut s = session_with_window(1);
    // Re-request first, then the visibility change, then the redraw callback.
    assert_eq!(
        s.step(redraw_tick(1, false)),
        vec![
            Action::RequestRedraw,
            Action::SetCursorVisible { visible: false },
            Action::CallRedraw,
        ]
    );
    assert_eq!(s.step(Event::RedrawDone { keep_going: true }), vec![]);
    // Without a change the mutation is absent but the order is the same.
    assert_eq!(
        s.step(redraw_tick(1, false)),
        vec![Action::RequestRedraw, Action::CallRedraw]
    );
    assert_eq!(s.step(Event::RedrawDone { keep_going: true }), vec![]);
}

#[test]
fn redraw_false_exits_after_ten_good_ticks() {
    let mut s = session_with_window(2);
    for _ in 0..10 {
        assert_eq!(
            s.step(redraw_tick(2, true)),
            vec![Action::RequestRedraw, Action::CallRedraw]
        );
        assert_eq!(s.step(Event::RedrawDone { keep_going: true }), vec![]);
    }
    assert_eq!(
        s.step(redraw_tick(2, true)),
        vec![Action::RequestRedraw, Action::CallRedraw]
    );
    assert_eq!(s.step(Event::RedrawDone { keep_going: false }), vec![Action::Exit]);
    assert!(s.has_exited());
    // No callback fires after the exit.
    assert_eq!(s.step(redraw_tick(2, true)), vec![]);
    assert_eq!(s.step(Event::Window { id: 2, kind: WindowEventKind::CursorMoved }), vec![]);
    assert_eq!(s.step(Event::DeviceMouseMotion), vec![]);
}

#[test]
fn close_request_exits_immediately() {
    let mut s = session_with_window(5);
    // The exit is the only action: no redraw re-request, no callback.
    assert_eq!(
        s.step(Event::Window { id: 5, kind: WindowEventKind::CloseRequested }),
        vec![Action::Exit]
    );
    assert!(s.has_exited());
    assert_eq!(
        s.step(Event::Window { id: 5, kind: WindowEventKind::Resized { width: 1, height: 1 } }),
        vec![]
    );
    assert_eq!(s.step(redraw_tick(5, true)), vec![]);
}

#[test]
fn foreign_window_id_discarded() {
    let mut s = session_with_window(5);
    let foreign = vec![
        Event::Window { id: 6, kind: WindowEventKind::CloseRequested },
        Event::Window { id: 6, kind: WindowEventKind::Focused { focused: true } },
        Event::Window { id: 6, kind: WindowEventKind::RedrawRequested { cursor_want: false } },
        Event::Window { id: 6, kind: WindowEventKind::CursorMoved },
    ];
    for event in foreign {
        assert_eq!(s.step(event), vec![]);
    }
    assert_eq!(s.window_id(), Some(5));
    assert!(!s.has_exited());
    assert!(!s.is_focused());
    assert!(s.cursor_is_visible());
}

#[test]
fn resized_forwards_then_rerequests_redraw() {
    let mut s = session_with_window(8);
    assert_eq!(
        s.step(Event::Window { id: 8, kind: WindowEventKind::Resized { width: 800, height: 600 } }),
        vec![Action::CallResized { width: 800, height: 600 }, Action::RequestRedraw]
    );
}

#[test]
fn input_events_forwarded_one_to_one() {
    let mut s = session_with_window(9);
    let cases = vec![
        (
            WindowEventKind::KeyboardInput { pressed: true },
            Action::CallKeyboardInput { pressed: true },
        ),
        (
            WindowEventKind::KeyboardInput { pressed: false },
            Action::CallKeyboardInput { pressed: false },
        ),
        (WindowEventKind::CursorEntered, Action::CallCursorEntered),
        (WindowEventKind::CursorLeft, Action::CallCursorLeft),
        (WindowEventKind::MouseWheel, Action::CallMouseWheel),
        (
            WindowEventKind::MouseInput { pressed: true },
            Action::CallMouseInput { pressed: true },
        ),
        (WindowEventKind::Touch, Action::CallTouch),
        (WindowEventKind::ScaleFactorChanged, Action::CallScaleFactorChanged),
    ];
    for (kind, action) in cases {
        assert_eq!(s.step(Event::Window { id: 9, kind }), vec![action]);
    }
    // Unrecognised window events are ignored.
    assert_eq!(s.step(Event::Window { id: 9, kind: WindowEventKind::Other }), vec![]);
    assert_eq!(s.step(Event::DeviceOther), vec![]);
}

#[test]
fn runner_builds_fresh_session() {
    let s = WindowRunner::new_session(String::from("Handler Callback Example"), (640, 480), (1280, 960));
    assert_eq!(s.title(), "Handler Callback Example");
    assert_eq!(s.window_id(), None);
    assert!(!s.is_focused());
    assert!(s.cursor_is_visible());
    assert!(!s.has_exited());
}
