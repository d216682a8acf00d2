//! The window session: the dispatcher state machine.
//!
//! A [`Session`] owns the lifecycle state of a single top-level window. The
//! surrounding run loop feeds it one [`Event`] at a time through
//! [`Session::step`] and performs, in order, the [`Action`]s it returns. The
//! session itself performs no platform call: which calls happen, and in which
//! order, is exactly what [`spec_step`] states and what `step` is proved to
//! implement.

use vstd::prelude::*;

use crate::events::Action;
use crate::events::Event;
use crate::events::WindowEventKind;

verus! {

/// The mathematical state of a session: everything the dispatch decisions
/// read or update.
#[verifier::ext_equal]
pub struct Model {
    /// Identifier of the owned native window, once one exists. Set at most
    /// once per session.
    pub window: Option<u64>,
    /// A window creation has been requested and its identifier has not been
    /// reported back yet.
    pub pending_window: bool,
    /// A `CallRedraw` action is outstanding and its result has not been
    /// reported back yet.
    pub awaiting_redraw: bool,
    /// The run loop has been told to exit; every further event is ignored.
    pub exited: bool,
    /// The platform's last-reported focus state.
    pub focused: bool,
    /// The cursor visibility last applied to the platform (not necessarily
    /// what the handler currently wants).
    pub cursor_visible: bool,
    /// Minimum window size (width, height) in pixels, fixed at construction.
    pub min_size: (u16, u16),
    /// Initial window size (width, height) in pixels, fixed at construction.
    pub start_size: (u16, u16),
    /// The window title, fixed at construction.
    pub title: Seq<char>,
}

/// The state a fresh session starts in: no window, unfocused, cursor visible.
pub open spec fn initial_model(title: Seq<char>, min_size: (u16, u16), start_size: (u16, u16)) -> Model {
    Model {
        window: None,
        pending_window: false,
        awaiting_redraw: false,
        exited: false,
        focused: false,
        cursor_visible: true,
        min_size: min_size,
        start_size: start_size,
        title: title,
    }
}

/// One step of the dispatcher on a window-scoped event whose identifier has
/// already been checked against the owned window.
pub open spec fn spec_window_step(m: Model, kind: WindowEventKind) -> (Model, Seq<Action>) {
    match kind {
        WindowEventKind::CloseRequested => (
            (Model { exited: true, ..m }),
            seq![Action::Exit],
        ),
        WindowEventKind::Resized { width, height } => (
            m,
            seq![Action::CallResized { width: width, height: height }, Action::RequestRedraw],
        ),
        WindowEventKind::RedrawRequested { cursor_want } => (
            (Model { cursor_visible: cursor_want, awaiting_redraw: true, ..m }),
            if cursor_want == m.cursor_visible {
                seq![Action::RequestRedraw, Action::CallRedraw]
            } else {
                seq![
                    Action::RequestRedraw,
                    Action::SetCursorVisible { visible: cursor_want },
                    Action::CallRedraw,
                ]
            },
        ),
        WindowEventKind::Focused { focused: f } => (
            (Model { focused: f, ..m }),
            if f {
                seq![Action::CallGotFocus]
            } else {
                seq![Action::CallLostFocus]
            },
        ),
        WindowEventKind::KeyboardInput { pressed } => (
            m,
            seq![Action::CallKeyboardInput { pressed: pressed }],
        ),
        WindowEventKind::CursorMoved => (
            m,
            if m.cursor_visible {
                seq![Action::CallCursorMoved]
            } else {
                Seq::empty()
            },
        ),
        WindowEventKind::CursorEntered => (m, seq![Action::CallCursorEntered]),
        WindowEventKind::CursorLeft => (m, seq![Action::CallCursorLeft]),
        WindowEventKind::MouseWheel => (m, seq![Action::CallMouseWheel]),
        WindowEventKind::MouseInput { pressed } => (
            m,
            seq![Action::CallMouseInput { pressed: pressed }],
        ),
        WindowEventKind::Touch => (m, seq![Action::CallTouch]),
        WindowEventKind::ScaleFactorChanged => (m, seq![Action::CallScaleFactorChanged]),
        WindowEventKind::Other => (m, Seq::empty()),
    }
}

/// One step of the dispatcher: the new state and the ordered actions the run
/// loop must perform before feeding the next event.
pub open spec fn spec_step(m: Model, ev: Event) -> (Model, Seq<Action>) {
    if m.exited {
        (m, Seq::empty())
    } else {
        match ev {
            Event::Resumed => {
                if m.window is None && !m.pending_window {
                    (
                        (Model { pending_window: true, ..m }),
                        seq![
                            Action::CreateWindow {
                                min_width: m.min_size.0,
                                min_height: m.min_size.1,
                                start_width: m.start_size.0,
                                start_height: m.start_size.1,
                                resizable: true,
                            },
                        ],
                    )
                } else {
                    (m, Seq::empty())
                }
            },
            Event::WindowReady { id } => {
                if m.window is None && m.pending_window {
                    (
                        (Model { window: Some(id), pending_window: false, ..m }),
                        seq![Action::CallWindowCreated],
                    )
                } else {
                    (m, Seq::empty())
                }
            },
            Event::RedrawDone { keep_going } => {
                if m.awaiting_redraw {
                    if keep_going {
                        ((Model { awaiting_redraw: false, ..m }), Seq::empty())
                    } else {
                        (
                            (Model { awaiting_redraw: false, exited: true, ..m }),
                            seq![Action::Exit],
                        )
                    }
                } else {
                    (m, Seq::empty())
                }
            },
            Event::Window { id, kind } => {
                if m.window == Some(id) {
                    spec_window_step(m, kind)
                } else {
                    (m, Seq::empty())
                }
            },
            Event::DeviceMouseMotion => {
                if m.focused {
                    (m, seq![Action::CallMouseMotion])
                } else {
                    (m, Seq::empty())
                }
            },
            Event::DeviceOther => (m, Seq::empty()),
        }
    }
}

/// The dispatcher state machine for one top-level window.
pub struct Session {
    title: String,
    min_size: (u16, u16),
    start_size: (u16, u16),
    window: Option<u64>,
    pending_window: bool,
    awaiting_redraw: bool,
    exited: bool,
    focused: bool,
    cursor_visible: bool,
}

impl View for Session {
    type V = Model;

    closed spec fn view(&self) -> Model {
        Model {
            window: self.window,
            pending_window: self.pending_window,
            awaiting_redraw: self.awaiting_redraw,
            exited: self.exited,
            focused: self.focused,
            cursor_visible: self.cursor_visible,
            min_size: self.min_size,
            start_size: self.start_size,
            title: self.title@,
        }
    }
}

impl Session {
    /// Builds a fresh session from the configuration read once from the
    /// handler: title, minimum size and starting size, both in pixels.
    pub fn new(title: String, min_size: (u16, u16), start_size: (u16, u16)) -> (s: Session)
        ensures
            s@ == initial_model(title@, min_size, start_size),
    {
        Session {
            title,
            min_size,
            start_size,
            window: None,
            pending_window: false,
            awaiting_redraw: false,
            exited: false,
            focused: false,
            cursor_visible: true,
        }
    }

    /// The window title, for the run loop to pass to window creation.
    pub fn title(&self) -> (r: &str)
        ensures
            r@ == self@.title,
    {
        self.title.as_str()
    }

    /// Identifier of the owned native window, if one exists yet.
    pub fn window_id(&self) -> (r: Option<u64>)
        ensures
            r == self@.window,
    {
        self.window
    }

    /// The platform's last-reported focus state.
    pub fn is_focused(&self) -> (r: bool)
        ensures
            r == self@.focused,
    {
        self.focused
    }

    /// The cursor visibility last applied to the platform.
    pub fn cursor_is_visible(&self) -> (r: bool)
        ensures
            r == self@.cursor_visible,
    {
        self.cursor_visible
    }

    /// Whether the session has told the run loop to exit.
    pub fn has_exited(&self) -> (r: bool)
        ensures
            r == self@.exited,
    {
        self.exited
    }

    /// Whether this session owns the window with the given identifier.
    fn owns(&self, id: u64) -> (r: bool)
        ensures
            r == (self@.window == Some(id)),
    {
        match self.window {
            Some(w) => w == id,
            None => false,
        }
    }

    /// Feeds one raw event to the dispatcher. Returns the actions the run
    /// loop must perform, in order, before the next event is fed in.
    pub fn step(&mut self, event: Event) -> (actions: Vec<Action>)
        ensures
            final(self)@ == spec_step(old(self)@, event).0,
            actions@ == spec_step(old(self)@, event).1,
    {
        let mut actions: Vec<Action> = Vec::new();
        if self.exited {
            return actions;
        }
        match event {
            Event::Resumed => {
                if self.window.is_none() && !self.pending_window {
                    self.pending_window = true;
                    actions.push(Action::CreateWindow {
                        min_width: self.min_size.0,
                        min_height: self.min_size.1,
                        start_width: self.start_size.0,
                        start_height: self.start_size.1,
                        resizable: true,
                    });
                }
            },
            Event::WindowReady { id } => {
                if self.window.is_none() && self.pending_window {
                    self.window = Some(id);
                    self.pending_window = false;
                    actions.push(Action::CallWindowCreated);
                }
            },
            Event::RedrawDone { keep_going } => {
                if self.awaiting_redraw {
                    self.awaiting_redraw = false;
                    if !keep_going {
                        self.exited = true;
                        actions.push(Action::Exit);
                    }
                }
            },
            Event::Window { id, kind } => {
                if self.owns(id) {
                    match kind {
                        WindowEventKind::CloseRequested => {
                            self.exited = true;
                            actions.push(Action::Exit);
                        },
                        WindowEventKind::Resized { width, height } => {
                            actions.push(Action::CallResized { width, height });
                            actions.push(Action::RequestRedraw);
                        },
                        WindowEventKind::RedrawRequested { cursor_want } => {
                            actions.push(Action::RequestRedraw);
                            if cursor_want != self.cursor_visible {
                                actions.push(Action::SetCursorVisible { visible: cursor_want });
                            }
                            self.cursor_visible = cursor_want;
                            self.awaiting_redraw = true;
                            actions.push(Action::CallRedraw);
                        },
                        WindowEventKind::Focused { focused: f } => {
                            self.focused = f;
                            if f {
                                actions.push(Action::CallGotFocus);
                            } else {
                                actions.push(Action::CallLostFocus);
                            }
                        },
                        WindowEventKind::KeyboardInput { pressed } => {
                            actions.push(Action::CallKeyboardInput { pressed });
                        },
                        WindowEventKind::CursorMoved => {
                            if self.cursor_visible {
                                actions.push(Action::CallCursorMoved);
                            }
                        },
                        WindowEventKind::CursorEntered => {
                            actions.push(Action::CallCursorEntered);
                        },
                        WindowEventKind::CursorLeft => {
                            actions.push(Action::CallCursorLeft);
                        },
                        WindowEventKind::MouseWheel => {
                            actions.push(Action::CallMouseWheel);
                        },
                        WindowEventKind::MouseInput { pressed } => {
                            actions.push(Action::CallMouseInput { pressed });
                        },
                        WindowEventKind::Touch => {
                            actions.push(Action::CallTouch);
                        },
                        WindowEventKind::ScaleFactorChanged => {
                            actions.push(Action::CallScaleFactorChanged);
                        },
                        WindowEventKind::Other => {},
                    }
                }
            },
            Event::DeviceMouseMotion => {
                if self.focused {
                    actions.push(Action::CallMouseMotion);
                }
            },
            Event::DeviceOther => {},
        }
        actions
    }
}

} // verus!
