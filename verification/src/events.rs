//! Plain-value descriptions of the raw platform events the session consumes
//! and of the actions it asks the run loop to perform.
//!
//! Payloads the dispatcher never inspects (cursor positions, scroll deltas,
//! key codes, touch data) are not carried here: the run loop keeps them beside
//! the raw event and attaches them when it performs the callback the session
//! requested. Only the data that the dispatch decisions actually read —
//! window identifiers, the focus flag, the handler's answers — appears in
//! these types.

use vstd::prelude::*;

verus! {

/// A window-scoped raw event, as reported by the platform.
#[derive(Clone, Copy, PartialEq, Eq, Structural, Debug)]
pub enum WindowEventKind {
    /// The user asked to close the window.
    CloseRequested,
    /// The window was resized to the given physical size.
    Resized { width: u32, height: u32 },
    /// The platform asks for a repaint; `cursor_want` is the handler's answer
    /// to the visibility query polled on this tick.
    RedrawRequested { cursor_want: bool },
    /// The window gained (`true`) or lost (`false`) input focus.
    Focused { focused: bool },
    /// A key was pressed (`true`) or released (`false`).
    KeyboardInput { pressed: bool },
    /// The pointer moved inside the window.
    CursorMoved,
    /// The pointer entered the window area.
    CursorEntered,
    /// The pointer left the window area.
    CursorLeft,
    /// A scroll event.
    MouseWheel,
    /// A mouse button was pressed (`true`) or released (`false`).
    MouseInput { pressed: bool },
    /// A touch point was updated.
    Touch,
    /// The display scale factor changed.
    ScaleFactorChanged,
    /// Any other window event; the dispatcher ignores it.
    Other,
}

/// One raw input to the session's step function.
#[derive(Clone, Copy, PartialEq, Eq, Structural, Debug)]
pub enum Event {
    /// The platform resumed the application (delivered at least once before
    /// any window event; may be repeated).
    Resumed,
    /// The run loop finished a window creation the session asked for, and the
    /// platform assigned the window this identifier.
    WindowReady { id: u64 },
    /// The handler's redraw callback returned; `keep_going` is its result.
    RedrawDone { keep_going: bool },
    /// A window event, tagged with the identifier of the window it concerns.
    Window { id: u64, kind: WindowEventKind },
    /// Raw, unaccelerated pointer-device motion (not tied to a window).
    DeviceMouseMotion,
    /// Any other device-level event; the dispatcher ignores it.
    DeviceOther,
}

/// One action the session asks the run loop to perform. Actions returned by a
/// step must be performed in order, each before the next event is fed in.
#[derive(Clone, Copy, PartialEq, Eq, Structural, Debug)]
pub enum Action {
    /// Create the native window with the session's attributes, then feed
    /// `Event::WindowReady` back with the identifier the platform assigned.
    CreateWindow {
        min_width: u16,
        min_height: u16,
        start_width: u16,
        start_height: u16,
        resizable: bool,
    },
    /// Exit the run loop; no further events will be processed.
    Exit,
    /// Ask the platform for another repaint of the owned window.
    RequestRedraw,
    /// Apply this cursor visibility to the owned window.
    SetCursorVisible { visible: bool },
    /// Invoke the handler's `window_created` callback with the new window.
    CallWindowCreated,
    /// Invoke the handler's `redraw` callback, then feed `Event::RedrawDone`
    /// back with its result.
    CallRedraw,
    /// Invoke the handler's `resized` callback with this physical size.
    CallResized { width: u32, height: u32 },
    /// Invoke the handler's `got_focus` callback.
    CallGotFocus,
    /// Invoke the handler's `lost_focus` callback.
    CallLostFocus,
    /// Invoke the handler's `keyboard_input` callback for this press state.
    CallKeyboardInput { pressed: bool },
    /// Invoke the handler's `cursor_moved` callback with the event's position.
    CallCursorMoved,
    /// Invoke the handler's `cursor_entered` callback.
    CallCursorEntered,
    /// Invoke the handler's `cursor_left` callback.
    CallCursorLeft,
    /// Invoke the handler's `mouse_wheel` callback with the event's delta.
    CallMouseWheel,
    /// Invoke the handler's `mouse_input` callback for this press state.
    CallMouseInput { pressed: bool },
    /// Invoke the handler's `mouse_motion` callback with the event's delta.
    CallMouseMotion,
    /// Invoke the handler's `touch` callback with the event's touch data.
    CallTouch,
    /// Invoke the handler's `scale_factor_changed` callback.
    CallScaleFactorChanged,
}

} // verus!
