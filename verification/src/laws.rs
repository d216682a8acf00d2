//! The dispatcher's guarantees, stated and proved over whole event runs.
//!
//! [`run_steps`] folds [`spec_step`] over an event sequence, collecting every
//! action the session would ask the run loop to perform. The lemmas below
//! state the cross-cutting policies of the dispatcher: nothing happens before
//! the first resume, the window is created exactly once, cursor and focus
//! gates decide deliveries, cursor visibility is applied to the platform only
//! on change, redraw ticks keep their fixed action order, and nothing at all
//! happens after exit or for a foreign window identifier.

use vstd::prelude::*;

use crate::events::Action;
use crate::events::Event;
use crate::events::WindowEventKind;
use crate::session::Model;
use crate::session::spec_step;

verus! {

/// The dispatcher run over a whole event sequence: the final state and the
/// concatenation, in order, of all actions emitted along the way.
pub open spec fn run_steps(m: Model, evs: Seq<Event>) -> (Model, Seq<Action>)
    decreases evs.len(),
{
    if evs.len() == 0 {
        (m, Seq::empty())
    } else {
        let head = spec_step(m, evs[0]);
        let rest = run_steps(head.0, evs.drop_first());
        (rest.0, head.1 + rest.1)
    }
}

/// A session state in which no window exists and none was ever asked for:
/// the state a run is in before the first resume notification.
pub open spec fn pre_resume(m: Model) -> bool {
    &&& m.window is None
    &&& !m.pending_window
    &&& !m.awaiting_redraw
    &&& !m.exited
    &&& !m.focused
}

/// Before the first resume notification, the dispatcher is inert: any event
/// sequence that contains no resume leaves the state untouched and asks for
/// no handler callback and no platform call.
pub proof fn lemma_quiescent_before_resume(m: Model, evs: Seq<Event>)
    requires
        pre_resume(m),
        forall|i: int| 0 <= i < evs.len() ==> evs[i] != Event::Resumed,
    ensures
        run_steps(m, evs).0 == m,
        run_steps(m, evs).1 == Seq::<Action>::empty(),
    decreases evs.len(),
{
    if evs.len() == 0 {
    } else {
        let head = spec_step(m, evs[0]);
        assert(evs[0] != Event::Resumed);
        assert(head.0 == m && head.1 == Seq::<Action>::empty());
        lemma_quiescent_before_resume(m, evs.drop_first());
        assert(head.1 + run_steps(m, evs.drop_first()).1 =~= Seq::<Action>::empty());
    }
}

/// After the dispatcher has decided to exit, it is inert: every further event
/// leaves the state untouched and emits nothing, so no callback fires and no
/// platform call is made after the run loop was told to stop.
pub proof fn lemma_exited_absorbs(m: Model, evs: Seq<Event>)
    requires
        m.exited,
    ensures
        run_steps(m, evs).0 == m,
        run_steps(m, evs).1 == Seq::<Action>::empty(),
    decreases evs.len(),
{
    if evs.len() == 0 {
    } else {
        lemma_exited_absorbs(m, evs.drop_first());
        assert(spec_step(m, evs[0]).1 + run_steps(m, evs.drop_first()).1
            =~= Seq::<Action>::empty());
    }
}

/// An event tagged with a window identifier other than the owned window's is
/// discarded: the state is unchanged and nothing is emitted.
pub proof fn lemma_foreign_window_discarded(m: Model, id: u64, kind: WindowEventKind)
    requires
        m.window != Some(id),
    ensures
        spec_step(m, Event::Window { id, kind }).0 == m,
        spec_step(m, Event::Window { id, kind }).1 == Seq::<Action>::empty(),
{
}

/// A pointer-movement event is forwarded to the handler when and only when
/// the tracked cursor visibility is true at that moment (and the event is for
/// the owned window of a live session); it never changes the state, so
/// toggling visibility affects later deliveries only.
pub proof fn lemma_cursor_moved_gated(m: Model, id: u64)
    ensures
        spec_step(m, Event::Window { id, kind: WindowEventKind::CursorMoved }).0 == m,
        spec_step(m, Event::Window { id, kind: WindowEventKind::CursorMoved }).1
                .contains(Action::CallCursorMoved)
            <==> (!m.exited && m.window == Some(id) && m.cursor_visible),
        spec_step(m, Event::Window { id, kind: WindowEventKind::CursorMoved }).1 == if !m.exited
            && m.window == Some(id) && m.cursor_visible {
            seq![Action::CallCursorMoved]
        } else {
            Seq::<Action>::empty()
        },
{
    let outs = spec_step(m, Event::Window { id, kind: WindowEventKind::CursorMoved }).1;
    if !m.exited && m.window == Some(id) && m.cursor_visible {
        assert(outs[0] == Action::CallCursorMoved);
        assert(outs.contains(Action::CallCursorMoved));
    }
}

/// A raw device-motion event is forwarded to the handler when and only when
/// the window is focused at that moment (in a live session); it never changes
/// the state, so a focus loss suppresses only the motions after it.
pub proof fn lemma_mouse_motion_gated(m: Model)
    ensures
        spec_step(m, Event::DeviceMouseMotion).0 == m,
        spec_step(m, Event::DeviceMouseMotion).1.contains(Action::CallMouseMotion)
            <==> (!m.exited && m.focused),
        spec_step(m, Event::DeviceMouseMotion).1 == if !m.exited && m.focused {
            seq![Action::CallMouseMotion]
        } else {
            Seq::<Action>::empty()
        },
{
    let outs = spec_step(m, Event::DeviceMouseMotion).1;
    if !m.exited && m.focused {
        assert(outs[0] == Action::CallMouseMotion);
        assert(outs.contains(Action::CallMouseMotion));
    }
}

/// A focus loss suppresses only the motions after it, never retroactively:
/// from a focused live session, a raw motion, then the focus loss, then
/// another raw motion deliver exactly the first motion and the focus-loss
/// callback, in that order.
pub proof fn lemma_focus_loss_suppresses_only_later_motions(m: Model, id: u64)
    requires
        !m.exited,
        m.focused,
        m.window == Some(id),
    ensures
        run_steps(
            m,
            seq![
                Event::DeviceMouseMotion,
                Event::Window { id, kind: WindowEventKind::Focused { focused: false } },
                Event::DeviceMouseMotion,
            ],
        ).1 == seq![Action::CallMouseMotion, Action::CallLostFocus],
{
    reveal_with_fuel(run_steps, 5);
    let e1 = Event::DeviceMouseMotion;
    let e2 = Event::Window { id, kind: WindowEventKind::Focused { focused: false } };
    let evs = seq![e1, e2, e1];
    assert(evs[0] == e1);
    assert(evs.drop_first() =~= seq![e2, e1]);
    let tail = seq![e2, e1];
    assert(tail[0] == e2);
    assert(tail.drop_first() =~= seq![e1]);
    let m2 = spec_step(m, e2).0;
    assert(!m2.focused && !m2.exited);
    assert(seq![e1].drop_first() =~= Seq::<Event>::empty());
    assert(run_steps(m2, seq![e1]).1 =~= Seq::<Action>::empty());
    assert(run_steps(m, tail).1 =~= seq![Action::CallLostFocus]);
    assert(run_steps(m, evs).1 =~= seq![Action::CallMouseMotion, Action::CallLostFocus]);
}

/// A redraw tick on the owned window of a live session emits exactly one
/// redraw re-request, then at most one cursor-visibility change — present
/// when and only when the handler's wish differs from the last-applied value
/// — then exactly one redraw callback, in that order; and afterwards the
/// tracked visibility equals the handler's wish.
pub proof fn lemma_redraw_tick_order(m: Model, id: u64, want: bool)
    requires
        !m.exited,
        m.window == Some(id),
    ensures
        ({
            let r = spec_step(m, Event::Window {
                id,
                kind: WindowEventKind::RedrawRequested { cursor_want: want },
            });
            &&& r.0 == (Model { cursor_visible: want, awaiting_redraw: true, ..m })
            &&& r.1 == if want == m.cursor_visible {
                seq![Action::RequestRedraw, Action::CallRedraw]
            } else {
                seq![
                    Action::RequestRedraw,
                    Action::SetCursorVisible { visible: want },
                    Action::CallRedraw,
                ]
            }
        }),
{
}

/// Number of actions in `outs` that satisfy `p`.
pub open spec fn count_matching(p: spec_fn(Action) -> bool, outs: Seq<Action>) -> int
    decreases outs.len(),
{
    if outs.len() == 0 {
        0
    } else {
        count_matching(p, outs.drop_last()) + (if p(outs.last()) {
            1int
        } else {
            0int
        })
    }
}

/// Appending one action raises the matching count by one exactly when the
/// action matches.
pub broadcast proof fn lemma_count_matching_push(
    p: spec_fn(Action) -> bool,
    s: Seq<Action>,
    a: Action,
)
    ensures
        #[trigger] count_matching(p, s.push(a)) == count_matching(p, s) + (if p(a) {
            1int
        } else {
            0int
        }),
{
    assert(s.push(a).drop_last() =~= s);
}

/// The matching count distributes over concatenation.
pub proof fn lemma_count_matching_add(p: spec_fn(Action) -> bool, a: Seq<Action>, b: Seq<Action>)
    ensures
        count_matching(p, a + b) == count_matching(p, a) + count_matching(p, b),
    decreases b.len(),
{
    if b.len() == 0 {
        assert(a + b =~= a);
    } else {
        assert((a + b).drop_last() =~= a + b.drop_last());
        assert((a + b).last() == b.last());
        lemma_count_matching_add(p, a, b.drop_last());
    }
}

/// Matches the callback that announces the created window.
pub open spec fn created_pred() -> spec_fn(Action) -> bool {
    |a: Action| a is CallWindowCreated
}

/// Matches the platform call that changes cursor visibility.
pub open spec fn cursor_set_pred() -> spec_fn(Action) -> bool {
    |a: Action| a is SetCursorVisible
}

/// One if the session owns a window, zero before.
pub open spec fn has_window(m: Model) -> int {
    if m.window is Some {
        1int
    } else {
        0int
    }
}

/// One dispatcher step announces a created window exactly when it transitions
/// the session from owning no window to owning one.
proof fn lemma_step_window_created(m: Model, ev: Event)
    ensures
        count_matching(created_pred(), spec_step(m, ev).1)
            == has_window(spec_step(m, ev).0) - has_window(m),
{
    broadcast use lemma_count_matching_push;

    if !m.exited {
        match ev {
            Event::Window { id, kind } => {
                if m.window == Some(id) {
                    match kind {
                        WindowEventKind::Resized { width, height } => {
                            assert(seq![
                                Action::CallResized { width, height },
                                Action::RequestRedraw,
                            ] =~= Seq::<Action>::empty().push(
                                Action::CallResized { width, height },
                            ).push(Action::RequestRedraw));
                        },
                        WindowEventKind::RedrawRequested { cursor_want } => {
                            assert(seq![Action::RequestRedraw, Action::CallRedraw]
                                =~= Seq::<Action>::empty().push(Action::RequestRedraw).push(
                                Action::CallRedraw,
                            ));
                            assert(seq![
                                Action::RequestRedraw,
                                Action::SetCursorVisible { visible: cursor_want },
                                Action::CallRedraw,
                            ] =~= Seq::<Action>::empty().push(Action::RequestRedraw).push(
                                Action::SetCursorVisible { visible: cursor_want },
                            ).push(Action::CallRedraw));
                        },
                        _ => {},
                    }
                }
            },
            _ => {},
        }
    }
}

/// Over any run, the number of window-created callbacks equals the change in
/// window ownership: a session never gives a window up, so the callback fires
/// exactly when the run turns a window-less session into one with a window.
pub proof fn lemma_window_created_counts_transition(m: Model, evs: Seq<Event>)
    ensures
        count_matching(created_pred(), run_steps(m, evs).1)
            == has_window(run_steps(m, evs).0) - has_window(m),
    decreases evs.len(),
{
    if evs.len() == 0 {
    } else {
        let head = spec_step(m, evs[0]);
        lemma_step_window_created(m, evs[0]);
        lemma_window_created_counts_transition(head.0, evs.drop_first());
        lemma_count_matching_add(created_pred(), head.1, run_steps(head.0, evs.drop_first()).1);
    }
}

/// From a fresh session, any run — resumed never, once, or many times —
/// announces the created window at most once, and exactly once when the run
/// ends with the session owning a window.
pub proof fn lemma_window_created_at_most_once(m: Model, evs: Seq<Event>)
    requires
        m.window is None,
    ensures
        count_matching(created_pred(), run_steps(m, evs).1) <= 1,
        count_matching(created_pred(), run_steps(m, evs).1) == 1 <==> run_steps(
            m,
            evs,
        ).0.window is Some,
{
    lemma_window_created_counts_transition(m, evs);
}

/// The native window is set at most once: whatever window a session owns, it
/// still owns after any further events — never replaced, never given up.
pub proof fn lemma_window_never_replaced(m: Model, evs: Seq<Event>)
    requires
        m.window is Some,
    ensures
        run_steps(m, evs).0.window == m.window,
    decreases evs.len(),
{
    if evs.len() == 0 {
    } else {
        lemma_window_never_replaced(spec_step(m, evs[0]).0, evs.drop_first());
    }
}

/// The tracked cursor visibility always equals the value last handed to the
/// platform: a step changes it only by also emitting the matching platform
/// call, and every emitted call carries the new tracked value, which differs
/// from the previously applied one.
pub proof fn lemma_cursor_state_tracks_platform(m: Model, ev: Event)
    ensures
        ({
            let r = spec_step(m, ev);
            &&& (r.0.cursor_visible == m.cursor_visible || r.1.contains(
                Action::SetCursorVisible { visible: r.0.cursor_visible },
            ))
            &&& forall|v: bool|
                r.1.contains(Action::SetCursorVisible { visible: v }) ==> r.0.cursor_visible == v
                    && v != m.cursor_visible
        }),
{
    let r = spec_step(m, ev);
    if !m.exited {
        match ev {
            Event::Window { id, kind } => {
                if m.window == Some(id) {
                    match kind {
                        WindowEventKind::RedrawRequested { cursor_want } => {
                            if cursor_want != m.cursor_visible {
                                assert(r.1[1] == (Action::SetCursorVisible {
                                    visible: cursor_want,
                                }));
                                assert(r.1.contains(
                                    Action::SetCursorVisible { visible: cursor_want },
                                ));
                            }
                        },
                        _ => {},
                    }
                }
            },
            _ => {},
        }
    }
}

/// `n` consecutive redraw ticks on window `id`: each one redraw request with
/// the handler wanting visibility `want`, followed by the handler's redraw
/// callback answering that the run should go on.
pub open spec fn redraw_ticks(id: u64, want: bool, n: nat) -> Seq<Event>
    decreases n,
{
    if n == 0 {
        Seq::empty()
    } else {
        seq![
            Event::Window { id, kind: WindowEventKind::RedrawRequested { cursor_want: want } },
            Event::RedrawDone { keep_going: true },
        ] + redraw_ticks(id, want, (n - 1) as nat)
    }
}

/// Once the tracked cursor visibility equals what the handler keeps asking
/// for, any number of further redraw ticks applies zero visibility changes to
/// the platform: the platform is mutated only when the wish actually changes.
pub proof fn lemma_no_redundant_cursor_mutation(m: Model, id: u64, want: bool, n: nat)
    requires
        !m.exited,
        m.window == Some(id),
        m.cursor_visible == want,
    ensures
        count_matching(cursor_set_pred(), run_steps(m, redraw_ticks(id, want, n)).1) == 0,
    decreases n,
{
    broadcast use lemma_count_matching_push;

    let evs = redraw_ticks(id, want, n);
    if n == 0 {
        assert(count_matching(cursor_set_pred(), Seq::<Action>::empty()) == 0);
    } else {
        let e1 = Event::Window { id, kind: WindowEventKind::RedrawRequested { cursor_want: want } };
        let e2 = Event::RedrawDone { keep_going: true };
        let rest = redraw_ticks(id, want, (n - 1) as nat);
        assert(evs == seq![e1, e2] + rest);
        assert(evs[0] == e1);
        assert(evs.drop_first() =~= seq![e2] + rest);
        let m1 = spec_step(m, e1).0;
        let out1 = spec_step(m, e1).1;
        assert(out1 == seq![Action::RequestRedraw, Action::CallRedraw]);
        assert(out1 =~= Seq::<Action>::empty().push(Action::RequestRedraw).push(
            Action::CallRedraw,
        ));
        assert(count_matching(cursor_set_pred(), out1) == 0);
        let evs1 = seq![e2] + rest;
        assert(evs1[0] == e2);
        assert(evs1.drop_first() =~= rest);
        let m2 = spec_step(m1, e2).0;
        let out2 = spec_step(m1, e2).1;
        assert(out2 == Seq::<Action>::empty());
        assert(m2.window == Some(id) && !m2.exited && m2.cursor_visible == want);
        lemma_no_redundant_cursor_mutation(m2, id, want, (n - 1) as nat);
        lemma_count_matching_add(cursor_set_pred(), out2, run_steps(m2, rest).1);
        assert(run_steps(m1, evs1).1 == out2 + run_steps(m2, rest).1);
        lemma_count_matching_add(cursor_set_pred(), out1, run_steps(m1, evs1).1);
        assert(run_steps(m1, evs.drop_first()) == run_steps(m1, evs1));
    }
}

/// When the handler's redraw callback answers that the run should stop, the
/// dispatcher exits at once: the exit is the only emitted action, and every
/// later event is ignored — no callback fires after the exit.
pub proof fn lemma_redraw_false_exits(m: Model, evs: Seq<Event>)
    requires
        !m.exited,
        m.awaiting_redraw,
    ensures
        ({
            let r = spec_step(m, Event::RedrawDone { keep_going: false });
            &&& r.1 == seq![Action::Exit]
            &&& r.0.exited
            &&& run_steps(r.0, evs).1 == Seq::<Action>::empty()
        }),
{
    lemma_exited_absorbs(spec_step(m, Event::RedrawDone { keep_going: false }).0, evs);
}

/// A close request on the owned window of a live session exits at once: the
/// only emitted action is the exit itself — no redraw re-request, no callback
/// — and the state is marked exited, after which the dispatcher is inert.
pub proof fn lemma_close_requested_exits(m: Model, id: u64)
    requires
        !m.exited,
        m.window == Some(id),
    ensures
        spec_step(m, Event::Window { id, kind: WindowEventKind::CloseRequested }).0
            == (Model { exited: true, ..m }),
        spec_step(m, Event::Window { id, kind: WindowEventKind::CloseRequested }).1
            == seq![Action::Exit],
{
}

} // verus!
