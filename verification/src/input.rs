//! Keyboard and pointer events.

use vstd::prelude::*;
use crate::access::report_of_miss;
use crate::action::{Action, resize_edges, spec_resize_edges};
use crate::dispatcher::{Dispatcher, Model, Transition};
use crate::fault::{Fault, Report, Verdict};
use crate::flags::{Edges, Modifiers, PressState, StateFlags, LEFT_CLICK, MOD_NONE, RIGHT_CLICK, STATE_RESIZING};
use crate::geometry::{Point, ViewId};
use crate::keys::{Command, KeyPress, resolve};
use crate::lockscreen::LockScreen;
use crate::protocol::{Effect, Pending, Reply, Request, ScriptQuery, Step, ask, done, idle, no_effects, one_effect};

verus! {

/// The change that hands the focus to the overlay of the lock screen, if its
/// window exists.
pub open spec fn overlay_focus(m: Model) -> Seq<Effect> {
    match m.overlay() {
        Some(overlay) => seq![Effect::FocusView(overlay)],
        None => Seq::empty(),
    }
}

/// The change that hands the focus to the overlay of `lock`, if its window
/// exists.
pub fn focus_overlay(lock: &LockScreen) -> (effects: Vec<Effect>)
    ensures
        effects@ == (match lock.view {
            Some(overlay) => seq![Effect::FocusView(overlay)],
            None => Seq::empty(),
        }),
{
    match lock.view() {
        Some(overlay) => one_effect(Effect::FocusView(overlay)),
        None => no_effects(),
    }
}

/// The action that a click on `view` at `grab` starts, before any edge is
/// known.
pub open spec fn fresh_action(view: ViewId, grab: Point) -> Action {
    Action { view, grab, edges: Edges { bits: 0 } }
}

/// A left click once the tree has been dealt with: with the mouse modifier
/// held the move starts. The click goes to the client either way.
pub open spec fn left_click_goes_on(m: Model, view: ViewId, grab: Point, start: bool) -> Model {
    if start {
        m.with_action(Some(fresh_action(view, grab)))
    } else {
        m
    }
}

/// A right click once the tree has been dealt with: with the mouse modifier
/// held the action starts and the engine is asked for the geometry of the
/// view, without it the click goes to the client.
pub open spec fn right_click_goes_on(m: Model, view: ViewId, grab: Point, start: bool) -> Transition {
    if start {
        Transition {
            model: m.with_action(Some(fresh_action(view, grab))),
            step: ask(Seq::empty(), Request::ViewGeometry(view), Pending::RightGeometry { view, grab }),
        }
    } else {
        Transition { model: m, step: idle() }
    }
}

/// What a pointer button does.
///
/// While a lock screen is up the focus goes to its overlay and the click to
/// the client. Otherwise a press of the left or the right button on a view
/// other than the root asks the tree, if it can be had at once, to make the
/// view the active one; `start` records whether the mouse modifier is held.
/// When the tree cannot be had the click goes on without it: the action slot
/// does not depend on the tree. A release empties the action slot, whatever
/// it held, and asks for the state of the view that was let go of.
pub open spec fn on_pointer_button(
    m: Model,
    view: ViewId,
    modifiers: Modifiers,
    button: u32,
    state: PressState,
    point: Point,
) -> Transition {
    if m.lock_screen is Some {
        Transition { model: m, step: done(overlay_focus(m), Verdict::PassThrough, Report::Quiet) }
    } else if state == PressState::Pressed {
        let start = modifiers.spec_contains(m.mouse_modifier);
        if button == LEFT_CLICK && !view.spec_is_root() {
            if m.tree.try_answer() is Ok {
                Transition {
                    model: m.acquired(),
                    step: ask(
                        Seq::empty(),
                        Request::SetActiveView(view),
                        Pending::LeftFocused { view, grab: point, start },
                    ),
                }
            } else {
                Transition { model: left_click_goes_on(m, view, point, start), step: idle() }
            }
        } else if button == RIGHT_CLICK && !view.spec_is_root() {
            if m.tree.try_answer() is Ok {
                Transition {
                    model: m.acquired(),
                    step: ask(
                        Seq::empty(),
                        Request::SetActiveView(view),
                        Pending::RightFocused { view, grab: point, start },
                    ),
                }
            } else {
                right_click_goes_on(m, view, point, start)
            }
        } else {
            Transition { model: m, step: idle() }
        }
    } else {
        match m.action {
            Some(action) => Transition {
                model: m.with_action(None),
                step: ask(Seq::empty(), Request::ViewState(action.view), Pending::ReleaseState(action.view)),
            },
            None => Transition { model: m, step: idle() },
        }
    }
}

/// After a left click, once the tree has answered: a view that the tree does
/// not take is focused all the same, the move starts if the mouse modifier was
/// held, and the click goes to the client.
pub open spec fn after_left_focused(m: Model, view: ViewId, grab: Point, start: bool, reply: Reply) -> Transition {
    let effects = if reply.spec_unit() is Err {
        seq![Effect::FocusView(view)]
    } else {
        Seq::empty()
    };
    Transition {
        model: left_click_goes_on(m.released(), view, grab, start),
        step: done(effects, Verdict::PassThrough, Report::Quiet),
    }
}

/// After a right click, once the tree has answered: whatever the answer, the
/// tree is let go and the click goes on.
pub open spec fn after_right_focused(m: Model, view: ViewId, grab: Point, start: bool) -> Transition {
    right_click_goes_on(m.released(), view, grab, start)
}

/// After a right click with the mouse modifier, once the geometry of the view
/// is known: the action in the slot (or a fresh one, if the slot was emptied
/// in between) gets the edges that the click takes hold of, the view is marked
/// as resizing, and the click is kept from the client. Without a geometry the
/// event is given up.
pub open spec fn after_right_geometry(m: Model, view: ViewId, grab: Point, reply: Reply) -> Transition {
    match reply.spec_geometry() {
        Some(geometry) => {
            let base = match m.action {
                Some(action) => action,
                None => fresh_action(view, grab),
            };
            Transition {
                model: m.with_action(
                    Some(Action { view: base.view, grab: base.grab, edges: spec_resize_edges(grab, geometry) }),
                ),
                step: done(
                    seq![Effect::SetViewState { view, flags: StateFlags { bits: STATE_RESIZING }, on: true }],
                    Verdict::Consumed,
                    Report::Quiet,
                ),
            }
        },
        None => Transition {
            model: m,
            step: done(Seq::empty(), Verdict::PassThrough, Report::Fatal(Fault::NotFound)),
        },
    }
}

/// After a release, once the state of the view is known: a view that is still
/// marked as resizing loses the mark.
pub open spec fn after_release_state(m: Model, view: ViewId, reply: Reply) -> Transition {
    let effects = if reply.spec_state().spec_contains(StateFlags { bits: STATE_RESIZING }) {
        seq![Effect::SetViewState { view, flags: StateFlags { bits: STATE_RESIZING }, on: false }]
    } else {
        Seq::empty()
    };
    Transition { model: m, step: done(effects, Verdict::PassThrough, Report::Quiet) }
}

fn right_click_proceeds(d: &mut Dispatcher, view: ViewId, grab: Point, start: bool) -> (step: Step)
    ensures
        final(d)@ == right_click_goes_on(old(d)@, view, grab, start).model,
        step@ == right_click_goes_on(old(d)@, view, grab, start).step,
{
    if start {
        d.action.begin(Action { view, grab, edges: Edges::empty() });
        Step::ask(no_effects(), Request::ViewGeometry(view), Pending::RightGeometry { view, grab })
    } else {
        Step::idle()
    }
}

/// A pointer button went down or came up over `view`, at `point`.
pub fn pointer_button(
    d: &mut Dispatcher,
    view: ViewId,
    _time: u32,
    modifiers: Modifiers,
    button: u32,
    state: PressState,
    point: Point,
) -> (step: Step)
    ensures
        final(d)@ == on_pointer_button(old(d)@, view, modifiers, button, state, point).model,
        step@ == on_pointer_button(old(d)@, view, modifiers, button, state, point).step,
{
    if let Some(lock) = d.lock_screen {
        return Step::done(focus_overlay(&lock), Verdict::PassThrough, Report::Quiet);
    }
    if state == PressState::Pressed {
        let start = modifiers.contains(d.mouse_modifier);
        if button == LEFT_CLICK && !view.is_root() {
            if d.tree.try_acquire().is_ok() {
                Step::ask(
                    no_effects(),
                    Request::SetActiveView(view),
                    Pending::LeftFocused { view, grab: point, start },
                )
            } else {
                if start {
                    d.action.begin(Action { view, grab: point, edges: Edges::empty() });
                }
                Step::idle()
            }
        } else if button == RIGHT_CLICK && !view.is_root() {
            if d.tree.try_acquire().is_ok() {
                Step::ask(
                    no_effects(),
                    Request::SetActiveView(view),
                    Pending::RightFocused { view, grab: point, start },
                )
            } else {
                right_click_proceeds(d, view, point, start)
            }
        } else {
            Step::idle()
        }
    } else {
        match d.action.clear() {
            Some(action) => Step::ask(
                no_effects(),
                Request::ViewState(action.view),
                Pending::ReleaseState(action.view),
            ),
            None => Step::idle(),
        }
    }
}

/// Goes on after a left click with the tree's answer.
pub fn left_focused(d: &mut Dispatcher, view: ViewId, grab: Point, start: bool, reply: Reply) -> (step: Step)
    ensures
        final(d)@ == after_left_focused(old(d)@, view, grab, start, reply).model,
        step@ == after_left_focused(old(d)@, view, grab, start, reply).step,
{
    let effects = if reply.unit().is_err() {
        one_effect(Effect::FocusView(view))
    } else {
        no_effects()
    };
    d.tree.release();
    if start {
        d.action.begin(Action { view, grab, edges: Edges::empty() });
    }
    Step::done(effects, Verdict::PassThrough, Report::Quiet)
}

/// Goes on after a right click once the tree has answered.
pub fn right_focused(d: &mut Dispatcher, view: ViewId, grab: Point, start: bool) -> (step: Step)
    ensures
        final(d)@ == after_right_focused(old(d)@, view, grab, start).model,
        step@ == after_right_focused(old(d)@, view, grab, start).step,
{
    d.tree.release();
    right_click_proceeds(d, view, grab, start)
}

/// Goes on after a right click with the geometry of the view.
pub fn right_geometry(d: &mut Dispatcher, view: ViewId, grab: Point, reply: Reply) -> (step: Step)
    ensures
        final(d)@ == after_right_geometry(old(d)@, view, grab, reply).model,
        step@ == after_right_geometry(old(d)@, view, grab, reply).step,
{
    match reply.geometry() {
        Some(geometry) => {
            let base = match d.action.current() {
                Some(action) => action,
                None => Action { view, grab, edges: Edges::empty() },
            };
            d.action.begin(Action { view: base.view, grab: base.grab, edges: resize_edges(grab, geometry) });
            Step::done(
                one_effect(Effect::SetViewState { view, flags: StateFlags::resizing(), on: true }),
                Verdict::Consumed,
                Report::Quiet,
            )
        },
        None => Step::done(no_effects(), Verdict::PassThrough, Report::Fatal(Fault::NotFound)),
    }
}

/// Goes on after a release with the state of the view that was let go of.
pub fn release_state(d: &mut Dispatcher, view: ViewId, reply: Reply) -> (step: Step)
    ensures
        final(d)@ == after_release_state(old(d)@, view, reply).model,
        step@ == after_release_state(old(d)@, view, reply).step,
{
    let effects = if reply.state().contains(StateFlags::resizing()) {
        one_effect(Effect::SetViewState { view, flags: StateFlags::resizing(), on: false })
    } else {
        no_effects()
    };
    Step::done(effects, Verdict::PassThrough, Report::Quiet)
}

/// The wheel was turned. The event always goes to the client.
pub fn pointer_scroll(_view: ViewId, _time: u32, _modifiers: Modifiers) -> (step: Step)
    ensures
        step@ == idle(),
{
    Step::idle()
}

/// What a motion of the pointer does.
///
/// While a lock screen is up, or while no action is in progress, or when the
/// tree cannot be had at once, the pointer is moved and the event goes to the
/// client. With an action that has edges the tree is asked for the container
/// of the action's view, to resize it; with one that has none it is asked to
/// drag the active container.
pub open spec fn on_pointer_motion(m: Model, point: Point) -> Transition {
    let follow = seq![Effect::SetPointer(point)];
    if m.lock_screen is Some {
        Transition { model: m, step: done(follow, Verdict::PassThrough, Report::Quiet) }
    } else {
        match m.action {
            None => Transition { model: m, step: done(follow, Verdict::PassThrough, Report::Quiet) },
            Some(action) => if m.tree.try_answer() is Ok {
                if action.edges.bits != 0 {
                    Transition {
                        model: m.acquired(),
                        step: ask(
                            Seq::empty(),
                            Request::LookupView(action.view),
                            Pending::MotionLookup(action.edges, point),
                        ),
                    }
                } else {
                    Transition {
                        model: m.acquired(),
                        step: ask(Seq::empty(), Request::TryDragActive(point), Pending::MotionDragged(point)),
                    }
                }
            } else {
                Transition { model: m, step: done(follow, Verdict::PassThrough, report_of_miss(m.tree)) }
            },
        }
    }
}

/// After a motion, once the container to resize is known, the tree is asked to
/// resize it. Without a container the tree is let go, the pointer moved and
/// the event passed on.
pub open spec fn after_motion_lookup(m: Model, edges: Edges, point: Point, reply: Reply) -> Transition {
    match reply.spec_container() {
        Ok(id) => Transition {
            model: m,
            step: ask(Seq::empty(), Request::ResizeContainer(id, edges, point), Pending::MotionResized(point)),
        },
        Err(_) => Transition {
            model: m.released(),
            step: done(seq![Effect::SetPointer(point)], Verdict::PassThrough, Report::Quiet),
        },
    }
}

/// After a motion, once the tree has resized: the event is kept from the
/// client and the pointer is left where the engine has it. A resize that
/// failed is logged as a warning; the pointer is then moved and the event
/// passed on.
pub open spec fn after_motion_resized(m: Model, point: Point, reply: Reply) -> Transition {
    match reply.spec_unit() {
        Ok(_) => Transition {
            model: m.released(),
            step: done(Seq::empty(), Verdict::Consumed, Report::Quiet),
        },
        Err(fault) => Transition {
            model: m.released(),
            step: done(seq![Effect::SetPointer(point)], Verdict::PassThrough, Report::Warning(fault)),
        },
    }
}

/// How a drag that failed is reported: not at all where the view is tiled or
/// another action is under way, as an error otherwise.
pub open spec fn drag_report(fault: Fault) -> Report {
    if fault == Fault::ActionInProgress || fault == Fault::NotFloating {
        Report::Quiet
    } else {
        Report::Error(fault)
    }
}

/// After a motion, once the tree has dragged: the pointer is moved, and the
/// event is kept from the client if the drag took place.
pub open spec fn after_motion_dragged(m: Model, point: Point, reply: Reply) -> Transition {
    let follow = seq![Effect::SetPointer(point)];
    match reply.spec_unit() {
        Ok(_) => Transition { model: m.released(), step: done(follow, Verdict::Consumed, Report::Quiet) },
        Err(fault) => Transition {
            model: m.released(),
            step: done(follow, Verdict::PassThrough, drag_report(fault)),
        },
    }
}

/// The pointer moved to `point`.
pub fn pointer_motion(d: &mut Dispatcher, _view: ViewId, _time: u32, point: Point) -> (step: Step)
    ensures
        final(d)@ == on_pointer_motion(old(d)@, point).model,
        step@ == on_pointer_motion(old(d)@, point).step,
{
    if d.lock_screen.is_some() {
        return Step::done(one_effect(Effect::SetPointer(point)), Verdict::PassThrough, Report::Quiet);
    }
    match d.action.current() {
        None => Step::done(one_effect(Effect::SetPointer(point)), Verdict::PassThrough, Report::Quiet),
        Some(action) => match d.tree.try_acquire() {
            Ok(_) => if action.edges.bits != 0 {
                Step::ask(
                    no_effects(),
                    Request::LookupView(action.view),
                    Pending::MotionLookup(action.edges, point),
                )
            } else {
                Step::ask(no_effects(), Request::TryDragActive(point), Pending::MotionDragged(point))
            },
            Err(Fault::LockPoisoned) => Step::done(
                one_effect(Effect::SetPointer(point)),
                Verdict::PassThrough,
                Report::Error(Fault::LockPoisoned),
            ),
            Err(_) => Step::done(one_effect(Effect::SetPointer(point)), Verdict::PassThrough, Report::Quiet),
        },
    }
}

/// Goes on after a motion with the container to resize.
pub fn motion_lookup(d: &mut Dispatcher, edges: Edges, point: Point, reply: Reply) -> (step: Step)
    ensures
        final(d)@ == after_motion_lookup(old(d)@, edges, point, reply).model,
        step@ == after_motion_lookup(old(d)@, edges, point, reply).step,
{
    match reply.container() {
        Ok(id) => Step::ask(
            no_effects(),
            Request::ResizeContainer(id, edges, point),
            Pending::MotionResized(point),
        ),
        Err(_) => {
            d.tree.release();
            Step::done(one_effect(Effect::SetPointer(point)), Verdict::PassThrough, Report::Quiet)
        },
    }
}

/// Goes on after a motion with the tree's answer to the resize.
pub fn motion_resized(d: &mut Dispatcher, point: Point, reply: Reply) -> (step: Step)
    ensures
        final(d)@ == after_motion_resized(old(d)@, point, reply).model,
        step@ == after_motion_resized(old(d)@, point, reply).step,
{
    d.tree.release();
    match reply.unit() {
        Ok(_) => Step::done(no_effects(), Verdict::Consumed, Report::Quiet),
        Err(fault) => Step::done(
            one_effect(Effect::SetPointer(point)),
            Verdict::PassThrough,
            Report::Warning(fault),
        ),
    }
}

/// Goes on after a motion with the tree's answer to the drag.
pub fn motion_dragged(d: &mut Dispatcher, point: Point, reply: Reply) -> (step: Step)
    ensures
        final(d)@ == after_motion_dragged(old(d)@, point, reply).model,
        step@ == after_motion_dragged(old(d)@, point, reply).step,
{
    d.tree.release();
    match reply.unit() {
        Ok(_) => Step::done(one_effect(Effect::SetPointer(point)), Verdict::Consumed, Report::Quiet),
        Err(fault) => {
            let report = match fault {
                Fault::ActionInProgress | Fault::NotFloating => Report::Quiet,
                _ => Report::Error(fault),
            };
            Step::done(one_effect(Effect::SetPointer(point)), Verdict::PassThrough, report)
        },
    }
}

/// What a key does.
///
/// While a lock screen is up the focus goes to its overlay and the key to the
/// client. A key that comes up goes to the client. For a key that goes down
/// the engine is asked for its symbol, taken without any modifier.
pub open spec fn on_keyboard_key(m: Model, modifiers: Modifiers, key: u32, state: PressState) -> Transition {
    if m.lock_screen is Some {
        Transition { model: m, step: done(overlay_focus(m), Verdict::PassThrough, Report::Quiet) }
    } else if state == PressState::Pressed {
        Transition {
            model: m,
            step: ask(
                Seq::empty(),
                Request::KeySymbol { key, modifiers: Modifiers { bits: MOD_NONE } },
                Pending::KeyLookup(modifiers),
            ),
        }
    } else {
        Transition { model: m, step: idle() }
    }
}

/// What a key press with a known symbol does: nothing if it is not bound
/// (the key goes to the client); a built-in command is run and the key kept
/// from the client; a script binding is sent to the scripting engine.
pub open spec fn after_key_lookup(m: Model, modifiers: Modifiers, reply: Reply) -> Transition {
    match reply.spec_symbol() {
        None => Transition {
            model: m,
            step: done(Seq::empty(), Verdict::PassThrough, Report::Error(Fault::Internal)),
        },
        Some(symbol) => {
            let press = KeyPress { modifiers, symbol };
            match resolve(m.bindings, press) {
                None => Transition { model: m, step: idle() },
                Some(Command::Builtin(number)) => Transition {
                    model: m,
                    step: done(seq![Effect::RunBuiltin(number)], Verdict::Consumed, Report::Quiet),
                },
                Some(Command::ScriptDispatch) => Transition {
                    model: m,
                    step: ask(
                        Seq::empty(),
                        Request::SendToScript(ScriptQuery::HandleKey(press)),
                        Pending::KeySent,
                    ),
                },
            }
        },
    }
}

/// After a key press was sent to the scripting engine: the key is kept from
/// the client whether the message got through or not; a failure to send is
/// logged.
pub open spec fn after_key_sent(m: Model, reply: Reply) -> Transition {
    let report = match reply.spec_unit() {
        Ok(_) => Report::Quiet,
        Err(fault) => Report::Error(fault),
    };
    Transition { model: m, step: done(Seq::empty(), Verdict::Consumed, report) }
}

/// A key went down or came up.
pub fn keyboard_key(
    d: &mut Dispatcher,
    _view: ViewId,
    _time: u32,
    modifiers: Modifiers,
    key: u32,
    state: PressState,
) -> (step: Step)
    ensures
        final(d)@ == on_keyboard_key(old(d)@, modifiers, key, state).model,
        step@ == on_keyboard_key(old(d)@, modifiers, key, state).step,
{
    if let Some(lock) = d.lock_screen {
        return Step::done(focus_overlay(&lock), Verdict::PassThrough, Report::Quiet);
    }
    if state == PressState::Pressed {
        Step::ask(
            no_effects(),
            Request::KeySymbol { key, modifiers: Modifiers::none() },
            Pending::KeyLookup(modifiers),
        )
    } else {
        Step::idle()
    }
}

/// Goes on after a key press with the symbol of the key.
pub fn key_lookup(d: &mut Dispatcher, modifiers: Modifiers, reply: Reply) -> (step: Step)
    ensures
        final(d)@ == after_key_lookup(old(d)@, modifiers, reply).model,
        step@ == after_key_lookup(old(d)@, modifiers, reply).step,
{
    match reply.symbol() {
        None => Step::done(no_effects(), Verdict::PassThrough, Report::Error(Fault::Internal)),
        Some(symbol) => {
            let press = KeyPress::new(modifiers, symbol);
            match d.bindings.get(press) {
                None => Step::idle(),
                Some(Command::Builtin(number)) => Step::done(
                    one_effect(Effect::RunBuiltin(number)),
                    Verdict::Consumed,
                    Report::Quiet,
                ),
                Some(Command::ScriptDispatch) => Step::ask(
                    no_effects(),
                    Request::SendToScript(ScriptQuery::HandleKey(press)),
                    Pending::KeySent,
                ),
            }
        },
    }
}

/// Goes on after a key press was sent to the scripting engine.
pub fn key_sent(d: &mut Dispatcher, reply: Reply) -> (step: Step)
    ensures
        final(d)@ == after_key_sent(old(d)@, reply).model,
        step@ == after_key_sent(old(d)@, reply).step,
{
    let report = match reply.unit() {
        Ok(_) => Report::Quiet,
        Err(fault) => Report::Error(fault),
    };
    Step::done(no_effects(), Verdict::Consumed, report)
}

} // verus!
