//! What holds of the dispatch as a whole.

use vstd::prelude::*;
use crate::action::{Action, ActionState, state_of};
use crate::dispatcher::{Model, Transition};
use crate::fault::{Fault, Report, Verdict};
use crate::flags::{Edges, Modifiers, PressState, PropertyKind, StateFlags, EDGE_LEFT, EDGE_TOP, LEFT_CLICK, RIGHT_CLICK, STATE_RESIZING};
use crate::geometry::{Geometry, OutputId, Point, Size, ViewId};
use crate::guard::LockState;
use crate::input::{on_keyboard_key, on_pointer_button, on_pointer_motion, overlay_focus};
use crate::outputs::{on_output_created, on_output_resolution};
use crate::protocol::{ContainerKind, Effect, Next, Pending, Reply, Request, ask, done, idle};
use crate::resume::after;
use crate::session::{on_compositor_terminating, on_view_pre_render};
use crate::views::{
    on_view_created, on_view_destroyed, on_view_focus, on_view_props_changed, on_view_request_geometry,
    on_view_request_move, on_view_request_resize, on_view_request_state,
};

verus! {

/// The rule of the tree, for one call that starts in the state `before` and
/// gives `t`. `held` says whether the event held the tree when the call was
/// made.
///
/// A question goes to the tree exactly when the event holds the tree
/// afterwards, and then the tree is held: it was held already, or it was free
/// and has been taken. A question that goes elsewhere, to the scripting engine
/// among others, and the end of the event leave the tree let go if the event
/// held it, and untouched if it did not.
pub open spec fn keeps_tree_rule(before: Model, held: bool, t: Transition) -> bool {
    match t.step.next {
        Next::Ask(request, pending) => {
            &&& request.touches_tree() == pending.holds_tree()
            &&& request.leaves_for_script() ==> !pending.holds_tree()
            &&& pending.holds_tree() && held ==> t.model.tree == before.tree
            &&& pending.holds_tree() && !held ==> before.tree == LockState::Free && t.model.tree
                == LockState::Held
            &&& !pending.holds_tree() && held ==> t.model.tree == before.tree.after_release()
            &&& !pending.holds_tree() && !held ==> t.model.tree == before.tree
        },
        Next::Done(_) => if held {
            t.model.tree == before.tree.after_release()
        } else {
            t.model.tree == before.tree
        },
    }
}

/// Every answer is followed by a step that keeps the rule of the tree: the
/// tree is asked only while the event holds it, nothing leaves for the
/// scripting engine while it does, and an event that ends has let go of it.
pub proof fn lemma_answers_keep_tree_rule(m: Model, pending: Pending, reply: Reply)
    ensures
        keeps_tree_rule(m, pending.holds_tree(), after(m, pending, reply)),
{
}

/// Events about outputs and views start with a step that keeps the rule of
/// the tree.
pub proof fn lemma_lifecycle_keeps_tree_rule(
    m: Model,
    output: OutputId,
    size: Size,
    view: ViewId,
    pid: i32,
    focused: bool,
    prop: PropertyKind,
)
    ensures
        keeps_tree_rule(m, false, on_output_created(m, output)),
        keeps_tree_rule(m, false, on_output_resolution(m, output, size)),
        keeps_tree_rule(m, false, on_view_created(m, view, pid)),
        keeps_tree_rule(m, false, on_view_destroyed(m, view)),
        keeps_tree_rule(m, false, on_view_focus(m, view, focused)),
        keeps_tree_rule(m, false, on_view_props_changed(m, view, prop)),
        keeps_tree_rule(m, false, on_view_pre_render(m, view)),
        keeps_tree_rule(m, false, on_compositor_terminating(m)),
{
}

/// What clients ask for and what the user does start with a step that keeps
/// the rule of the tree.
pub proof fn lemma_input_keeps_tree_rule(
    m: Model,
    view: ViewId,
    state_flags: StateFlags,
    toggle: bool,
    edges: Edges,
    geometry: Geometry,
    modifiers: Modifiers,
    button: u32,
    key: u32,
    state: PressState,
    point: Point,
)
    ensures
        keeps_tree_rule(m, false, on_view_request_state(m, view, state_flags, toggle)),
        keeps_tree_rule(m, false, on_view_request_move(m, view)),
        keeps_tree_rule(m, false, on_view_request_resize(m, view, edges, point)),
        keeps_tree_rule(m, false, on_view_request_geometry(m, view, geometry)),
        keeps_tree_rule(m, false, on_keyboard_key(m, modifiers, key, state)),
        keeps_tree_rule(m, false, on_pointer_button(m, view, modifiers, button, state, point)),
        keeps_tree_rule(m, false, on_pointer_motion(m, point)),
{
}

/// Whether a step puts no question to the tree and does not wait for it.
pub open spec fn leaves_tree_alone(t: Transition) -> bool {
    match t.step.next {
        Next::Ask(request, _) => !request.touches_tree() && request != Request::AwaitTree,
        Next::Done(_) => true,
    }
}

/// Input never waits for the tree. A key, a pointer button, a motion of the
/// pointer, a change of resolution or of focus, and what a client asks for
/// never make the caller wait; and while the tree cannot be had, they ask
/// nothing of it and leave its lock as it is.
pub proof fn lemma_input_never_waits(
    m: Model,
    output: OutputId,
    size: Size,
    view: ViewId,
    focused: bool,
    prop: PropertyKind,
    state_flags: StateFlags,
    toggle: bool,
    edges: Edges,
    geometry: Geometry,
    modifiers: Modifiers,
    button: u32,
    key: u32,
    state: PressState,
    point: Point,
)
    ensures
        !(on_keyboard_key(m, modifiers, key, state).step.next matches Next::Ask(Request::AwaitTree, _)),
        !(on_pointer_button(m, view, modifiers, button, state, point).step.next matches Next::Ask(
            Request::AwaitTree,
            _,
        )),
        !(on_pointer_motion(m, point).step.next matches Next::Ask(Request::AwaitTree, _)),
        !(on_output_resolution(m, output, size).step.next matches Next::Ask(Request::AwaitTree, _)),
        m.tree != LockState::Free ==> {
            &&& leaves_tree_alone(on_keyboard_key(m, modifiers, key, state))
            &&& leaves_tree_alone(on_pointer_button(m, view, modifiers, button, state, point))
            &&& leaves_tree_alone(on_pointer_motion(m, point))
            &&& leaves_tree_alone(on_output_resolution(m, output, size))
            &&& leaves_tree_alone(on_view_focus(m, view, focused))
            &&& leaves_tree_alone(on_view_props_changed(m, view, prop))
            &&& leaves_tree_alone(on_view_request_state(m, view, state_flags, toggle))
            &&& leaves_tree_alone(on_view_request_move(m, view))
            &&& leaves_tree_alone(on_view_request_resize(m, view, edges, point))
            &&& leaves_tree_alone(on_view_request_geometry(m, view, geometry))
            &&& on_keyboard_key(m, modifiers, key, state).model == m
            &&& on_pointer_motion(m, point).model == m
            &&& on_pointer_motion(m, point).step.next is Done
            &&& on_output_resolution(m, output, size).model == m
            &&& on_output_resolution(m, output, size).step.next is Done
        },
{
}

/// Where an event stands after the answers `replies`, if it started with
/// `first`. Each answer goes to the question that is out; answers that come
/// after the event has ended are not read.
pub open spec fn event_after(first: Transition, replies: Seq<Reply>) -> Transition
    decreases replies.len(),
{
    if replies.len() == 0 {
        first
    } else {
        let earlier = event_after(first, replies.drop_last());
        match earlier.step.next {
            Next::Ask(_, pending) => after(earlier.model, pending, replies.last()),
            Next::Done(_) => earlier,
        }
    }
}

/// An event that finds the tree free leaves it free. Whatever the answers,
/// the tree is held exactly while a question to the tree is out, and once the
/// event has ended the tree is free again.
pub proof fn lemma_event_gives_tree_back(m: Model, first: Transition, replies: Seq<Reply>)
    requires
        m.tree == LockState::Free,
        keeps_tree_rule(m, false, first),
    ensures
        ({
            let last = event_after(first, replies);
            match last.step.next {
                Next::Ask(request, pending) => {
                    &&& request.touches_tree() == pending.holds_tree()
                    &&& pending.holds_tree() ==> last.model.tree == LockState::Held
                    &&& !pending.holds_tree() ==> last.model.tree == LockState::Free
                },
                Next::Done(_) => last.model.tree == LockState::Free,
            }
        }),
    decreases replies.len(),
{
    if replies.len() > 0 {
        lemma_event_gives_tree_back(m, first, replies.drop_last());
        let earlier = event_after(first, replies.drop_last());
        match earlier.step.next {
            Next::Ask(_, pending) => {
                lemma_answers_keep_tree_rule(earlier.model, pending, replies.last());
            },
            Next::Done(_) => {},
        }
    }
}

/// An event that finds the tree held elsewhere never touches it. Whatever the
/// answers, it puts no question to the tree and leaves the lock held.
pub proof fn lemma_contended_event_keeps_off_tree(m: Model, first: Transition, replies: Seq<Reply>)
    requires
        m.tree == LockState::Held,
        keeps_tree_rule(m, false, first),
    ensures
        ({
            let last = event_after(first, replies);
            &&& last.model.tree == LockState::Held
            &&& match last.step.next {
                Next::Ask(request, pending) => !request.touches_tree() && !pending.holds_tree(),
                Next::Done(_) => true,
            }
        }),
    decreases replies.len(),
{
    if replies.len() > 0 {
        lemma_contended_event_keeps_off_tree(m, first, replies.drop_last());
        let earlier = event_after(first, replies.drop_last());
        match earlier.step.next {
            Next::Ask(_, pending) => {
                lemma_answers_keep_tree_rule(earlier.model, pending, replies.last());
            },
            Next::Done(_) => {},
        }
    }
}

impl Pending {
    /// The places at which an event stands that has nothing more to do with
    /// the tree.
    pub open spec fn done_with_tree(self) -> bool {
        self is KeyLookup || self is KeySent || self is RightGeometry || self is ReleaseState
            || self is ScrapeSized
    }
}

/// Whether a step belongs to an event that has nothing more to do with the
/// tree: it ends the event, or its question goes elsewhere and leaves the
/// event at such a place again.
pub open spec fn is_done_with_tree(t: Transition) -> bool {
    match t.step.next {
        Next::Ask(request, pending) => !request.touches_tree() && request != Request::AwaitTree
            && pending.done_with_tree(),
        Next::Done(_) => true,
    }
}

/// An event that asked for the tree at once and did not get it does not ask
/// again. Keys, pointer buttons, motions, changes of resolution and of focus
/// and what clients ask for are, after a miss, done with the tree; and an
/// event that is done with the tree stays so, whatever the answers and
/// whether or not the tree has become free in the meantime.
pub proof fn lemma_miss_is_final(
    m: Model,
    later: Model,
    pending: Pending,
    reply: Reply,
    output: OutputId,
    size: Size,
    view: ViewId,
    focused: bool,
    prop: PropertyKind,
    state_flags: StateFlags,
    toggle: bool,
    edges: Edges,
    geometry: Geometry,
    modifiers: Modifiers,
    button: u32,
    key: u32,
    state: PressState,
    point: Point,
)
    ensures
        pending.done_with_tree() ==> is_done_with_tree(after(later, pending, reply)) && after(
            later,
            pending,
            reply,
        ).model.tree == later.tree,
        m.tree != LockState::Free ==> {
            &&& is_done_with_tree(on_keyboard_key(m, modifiers, key, state))
            &&& is_done_with_tree(on_pointer_button(m, view, modifiers, button, state, point))
            &&& is_done_with_tree(on_pointer_motion(m, point))
            &&& is_done_with_tree(on_output_resolution(m, output, size))
            &&& is_done_with_tree(on_view_focus(m, view, focused))
            &&& is_done_with_tree(on_view_props_changed(m, view, prop))
            &&& is_done_with_tree(on_view_request_state(m, view, state_flags, toggle))
            &&& is_done_with_tree(on_view_request_move(m, view))
            &&& is_done_with_tree(on_view_request_resize(m, view, edges, point))
            &&& is_done_with_tree(on_view_request_geometry(m, view, geometry))
        },
{
}

/// While a lock screen is up, keys and the pointer do not reach the tree.
/// A key and a pointer button hand the focus to the overlay and go to the
/// client; a motion moves the pointer and goes to the client; what a client
/// asks for is dropped. None of them puts a question, and none changes the
/// state.
pub proof fn lemma_lock_screen_takes_input(
    m: Model,
    view: ViewId,
    state_flags: StateFlags,
    toggle: bool,
    edges: Edges,
    geometry: Geometry,
    modifiers: Modifiers,
    button: u32,
    key: u32,
    state: PressState,
    point: Point,
)
    requires
        m.lock_screen is Some,
    ensures
        on_keyboard_key(m, modifiers, key, state) == (Transition {
            model: m,
            step: done(overlay_focus(m), Verdict::PassThrough, Report::Quiet),
        }),
        on_pointer_button(m, view, modifiers, button, state, point) == (Transition {
            model: m,
            step: done(overlay_focus(m), Verdict::PassThrough, Report::Quiet),
        }),
        on_pointer_motion(m, point) == (Transition {
            model: m,
            step: done(seq![Effect::SetPointer(point)], Verdict::PassThrough, Report::Quiet),
        }),
        on_view_request_state(m, view, state_flags, toggle) == (Transition { model: m, step: idle() }),
        on_view_request_move(m, view) == (Transition { model: m, step: idle() }),
        on_view_request_resize(m, view, edges, point) == (Transition { model: m, step: idle() }),
        on_view_request_geometry(m, view, geometry) == (Transition { model: m, step: idle() }),
        on_view_focus(m, view, toggle).model == m,
        on_view_focus(m, view, toggle).step.next is Done,
{
}

/// No answer puts a lock screen up or takes one down.
pub proof fn lemma_answers_keep_lock_screen(m: Model, pending: Pending, reply: Reply)
    ensures
        after(m, pending, reply).model.lock_screen == m.lock_screen,
        after(m, pending, reply).model.bindings == m.bindings,
        after(m, pending, reply).model.mouse_modifier == m.mouse_modifier,
{
}

/// What the pointer can send, and the answers that come in between.
pub enum PointerInput {
    /// A button went down.
    Press { view: ViewId, modifiers: Modifiers, button: u32, point: Point },
    /// A button came up.
    Release { view: ViewId, modifiers: Modifiers, button: u32, point: Point },
    /// The pointer moved.
    Motion { point: Point },
    /// A question was answered.
    Answer { pending: Pending, reply: Reply },
}

impl PointerInput {
    /// The inputs that belong to a press: the press itself and the answers to
    /// the questions that it puts.
    pub open spec fn belongs_to_press(self) -> bool {
        match self {
            PointerInput::Press { .. } => true,
            PointerInput::Answer { pending, .. } => pending is LeftFocused || pending is RightFocused
                || pending is RightGeometry,
            _ => false,
        }
    }
}

/// The state after one input.
pub open spec fn pointer_step(m: Model, input: PointerInput) -> Model {
    match input {
        PointerInput::Press { view, modifiers, button, point } => on_pointer_button(
            m,
            view,
            modifiers,
            button,
            PressState::Pressed,
            point,
        ).model,
        PointerInput::Release { view, modifiers, button, point } => on_pointer_button(
            m,
            view,
            modifiers,
            button,
            PressState::Released,
            point,
        ).model,
        PointerInput::Motion { point } => on_pointer_motion(m, point).model,
        PointerInput::Answer { pending, reply } => after(m, pending, reply).model,
    }
}

/// The state after a sequence of inputs.
pub open spec fn pointer_run(m: Model, inputs: Seq<PointerInput>) -> Model
    decreases inputs.len(),
{
    if inputs.len() == 0 {
        m
    } else {
        pointer_step(pointer_run(m, inputs.drop_last()), inputs.last())
    }
}

/// No sequence of pointer inputs puts a lock screen up or takes one down.
pub proof fn lemma_pointer_keeps_lock_screen(m: Model, inputs: Seq<PointerInput>)
    ensures
        pointer_run(m, inputs).lock_screen == m.lock_screen,
    decreases inputs.len(),
{
    if inputs.len() > 0 {
        lemma_pointer_keeps_lock_screen(m, inputs.drop_last());
        let before = pointer_run(m, inputs.drop_last());
        match inputs.last() {
            PointerInput::Answer { pending, reply } => {
                lemma_answers_keep_lock_screen(before, pending, reply);
            },
            _ => {},
        }
    }
}

/// Before the first press no action is in progress: from a state without an
/// action, every sequence of motions, releases and answers to their questions
/// ends without one.
pub proof fn lemma_idle_before_first_press(m: Model, inputs: Seq<PointerInput>)
    requires
        m.action is None,
        forall|i: int| 0 <= i < inputs.len() ==> !(#[trigger] inputs[i]).belongs_to_press(),
    ensures
        state_of(pointer_run(m, inputs).action) == ActionState::Idle,
    decreases inputs.len(),
{
    if inputs.len() > 0 {
        let earlier = inputs.drop_last();
        assert forall|i: int| 0 <= i < earlier.len() implies !(#[trigger] earlier[i]).belongs_to_press() by {
            assert(earlier[i] == inputs[i]);
        }
        lemma_idle_before_first_press(m, earlier);
        assert(!inputs[inputs.len() - 1].belongs_to_press());
    }
}

/// Right after a release no action is in progress, whatever came before it,
/// unless a lock screen is up.
pub proof fn lemma_idle_after_release(m: Model, inputs: Seq<PointerInput>)
    requires
        m.lock_screen is None,
        inputs.len() > 0,
        inputs.last() is Release,
    ensures
        state_of(pointer_run(m, inputs).action) == ActionState::Idle,
{
    lemma_pointer_keeps_lock_screen(m, inputs.drop_last());
}

/// The answer to the question that a release puts leaves the slot empty.
pub proof fn lemma_release_stays_idle(m: Model, view: ViewId, reply: Reply)
    requires
        m.action is None,
    ensures
        after(m, Pending::ReleaseState(view), reply).model == m,
        after(m, Pending::ReleaseState(view), reply).step.next is Done,
{
}

/// The end of a view that the tree does not know is not an error: with a free
/// tree and a view that is not the overlay of a lock screen, the tree is asked
/// to remove the view, and when it answers that it has no such view, the
/// event ends without a change, without a line in the log, and with the state
/// as it was.
pub proof fn lemma_unknown_view_goes_quietly(m: Model, view: ViewId)
    requires
        m.tree == LockState::Free,
        m.overlay() != Some(view),
    ensures
        on_view_destroyed(m, view).step == ask(Seq::empty(), Request::RemoveView(view), Pending::ViewRemoved),
        after(on_view_destroyed(m, view).model, Pending::ViewRemoved, Reply::Unit(Err(Fault::NotFound)))
            == (Transition { model: m, step: idle() }),
{
}

/// An output that is registered a second time is handled like the first
/// time, and the tree is asked nothing beyond the registration itself. With a
/// free tree the tree is offered the output; if it has the output already,
/// the event ends as handled, with the state as it was; if it takes the
/// output, the first workspace and the layout follow and the event ends as
/// handled too.
pub proof fn lemma_output_registration_repeats(m: Model, output: OutputId)
    requires
        m.tree == LockState::Free,
    ensures
        on_output_created(m, output).step == ask(
            Seq::empty(),
            Request::AddOutput(output),
            Pending::OutputAdded,
        ),
        after(on_output_created(m, output).model, Pending::OutputAdded, Reply::Unit(Err(Fault::AlreadyPresent)))
            == (Transition { model: m, step: done(Seq::empty(), Verdict::Consumed, Report::Quiet) }),
        ({
            let held = on_output_created(m, output).model;
            let added = after(held, Pending::OutputAdded, Reply::Unit(Ok(())));
            let switched = after(added.model, Pending::OutputSwitched, Reply::Unit(Ok(())));
            let laid_out = after(switched.model, Pending::OutputLaidOut, Reply::Unit(Ok(())));
            &&& added.step == ask(Seq::empty(), Request::SwitchToDefaultWorkspace, Pending::OutputSwitched)
            &&& switched.step == ask(
                Seq::empty(),
                Request::LayoutActiveOf(ContainerKind::Output),
                Pending::OutputLaidOut,
            )
            &&& laid_out == (Transition {
                model: m,
                step: done(Seq::empty(), Verdict::Consumed, Report::Quiet),
            })
        }),
{
}

/// A move from press to release. A left click with the mouse modifier on a
/// view other than the root, with a free tree and no lock screen, puts the
/// action `{view, point, no edges}` in the slot once the tree has answered. A
/// motion then asks the tree to drag, not to resize. The release empties the
/// slot. No step on the way marks the view as resizing, and the release,
/// finding it unmarked, changes nothing about it.
pub proof fn lemma_left_click_drags(
    m: Model,
    view: ViewId,
    modifiers: Modifiers,
    point: Point,
    target: Point,
    focus: Reply,
    drag: Reply,
    state: StateFlags,
)
    requires
        m.lock_screen is None,
        m.tree == LockState::Free,
        !view.spec_is_root(),
        modifiers.spec_contains(m.mouse_modifier),
        !state.spec_contains(StateFlags { bits: STATE_RESIZING }),
    ensures
        ({
            let pressed = on_pointer_button(m, view, modifiers, LEFT_CLICK, PressState::Pressed, point);
            let focused = after(pressed.model, Pending::LeftFocused { view, grab: point, start: true }, focus);
            let moved = on_pointer_motion(focused.model, target);
            let dragged = after(moved.model, Pending::MotionDragged(target), drag);
            let released = on_pointer_button(
                dragged.model,
                view,
                modifiers,
                LEFT_CLICK,
                PressState::Released,
                target,
            );
            let settled = after(released.model, Pending::ReleaseState(view), Reply::State(state));
            &&& pressed.step == ask(
                Seq::empty(),
                Request::SetActiveView(view),
                Pending::LeftFocused { view, grab: point, start: true },
            )
            &&& focused.model == m.with_action(Some(Action { view, grab: point, edges: Edges { bits: 0 } }))
            &&& focused.step == done(
                if focus.spec_unit() is Err {
                    seq![Effect::FocusView(view)]
                } else {
                    Seq::empty()
                },
                Verdict::PassThrough,
                Report::Quiet,
            )
            &&& state_of(focused.model.action) == ActionState::Dragging
            &&& moved.step == ask(Seq::empty(), Request::TryDragActive(target), Pending::MotionDragged(target))
            &&& dragged.model == focused.model
            &&& dragged.step.effects == seq![Effect::SetPointer(target)]
            &&& released.step == ask(Seq::empty(), Request::ViewState(view), Pending::ReleaseState(view))
            &&& released.model == m.with_action(None)
            &&& state_of(released.model.action) == ActionState::Idle
            &&& settled == (Transition { model: m.with_action(None), step: idle() })
        }),
{
}

/// A left click with the mouse modifier starts a move even while the tree is
/// held elsewhere: the action slot does not depend on the tree. The view is
/// then not made the active one, nothing is asked of the tree, and the click
/// goes to the client.
pub proof fn lemma_left_click_drags_without_tree(m: Model, view: ViewId, modifiers: Modifiers, point: Point)
    requires
        m.lock_screen is None,
        m.tree != LockState::Free,
        !view.spec_is_root(),
        modifiers.spec_contains(m.mouse_modifier),
    ensures
        on_pointer_button(m, view, modifiers, LEFT_CLICK, PressState::Pressed, point) == (Transition {
            model: m.with_action(Some(Action { view, grab: point, edges: Edges { bits: 0 } })),
            step: idle(),
        }),
{
}

/// A resize from press to release. A right click with the mouse modifier on a
/// view other than the root, left of and above the midpoint of the view, with
/// a free tree and no lock screen, puts an action with the left and the top
/// edge in the slot, marks the view as resizing and keeps the click from the
/// client. The release empties the slot and takes the mark off the view.
pub proof fn lemma_right_click_resizes(
    m: Model,
    view: ViewId,
    modifiers: Modifiers,
    point: Point,
    geometry: Geometry,
    state: StateFlags,
    target: Point,
    focus: Reply,
)
    requires
        m.lock_screen is None,
        m.tree == LockState::Free,
        !view.spec_is_root(),
        modifiers.spec_contains(m.mouse_modifier),
        point.x < geometry.spec_mid_x(),
        point.y < geometry.spec_mid_y(),
        state.spec_contains(StateFlags { bits: STATE_RESIZING }),
    ensures
        ({
            let resizing = StateFlags { bits: STATE_RESIZING };
            let pressed = on_pointer_button(m, view, modifiers, RIGHT_CLICK, PressState::Pressed, point);
            let focused = after(
                pressed.model,
                Pending::RightFocused { view, grab: point, start: true },
                focus,
            );
            let sized = after(
                focused.model,
                Pending::RightGeometry { view, grab: point },
                Reply::Geometry(Some(geometry)),
            );
            let released = on_pointer_button(
                sized.model,
                view,
                modifiers,
                RIGHT_CLICK,
                PressState::Released,
                target,
            );
            let settled = after(released.model, Pending::ReleaseState(view), Reply::State(state));
            &&& pressed.step == ask(
                Seq::empty(),
                Request::SetActiveView(view),
                Pending::RightFocused { view, grab: point, start: true },
            )
            &&& focused.step == ask(
                Seq::empty(),
                Request::ViewGeometry(view),
                Pending::RightGeometry { view, grab: point },
            )
            &&& sized.model == m.with_action(
                Some(Action { view, grab: point, edges: Edges { bits: EDGE_LEFT | EDGE_TOP } }),
            )
            &&& state_of(sized.model.action) == ActionState::Resizing
            &&& sized.step == done(
                seq![Effect::SetViewState { view, flags: resizing, on: true }],
                Verdict::Consumed,
                Report::Quiet,
            )
            &&& released.model == m.with_action(None)
            &&& state_of(released.model.action) == ActionState::Idle
            &&& released.step == ask(Seq::empty(), Request::ViewState(view), Pending::ReleaseState(view))
            &&& settled == (Transition {
                model: m.with_action(None),
                step: done(
                    seq![Effect::SetViewState { view, flags: resizing, on: false }],
                    Verdict::PassThrough,
                    Report::Quiet,
                ),
            })
        }),
{
    crate::action::lemma_click_upper_left(point, geometry);
}

} // verus!
