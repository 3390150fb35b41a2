//! Events in the life of a view, and what its client asks for.

use vstd::prelude::*;
use crate::access::{tree_at_once, try_tree, wait_for_tree, waiting_for_tree};
use crate::dispatcher::{Dispatcher, Model, Transition};
use crate::fault::{Fault, Report, Verdict};
use crate::flags::{Edges, PropertyKind, StateFlags, STATE_ACTIVATED, STATE_FULLSCREEN, STATE_MAXIMIZED};
use crate::geometry::{ContainerId, Geometry, OutputId, Point, ViewId};
use crate::protocol::{ContainerKind, Effect, Pending, Reply, Request, Step, ask, done, idle, no_effects, one_effect};
use crate::registry::{registry_client, spec_registry_client};

verus! {

/// The title that a bar is known by, as contracts see it.
pub open spec fn bar_title_of(bar_title: Option<String>) -> Option<Seq<char>> {
    match bar_title {
        Some(title) => Some(title@),
        None => None,
    }
}

/// Whether a view with this title is the status bar: a bar title is
/// configured and the view carries it.
pub open spec fn is_bar(title: Seq<char>, bar_title: Option<Seq<char>>) -> bool {
    bar_title == Some(title)
}

/// Whether a view with this class is a desktop background.
pub open spec fn is_background(class: Seq<char>) -> bool {
    class == "Background"@
}

/// What is done to a bar before it is attached: it shows on every workspace
/// and lies above all other views.
pub open spec fn bar_effects(view: ViewId) -> Seq<Effect> {
    seq![Effect::SetMask { view, mask: 1 }, Effect::BringToFront(view)]
}

/// What is done to a background before it is attached: it lies below all
/// other views and shows on every workspace.
pub open spec fn background_effects(view: ViewId) -> Seq<Effect> {
    seq![Effect::SendToBack(view), Effect::SetMask { view, mask: 1 }]
}

/// Registers a view with the tree, once the tree can be had.
pub open spec fn register(m: Model, view: ViewId) -> Transition {
    waiting_for_tree(
        m,
        Seq::empty(),
        Request::AddView(view),
        Pending::ViewAdded(view),
        Pending::RegisterWaiting(view),
    )
}

/// Attaches a bar to the outputs, once the tree can be had.
pub open spec fn attach_bar(m: Model, view: ViewId, effects: Seq<Effect>) -> Transition {
    waiting_for_tree(m, effects, Request::AddBarToOutputs(view), Pending::BarAdded, Pending::BarWaiting(view))
}

/// Attaches a background to the tree, once the tree can be had.
pub open spec fn attach_background(m: Model, view: ViewId, effects: Seq<Effect>) -> Transition {
    waiting_for_tree(
        m,
        effects,
        Request::AddBackground(view),
        Pending::BackgroundAdded,
        Pending::BackgroundWaiting(view),
    )
}

/// What a new view does.
///
/// While a lock screen is up, the view is its overlay if the lock screen's
/// client made it, and is turned away otherwise; the tree is not touched.
/// Otherwise the engine and the configuration are asked what the view is
/// known by.
pub open spec fn on_view_created(m: Model, view: ViewId, pid: i32) -> Transition {
    match m.lock_screen {
        Some(lock) => if lock.matches(pid) {
            Transition {
                model: m.with_lock_screen(Some(lock.with_view(view, pid))),
                step: done(seq![Effect::FocusView(view)], Verdict::Consumed, Report::Quiet),
            }
        } else {
            Transition { model: m, step: idle() }
        },
        None => Transition {
            model: m,
            step: ask(
                Seq::empty(),
                Request::ViewIdentity { view, client: spec_registry_client() },
                Pending::ViewIdentified(view),
            ),
        },
    }
}

/// What becomes of a new view once it is known by title and class.
///
/// A view that carries the bar's title is attached to the outputs as a bar. A
/// view of the background class is placed over its whole output and attached
/// as a background. Neither is registered as a tiled view. Every other view
/// is registered with the tree.
pub open spec fn classify(
    m: Model,
    view: ViewId,
    title: Seq<char>,
    class: Seq<char>,
    bar_title: Option<Seq<char>>,
) -> Transition {
    if is_bar(title, bar_title) {
        attach_bar(m, view, bar_effects(view))
    } else if is_background(class) {
        Transition {
            model: m,
            step: ask(
                background_effects(view),
                Request::ViewOutputResolution(view),
                Pending::BackgroundSized(view),
            ),
        }
    } else {
        register(m, view)
    }
}

/// What follows the answer on what a new view is known by. An answer of
/// another kind ends the event.
pub open spec fn after_view_identified(m: Model, view: ViewId, reply: Reply) -> Transition {
    match reply.spec_identity() {
        Some(identity) => classify(
            m,
            view,
            identity.title@,
            identity.class@,
            bar_title_of(identity.bar_title),
        ),
        None => Transition {
            model: m,
            step: done(Seq::empty(), Verdict::PassThrough, Report::Error(Fault::Internal)),
        },
    }
}

/// Once a bar is attached the view is accepted, whatever the outputs said.
pub open spec fn after_bar_added(m: Model) -> Transition {
    Transition { model: m.released(), step: done(Seq::empty(), Verdict::Consumed, Report::Quiet) }
}

/// Once the size of its output is known, a background is placed over all of
/// it and attached. Without a size the event is given up.
pub open spec fn after_background_sized(m: Model, view: ViewId, reply: Reply) -> Transition {
    match reply.spec_resolution() {
        Some(size) => attach_background(
            m,
            view,
            seq![
                Effect::SetGeometry { view, edges: Edges { bits: 0 }, geometry: Geometry::spec_covering(size) },
            ],
        ),
        None => Transition {
            model: m,
            step: done(Seq::empty(), Verdict::PassThrough, Report::Fatal(Fault::NotFound)),
        },
    }
}

/// Once the tree has answered, a background is accepted; a failure to attach
/// it is logged.
pub open spec fn after_background_added(m: Model, reply: Reply) -> Transition {
    Transition {
        model: m.released(),
        step: done(Seq::empty(), Verdict::Consumed, Report::spec_error_of(reply.spec_unit())),
    }
}

/// Once the tree has taken a view, the view is maximized and the tree is
/// asked to make it the active one. A view that the tree had already is
/// accepted as it is; one that the tree refuses for another reason is turned
/// away.
pub open spec fn after_view_added(m: Model, view: ViewId, reply: Reply) -> Transition {
    match reply.spec_unit() {
        Ok(_) => Transition {
            model: m,
            step: ask(
                seq![Effect::SetViewState { view, flags: StateFlags { bits: STATE_MAXIMIZED }, on: true }],
                Request::SetActiveView(view),
                Pending::ViewActivated,
            ),
        },
        Err(Fault::AlreadyPresent) => Transition {
            model: m.released(),
            step: done(Seq::empty(), Verdict::Consumed, Report::Quiet),
        },
        Err(fault) => Transition {
            model: m.released(),
            step: done(Seq::empty(), Verdict::PassThrough, Report::Warning(fault)),
        },
    }
}

/// Once the tree has answered the activation, the view is accepted if it is
/// now active or a fullscreen view kept the focus, and turned away otherwise.
pub open spec fn after_view_activated(m: Model, reply: Reply) -> Transition {
    match reply.spec_unit() {
        Ok(_) => Transition {
            model: m.released(),
            step: done(Seq::empty(), Verdict::Consumed, Report::Quiet),
        },
        Err(Fault::BlockedByFullscreen) => Transition {
            model: m.released(),
            step: done(Seq::empty(), Verdict::Consumed, Report::Quiet),
        },
        Err(fault) => Transition {
            model: m.released(),
            step: done(Seq::empty(), Verdict::PassThrough, Report::Warning(fault)),
        },
    }
}

/// Registers `view` with the tree. Also the way on for a view that had to
/// wait for the tree.
pub fn register_view(d: &mut Dispatcher, view: ViewId) -> (step: Step)
    ensures
        final(d)@ == register(old(d)@, view).model,
        step@ == register(old(d)@, view).step,
{
    wait_for_tree(
        d,
        no_effects(),
        Request::AddView(view),
        Pending::ViewAdded(view),
        Pending::RegisterWaiting(view),
    )
}

/// Attaches `view` as a bar, after `effects`. Also the way on for a bar that
/// had to wait for the tree.
pub fn attach_bar_view(d: &mut Dispatcher, view: ViewId, effects: Vec<Effect>) -> (step: Step)
    ensures
        final(d)@ == attach_bar(old(d)@, view, effects@).model,
        step@ == attach_bar(old(d)@, view, effects@).step,
{
    wait_for_tree(d, effects, Request::AddBarToOutputs(view), Pending::BarAdded, Pending::BarWaiting(view))
}

/// Attaches `view` as a background, after `effects`. Also the way on for a
/// background that had to wait for the tree.
pub fn attach_background_view(d: &mut Dispatcher, view: ViewId, effects: Vec<Effect>) -> (step: Step)
    ensures
        final(d)@ == attach_background(old(d)@, view, effects@).model,
        step@ == attach_background(old(d)@, view, effects@).step,
{
    wait_for_tree(
        d,
        effects,
        Request::AddBackground(view),
        Pending::BackgroundAdded,
        Pending::BackgroundWaiting(view),
    )
}

/// A client made a view. `pid` is the client's process id.
pub fn view_created(d: &mut Dispatcher, view: ViewId, pid: i32) -> (step: Step)
    ensures
        final(d)@ == on_view_created(old(d)@, view, pid).model,
        step@ == on_view_created(old(d)@, view, pid).step,
{
    if let Some(lock) = d.lock_screen {
        let mut lock = lock;
        if lock.add_view_if_match(view, pid) {
            d.lock_screen = Some(lock);
            return Step::done(one_effect(Effect::FocusView(view)), Verdict::Consumed, Report::Quiet);
        } else {
            return Step::idle();
        }
    }
    Step::ask(
        no_effects(),
        Request::ViewIdentity { view, client: registry_client() },
        Pending::ViewIdentified(view),
    )
}

/// Deals with a new view by its title and class. `bar_title` is the title
/// that the configuration gives for the status bar, if it names one.
pub fn classify_view(
    d: &mut Dispatcher,
    view: ViewId,
    title: &String,
    class: &String,
    bar_title: &Option<String>,
) -> (step: Step)
    ensures
        final(d)@ == classify(old(d)@, view, title@, class@, bar_title_of(*bar_title)).model,
        step@ == classify(old(d)@, view, title@, class@, bar_title_of(*bar_title)).step,
{
    let bar = match bar_title {
        Some(name) => *title == *name,
        None => false,
    };
    if bar {
        let mut effects = no_effects();
        effects.push(Effect::SetMask { view, mask: 1 });
        effects.push(Effect::BringToFront(view));
        assert(effects@ =~= bar_effects(view));
        return attach_bar_view(d, view, effects);
    }
    let background = "Background".to_owned();
    if *class == background {
        let mut effects = no_effects();
        effects.push(Effect::SendToBack(view));
        effects.push(Effect::SetMask { view, mask: 1 });
        assert(effects@ =~= background_effects(view));
        Step::ask(effects, Request::ViewOutputResolution(view), Pending::BackgroundSized(view))
    } else {
        register_view(d, view)
    }
}

/// Goes on with what a new view is known by.
pub fn view_identified(d: &mut Dispatcher, view: ViewId, reply: Reply) -> (step: Step)
    ensures
        final(d)@ == after_view_identified(old(d)@, view, reply).model,
        step@ == after_view_identified(old(d)@, view, reply).step,
{
    match reply {
        Reply::Identity(identity) => classify_view(
            d,
            view,
            &identity.title,
            &identity.class,
            &identity.bar_title,
        ),
        _ => Step::done(no_effects(), Verdict::PassThrough, Report::Error(Fault::Internal)),
    }
}

/// Goes on once a bar is attached.
pub fn bar_added(d: &mut Dispatcher) -> (step: Step)
    ensures
        final(d)@ == after_bar_added(old(d)@).model,
        step@ == after_bar_added(old(d)@).step,
{
    d.tree.release();
    Step::done(no_effects(), Verdict::Consumed, Report::Quiet)
}

/// Goes on with the size of the output that a background is on.
pub fn background_sized(d: &mut Dispatcher, view: ViewId, reply: Reply) -> (step: Step)
    ensures
        final(d)@ == after_background_sized(old(d)@, view, reply).model,
        step@ == after_background_sized(old(d)@, view, reply).step,
{
    match reply.resolution() {
        Some(size) => {
            let effects = one_effect(
                Effect::SetGeometry { view, edges: Edges::empty(), geometry: Geometry::covering(size) },
            );
            attach_background_view(d, view, effects)
        },
        None => Step::done(no_effects(), Verdict::PassThrough, Report::Fatal(Fault::NotFound)),
    }
}

/// Goes on with the tree's answer to a background.
pub fn background_added(d: &mut Dispatcher, reply: Reply) -> (step: Step)
    ensures
        final(d)@ == after_background_added(old(d)@, reply).model,
        step@ == after_background_added(old(d)@, reply).step,
{
    d.tree.release();
    Step::done(no_effects(), Verdict::Consumed, Report::error_of(reply.unit()))
}

/// Goes on with the tree's answer to a new view.
pub fn view_added(d: &mut Dispatcher, view: ViewId, reply: Reply) -> (step: Step)
    ensures
        final(d)@ == after_view_added(old(d)@, view, reply).model,
        step@ == after_view_added(old(d)@, view, reply).step,
{
    match reply.unit() {
        Ok(_) => Step::ask(
            one_effect(Effect::SetViewState { view, flags: StateFlags::maximized(), on: true }),
            Request::SetActiveView(view),
            Pending::ViewActivated,
        ),
        Err(Fault::AlreadyPresent) => {
            d.tree.release();
            Step::done(no_effects(), Verdict::Consumed, Report::Quiet)
        },
        Err(fault) => {
            d.tree.release();
            Step::done(no_effects(), Verdict::PassThrough, Report::Warning(fault))
        },
    }
}

/// Goes on with the tree's answer to the activation of a new view.
pub fn view_activated(d: &mut Dispatcher, reply: Reply) -> (step: Step)
    ensures
        final(d)@ == after_view_activated(old(d)@, reply).model,
        step@ == after_view_activated(old(d)@, reply).step,
{
    d.tree.release();
    match reply.unit() {
        Ok(_) => Step::done(no_effects(), Verdict::Consumed, Report::Quiet),
        Err(Fault::BlockedByFullscreen) => Step::done(no_effects(), Verdict::Consumed, Report::Quiet),
        Err(fault) => Step::done(no_effects(), Verdict::PassThrough, Report::Warning(fault)),
    }
}

/// Removes a view from the tree, once the tree can be had.
pub open spec fn remove(m: Model, view: ViewId) -> Transition {
    waiting_for_tree(
        m,
        Seq::empty(),
        Request::RemoveView(view),
        Pending::ViewRemoved,
        Pending::RemoveWaiting(view),
    )
}

/// What the end of a view does. If the view is the overlay of the lock
/// screen, the lock screen comes down and that is all: the outcome says that
/// the lock screen took the event. Otherwise the view is removed from the
/// tree.
pub open spec fn on_view_destroyed(m: Model, view: ViewId) -> Transition {
    match m.lock_screen {
        Some(lock) => if lock.without_view(view) is None {
            Transition {
                model: m.with_lock_screen(None),
                step: done(Seq::empty(), Verdict::Consumed, Report::Quiet),
            }
        } else {
            remove(m, view)
        },
        None => remove(m, view),
    }
}

/// Once the tree has answered the removal: that the view was not in the tree
/// is passed over, any other failure is logged as an error. Nothing else
/// follows either way.
pub open spec fn after_view_removed(m: Model, reply: Reply) -> Transition {
    Transition {
        model: m.released(),
        step: done(Seq::empty(), Verdict::PassThrough, Report::spec_error_unless_missing(reply.spec_unit())),
    }
}

/// Removes `view` from the tree. Also the way on for a removal that had to
/// wait for the tree.
pub fn remove_view(d: &mut Dispatcher, view: ViewId) -> (step: Step)
    ensures
        final(d)@ == remove(old(d)@, view).model,
        step@ == remove(old(d)@, view).step,
{
    wait_for_tree(
        d,
        no_effects(),
        Request::RemoveView(view),
        Pending::ViewRemoved,
        Pending::RemoveWaiting(view),
    )
}

/// A view is gone.
pub fn view_destroyed(d: &mut Dispatcher, view: ViewId) -> (step: Step)
    ensures
        final(d)@ == on_view_destroyed(old(d)@, view).model,
        step@ == on_view_destroyed(old(d)@, view).step,
{
    if let Some(lock) = d.lock_screen {
        let rest = lock.remove_if_match(view);
        if rest.is_none() {
            d.lock_screen = None;
            return Step::done(no_effects(), Verdict::Consumed, Report::Quiet);
        }
    }
    remove_view(d, view)
}

/// Goes on with the tree's answer to a removal.
pub fn view_removed(d: &mut Dispatcher, reply: Reply) -> (step: Step)
    ensures
        final(d)@ == after_view_removed(old(d)@, reply).model,
        step@ == after_view_removed(old(d)@, reply).step,
{
    d.tree.release();
    Step::done(no_effects(), Verdict::PassThrough, Report::error_unless_missing(reply.unit()))
}

/// What a change of focus does. While a lock screen is up, its overlay gets
/// the activation state and the tree is not touched. Otherwise the view gets
/// it, and the tree, if it can be had at once, is asked to make the view the
/// active one.
pub open spec fn on_view_focus(m: Model, current: ViewId, focused: bool) -> Transition {
    let flags = StateFlags { bits: STATE_ACTIVATED };
    match m.lock_screen {
        Some(lock) => Transition {
            model: m,
            step: done(
                match lock.view {
                    Some(overlay) => seq![Effect::SetViewState { view: overlay, flags, on: focused }],
                    None => Seq::empty(),
                },
                Verdict::PassThrough,
                Report::Quiet,
            ),
        },
        None => tree_at_once(
            m,
            seq![Effect::SetViewState { view: current, flags, on: focused }],
            Request::SetActiveView(current),
            Pending::FocusApplied,
        ),
    }
}

/// Once the tree has followed the focus: a view that is not in the tree is
/// passed over, any other failure is logged as an error.
pub open spec fn after_focus_applied(m: Model, reply: Reply) -> Transition {
    Transition {
        model: m.released(),
        step: done(Seq::empty(), Verdict::PassThrough, Report::spec_error_unless_missing(reply.spec_unit())),
    }
}

/// A view got or lost the focus.
pub fn view_focus(d: &mut Dispatcher, current: ViewId, focused: bool) -> (step: Step)
    ensures
        final(d)@ == on_view_focus(old(d)@, current, focused).model,
        step@ == on_view_focus(old(d)@, current, focused).step,
{
    if let Some(lock) = d.lock_screen {
        let effects = match lock.view() {
            Some(overlay) => one_effect(
                Effect::SetViewState { view: overlay, flags: StateFlags::activated(), on: focused },
            ),
            None => no_effects(),
        };
        return Step::done(effects, Verdict::PassThrough, Report::Quiet);
    }
    try_tree(
        d,
        one_effect(Effect::SetViewState { view: current, flags: StateFlags::activated(), on: focused }),
        Request::SetActiveView(current),
        Pending::FocusApplied,
    )
}

/// Goes on with the tree's answer to a change of focus.
pub fn focus_applied(d: &mut Dispatcher, reply: Reply) -> (step: Step)
    ensures
        final(d)@ == after_focus_applied(old(d)@, reply).model,
        step@ == after_focus_applied(old(d)@, reply).step,
{
    d.tree.release();
    Step::done(no_effects(), Verdict::PassThrough, Report::error_unless_missing(reply.unit()))
}

/// What a change of a view's properties does: the tree, if it can be had at
/// once, reads the title again.
pub open spec fn on_view_props_changed(m: Model, view: ViewId, prop: PropertyKind) -> Transition {
    if prop.spec_covers_title() {
        tree_at_once(m, Seq::empty(), Request::UpdateTitle(view), Pending::TitleUpdated)
    } else {
        Transition { model: m, step: idle() }
    }
}

/// Once the tree has read the title: a view that is not in the tree is passed
/// over, any other failure is logged as an error.
pub open spec fn after_title_updated(m: Model, reply: Reply) -> Transition {
    Transition {
        model: m.released(),
        step: done(Seq::empty(), Verdict::PassThrough, Report::spec_error_unless_missing(reply.spec_unit())),
    }
}

/// Properties of a view changed.
pub fn view_props_changed(d: &mut Dispatcher, view: ViewId, prop: PropertyKind) -> (step: Step)
    ensures
        final(d)@ == on_view_props_changed(old(d)@, view, prop).model,
        step@ == on_view_props_changed(old(d)@, view, prop).step,
{
    if prop.covers_title() {
        try_tree(d, no_effects(), Request::UpdateTitle(view), Pending::TitleUpdated)
    } else {
        Step::idle()
    }
}

/// Goes on with the tree's answer to a change of title.
pub fn title_updated(d: &mut Dispatcher, reply: Reply) -> (step: Step)
    ensures
        final(d)@ == after_title_updated(old(d)@, reply).model,
        step@ == after_title_updated(old(d)@, reply).step,
{
    d.tree.release();
    Step::done(no_effects(), Verdict::PassThrough, Report::error_unless_missing(reply.unit()))
}

/// A view went from one output to another. Nothing follows.
pub fn view_move_to_output(_current: ViewId, _from: OutputId, _to: OutputId) -> (step: Step)
    ensures
        step@ == idle(),
{
    Step::idle()
}

/// What a client's wish for a state does. Only the wish for exactly the
/// fullscreen state is followed, and only while no lock screen is up and the
/// tree can be had at once: the tree is then asked for the container of the
/// view.
pub open spec fn on_view_request_state(m: Model, view: ViewId, state: StateFlags, toggle: bool) -> Transition {
    if m.lock_screen is None && state.bits == STATE_FULLSCREEN {
        tree_at_once(m, Seq::empty(), Request::LookupView(view), Pending::FullscreenLookup(toggle))
    } else {
        Transition { model: m, step: idle() }
    }
}

/// With the container known, the tree is asked to change its fullscreen
/// state; a view without a container is worth a warning.
pub open spec fn after_fullscreen_lookup(m: Model, toggle: bool, reply: Reply) -> Transition {
    match reply.spec_container() {
        Ok(id) => Transition {
            model: m,
            step: ask(Seq::empty(), Request::SetFullscreen(id, toggle), Pending::FullscreenSet(id)),
        },
        Err(fault) => Transition {
            model: m.released(),
            step: done(Seq::empty(), Verdict::PassThrough, Report::Warning(fault)),
        },
    }
}

/// With the fullscreen state changed, the tree is asked whether the container
/// is in the active workspace. A tree that cannot change the state of a
/// container that it has just handed out ends the event.
pub open spec fn after_fullscreen_set(m: Model, id: ContainerId, reply: Reply) -> Transition {
    match reply.spec_unit() {
        Ok(_) => Transition {
            model: m,
            step: ask(Seq::empty(), Request::ContainerInActiveWorkspace(id), Pending::FullscreenPlaced),
        },
        Err(fault) => Transition {
            model: m.released(),
            step: done(Seq::empty(), Verdict::PassThrough, Report::Fatal(fault)),
        },
    }
}

/// A container in the active workspace has that workspace laid out again.
pub open spec fn after_fullscreen_placed(m: Model, reply: Reply) -> Transition {
    match reply.spec_flag() {
        Ok(shown) => if shown {
            Transition {
                model: m,
                step: ask(
                    Seq::empty(),
                    Request::LayoutActiveOf(ContainerKind::Workspace),
                    Pending::FullscreenLaidOut,
                ),
            }
        } else {
            Transition { model: m.released(), step: idle() }
        },
        Err(fault) => Transition {
            model: m.released(),
            step: done(Seq::empty(), Verdict::PassThrough, Report::Error(fault)),
        },
    }
}

/// A layout that failed is logged as an error.
pub open spec fn after_fullscreen_laid_out(m: Model, reply: Reply) -> Transition {
    Transition {
        model: m.released(),
        step: done(Seq::empty(), Verdict::PassThrough, Report::spec_error_of(reply.spec_unit())),
    }
}

/// A client asks for a state of its view.
pub fn view_request_state(d: &mut Dispatcher, view: ViewId, state: StateFlags, toggle: bool) -> (step: Step)
    ensures
        final(d)@ == on_view_request_state(old(d)@, view, state, toggle).model,
        step@ == on_view_request_state(old(d)@, view, state, toggle).step,
{
    if d.lock_screen.is_some() {
        return Step::idle();
    }
    if state.bits == STATE_FULLSCREEN {
        try_tree(d, no_effects(), Request::LookupView(view), Pending::FullscreenLookup(toggle))
    } else {
        Step::idle()
    }
}

/// Goes on with the container whose fullscreen state is to change.
pub fn fullscreen_lookup(d: &mut Dispatcher, toggle: bool, reply: Reply) -> (step: Step)
    ensures
        final(d)@ == after_fullscreen_lookup(old(d)@, toggle, reply).model,
        step@ == after_fullscreen_lookup(old(d)@, toggle, reply).step,
{
    match reply.container() {
        Ok(id) => Step::ask(no_effects(), Request::SetFullscreen(id, toggle), Pending::FullscreenSet(id)),
        Err(fault) => {
            d.tree.release();
            Step::done(no_effects(), Verdict::PassThrough, Report::Warning(fault))
        },
    }
}

/// Goes on with the tree's answer to the change of fullscreen state.
pub fn fullscreen_set(d: &mut Dispatcher, id: ContainerId, reply: Reply) -> (step: Step)
    ensures
        final(d)@ == after_fullscreen_set(old(d)@, id, reply).model,
        step@ == after_fullscreen_set(old(d)@, id, reply).step,
{
    match reply.unit() {
        Ok(_) => Step::ask(
            no_effects(),
            Request::ContainerInActiveWorkspace(id),
            Pending::FullscreenPlaced,
        ),
        Err(fault) => {
            d.tree.release();
            Step::done(no_effects(), Verdict::PassThrough, Report::Fatal(fault))
        },
    }
}

/// Goes on with whether the container is in the active workspace.
pub fn fullscreen_placed(d: &mut Dispatcher, reply: Reply) -> (step: Step)
    ensures
        final(d)@ == after_fullscreen_placed(old(d)@, reply).model,
        step@ == after_fullscreen_placed(old(d)@, reply).step,
{
    match reply.flag() {
        Ok(shown) => if shown {
            Step::ask(
                no_effects(),
                Request::LayoutActiveOf(ContainerKind::Workspace),
                Pending::FullscreenLaidOut,
            )
        } else {
            d.tree.release();
            Step::idle()
        },
        Err(fault) => {
            d.tree.release();
            Step::done(no_effects(), Verdict::PassThrough, Report::Error(fault))
        },
    }
}

/// Goes on with the tree's answer to the layout after a change of fullscreen
/// state.
pub fn fullscreen_laid_out(d: &mut Dispatcher, reply: Reply) -> (step: Step)
    ensures
        final(d)@ == after_fullscreen_laid_out(old(d)@, reply).model,
        step@ == after_fullscreen_laid_out(old(d)@, reply).step,
{
    d.tree.release();
    Step::done(no_effects(), Verdict::PassThrough, Report::error_of(reply.unit()))
}

/// What a client's wish to move does: while no lock screen is up and the tree
/// can be had at once, the tree is asked to make the view the active one.
pub open spec fn on_view_request_move(m: Model, view: ViewId) -> Transition {
    if m.lock_screen is None {
        tree_at_once(m, Seq::empty(), Request::SetActiveView(view), Pending::MoveFocused)
    } else {
        Transition { model: m, step: idle() }
    }
}

/// Every failure to make the view active is logged as an error.
pub open spec fn after_move_focused(m: Model, reply: Reply) -> Transition {
    Transition {
        model: m.released(),
        step: done(Seq::empty(), Verdict::PassThrough, Report::spec_error_of(reply.spec_unit())),
    }
}

/// A client asks to move its view.
pub fn view_request_move(d: &mut Dispatcher, view: ViewId, _dest: Point) -> (step: Step)
    ensures
        final(d)@ == on_view_request_move(old(d)@, view).model,
        step@ == on_view_request_move(old(d)@, view).step,
{
    if d.lock_screen.is_some() {
        return Step::idle();
    }
    try_tree(d, no_effects(), Request::SetActiveView(view), Pending::MoveFocused)
}

/// Goes on with the tree's answer to a wish to move.
pub fn move_focused(d: &mut Dispatcher, reply: Reply) -> (step: Step)
    ensures
        final(d)@ == after_move_focused(old(d)@, reply).model,
        step@ == after_move_focused(old(d)@, reply).step,
{
    d.tree.release();
    Step::done(no_effects(), Verdict::PassThrough, Report::error_of(reply.unit()))
}

/// What a client's wish to resize does: while no lock screen is up, an action
/// is in progress and the tree can be had at once, the tree is asked for the
/// container of the view.
pub open spec fn on_view_request_resize(m: Model, view: ViewId, edges: Edges, point: Point) -> Transition {
    if m.lock_screen is None && m.action is Some {
        tree_at_once(m, Seq::empty(), Request::LookupView(view), Pending::ResizeLookup(edges, point))
    } else {
        Transition { model: m, step: idle() }
    }
}

/// With the container known, the tree is asked to resize it; a view without
/// a container is passed over.
pub open spec fn after_resize_lookup(m: Model, edges: Edges, point: Point, reply: Reply) -> Transition {
    match reply.spec_container() {
        Ok(id) => Transition {
            model: m,
            step: ask(Seq::empty(), Request::ResizeContainer(id, edges, point), Pending::ResizeApplied),
        },
        Err(_) => Transition { model: m.released(), step: idle() },
    }
}

/// Every failure to resize is logged as an error.
pub open spec fn after_resize_applied(m: Model, reply: Reply) -> Transition {
    Transition {
        model: m.released(),
        step: done(Seq::empty(), Verdict::PassThrough, Report::spec_error_of(reply.spec_unit())),
    }
}

/// A client asks to resize its view by `edges` towards `point`.
pub fn view_request_resize(d: &mut Dispatcher, view: ViewId, edges: Edges, point: Point) -> (step: Step)
    ensures
        final(d)@ == on_view_request_resize(old(d)@, view, edges, point).model,
        step@ == on_view_request_resize(old(d)@, view, edges, point).step,
{
    if d.lock_screen.is_some() {
        return Step::idle();
    }
    if d.action.current().is_some() {
        try_tree(d, no_effects(), Request::LookupView(view), Pending::ResizeLookup(edges, point))
    } else {
        Step::idle()
    }
}

/// Goes on with the container that a client wants to resize.
pub fn resize_lookup(d: &mut Dispatcher, edges: Edges, point: Point, reply: Reply) -> (step: Step)
    ensures
        final(d)@ == after_resize_lookup(old(d)@, edges, point, reply).model,
        step@ == after_resize_lookup(old(d)@, edges, point, reply).step,
{
    match reply.container() {
        Ok(id) => Step::ask(no_effects(), Request::ResizeContainer(id, edges, point), Pending::ResizeApplied),
        Err(_) => {
            d.tree.release();
            Step::idle()
        },
    }
}

/// Goes on with the tree's answer to a client's resize.
pub fn resize_applied(d: &mut Dispatcher, reply: Reply) -> (step: Step)
    ensures
        final(d)@ == after_resize_applied(old(d)@, reply).model,
        step@ == after_resize_applied(old(d)@, reply).step,
{
    d.tree.release();
    Step::done(no_effects(), Verdict::PassThrough, Report::error_of(reply.unit()))
}

/// What a client's wish for a geometry does: while no lock screen is up and
/// the tree can be had at once, the tree is asked to record the geometry.
pub open spec fn on_view_request_geometry(m: Model, view: ViewId, geometry: Geometry) -> Transition {
    if m.lock_screen is None {
        tree_at_once(
            m,
            Seq::empty(),
            Request::UpdateFloatingGeometry(view, geometry),
            Pending::GeometryUpdated,
        )
    } else {
        Transition { model: m, step: idle() }
    }
}

/// Every failure to record the geometry is worth a warning.
pub open spec fn after_geometry_updated(m: Model, reply: Reply) -> Transition {
    Transition {
        model: m.released(),
        step: done(Seq::empty(), Verdict::PassThrough, Report::spec_warning_of(reply.spec_unit())),
    }
}

/// A client asks for a geometry of its view.
pub fn view_request_geometry(d: &mut Dispatcher, view: ViewId, geometry: Geometry) -> (step: Step)
    ensures
        final(d)@ == on_view_request_geometry(old(d)@, view, geometry).model,
        step@ == on_view_request_geometry(old(d)@, view, geometry).step,
{
    if d.lock_screen.is_some() {
        return Step::idle();
    }
    try_tree(d, no_effects(), Request::UpdateFloatingGeometry(view, geometry), Pending::GeometryUpdated)
}

/// Goes on with the tree's answer to a wish for a geometry.
pub fn geometry_updated(d: &mut Dispatcher, reply: Reply) -> (step: Step)
    ensures
        final(d)@ == after_geometry_updated(old(d)@, reply).model,
        step@ == after_geometry_updated(old(d)@, reply).step,
{
    d.tree.release();
    Step::done(no_effects(), Verdict::PassThrough, Report::warning_of(reply.unit()))
}

} // verus!
