//! Start and end of the compositor, and the hooks around rendering.

use vstd::prelude::*;
use crate::access::{wait_for_tree, waiting_for_tree};
use crate::dispatcher::{Dispatcher, Model, Transition};
use crate::fault::{Fault, Report, Verdict};
use crate::geometry::{Geometry, OutputId, ViewId};
use crate::protocol::{Effect, Pending, Reply, Request, ScriptQuery, Step, StepView, ask, done, idle, no_effects, one_effect};

verus! {

/// What the start of the compositor does: the scripting engine is started,
/// then the key bindings are loaded.
pub open spec fn on_compositor_ready() -> StepView {
    done(seq![Effect::StartScripting, Effect::LoadBindings], Verdict::PassThrough, Report::Quiet)
}

/// The compositor is up.
pub fn compositor_ready() -> (step: Step)
    ensures
        step@ == on_compositor_ready(),
{
    let mut effects = no_effects();
    effects.push(Effect::StartScripting);
    effects.push(Effect::LoadBindings);
    assert(effects@ =~= seq![Effect::StartScripting, Effect::LoadBindings]);
    Step::done(effects, Verdict::PassThrough, Report::Quiet)
}

/// What the end of the compositor does first: the scripting engine is told,
/// before the tree is asked for.
pub open spec fn on_compositor_terminating(m: Model) -> Transition {
    Transition {
        model: m,
        step: ask(Seq::empty(), Request::SendToScript(ScriptQuery::Terminate), Pending::TerminateSent),
    }
}

/// Tears the tree down, once it can be had. Whether the scripting engine
/// could be told does not matter.
pub open spec fn destroy(m: Model) -> Transition {
    waiting_for_tree(m, Seq::empty(), Request::DestroyTree, Pending::TreeDestroyed, Pending::DestroyWaiting)
}

/// A tree that could not be torn down is logged as an error.
pub open spec fn after_tree_destroyed(m: Model, reply: Reply) -> Transition {
    Transition {
        model: m.released(),
        step: done(Seq::empty(), Verdict::PassThrough, Report::spec_error_of(reply.spec_unit())),
    }
}

/// The compositor is shutting down.
pub fn compositor_terminating(d: &mut Dispatcher) -> (step: Step)
    ensures
        final(d)@ == on_compositor_terminating(old(d)@).model,
        step@ == on_compositor_terminating(old(d)@).step,
{
    Step::ask(no_effects(), Request::SendToScript(ScriptQuery::Terminate), Pending::TerminateSent)
}

/// Goes on with the shutdown once the scripting engine was told. Also the
/// way on for a shutdown that had to wait for the tree.
pub fn destroy_tree(d: &mut Dispatcher) -> (step: Step)
    ensures
        final(d)@ == destroy(old(d)@).model,
        step@ == destroy(old(d)@).step,
{
    wait_for_tree(d, no_effects(), Request::DestroyTree, Pending::TreeDestroyed, Pending::DestroyWaiting)
}

/// Goes on with the tree's answer to being torn down.
pub fn tree_destroyed(d: &mut Dispatcher, reply: Reply) -> (step: Step)
    ensures
        final(d)@ == after_tree_destroyed(old(d)@, reply).model,
        step@ == after_tree_destroyed(old(d)@, reply).step,
{
    d.tree.release();
    Step::done(no_effects(), Verdict::PassThrough, Report::error_of(reply.unit()))
}

/// What happens before a view is rendered: the tree, once it can be had,
/// draws the borders of the view.
pub open spec fn on_view_pre_render(m: Model, view: ViewId) -> Transition {
    waiting_for_tree(
        m,
        Seq::empty(),
        Request::RenderBorders(view),
        Pending::BordersRendered,
        Pending::BordersWaiting(view),
    )
}

/// A view without borders to draw (it is not in the tree) is passed over;
/// any other failure is worth a warning.
pub open spec fn after_borders_rendered(m: Model, reply: Reply) -> Transition {
    Transition {
        model: m.released(),
        step: done(
            Seq::empty(),
            Verdict::PassThrough,
            Report::spec_warning_unless_missing(reply.spec_unit()),
        ),
    }
}

/// A view is about to be rendered. Also the way on for borders that had to
/// wait for the tree.
pub fn view_pre_render(d: &mut Dispatcher, view: ViewId) -> (step: Step)
    ensures
        final(d)@ == on_view_pre_render(old(d)@, view).model,
        step@ == on_view_pre_render(old(d)@, view).step,
{
    wait_for_tree(
        d,
        no_effects(),
        Request::RenderBorders(view),
        Pending::BordersRendered,
        Pending::BordersWaiting(view),
    )
}

/// Goes on with the tree's answer to the drawing of borders.
pub fn borders_rendered(d: &mut Dispatcher, reply: Reply) -> (step: Step)
    ensures
        final(d)@ == after_borders_rendered(old(d)@, reply).model,
        step@ == after_borders_rendered(old(d)@, reply).step,
{
    d.tree.release();
    Step::done(no_effects(), Verdict::PassThrough, Report::warning_unless_missing(reply.unit()))
}

/// What happens after an output is rendered: if a copy of the screen is
/// wanted, the engine is asked for the size of the output.
pub open spec fn on_post_render(output: OutputId, wanted: bool) -> StepView {
    if wanted {
        ask(Seq::empty(), Request::OutputResolution(output), Pending::ScrapeSized)
    } else {
        idle()
    }
}

/// With the size of the output known, all of it is copied. Without a size the
/// event is given up.
pub open spec fn after_scrape_sized(reply: Reply) -> StepView {
    match reply.spec_resolution() {
        Some(size) => done(
            seq![Effect::ScrapePixels(Geometry::spec_covering(size))],
            Verdict::PassThrough,
            Report::Quiet,
        ),
        None => done(Seq::empty(), Verdict::PassThrough, Report::Fatal(Fault::NotFound)),
    }
}

/// An output was rendered. `wanted` says whether a copy of the screen has
/// been asked for.
pub fn post_render(output: OutputId, wanted: bool) -> (step: Step)
    ensures
        step@ == on_post_render(output, wanted),
{
    if wanted {
        Step::ask(no_effects(), Request::OutputResolution(output), Pending::ScrapeSized)
    } else {
        Step::idle()
    }
}

/// Goes on with the size of the output to copy.
pub fn scrape_sized(reply: Reply) -> (step: Step)
    ensures
        step@ == after_scrape_sized(reply),
{
    match reply.resolution() {
        Some(size) => Step::done(
            one_effect(Effect::ScrapePixels(Geometry::covering(size))),
            Verdict::PassThrough,
            Report::Quiet,
        ),
        None => Step::done(no_effects(), Verdict::PassThrough, Report::Fatal(Fault::NotFound)),
    }
}

} // verus!
