//! Events in the life of an output.

use vstd::prelude::*;
use crate::access::{tree_at_once, try_tree, wait_for_tree, waiting_for_tree};
use crate::dispatcher::{Dispatcher, Model, Transition};
use crate::fault::{Fault, Report, Verdict};
use crate::geometry::{OutputId, Size};
use crate::protocol::{ContainerKind, Effect, Pending, Reply, Request, Step, ask, done, idle, no_effects, one_effect};

verus! {

/// What a new output does: it is offered to the tree, once the tree can be
/// had.
pub open spec fn on_output_created(m: Model, output: OutputId) -> Transition {
    waiting_for_tree(
        m,
        Seq::empty(),
        Request::AddOutput(output),
        Pending::OutputAdded,
        Pending::OutputWaiting(output),
    )
}

/// What follows one of the three things that the tree does for a new output:
/// taking it, giving it its first workspace, laying it out. If the tree did
/// it, `then` follows, or, after the last of them, the output is handled. If
/// the tree answers that what was asked for is there already, the output is
/// handled and nothing more is asked. Any other failure turns the output
/// away.
pub open spec fn output_goes_on(m: Model, reply: Reply, then: Option<(Request, Pending)>) -> Transition {
    match reply.spec_unit() {
        Ok(_) => match then {
            Some((request, pending)) => Transition { model: m, step: ask(Seq::empty(), request, pending) },
            None => Transition {
                model: m.released(),
                step: done(Seq::empty(), Verdict::Consumed, Report::Quiet),
            },
        },
        Err(Fault::AlreadyPresent) => Transition {
            model: m.released(),
            step: done(Seq::empty(), Verdict::Consumed, Report::Quiet),
        },
        Err(fault) => Transition {
            model: m.released(),
            step: done(Seq::empty(), Verdict::PassThrough, Report::Warning(fault)),
        },
    }
}

/// Once the tree has taken the output, it is asked for the output's first
/// workspace.
pub open spec fn after_output_added(m: Model, reply: Reply) -> Transition {
    output_goes_on(m, reply, Some((Request::SwitchToDefaultWorkspace, Pending::OutputSwitched)))
}

/// Once the workspace is there, the tree is asked to lay the output out.
pub open spec fn after_output_switched(m: Model, reply: Reply) -> Transition {
    output_goes_on(
        m,
        reply,
        Some((Request::LayoutActiveOf(ContainerKind::Output), Pending::OutputLaidOut)),
    )
}

/// Once the output is laid out, it is handled.
pub open spec fn after_output_laid_out(m: Model, reply: Reply) -> Transition {
    output_goes_on(m, reply, None)
}

fn output_proceeds(d: &mut Dispatcher, reply: Reply, then: Option<(Request, Pending)>) -> (step: Step)
    ensures
        final(d)@ == output_goes_on(old(d)@, reply, then).model,
        step@ == output_goes_on(old(d)@, reply, then).step,
{
    match reply.unit() {
        Ok(_) => match then {
            Some((request, pending)) => Step::ask(no_effects(), request, pending),
            None => {
                d.tree.release();
                Step::done(no_effects(), Verdict::Consumed, Report::Quiet)
            },
        },
        Err(Fault::AlreadyPresent) => {
            d.tree.release();
            Step::done(no_effects(), Verdict::Consumed, Report::Quiet)
        },
        Err(fault) => {
            d.tree.release();
            Step::done(no_effects(), Verdict::PassThrough, Report::Warning(fault))
        },
    }
}

/// An output was plugged in. Also the way on for an output that had to wait
/// for the tree.
pub fn output_created(d: &mut Dispatcher, output: OutputId) -> (step: Step)
    ensures
        final(d)@ == on_output_created(old(d)@, output).model,
        step@ == on_output_created(old(d)@, output).step,
{
    wait_for_tree(
        d,
        no_effects(),
        Request::AddOutput(output),
        Pending::OutputAdded,
        Pending::OutputWaiting(output),
    )
}

/// Goes on with the tree's answer to a new output.
pub fn output_added(d: &mut Dispatcher, reply: Reply) -> (step: Step)
    ensures
        final(d)@ == after_output_added(old(d)@, reply).model,
        step@ == after_output_added(old(d)@, reply).step,
{
    output_proceeds(d, reply, Some((Request::SwitchToDefaultWorkspace, Pending::OutputSwitched)))
}

/// Goes on with the tree's answer to the first workspace of a new output.
pub fn output_switched(d: &mut Dispatcher, reply: Reply) -> (step: Step)
    ensures
        final(d)@ == after_output_switched(old(d)@, reply).model,
        step@ == after_output_switched(old(d)@, reply).step,
{
    output_proceeds(
        d,
        reply,
        Some((Request::LayoutActiveOf(ContainerKind::Output), Pending::OutputLaidOut)),
    )
}

/// Goes on with the tree's answer to the layout of a new output.
pub fn output_laid_out(d: &mut Dispatcher, reply: Reply) -> (step: Step)
    ensures
        final(d)@ == after_output_laid_out(old(d)@, reply).model,
        step@ == after_output_laid_out(old(d)@, reply).step,
{
    output_proceeds(d, reply, None)
}

/// An output was unplugged. Nothing follows.
pub fn output_destroyed(_output: OutputId) -> (step: Step)
    ensures
        step@ == idle(),
{
    Step::idle()
}

/// An output got or lost the focus. Nothing follows.
pub fn output_focus(_output: OutputId, _focused: bool) -> (step: Step)
    ensures
        step@ == idle(),
{
    Step::idle()
}

/// What a change of resolution does: the output gets the new resolution, at
/// scale one, and the tree, if it can be had at once, lays the active output
/// out again.
pub open spec fn on_output_resolution(m: Model, output: OutputId, new_size: Size) -> Transition {
    tree_at_once(
        m,
        seq![Effect::SetResolution { output, size: new_size, scale: 1 }],
        Request::LayoutActiveOf(ContainerKind::Output),
        Pending::ResolutionLaidOut,
    )
}

/// A layout that fails after a change of resolution ends the event: there is
/// no active output to lay out.
pub open spec fn after_resolution_laid_out(m: Model, reply: Reply) -> Transition {
    let report = match reply.spec_unit() {
        Ok(_) => Report::Quiet,
        Err(fault) => Report::Fatal(fault),
    };
    Transition { model: m.released(), step: done(Seq::empty(), Verdict::PassThrough, report) }
}

/// The resolution of an output changed from `old_size` to `new_size`.
pub fn output_resolution(d: &mut Dispatcher, output: OutputId, _old_size: Size, new_size: Size) -> (step: Step)
    ensures
        final(d)@ == on_output_resolution(old(d)@, output, new_size).model,
        step@ == on_output_resolution(old(d)@, output, new_size).step,
{
    try_tree(
        d,
        one_effect(Effect::SetResolution { output, size: new_size, scale: 1 }),
        Request::LayoutActiveOf(ContainerKind::Output),
        Pending::ResolutionLaidOut,
    )
}

/// Goes on with the tree's answer to the layout after a change of
/// resolution.
pub fn resolution_laid_out(d: &mut Dispatcher, reply: Reply) -> (step: Step)
    ensures
        final(d)@ == after_resolution_laid_out(old(d)@, reply).model,
        step@ == after_resolution_laid_out(old(d)@, reply).step,
{
    d.tree.release();
    let report = match reply.unit() {
        Ok(_) => Report::Quiet,
        Err(fault) => Report::Fatal(fault),
    };
    Step::done(no_effects(), Verdict::PassThrough, report)
}

} // verus!
