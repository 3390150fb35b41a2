//! The two ways in which an event asks for the layout tree.
//!
//! An event that must not be skipped waits: if the tree is held, the caller is
//! told to come back once it has been released. An event that must not be
//! held up asks once: if the tree cannot be had, the event ends there, and
//! nothing is asked of the tree on its behalf.

use vstd::prelude::*;
use crate::dispatcher::{Dispatcher, Model, Transition};
use crate::fault::{Fault, Report, Verdict};
use crate::guard::{Acquire, LockState};
use crate::protocol::{Effect, Pending, Request, Step, ask, done};

verus! {

/// Puts `request` to the tree for an event that waits for it.
///
/// If the tree is free it is taken and the question put, with the event at
/// `held`. If it is held, the embedding program is asked to wait for it, with
/// the event at `waiting`. If it is poisoned, the event ends: it is passed on
/// and the poisoning logged as an error. The changes `effects` are made in
/// each case.
pub open spec fn waiting_for_tree(
    m: Model,
    effects: Seq<Effect>,
    request: Request,
    held: Pending,
    waiting: Pending,
) -> Transition {
    match m.tree.wait_answer() {
        Acquire::Locked => Transition { model: m.acquired(), step: ask(effects, request, held) },
        Acquire::Busy => Transition { model: m, step: ask(effects, Request::AwaitTree, waiting) },
        Acquire::Poisoned => Transition {
            model: m,
            step: done(effects, Verdict::PassThrough, Report::Error(Fault::LockPoisoned)),
        },
    }
}

/// What is logged when the tree could not be had at once: nothing if it is
/// merely held elsewhere, an error if it is poisoned.
pub open spec fn report_of_miss(tree: LockState) -> Report {
    if tree == LockState::Poisoned {
        Report::Error(Fault::LockPoisoned)
    } else {
        Report::Quiet
    }
}

/// Puts `request` to the tree for an event that does not wait.
///
/// If the tree is free it is taken and the question put, with the event at
/// `held`. Otherwise the event ends at once and is passed on; the state is
/// left as it was. The changes `effects` are made in either case.
pub open spec fn tree_at_once(m: Model, effects: Seq<Effect>, request: Request, held: Pending) -> Transition {
    if m.tree.try_answer() is Ok {
        Transition { model: m.acquired(), step: ask(effects, request, held) }
    } else {
        Transition { model: m, step: done(effects, Verdict::PassThrough, report_of_miss(m.tree)) }
    }
}

/// Puts `request` to the tree for an event that waits for it.
pub fn wait_for_tree(
    d: &mut Dispatcher,
    effects: Vec<Effect>,
    request: Request,
    held: Pending,
    waiting: Pending,
) -> (step: Step)
    ensures
        final(d)@ == waiting_for_tree(old(d)@, effects@, request, held, waiting).model,
        step@ == waiting_for_tree(old(d)@, effects@, request, held, waiting).step,
{
    match d.tree.acquire() {
        Acquire::Locked => Step::ask(effects, request, held),
        Acquire::Busy => Step::ask(effects, Request::AwaitTree, waiting),
        Acquire::Poisoned => Step::done(effects, Verdict::PassThrough, Report::Error(Fault::LockPoisoned)),
    }
}

/// Puts `request` to the tree for an event that does not wait.
pub fn try_tree(d: &mut Dispatcher, effects: Vec<Effect>, request: Request, held: Pending) -> (step: Step)
    ensures
        final(d)@ == tree_at_once(old(d)@, effects@, request, held).model,
        step@ == tree_at_once(old(d)@, effects@, request, held).step,
{
    match d.tree.try_acquire() {
        Ok(_) => Step::ask(effects, request, held),
        Err(Fault::LockPoisoned) => Step::done(
            effects,
            Verdict::PassThrough,
            Report::Error(Fault::LockPoisoned),
        ),
        Err(_) => Step::done(effects, Verdict::PassThrough, Report::Quiet),
    }
}

/// An event that does not wait never asks to wait, and when the tree cannot
/// be had it ends at once, with the state as it was and nothing asked of the
/// tree. While the tree is merely held elsewhere, nothing is logged either.
pub proof fn lemma_at_once_never_waits(m: Model, effects: Seq<Effect>, request: Request, held: Pending)
    requires
        request != Request::AwaitTree,
    ensures
        !(tree_at_once(m, effects, request, held).step.next matches crate::protocol::Next::Ask(
            Request::AwaitTree,
            _,
        )),
        m.tree != LockState::Free ==> tree_at_once(m, effects, request, held) == (Transition {
            model: m,
            step: done(effects, Verdict::PassThrough, report_of_miss(m.tree)),
        }),
        m.tree == LockState::Held ==> tree_at_once(m, effects, request, held).step == done(
            effects,
            Verdict::PassThrough,
            Report::Quiet,
        ),
{
}

} // verus!
