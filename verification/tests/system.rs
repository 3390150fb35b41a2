use wm_dispatch::dispatcher::Dispatcher;
use wm_dispatch::fault::{Fault, Report, Verdict};
use wm_dispatch::flags::{Modifiers, PressState};
use wm_dispatch::geometry::{Geometry, OutputId, Point, Size, ViewId};
use wm_dispatch::guard::LockState;
use wm_dispatch::input::keyboard_key;
use wm_dispatch::keys::{Command, KeyBindings, KeyPress};
use wm_dispatch::lockscreen::LockScreen;
use wm_dispatch::outputs::{output_created, output_destroyed, output_focus, output_resolution};
use wm_dispatch::protocol::{
    ContainerKind, Effect, Next, Outcome, Pending, Reply, Request, ScriptQuery, Step,
};
use wm_dispatch::resume::resume;
use wm_dispatch::session::{compositor_ready, compositor_terminating, post_render, view_pre_render};

fn bound() -> Dispatcher {
    let mut table = KeyBindings::new();
    table.bind(KeyPress::new(Modifiers { bits: 64 }, 0xff0d), Command::Builtin(2));
    table.bind(KeyPress::new(Modifiers { bits: 64 }, 0x6c), Command::ScriptDispatch);
    Dispatcher::new(table, Modifiers { bits: 64 })
}

fn ends(effects: Vec<Effect>, verdict: Verdict, report: Report) -> Step {
    Step { effects, next: Next::Done(Outcome { verdict, report }) }
}

fn quiet() -> Step {
    ends(vec![], Verdict::PassThrough, Report::Quiet)
}

fn handled() -> Step {
    ends(vec![], Verdict::Consumed, Report::Quiet)
}

fn puts(effects: Vec<Effect>, request: Request, pending: Pending) -> Step {
    Step { effects, next: Next::Ask(request, pending) }
}

fn symbol_of(key: u32) -> Request {
    Request::KeySymbol { key, modifiers: Modifiers { bits: 0 } }
}

#[test]
fn new_output_is_added_switched_and_laid_out() {
    let mut d = bound();
    let o = OutputId { handle: 1 };
    assert_eq!(output_created(&mut d, o), puts(vec![], Request::AddOutput(o), Pending::OutputAdded));
    assert_eq!(d.tree.state(), LockState::Held);
    let step = resume(&mut d, Pending::OutputAdded, Reply::Unit(Ok(())));
    assert_eq!(step, puts(vec![], Request::SwitchToDefaultWorkspace, Pending::OutputSwitched));
    let step = resume(&mut d, Pending::OutputSwitched, Reply::Unit(Ok(())));
    let layout = Request::LayoutActiveOf(ContainerKind::Output);
    assert_eq!(step, puts(vec![], layout, Pending::OutputLaidOut));
    assert_eq!(d.tree.state(), LockState::Held);
    assert_eq!(resume(&mut d, Pending::OutputLaidOut, Reply::Unit(Ok(()))), handled());
    assert_eq!(d.tree.state(), LockState::Free);
}

#[test]
fn output_that_cannot_be_laid_out_is_turned_away() {
    let mut d = bound();
    assert_eq!(d.tree.try_acquire(), Ok(()));
    let step = resume(&mut d, Pending::OutputLaidOut, Reply::Unit(Err(Fault::Other)));
    assert_eq!(step, ends(vec![], Verdict::PassThrough, Report::Warning(Fault::Other)));
    assert_eq!(d.tree.state(), LockState::Free);
    assert_eq!(d.tree.try_acquire(), Ok(()));
    assert_eq!(resume(&mut d, Pending::OutputLaidOut, Reply::Unit(Err(Fault::AlreadyPresent))), handled());
}

#[test]
fn output_registered_twice_is_handled_both_times() {
    let mut d = bound();
    let o = OutputId { handle: 1 };
    assert_eq!(output_created(&mut d, o), puts(vec![], Request::AddOutput(o), Pending::OutputAdded));
    let step = resume(&mut d, Pending::OutputAdded, Reply::Unit(Ok(())));
    assert_eq!(step, puts(vec![], Request::SwitchToDefaultWorkspace, Pending::OutputSwitched));
    let step = resume(&mut d, Pending::OutputSwitched, Reply::Unit(Ok(())));
    assert_eq!(step, puts(vec![], Request::LayoutActiveOf(ContainerKind::Output), Pending::OutputLaidOut));
    assert_eq!(resume(&mut d, Pending::OutputLaidOut, Reply::Unit(Ok(()))), handled());

    assert_eq!(output_created(&mut d, o), puts(vec![], Request::AddOutput(o), Pending::OutputAdded));
    let step = resume(&mut d, Pending::OutputAdded, Reply::Unit(Err(Fault::AlreadyPresent)));
    assert_eq!(step, handled());
    assert_eq!(d.tree.state(), LockState::Free);
}

#[test]
fn output_that_tree_refuses_is_turned_away() {
    let mut d = bound();
    assert_eq!(d.tree.try_acquire(), Ok(()));
    let step = resume(&mut d, Pending::OutputAdded, Reply::Unit(Err(Fault::Other)));
    assert_eq!(step, ends(vec![], Verdict::PassThrough, Report::Warning(Fault::Other)));
    assert_eq!(d.tree.state(), LockState::Free);
    assert_eq!(d.tree.try_acquire(), Ok(()));
    let step = resume(&mut d, Pending::OutputSwitched, Reply::Unit(Err(Fault::NotFound)));
    assert_eq!(step, ends(vec![], Verdict::PassThrough, Report::Warning(Fault::NotFound)));
    assert_eq!(d.tree.try_acquire(), Ok(()));
    assert_eq!(resume(&mut d, Pending::OutputSwitched, Reply::Unit(Err(Fault::AlreadyPresent))), handled());
    assert_eq!(d.tree.state(), LockState::Free);
}

#[test]
fn output_waits_for_held_tree() {
    let mut d = bound();
    let o = OutputId { handle: 1 };
    assert_eq!(d.tree.try_acquire(), Ok(()));
    assert_eq!(output_created(&mut d, o), puts(vec![], Request::AwaitTree, Pending::OutputWaiting(o)));
    d.tree.release();
    let step = resume(&mut d, Pending::OutputWaiting(o), Reply::TreeReleased);
    assert_eq!(step, puts(vec![], Request::AddOutput(o), Pending::OutputAdded));
}

#[test]
fn output_is_turned_away_by_poisoned_tree() {
    let mut d = bound();
    d.tree.poison();
    let step = output_created(&mut d, OutputId { handle: 1 });
    assert_eq!(step, ends(vec![], Verdict::PassThrough, Report::Error(Fault::LockPoisoned)));
}

#[test]
fn output_notifications_do_nothing() {
    assert_eq!(output_destroyed(OutputId { handle: 1 }), quiet());
    assert_eq!(output_focus(OutputId { handle: 1 }, true), quiet());
}

#[test]
fn resolution_change_sets_resolution_and_lays_out() {
    let mut d = bound();
    let o = OutputId { handle: 2 };
    let new = Size { w: 1280, h: 720 };
    let step = output_resolution(&mut d, o, Size { w: 800, h: 600 }, new);
    let set = Effect::SetResolution { output: o, size: new, scale: 1 };
    let layout = Request::LayoutActiveOf(ContainerKind::Output);
    assert_eq!(step, puts(vec![set], layout, Pending::ResolutionLaidOut));
    assert_eq!(resume(&mut d, Pending::ResolutionLaidOut, Reply::Unit(Ok(()))), quiet());
    assert_eq!(d.tree.state(), LockState::Free);
    assert_eq!(d.tree.try_acquire(), Ok(()));
    let step = output_resolution(&mut d, o, Size { w: 800, h: 600 }, new);
    assert_eq!(step, ends(vec![set], Verdict::PassThrough, Report::Quiet));
    let step = resume(&mut d, Pending::ResolutionLaidOut, Reply::Unit(Err(Fault::NotFound)));
    assert_eq!(step, ends(vec![], Verdict::PassThrough, Report::Fatal(Fault::NotFound)));
}

#[test]
fn key_release_passes_through() {
    let mut d = bound();
    let step = keyboard_key(&mut d, ViewId { handle: 1 }, 0, Modifiers { bits: 64 }, 36, PressState::Released);
    assert_eq!(step, quiet());
}

#[test]
fn bound_builtin_key_is_run_and_blocked() {
    let mut d = bound();
    let held = Modifiers { bits: 64 };
    let step = keyboard_key(&mut d, ViewId { handle: 1 }, 0, held, 36, PressState::Pressed);
    assert_eq!(step, puts(vec![], symbol_of(36), Pending::KeyLookup(held)));
    let step = resume(&mut d, Pending::KeyLookup(held), Reply::Symbol(0xff0d));
    assert_eq!(step, ends(vec![Effect::RunBuiltin(2)], Verdict::Consumed, Report::Quiet));
}

#[test]
fn bound_script_key_is_sent_and_blocked_even_if_sending_fails() {
    let mut d = bound();
    let held = Modifiers { bits: 64 };
    let step = resume(&mut d, Pending::KeyLookup(held), Reply::Symbol(0x6c));
    let press = KeyPress { modifiers: held, symbol: 0x6c };
    let send = Request::SendToScript(ScriptQuery::HandleKey(press));
    assert_eq!(step, puts(vec![], send, Pending::KeySent));
    assert_eq!(d.tree.state(), LockState::Free);
    assert_eq!(resume(&mut d, Pending::KeySent, Reply::Unit(Ok(()))), handled());
    let step = resume(&mut d, Pending::KeySent, Reply::Unit(Err(Fault::Other)));
    assert_eq!(step, ends(vec![], Verdict::Consumed, Report::Error(Fault::Other)));
}

#[test]
fn unbound_key_passes_through() {
    let mut d = bound();
    assert_eq!(resume(&mut d, Pending::KeyLookup(Modifiers { bits: 64 }), Reply::Symbol(0x61)), quiet());
    assert_eq!(resume(&mut d, Pending::KeyLookup(Modifiers { bits: 65 }), Reply::Symbol(0xff0d)), quiet());
    let step = resume(&mut d, Pending::KeyLookup(Modifiers { bits: 64 }), Reply::Unit(Ok(())));
    assert_eq!(step, ends(vec![], Verdict::PassThrough, Report::Error(Fault::Internal)));
}

#[test]
fn lock_screen_takes_keys() {
    let mut d = bound();
    d.engage_lock_screen(9);
    let held = Modifiers { bits: 64 };
    let step = keyboard_key(&mut d, ViewId { handle: 1 }, 0, held, 36, PressState::Pressed);
    assert_eq!(step, quiet());
    let overlay = ViewId { handle: 77 };
    d.lock_screen = Some(LockScreen { client: 9, view: Some(overlay) });
    let step = keyboard_key(&mut d, ViewId { handle: 1 }, 0, held, 36, PressState::Pressed);
    assert_eq!(step, ends(vec![Effect::FocusView(overlay)], Verdict::PassThrough, Report::Quiet));
    let step = keyboard_key(&mut d, ViewId { handle: 1 }, 0, held, 36, PressState::Released);
    assert_eq!(step, ends(vec![Effect::FocusView(overlay)], Verdict::PassThrough, Report::Quiet));
}

#[test]
fn ready_starts_scripting_then_bindings() {
    let step = compositor_ready();
    assert_eq!(step, ends(vec![Effect::StartScripting, Effect::LoadBindings], Verdict::PassThrough, Report::Quiet));
}

#[test]
fn termination_tells_script_before_taking_tree() {
    let mut d = bound();
    let step = compositor_terminating(&mut d);
    let send = Request::SendToScript(ScriptQuery::Terminate);
    assert_eq!(step, puts(vec![], send, Pending::TerminateSent));
    assert_eq!(d.tree.state(), LockState::Free);
    let step = resume(&mut d, Pending::TerminateSent, Reply::Unit(Err(Fault::Other)));
    assert_eq!(step, puts(vec![], Request::DestroyTree, Pending::TreeDestroyed));
    assert_eq!(d.tree.state(), LockState::Held);
    let step = resume(&mut d, Pending::TreeDestroyed, Reply::Unit(Err(Fault::Other)));
    assert_eq!(step, ends(vec![], Verdict::PassThrough, Report::Error(Fault::Other)));
    assert_eq!(d.tree.state(), LockState::Free);
}

#[test]
fn termination_waits_for_held_tree() {
    let mut d = bound();
    assert_eq!(d.tree.try_acquire(), Ok(()));
    let step = resume(&mut d, Pending::TerminateSent, Reply::Unit(Ok(())));
    assert_eq!(step, puts(vec![], Request::AwaitTree, Pending::DestroyWaiting));
    d.tree.release();
    let step = resume(&mut d, Pending::DestroyWaiting, Reply::TreeReleased);
    assert_eq!(step, puts(vec![], Request::DestroyTree, Pending::TreeDestroyed));
    assert_eq!(resume(&mut d, Pending::TreeDestroyed, Reply::Unit(Ok(()))), quiet());
}

#[test]
fn pre_render_draws_borders() {
    let mut d = bound();
    let v = ViewId { handle: 5 };
    let step = view_pre_render(&mut d, v);
    assert_eq!(step, puts(vec![], Request::RenderBorders(v), Pending::BordersRendered));
    assert_eq!(resume(&mut d, Pending::BordersRendered, Reply::Unit(Err(Fault::NotFound))), quiet());
    assert_eq!(d.tree.state(), LockState::Free);
    assert_eq!(d.tree.try_acquire(), Ok(()));
    assert_eq!(view_pre_render(&mut d, v), puts(vec![], Request::AwaitTree, Pending::BordersWaiting(v)));
    let step = resume(&mut d, Pending::BordersRendered, Reply::Unit(Err(Fault::Other)));
    assert_eq!(step, ends(vec![], Verdict::PassThrough, Report::Warning(Fault::Other)));
    let step = resume(&mut d, Pending::BordersWaiting(v), Reply::TreeReleased);
    assert_eq!(step, puts(vec![], Request::RenderBorders(v), Pending::BordersRendered));
    d.tree.poison();
    let step = view_pre_render(&mut d, v);
    assert_eq!(step, ends(vec![], Verdict::PassThrough, Report::Error(Fault::LockPoisoned)));
}

#[test]
fn post_render_copies_whole_output_when_wanted() {
    let o = OutputId { handle: 3 };
    assert_eq!(post_render(o, false), quiet());
    assert_eq!(post_render(o, true), puts(vec![], Request::OutputResolution(o), Pending::ScrapeSized));
    let mut d = bound();
    let size = Size { w: 640, h: 480 };
    let step = resume(&mut d, Pending::ScrapeSized, Reply::Resolution(Some(size)));
    let whole = Geometry { origin: Point { x: 0, y: 0 }, size };
    assert_eq!(step, ends(vec![Effect::ScrapePixels(whole)], Verdict::PassThrough, Report::Quiet));
    let step = resume(&mut d, Pending::ScrapeSized, Reply::Resolution(None));
    assert_eq!(step, ends(vec![], Verdict::PassThrough, Report::Fatal(Fault::NotFound)));
    assert_eq!(d.tree.state(), LockState::Free);
}
