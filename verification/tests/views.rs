use wm_dispatch::action::Action;
use wm_dispatch::dispatcher::Dispatcher;
use wm_dispatch::fault::{Fault, Report, Verdict};
use wm_dispatch::flags::{Edges, Modifiers, PropertyKind, StateFlags};
use wm_dispatch::geometry::{ContainerId, Geometry, OutputId, Point, Size, ViewId};
use wm_dispatch::guard::LockState;
use wm_dispatch::keys::KeyBindings;
use wm_dispatch::lockscreen::LockScreen;
use wm_dispatch::protocol::{
    ContainerKind, Effect, Identity, Next, Outcome, Pending, Reply, Request, Step,
};
use wm_dispatch::registry::{registry_client, BAR_CATEGORY, BAR_KEY};
use wm_dispatch::resume::resume;
use wm_dispatch::views::{
    view_created, view_destroyed, view_focus, view_move_to_output, view_props_changed,
    view_request_geometry, view_request_move, view_request_resize, view_request_state,
};

fn fresh() -> Dispatcher {
    Dispatcher::new(KeyBindings::new(), Modifiers { bits: 64 })
}

fn ends(effects: Vec<Effect>, verdict: Verdict, report: Report) -> Step {
    Step { effects, next: Next::Done(Outcome { verdict, report }) }
}

fn quiet() -> Step {
    ends(vec![], Verdict::PassThrough, Report::Quiet)
}

fn accepted() -> Step {
    ends(vec![], Verdict::Consumed, Report::Quiet)
}

fn puts(effects: Vec<Effect>, request: Request, pending: Pending) -> Step {
    Step { effects, next: Next::Ask(request, pending) }
}

fn known_as(title: &str, class: &str, bar: Option<&str>) -> Reply {
    Reply::Identity(Identity {
        title: title.to_string(),
        class: class.to_string(),
        bar_title: bar.map(|b| b.to_string()),
    })
}

fn create(d: &mut Dispatcher, view: ViewId, title: &str, class: &str, bar: Option<&str>) -> Step {
    let step = view_created(d, view, 100);
    let identity = Request::ViewIdentity { view, client: 0 };
    assert_eq!(step, puts(vec![], identity, Pending::ViewIdentified(view)));
    resume(d, Pending::ViewIdentified(view), known_as(title, class, bar))
}

#[test]
fn new_view_is_identified_through_the_nil_registry_client() {
    let mut d = fresh();
    let v = ViewId { handle: 21 };
    let step = view_created(&mut d, v, 100);
    let identity = Request::ViewIdentity { view: v, client: registry_client() };
    assert_eq!(step, puts(vec![], identity, Pending::ViewIdentified(v)));
    assert_eq!(registry_client(), 0);
    assert_eq!(BAR_CATEGORY, "programs");
    assert_eq!(BAR_KEY, "x11_bar");
    assert_eq!(d.tree.state(), LockState::Free);
}

#[test]
fn view_without_identity_is_given_up() {
    let mut d = fresh();
    let v = ViewId { handle: 21 };
    let step = resume(&mut d, Pending::ViewIdentified(v), Reply::Unit(Ok(())));
    assert_eq!(step, ends(vec![], Verdict::PassThrough, Report::Error(Fault::Internal)));
    assert_eq!(d.tree.state(), LockState::Free);
}

#[test]
fn ordinary_view_is_registered_maximized_and_activated() {
    let mut d = fresh();
    let v = ViewId { handle: 21 };
    let step = create(&mut d, v, "editor", "Editor", Some("bar"));
    assert_eq!(step, puts(vec![], Request::AddView(v), Pending::ViewAdded(v)));
    assert_eq!(d.tree.state(), LockState::Held);
    let step = resume(&mut d, Pending::ViewAdded(v), Reply::Unit(Ok(())));
    let maximize = Effect::SetViewState { view: v, flags: StateFlags { bits: 1 }, on: true };
    assert_eq!(step, puts(vec![maximize], Request::SetActiveView(v), Pending::ViewActivated));
    assert_eq!(d.tree.state(), LockState::Held);
    assert_eq!(resume(&mut d, Pending::ViewActivated, Reply::Unit(Ok(()))), accepted());
    assert_eq!(d.tree.state(), LockState::Free);
}

#[test]
fn view_blocked_by_fullscreen_is_accepted_without_focus() {
    let mut d = fresh();
    assert_eq!(d.tree.try_acquire(), Ok(()));
    let step = resume(&mut d, Pending::ViewActivated, Reply::Unit(Err(Fault::BlockedByFullscreen)));
    assert_eq!(step, accepted());
    assert_eq!(d.tree.state(), LockState::Free);
}

#[test]
fn view_that_cannot_be_activated_is_turned_away() {
    let mut d = fresh();
    assert_eq!(d.tree.try_acquire(), Ok(()));
    let step = resume(&mut d, Pending::ViewActivated, Reply::Unit(Err(Fault::NotFound)));
    assert_eq!(step, ends(vec![], Verdict::PassThrough, Report::Warning(Fault::NotFound)));
    assert_eq!(d.tree.state(), LockState::Free);
}

#[test]
fn view_already_in_tree_is_accepted() {
    let mut d = fresh();
    let v = ViewId { handle: 21 };
    assert_eq!(d.tree.try_acquire(), Ok(()));
    let step = resume(&mut d, Pending::ViewAdded(v), Reply::Unit(Err(Fault::AlreadyPresent)));
    assert_eq!(step, accepted());
    assert_eq!(d.tree.state(), LockState::Free);
}

#[test]
fn view_that_tree_refuses_is_turned_away() {
    let mut d = fresh();
    let v = ViewId { handle: 21 };
    assert_eq!(d.tree.try_acquire(), Ok(()));
    let step = resume(&mut d, Pending::ViewAdded(v), Reply::Unit(Err(Fault::Other)));
    assert_eq!(step, ends(vec![], Verdict::PassThrough, Report::Warning(Fault::Other)));
    assert_eq!(d.tree.state(), LockState::Free);
}

#[test]
fn view_waits_for_held_tree() {
    let mut d = fresh();
    let v = ViewId { handle: 21 };
    assert_eq!(d.tree.try_acquire(), Ok(()));
    let step = create(&mut d, v, "editor", "Editor", None);
    assert_eq!(step, puts(vec![], Request::AwaitTree, Pending::RegisterWaiting(v)));
    let step = resume(&mut d, Pending::RegisterWaiting(v), Reply::TreeReleased);
    assert_eq!(step, puts(vec![], Request::AwaitTree, Pending::RegisterWaiting(v)));
    d.tree.release();
    let step = resume(&mut d, Pending::RegisterWaiting(v), Reply::TreeReleased);
    assert_eq!(step, puts(vec![], Request::AddView(v), Pending::ViewAdded(v)));
    assert_eq!(d.tree.state(), LockState::Held);
}

#[test]
fn view_is_turned_away_by_poisoned_tree() {
    let mut d = fresh();
    d.tree.poison();
    let step = create(&mut d, ViewId { handle: 21 }, "editor", "Editor", None);
    assert_eq!(step, ends(vec![], Verdict::PassThrough, Report::Error(Fault::LockPoisoned)));
    assert_eq!(d.tree.state(), LockState::Poisoned);
}

#[test]
fn bar_is_attached_to_outputs() {
    let mut d = fresh();
    let v = ViewId { handle: 22 };
    let step = create(&mut d, v, "lemonbar", "Bar", Some("lemonbar"));
    let shown = vec![Effect::SetMask { view: v, mask: 1 }, Effect::BringToFront(v)];
    assert_eq!(step, puts(shown, Request::AddBarToOutputs(v), Pending::BarAdded));
    assert_eq!(d.tree.state(), LockState::Held);
    assert_eq!(resume(&mut d, Pending::BarAdded, Reply::Unit(Err(Fault::Other))), accepted());
    assert_eq!(d.tree.state(), LockState::Free);
}

#[test]
fn bar_title_must_match_exactly() {
    let mut d = fresh();
    let v = ViewId { handle: 22 };
    let step = create(&mut d, v, "lemonbar ", "Bar", Some("lemonbar"));
    assert_eq!(step, puts(vec![], Request::AddView(v), Pending::ViewAdded(v)));
}

#[test]
fn bar_is_turned_away_by_poisoned_tree() {
    let mut d = fresh();
    let v = ViewId { handle: 22 };
    d.tree.poison();
    let step = create(&mut d, v, "lemonbar", "Bar", Some("lemonbar"));
    let shown = vec![Effect::SetMask { view: v, mask: 1 }, Effect::BringToFront(v)];
    assert_eq!(step, ends(shown, Verdict::PassThrough, Report::Error(Fault::LockPoisoned)));
}

#[test]
fn background_covers_its_output() {
    let mut d = fresh();
    let v = ViewId { handle: 23 };
    let step = create(&mut d, v, "wallpaper", "Background", None);
    let lowered = vec![Effect::SendToBack(v), Effect::SetMask { view: v, mask: 1 }];
    assert_eq!(step, puts(lowered, Request::ViewOutputResolution(v), Pending::BackgroundSized(v)));
    assert_eq!(d.tree.state(), LockState::Free);
    let size = Size { w: 800, h: 600 };
    let step = resume(&mut d, Pending::BackgroundSized(v), Reply::Resolution(Some(size)));
    let whole = Geometry { origin: Point { x: 0, y: 0 }, size };
    let placed = vec![Effect::SetGeometry { view: v, edges: Edges { bits: 0 }, geometry: whole }];
    assert_eq!(step, puts(placed, Request::AddBackground(v), Pending::BackgroundAdded));
    assert_eq!(d.tree.state(), LockState::Held);
    let step = resume(&mut d, Pending::BackgroundAdded, Reply::Unit(Err(Fault::Other)));
    assert_eq!(step, ends(vec![], Verdict::Consumed, Report::Error(Fault::Other)));
    assert_eq!(d.tree.state(), LockState::Free);
}

#[test]
fn bar_title_comes_before_background_class() {
    let mut d = fresh();
    let v = ViewId { handle: 23 };
    let step = create(&mut d, v, "bar", "Background", Some("bar"));
    let shown = vec![Effect::SetMask { view: v, mask: 1 }, Effect::BringToFront(v)];
    assert_eq!(step, puts(shown, Request::AddBarToOutputs(v), Pending::BarAdded));
}

#[test]
fn bar_waits_for_held_tree() {
    let mut d = fresh();
    let v = ViewId { handle: 22 };
    assert_eq!(d.tree.try_acquire(), Ok(()));
    let step = create(&mut d, v, "bar", "Bar", Some("bar"));
    let shown = vec![Effect::SetMask { view: v, mask: 1 }, Effect::BringToFront(v)];
    assert_eq!(step, puts(shown, Request::AwaitTree, Pending::BarWaiting(v)));
    assert_eq!(d.tree.state(), LockState::Held);
    d.tree.release();
    let step = resume(&mut d, Pending::BarWaiting(v), Reply::TreeReleased);
    assert_eq!(step, puts(vec![], Request::AddBarToOutputs(v), Pending::BarAdded));
    assert_eq!(d.tree.state(), LockState::Held);
    assert_eq!(resume(&mut d, Pending::BarAdded, Reply::Unit(Ok(()))), accepted());
    assert_eq!(d.tree.state(), LockState::Free);
}

#[test]
fn poisoned_tree_is_reported_to_clients_that_ask() {
    let mut d = fresh();
    d.tree.poison();
    let v = ViewId { handle: 43 };
    let poisoned = ends(vec![], Verdict::PassThrough, Report::Error(Fault::LockPoisoned));
    assert_eq!(view_request_move(&mut d, v, Point { x: 0, y: 0 }), poisoned);
    assert_eq!(view_request_state(&mut d, v, StateFlags::fullscreen(), false), poisoned);
    assert_eq!(view_props_changed(&mut d, v, PropertyKind { bits: 0 }), poisoned);
    assert_eq!(d.tree.state(), LockState::Poisoned);
}

#[test]
fn background_without_resolution_is_given_up() {
    let mut d = fresh();
    let v = ViewId { handle: 23 };
    let step = resume(&mut d, Pending::BackgroundSized(v), Reply::Resolution(None));
    assert_eq!(step, ends(vec![], Verdict::PassThrough, Report::Fatal(Fault::NotFound)));
}

#[test]
fn background_waits_for_held_tree() {
    let mut d = fresh();
    let v = ViewId { handle: 23 };
    assert_eq!(d.tree.try_acquire(), Ok(()));
    let size = Size { w: 8, h: 6 };
    let step = resume(&mut d, Pending::BackgroundSized(v), Reply::Resolution(Some(size)));
    let whole = Geometry { origin: Point { x: 0, y: 0 }, size };
    let placed = vec![Effect::SetGeometry { view: v, edges: Edges { bits: 0 }, geometry: whole }];
    assert_eq!(step, puts(placed, Request::AwaitTree, Pending::BackgroundWaiting(v)));
    d.tree.release();
    let step = resume(&mut d, Pending::BackgroundWaiting(v), Reply::TreeReleased);
    assert_eq!(step, puts(vec![], Request::AddBackground(v), Pending::BackgroundAdded));
    assert_eq!(resume(&mut d, Pending::BackgroundAdded, Reply::Unit(Ok(()))), accepted());
}

#[test]
fn lock_screen_claims_its_view_and_rejects_others() {
    let mut d = fresh();
    d.engage_lock_screen(100);
    assert!(d.is_locked());
    let other = ViewId { handle: 30 };
    let step = view_created(&mut d, other, 5);
    assert_eq!(step, quiet());
    assert_eq!(d.lock_screen, Some(LockScreen { client: 100, view: None }));
    let overlay = ViewId { handle: 31 };
    let step = view_created(&mut d, overlay, 100);
    assert_eq!(step, ends(vec![Effect::FocusView(overlay)], Verdict::Consumed, Report::Quiet));
    assert_eq!(d.lock_screen, Some(LockScreen { client: 100, view: Some(overlay) }));
    assert_eq!(d.tree.state(), LockState::Free);
}

#[test]
fn destroying_overlay_takes_lock_screen_down() {
    let mut d = fresh();
    let overlay = ViewId { handle: 31 };
    d.lock_screen = Some(LockScreen { client: 100, view: Some(overlay) });
    let step = view_destroyed(&mut d, overlay);
    assert_eq!(step, accepted());
    assert_eq!(d.lock_screen, None);
    assert!(!d.is_locked());
    assert_eq!(d.tree.state(), LockState::Free);
}

#[test]
fn destroying_other_view_under_lock_screen_removes_it_from_tree() {
    let mut d = fresh();
    let overlay = ViewId { handle: 31 };
    let lock = LockScreen { client: 100, view: Some(overlay) };
    d.lock_screen = Some(lock);
    let v = ViewId { handle: 32 };
    let step = view_destroyed(&mut d, v);
    assert_eq!(step, puts(vec![], Request::RemoveView(v), Pending::ViewRemoved));
    assert_eq!(d.lock_screen, Some(lock));
}

#[test]
fn destroying_unknown_view_is_not_an_error() {
    let mut d = fresh();
    let v = ViewId { handle: 40 };
    let step = view_destroyed(&mut d, v);
    assert_eq!(step, puts(vec![], Request::RemoveView(v), Pending::ViewRemoved));
    assert_eq!(d.tree.state(), LockState::Held);
    let step = resume(&mut d, Pending::ViewRemoved, Reply::Unit(Err(Fault::NotFound)));
    assert_eq!(step, quiet());
    assert_eq!(d.tree.state(), LockState::Free);
}

#[test]
fn failed_removal_is_logged() {
    let mut d = fresh();
    assert_eq!(d.tree.try_acquire(), Ok(()));
    let step = resume(&mut d, Pending::ViewRemoved, Reply::Unit(Err(Fault::Other)));
    assert_eq!(step, ends(vec![], Verdict::PassThrough, Report::Error(Fault::Other)));
    assert_eq!(d.tree.state(), LockState::Free);
}

#[test]
fn removal_waits_for_held_tree_and_fails_on_poison() {
    let mut d = fresh();
    let v = ViewId { handle: 40 };
    assert_eq!(d.tree.try_acquire(), Ok(()));
    assert_eq!(view_destroyed(&mut d, v), puts(vec![], Request::AwaitTree, Pending::RemoveWaiting(v)));
    d.tree.poison();
    let step = resume(&mut d, Pending::RemoveWaiting(v), Reply::TreeReleased);
    assert_eq!(step, ends(vec![], Verdict::PassThrough, Report::Error(Fault::LockPoisoned)));
}

#[test]
fn focus_activates_view_and_tells_tree() {
    let mut d = fresh();
    let v = ViewId { handle: 41 };
    let step = view_focus(&mut d, v, true);
    let activate = Effect::SetViewState { view: v, flags: StateFlags { bits: 16 }, on: true };
    assert_eq!(step, puts(vec![activate], Request::SetActiveView(v), Pending::FocusApplied));
    assert_eq!(resume(&mut d, Pending::FocusApplied, Reply::Unit(Err(Fault::NotFound))), quiet());
    assert_eq!(d.tree.state(), LockState::Free);
}

#[test]
fn focus_failure_is_logged() {
    let mut d = fresh();
    assert_eq!(d.tree.try_acquire(), Ok(()));
    let step = resume(&mut d, Pending::FocusApplied, Reply::Unit(Err(Fault::BlockedByFullscreen)));
    assert_eq!(step, ends(vec![], Verdict::PassThrough, Report::Error(Fault::BlockedByFullscreen)));
}

#[test]
fn focus_under_contention_only_sets_state() {
    let mut d = fresh();
    assert_eq!(d.tree.try_acquire(), Ok(()));
    let v = ViewId { handle: 41 };
    let step = view_focus(&mut d, v, false);
    let deactivate = Effect::SetViewState { view: v, flags: StateFlags { bits: 16 }, on: false };
    assert_eq!(step, ends(vec![deactivate], Verdict::PassThrough, Report::Quiet));
    assert_eq!(d.tree.state(), LockState::Held);
}

#[test]
fn focus_under_lock_screen_goes_to_overlay() {
    let mut d = fresh();
    d.engage_lock_screen(100);
    let v = ViewId { handle: 41 };
    assert_eq!(view_focus(&mut d, v, true), quiet());
    let overlay = ViewId { handle: 31 };
    d.lock_screen = Some(LockScreen { client: 100, view: Some(overlay) });
    let step = view_focus(&mut d, v, true);
    let activate = Effect::SetViewState { view: overlay, flags: StateFlags { bits: 16 }, on: true };
    assert_eq!(step, ends(vec![activate], Verdict::PassThrough, Report::Quiet));
    assert_eq!(d.tree.state(), LockState::Free);
}

#[test]
fn property_change_updates_title() {
    let mut d = fresh();
    let v = ViewId { handle: 42 };
    let step = view_props_changed(&mut d, v, PropertyKind { bits: 1 });
    assert_eq!(step, puts(vec![], Request::UpdateTitle(v), Pending::TitleUpdated));
    assert_eq!(resume(&mut d, Pending::TitleUpdated, Reply::Unit(Err(Fault::NotFound))), quiet());
    assert_eq!(d.tree.state(), LockState::Free);
    assert_eq!(d.tree.try_acquire(), Ok(()));
    assert_eq!(view_props_changed(&mut d, v, PropertyKind { bits: 0 }), quiet());
    let step = resume(&mut d, Pending::TitleUpdated, Reply::Unit(Err(Fault::Other)));
    assert_eq!(step, ends(vec![], Verdict::PassThrough, Report::Error(Fault::Other)));
}

#[test]
fn move_to_output_does_nothing() {
    let step = view_move_to_output(ViewId { handle: 1 }, OutputId { handle: 1 }, OutputId { handle: 2 });
    assert_eq!(step, quiet());
}

#[test]
fn fullscreen_request_runs_through_tree() {
    let mut d = fresh();
    let v = ViewId { handle: 43 };
    let step = view_request_state(&mut d, v, StateFlags::fullscreen(), true);
    assert_eq!(step, puts(vec![], Request::LookupView(v), Pending::FullscreenLookup(true)));
    let id = ContainerId { id: 1 << 100 };
    let step = resume(&mut d, Pending::FullscreenLookup(true), Reply::Container(Ok(id)));
    assert_eq!(step, puts(vec![], Request::SetFullscreen(id, true), Pending::FullscreenSet(id)));
    let step = resume(&mut d, Pending::FullscreenSet(id), Reply::Unit(Ok(())));
    assert_eq!(step, puts(vec![], Request::ContainerInActiveWorkspace(id), Pending::FullscreenPlaced));
    let step = resume(&mut d, Pending::FullscreenPlaced, Reply::Flag(Ok(true)));
    let layout = Request::LayoutActiveOf(ContainerKind::Workspace);
    assert_eq!(step, puts(vec![], layout, Pending::FullscreenLaidOut));
    assert_eq!(d.tree.state(), LockState::Held);
    let step = resume(&mut d, Pending::FullscreenLaidOut, Reply::Unit(Err(Fault::Other)));
    assert_eq!(step, ends(vec![], Verdict::PassThrough, Report::Error(Fault::Other)));
    assert_eq!(d.tree.state(), LockState::Free);
}

#[test]
fn fullscreen_request_failures() {
    let mut d = fresh();
    let id = ContainerId { id: 9 };
    assert_eq!(d.tree.try_acquire(), Ok(()));
    let step = resume(&mut d, Pending::FullscreenLookup(false), Reply::Container(Err(Fault::NotFound)));
    assert_eq!(step, ends(vec![], Verdict::PassThrough, Report::Warning(Fault::NotFound)));
    assert_eq!(d.tree.state(), LockState::Free);
    assert_eq!(d.tree.try_acquire(), Ok(()));
    let step = resume(&mut d, Pending::FullscreenSet(id), Reply::Unit(Err(Fault::Other)));
    assert_eq!(step, ends(vec![], Verdict::PassThrough, Report::Fatal(Fault::Other)));
    assert_eq!(d.tree.state(), LockState::Free);
    assert_eq!(d.tree.try_acquire(), Ok(()));
    assert_eq!(resume(&mut d, Pending::FullscreenPlaced, Reply::Flag(Ok(false))), quiet());
    assert_eq!(d.tree.state(), LockState::Free);
    assert_eq!(d.tree.try_acquire(), Ok(()));
    let step = resume(&mut d, Pending::FullscreenPlaced, Reply::Flag(Err(Fault::NotFound)));
    assert_eq!(step, ends(vec![], Verdict::PassThrough, Report::Error(Fault::NotFound)));
    assert_eq!(d.tree.try_acquire(), Ok(()));
    assert_eq!(resume(&mut d, Pending::FullscreenLaidOut, Reply::Unit(Ok(()))), quiet());
}

#[test]
fn other_state_requests_are_ignored() {
    let mut d = fresh();
    let v = ViewId { handle: 43 };
    assert_eq!(view_request_state(&mut d, v, StateFlags::maximized(), true), quiet());
    assert_eq!(view_request_state(&mut d, v, StateFlags { bits: 2 | 1 }, true), quiet());
    assert_eq!(d.tree.state(), LockState::Free);
}

#[test]
fn client_requests_are_dropped_under_lock_screen() {
    let mut d = fresh();
    d.engage_lock_screen(100);
    d.action.begin(Action { view: ViewId { handle: 1 }, grab: Point { x: 0, y: 0 }, edges: Edges::left() });
    let v = ViewId { handle: 43 };
    let p = Point { x: 1, y: 2 };
    let g = Geometry { origin: p, size: Size { w: 3, h: 4 } };
    assert_eq!(view_request_state(&mut d, v, StateFlags::fullscreen(), true), quiet());
    assert_eq!(view_request_move(&mut d, v, p), quiet());
    assert_eq!(view_request_resize(&mut d, v, Edges::left(), p), quiet());
    assert_eq!(view_request_geometry(&mut d, v, g), quiet());
    assert_eq!(d.tree.state(), LockState::Free);
}

#[test]
fn client_requests_are_dropped_under_contention() {
    let mut d = fresh();
    assert_eq!(d.tree.try_acquire(), Ok(()));
    d.action.begin(Action { view: ViewId { handle: 1 }, grab: Point { x: 0, y: 0 }, edges: Edges::left() });
    let v = ViewId { handle: 43 };
    let p = Point { x: 1, y: 2 };
    let g = Geometry { origin: p, size: Size { w: 3, h: 4 } };
    assert_eq!(view_request_state(&mut d, v, StateFlags::fullscreen(), true), quiet());
    assert_eq!(view_request_move(&mut d, v, p), quiet());
    assert_eq!(view_request_resize(&mut d, v, Edges::left(), p), quiet());
    assert_eq!(view_request_geometry(&mut d, v, g), quiet());
    assert_eq!(d.tree.state(), LockState::Held);
}

#[test]
fn move_request_focuses_view() {
    let mut d = fresh();
    let v = ViewId { handle: 44 };
    let step = view_request_move(&mut d, v, Point { x: 0, y: 0 });
    assert_eq!(step, puts(vec![], Request::SetActiveView(v), Pending::MoveFocused));
    let step = resume(&mut d, Pending::MoveFocused, Reply::Unit(Err(Fault::NotFound)));
    assert_eq!(step, ends(vec![], Verdict::PassThrough, Report::Error(Fault::NotFound)));
    assert_eq!(d.tree.state(), LockState::Free);
}

#[test]
fn resize_request_needs_action_in_progress() {
    let mut d = fresh();
    let v = ViewId { handle: 45 };
    let p = Point { x: 7, y: 8 };
    assert_eq!(view_request_resize(&mut d, v, Edges::right(), p), quiet());
    assert_eq!(d.tree.state(), LockState::Free);
    d.action.begin(Action { view: v, grab: p, edges: Edges::empty() });
    let step = view_request_resize(&mut d, v, Edges::right(), p);
    assert_eq!(step, puts(vec![], Request::LookupView(v), Pending::ResizeLookup(Edges::right(), p)));
    let id = ContainerId { id: 5 };
    let step = resume(&mut d, Pending::ResizeLookup(Edges::right(), p), Reply::Container(Ok(id)));
    assert_eq!(step, puts(vec![], Request::ResizeContainer(id, Edges::right(), p), Pending::ResizeApplied));
    let step = resume(&mut d, Pending::ResizeApplied, Reply::Unit(Err(Fault::Other)));
    assert_eq!(step, ends(vec![], Verdict::PassThrough, Report::Error(Fault::Other)));
    assert_eq!(d.tree.state(), LockState::Free);
    assert_eq!(d.tree.try_acquire(), Ok(()));
    let step = resume(&mut d, Pending::ResizeLookup(Edges::right(), p), Reply::Container(Err(Fault::NotFound)));
    assert_eq!(step, quiet());
    assert_eq!(d.tree.state(), LockState::Free);
}

#[test]
fn geometry_request_is_recorded() {
    let mut d = fresh();
    let v = ViewId { handle: 46 };
    let g = Geometry { origin: Point { x: 1, y: 2 }, size: Size { w: 3, h: 4 } };
    let step = view_request_geometry(&mut d, v, g);
    assert_eq!(step, puts(vec![], Request::UpdateFloatingGeometry(v, g), Pending::GeometryUpdated));
    let step = resume(&mut d, Pending::GeometryUpdated, Reply::Unit(Err(Fault::NotFound)));
    assert_eq!(step, ends(vec![], Verdict::PassThrough, Report::Warning(Fault::NotFound)));
    assert_eq!(d.tree.state(), LockState::Free);
}
