//! Going on with an event once a question has been answered.

use vstd::prelude::*;
use crate::dispatcher::{Dispatcher, Model, Transition};
use crate::input::{
    after_key_lookup, after_key_sent, after_left_focused, after_motion_dragged, after_motion_lookup,
    after_motion_resized, after_release_state, after_right_focused, after_right_geometry, key_lookup,
    key_sent, left_focused, motion_dragged, motion_lookup, motion_resized, release_state, right_focused,
    right_geometry,
};
use crate::outputs::{
    after_output_added, after_output_laid_out, after_output_switched, after_resolution_laid_out,
    on_output_created, output_added, output_created, output_laid_out, output_switched, resolution_laid_out,
};
use crate::protocol::{Pending, Reply, Step};
use crate::session::{
    after_borders_rendered, after_scrape_sized, after_tree_destroyed, borders_rendered, destroy,
    destroy_tree, on_view_pre_render, scrape_sized, tree_destroyed, view_pre_render,
};
use crate::views::{
    after_background_added, after_background_sized, after_bar_added, after_focus_applied,
    after_fullscreen_laid_out, after_fullscreen_lookup, after_fullscreen_placed, after_fullscreen_set,
    after_geometry_updated, after_move_focused, after_resize_applied, after_resize_lookup,
    after_title_updated, after_view_activated, after_view_added, after_view_identified,
    after_view_removed, attach_background, attach_bar, attach_bar_view,
    attach_background_view, background_added, background_sized, bar_added, focus_applied,
    fullscreen_laid_out, fullscreen_lookup, fullscreen_placed, fullscreen_set, geometry_updated,
    move_focused, register, register_view, remove, remove_view, resize_applied, resize_lookup,
    title_updated, view_activated, view_added, view_identified, view_removed,
};

verus! {

/// What follows when the event that stands at `pending` gets `reply`.
///
/// An event that waited for the tree asks for it again, whatever the answer
/// says. Every other event reads the answer as the kind that its question
/// calls for.
pub open spec fn after(m: Model, pending: Pending, reply: Reply) -> Transition {
    match pending {
        Pending::OutputWaiting(output) => on_output_created(m, output),
        Pending::OutputAdded => after_output_added(m, reply),
        Pending::OutputSwitched => after_output_switched(m, reply),
        Pending::OutputLaidOut => after_output_laid_out(m, reply),
        Pending::ResolutionLaidOut => after_resolution_laid_out(m, reply),
        Pending::ScrapeSized => Transition { model: m, step: after_scrape_sized(reply) },
        Pending::ViewIdentified(view) => after_view_identified(m, view, reply),
        Pending::BarWaiting(view) => attach_bar(m, view, Seq::empty()),
        Pending::BarAdded => after_bar_added(m),
        Pending::BackgroundSized(view) => after_background_sized(m, view, reply),
        Pending::BackgroundWaiting(view) => attach_background(m, view, Seq::empty()),
        Pending::BackgroundAdded => after_background_added(m, reply),
        Pending::RegisterWaiting(view) => register(m, view),
        Pending::ViewAdded(view) => after_view_added(m, view, reply),
        Pending::ViewActivated => after_view_activated(m, reply),
        Pending::RemoveWaiting(view) => remove(m, view),
        Pending::ViewRemoved => after_view_removed(m, reply),
        Pending::FocusApplied => after_focus_applied(m, reply),
        Pending::TitleUpdated => after_title_updated(m, reply),
        Pending::FullscreenLookup(toggle) => after_fullscreen_lookup(m, toggle, reply),
        Pending::FullscreenSet(id) => after_fullscreen_set(m, id, reply),
        Pending::FullscreenPlaced => after_fullscreen_placed(m, reply),
        Pending::FullscreenLaidOut => after_fullscreen_laid_out(m, reply),
        Pending::MoveFocused => after_move_focused(m, reply),
        Pending::ResizeLookup(edges, point) => after_resize_lookup(m, edges, point, reply),
        Pending::ResizeApplied => after_resize_applied(m, reply),
        Pending::GeometryUpdated => after_geometry_updated(m, reply),
        Pending::KeyLookup(modifiers) => after_key_lookup(m, modifiers, reply),
        Pending::KeySent => after_key_sent(m, reply),
        Pending::LeftFocused { view, grab, start } => after_left_focused(m, view, grab, start, reply),
        Pending::RightFocused { view, grab, start } => after_right_focused(m, view, grab, start),
        Pending::RightGeometry { view, grab } => after_right_geometry(m, view, grab, reply),
        Pending::ReleaseState(view) => after_release_state(m, view, reply),
        Pending::MotionLookup(edges, point) => after_motion_lookup(m, edges, point, reply),
        Pending::MotionResized(point) => after_motion_resized(m, point, reply),
        Pending::MotionDragged(point) => after_motion_dragged(m, point, reply),
        Pending::TerminateSent => destroy(m),
        Pending::DestroyWaiting => destroy(m),
        Pending::TreeDestroyed => after_tree_destroyed(m, reply),
        Pending::BordersWaiting(view) => on_view_pre_render(m, view),
        Pending::BordersRendered => after_borders_rendered(m, reply),
    }
}

/// Goes on with the event that stands at `pending`, now that its question has
/// the answer `reply`.
pub fn resume(d: &mut Dispatcher, pending: Pending, reply: Reply) -> (step: Step)
    ensures
        final(d)@ == after(old(d)@, pending, reply).model,
        step@ == after(old(d)@, pending, reply).step,
{
    match pending {
        Pending::OutputWaiting(output) => output_created(d, output),
        Pending::OutputAdded => output_added(d, reply),
        Pending::OutputSwitched => output_switched(d, reply),
        Pending::OutputLaidOut => output_laid_out(d, reply),
        Pending::ResolutionLaidOut => resolution_laid_out(d, reply),
        Pending::ScrapeSized => scrape_sized(reply),
        Pending::ViewIdentified(view) => view_identified(d, view, reply),
        Pending::BarWaiting(view) => attach_bar_view(d, view, Vec::new()),
        Pending::BarAdded => bar_added(d),
        Pending::BackgroundSized(view) => background_sized(d, view, reply),
        Pending::BackgroundWaiting(view) => attach_background_view(d, view, Vec::new()),
        Pending::BackgroundAdded => background_added(d, reply),
        Pending::RegisterWaiting(view) => register_view(d, view),
        Pending::ViewAdded(view) => view_added(d, view, reply),
        Pending::ViewActivated => view_activated(d, reply),
        Pending::RemoveWaiting(view) => remove_view(d, view),
        Pending::ViewRemoved => view_removed(d, reply),
        Pending::FocusApplied => focus_applied(d, reply),
        Pending::TitleUpdated => title_updated(d, reply),
        Pending::FullscreenLookup(toggle) => fullscreen_lookup(d, toggle, reply),
        Pending::FullscreenSet(id) => fullscreen_set(d, id, reply),
        Pending::FullscreenPlaced => fullscreen_placed(d, reply),
        Pending::FullscreenLaidOut => fullscreen_laid_out(d, reply),
        Pending::MoveFocused => move_focused(d, reply),
        Pending::ResizeLookup(edges, point) => resize_lookup(d, edges, point, reply),
        Pending::ResizeApplied => resize_applied(d, reply),
        Pending::GeometryUpdated => geometry_updated(d, reply),
        Pending::KeyLookup(modifiers) => key_lookup(d, modifiers, reply),
        Pending::KeySent => key_sent(d, reply),
        Pending::LeftFocused { view, grab, start } => left_focused(d, view, grab, start, reply),
        Pending::RightFocused { view, grab, start } => right_focused(d, view, grab, start),
        Pending::RightGeometry { view, grab } => right_geometry(d, view, grab, reply),
        Pending::ReleaseState(view) => release_state(d, view, reply),
        Pending::MotionLookup(edges, point) => motion_lookup(d, edges, point, reply),
        Pending::MotionResized(point) => motion_resized(d, point, reply),
        Pending::MotionDragged(point) => motion_dragged(d, point, reply),
        Pending::TerminateSent => destroy_tree(d),
        Pending::DestroyWaiting => destroy_tree(d),
        Pending::TreeDestroyed => tree_destroyed(d, reply),
        Pending::BordersWaiting(view) => view_pre_render(d, view),
        Pending::BordersRendered => borders_rendered(d, reply),
    }
}

} // verus!
