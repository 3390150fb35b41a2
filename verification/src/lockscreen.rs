//! The lock screen: an overlay that takes all input while it is up.

use vstd::prelude::*;
use crate::geometry::ViewId;

verus! {

/// A lock screen. It waits for the window of the client that draws it, which
/// is known by its process id, and holds on to that window once it has shown
/// up.
#[derive(Clone, Copy, Debug, PartialEq, Eq, Structural, Hash)]
pub struct LockScreen {
    /// Process id of the client that draws the lock screen.
    pub client: i32,
    /// The client's window, once it exists.
    pub view: Option<ViewId>,
}

impl LockScreen {
    /// Whether a view of the process `pid` belongs to the lock screen.
    pub open spec fn matches(self, pid: i32) -> bool {
        self.client == pid
    }

    /// The lock screen after a view of process `pid` was offered to it.
    pub open spec fn with_view(self, view: ViewId, pid: i32) -> LockScreen {
        if self.matches(pid) {
            LockScreen { client: self.client, view: Some(view) }
        } else {
            self
        }
    }

    /// What is left of the lock screen once `view` is gone: nothing if it was
    /// the overlay, the lock screen as it was otherwise.
    pub open spec fn without_view(self, view: ViewId) -> Option<LockScreen> {
        if self.view == Some(view) {
            None
        } else {
            Some(self)
        }
    }

    /// A lock screen that waits for a window of the client `client`.
    pub fn new(client: i32) -> (lock: LockScreen)
        ensures
            lock == (LockScreen { client, view: None }),
    {
        LockScreen { client, view: None }
    }

    /// The overlay, if the client has made it.
    pub fn view(&self) -> (v: Option<ViewId>)
        ensures
            v == self.view,
    {
        self.view
    }

    /// Claims `view` as the overlay if the process `pid` that made it is the
    /// lock screen's client, and says whether it did.
    pub fn add_view_if_match(&mut self, view: ViewId, pid: i32) -> (claimed: bool)
        ensures
            claimed == old(self).matches(pid),
            *final(self) == old(self).with_view(view, pid),
    {
        if self.client == pid {
            self.view = Some(view);
            true
        } else {
            false
        }
    }

    /// Takes the lock screen down if `view` is its overlay.
    pub fn remove_if_match(self, view: ViewId) -> (rest: Option<LockScreen>)
        ensures
            rest == self.without_view(view),
    {
        match self.view {
            Some(overlay) => if overlay == view {
                None
            } else {
                Some(self)
            },
            None => Some(self),
        }
    }
}

} // verus!
