//! The state that the entry points share.

use vstd::prelude::*;
use crate::action::{Action, ActionSlot, ActionState, state_of};
use crate::flags::Modifiers;
use crate::guard::{Guard, LockState};
use crate::keys::{Command, KeyBindings, KeyPress};
use crate::lockscreen::LockScreen;
use crate::protocol::StepView;

verus! {

/// The dispatcher as contracts see it.
pub struct Model {
    /// The lock over the layout tree.
    pub tree: LockState,
    /// The interactive action in progress.
    pub action: Option<Action>,
    /// The lock screen, while one is up.
    pub lock_screen: Option<LockScreen>,
    /// The key bindings.
    pub bindings: Map<KeyPress, Command>,
    /// The modifier that turns a click on a view into a move or a resize.
    pub mouse_modifier: Modifiers,
}

/// The result of one call: the state that it leaves and the step that it
/// answers with.
pub struct Transition {
    pub model: Model,
    pub step: StepView,
}

impl Model {
    /// This state with the tree taken, if it was free.
    pub open spec fn acquired(self) -> Model {
        Model { tree: self.tree.after_acquire(), ..self }
    }

    /// This state with the tree let go, if it was held.
    pub open spec fn released(self) -> Model {
        Model { tree: self.tree.after_release(), ..self }
    }

    /// This state with another action in progress, or none.
    pub open spec fn with_action(self, action: Option<Action>) -> Model {
        Model { action, ..self }
    }

    /// This state with another lock screen, or none.
    pub open spec fn with_lock_screen(self, lock_screen: Option<LockScreen>) -> Model {
        Model { lock_screen, ..self }
    }

    /// The overlay of the lock screen, if one is up and its window exists.
    pub open spec fn overlay(self) -> Option<crate::geometry::ViewId> {
        match self.lock_screen {
            Some(lock) => lock.view,
            None => None,
        }
    }
}

/// The state that the entry points share: the lock over the layout tree, the
/// action in progress, the lock screen and the key bindings.
#[derive(Debug)]
pub struct Dispatcher {
    pub tree: Guard,
    pub action: ActionSlot,
    pub lock_screen: Option<LockScreen>,
    pub bindings: KeyBindings,
    pub mouse_modifier: Modifiers,
}

impl View for Dispatcher {
    type V = Model;

    open spec fn view(&self) -> Model {
        Model {
            tree: self.tree@,
            action: self.action@,
            lock_screen: self.lock_screen,
            bindings: self.bindings@,
            mouse_modifier: self.mouse_modifier,
        }
    }
}

impl Dispatcher {
    /// A dispatcher with a free tree, no action in progress and no lock
    /// screen.
    pub fn new(bindings: KeyBindings, mouse_modifier: Modifiers) -> (d: Dispatcher)
        ensures
            d@ == (Model {
                tree: LockState::Free,
                action: None,
                lock_screen: None,
                bindings: bindings@,
                mouse_modifier,
            }),
    {
        Dispatcher {
            tree: Guard::new(),
            action: ActionSlot::new(),
            lock_screen: None,
            bindings,
            mouse_modifier,
        }
    }

    /// Puts a lock screen up. It waits for a window of the client with
    /// process id `client`.
    pub fn engage_lock_screen(&mut self, client: i32)
        ensures
            final(self)@ == old(self)@.with_lock_screen(Some(LockScreen { client, view: None })),
    {
        self.lock_screen = Some(LockScreen::new(client));
    }

    /// Whether a lock screen is up.
    pub fn is_locked(&self) -> (r: bool)
        ensures
            r == self@.lock_screen.is_some(),
    {
        self.lock_screen.is_some()
    }

    /// The action in progress.
    pub fn performing_action(&self) -> (r: Option<Action>)
        ensures
            r == self@.action,
    {
        self.action.current()
    }

    /// What the pointer is doing.
    pub fn action_state(&self) -> (s: ActionState)
        ensures
            s == state_of(self@.action),
    {
        self.action.state()
    }
}

} // verus!
