//! Input-event dispatch and synchronisation core of a tiling window manager.
//!
//! The compositor engine reports events (outputs and views coming and going,
//! keys, pointer buttons and motion, render hooks). For each event this crate
//! decides what is to be done: which operation is asked of the layout tree,
//! which change is made to a client window, and whether the event is kept from
//! the client. The layout tree, the scripting engine and the compositor are
//! driven by the embedding program; every entry point here returns a [`Step`]
//! that names the next operation, and [`resume`] takes its answer.
//!
//! [`Step`]: protocol::Step
//! [`resume`]: resume::resume

pub mod geometry;
pub mod flags;
pub mod fault;
pub mod guard;
pub mod action;
pub mod lockscreen;
pub mod keys;
pub mod protocol;
pub mod registry;
pub mod dispatcher;
pub mod access;
pub mod input;
pub mod views;
pub mod outputs;
pub mod session;
pub mod resume;
pub mod laws;
