//! A minimal window-management core: it models the events a platform
//! windowing system delivers, classifies each one as a termination signal or
//! not, and decides after every event whether the run loop keeps dispatching.
//! The platform glue (building the window, blocking on the event loop,
//! attaching a canvas in a browser) lives outside this crate and feeds its
//! events through the functions here.

pub mod config;
pub mod dispatch;
pub mod events;
