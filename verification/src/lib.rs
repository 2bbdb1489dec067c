//! Verified control core of a windowed GPU rendering demo.
//!
//! The demo opens windows and renders a textured shape into each through a
//! low-level graphics backend.  The backend and windowing calls themselves
//! live at the unverified boundary; this library holds everything the demo
//! decides on its own and proves it: the deterministic, exactly-once release
//! of GPU handles ([`handles`]), the per-window surface configuration and its
//! resize gating ([`render`]), the texture data prepared from an encoded
//! image ([`texture`]), and the window table with its event dispatch and
//! shutdown rule ([`app`]).

use vstd::prelude::*;

pub mod app;
pub mod entry_map;
pub mod handles;
pub mod render;
pub mod texture;

verus! {

/// Signal sent through the event loop's user-event channel: ask the
/// application to open a new user-visible window once the render context is
/// ready.
#[derive(Clone, Copy, PartialEq, Eq, Structural, Debug)]
pub enum UserEvent {
    RequestNew,
}

} // verus!
