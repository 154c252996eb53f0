//! Messages from the compositor core to the GTK wrapper.
use vstd::prelude::*;

verus! {

/// A request or notification sent by the compositor core.
#[derive(Debug, Clone)]
pub enum CompositorMessage {
    Maximize,
    Unmaximize,
    Minimize,
    Fullscreen,
    Unfullscreen,
    Resize(i32, i32),
    Shutdown,
    TitleChanged(String),
    AppIdChanged(String),
    WindowMapped,
    FirstCommit,
    WaylandSelectionChanged,
    MoveRequest(u32),
    ResizeRequest(u32),
}

} // verus!
