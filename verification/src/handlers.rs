//! What a compositor widget offers its embedder: its socket, its cached color mask
//! and its clipboard.
use crate::socket::Socket;
use vstd::prelude::*;

verus! {

/// Reads and sets the socket that the widget's compositor listens on.
pub trait SocketHandler {
    /// What initializing a socket fails with.
    type Error;

    /// The socket used to connect to the compositor, once one is set.
    fn socket(&self) -> Option<Socket>;

    /// Sets and initializes the socket used to connect to the compositor.
    fn initialize_socket(&self, socket: Socket) -> Result<(), Self::Error>;
}

/// Forgets the dominant colors detected for the color mask, so that they are
/// detected again.
pub trait ColorMaskHandler {
    /// What clearing a cached color fails with.
    type Error;

    /// Forgets the dominant color of the main surface.
    fn clear_cached_dominant_color(&self) -> Result<(), Self::Error>;

    /// Forgets the dominant color of the subsurfaces.
    fn clear_cached_dominant_color_subsurface(&self) -> Result<(), Self::Error>;
}

/// The clipboard content the compositor offers to its clients.
pub trait ClipboardHandler {
    /// What a clipboard access fails with.
    type Error;

    /// Sets the clipboard text.
    fn set_clipboard_content(&self, content: Option<String>) -> Result<(), Self::Error>;

    /// The clipboard text.
    fn get_clipboard_content(&self) -> Result<Option<String>, Self::Error>;

    /// Offers the host's selection to the clients, with its MIME types.
    fn set_selection_from_host(&self, mime_types: Vec<String>) -> Result<(), Self::Error>;
}

} // verus!
