//! Errors of the compositor widget and of its input, configuration and shutdown handling.
use vstd::prelude::*;
use vstd::std_specs::convert::FromSpecImpl;

verus! {

/// The compositor could not be reached.
#[derive(Debug, Clone, Copy, PartialEq, Eq, Structural)]
pub enum CompositorError {
    CompositorNotFound,
    CompositorLockError,
}

/// The message of a compositor error.
pub open spec fn compositor_error_text(e: CompositorError) -> Seq<char> {
    match e {
        CompositorError::CompositorNotFound => "Compositor not found"@,
        CompositorError::CompositorLockError => "Failed to lock compositor"@,
    }
}

impl CompositorError {
    /// The message of the error.
    pub fn message(&self) -> (m: &'static str)
        ensures
            m@ == compositor_error_text(*self),
    {
        match self {
            CompositorError::CompositorNotFound => "Compositor not found",
            CompositorError::CompositorLockError => "Failed to lock compositor",
        }
    }
}

/// A keyboard event could not be handed to the compositor.
#[derive(Debug, Clone, Copy, PartialEq, Eq, Structural)]
pub enum KeyboardInputEventError {
    CompositorError(CompositorError),
}

/// A mouse event could not be handed to the compositor.
#[derive(Debug, Clone, Copy, PartialEq, Eq, Structural)]
pub enum MouseInputEventError {
    CompositorError(CompositorError),
}

/// A touch event could not be handed to the compositor.
#[derive(Debug, Clone, Copy, PartialEq, Eq, Structural)]
pub enum TouchInputEventError {
    CompositorError(CompositorError),
}

/// The widget configuration could not be read or applied.
#[derive(Debug, Clone, Copy, PartialEq, Eq, Structural)]
pub enum ConfigError {
    CompositorError(CompositorError),
    ConfigLockError,
}

/// The shutdown check could not be made.
#[derive(Debug, Clone, Copy, PartialEq, Eq, Structural)]
pub enum ShutdownCheckError {
    CompositorError(CompositorError),
}

impl KeyboardInputEventError {
    /// The message of the error (that of the compositor error it wraps).
    pub fn message(&self) -> (m: &'static str)
        ensures
            m@ == (match *self {
                KeyboardInputEventError::CompositorError(e) => compositor_error_text(e),
            }),
    {
        match self {
            KeyboardInputEventError::CompositorError(e) => e.message(),
        }
    }
}

impl MouseInputEventError {
    /// The message of the error (that of the compositor error it wraps).
    pub fn message(&self) -> (m: &'static str)
        ensures
            m@ == (match *self {
                MouseInputEventError::CompositorError(e) => compositor_error_text(e),
            }),
    {
        match self {
            MouseInputEventError::CompositorError(e) => e.message(),
        }
    }
}

impl TouchInputEventError {
    /// The message of the error (that of the compositor error it wraps).
    pub fn message(&self) -> (m: &'static str)
        ensures
            m@ == (match *self {
                TouchInputEventError::CompositorError(e) => compositor_error_text(e),
            }),
    {
        match self {
            TouchInputEventError::CompositorError(e) => e.message(),
        }
    }
}

impl ConfigError {
    /// The message of the error.
    pub fn message(&self) -> (m: &'static str)
        ensures
            m@ == (match *self {
                ConfigError::CompositorError(e) => compositor_error_text(e),
                ConfigError::ConfigLockError => "Failed to lock config"@,
            }),
    {
        match self {
            ConfigError::CompositorError(e) => e.message(),
            ConfigError::ConfigLockError => "Failed to lock config",
        }
    }
}

impl ShutdownCheckError {
    /// The message of the error (that of the compositor error it wraps).
    pub fn message(&self) -> (m: &'static str)
        ensures
            m@ == (match *self {
                ShutdownCheckError::CompositorError(e) => compositor_error_text(e),
            }),
    {
        match self {
            ShutdownCheckError::CompositorError(e) => e.message(),
        }
    }
}

impl From<CompositorError> for KeyboardInputEventError {
    fn from(e: CompositorError) -> (r: Self) {
        KeyboardInputEventError::CompositorError(e)
    }
}

impl FromSpecImpl<CompositorError> for KeyboardInputEventError {
    open spec fn obeys_from_spec() -> bool {
        true
    }

    open spec fn from_spec(e: CompositorError) -> Self {
        KeyboardInputEventError::CompositorError(e)
    }
}

impl From<CompositorError> for MouseInputEventError {
    fn from(e: CompositorError) -> (r: Self) {
        MouseInputEventError::CompositorError(e)
    }
}

impl FromSpecImpl<CompositorError> for MouseInputEventError {
    open spec fn obeys_from_spec() -> bool {
        true
    }

    open spec fn from_spec(e: CompositorError) -> Self {
        MouseInputEventError::CompositorError(e)
    }
}

impl From<CompositorError> for TouchInputEventError {
    fn from(e: CompositorError) -> (r: Self) {
        TouchInputEventError::CompositorError(e)
    }
}

impl FromSpecImpl<CompositorError> for TouchInputEventError {
    open spec fn obeys_from_spec() -> bool {
        true
    }

    open spec fn from_spec(e: CompositorError) -> Self {
        TouchInputEventError::CompositorError(e)
    }
}

impl From<CompositorError> for ConfigError {
    fn from(e: CompositorError) -> (r: Self) {
        ConfigError::CompositorError(e)
    }
}

impl FromSpecImpl<CompositorError> for ConfigError {
    open spec fn obeys_from_spec() -> bool {
        true
    }

    open spec fn from_spec(e: CompositorError) -> Self {
        ConfigError::CompositorError(e)
    }
}

impl From<CompositorError> for ShutdownCheckError {
    fn from(e: CompositorError) -> (r: Self) {
        ShutdownCheckError::CompositorError(e)
    }
}

impl FromSpecImpl<CompositorError> for ShutdownCheckError {
    open spec fn obeys_from_spec() -> bool {
        true
    }

    open spec fn from_spec(e: CompositorError) -> Self {
        ShutdownCheckError::CompositorError(e)
    }
}

/// Counts the first commits of top-level windows.
pub trait CommitHandler {
    fn get_first_toplevel_commit_count(&self) -> u32;
}

/// Counts the buffers rendered through DMA-BUF.
pub trait DmabufHandler {
    fn get_dma_buf_render_count(&self) -> u32;
}

/// Asks the compositor to shut down once its clients are gone.
pub trait ShutdownHandler {
    fn check_and_request_shutdown(&self) -> Result<(), ShutdownCheckError>;
}

} // verus!
