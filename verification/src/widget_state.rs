//! Small decisions of the compositor widget: the error it shows, when it redraws,
//! when its title changes, when it detects a color mask, and what clipboard text
//! it hands between host and Wayland.
use crate::clipboard::crlf_to_lf;
use crate::clipboard::FormatConverter;
use crate::text::{owned_string, same_text};
use vstd::prelude::*;

verus! {

/// Why no application runs in the widget.
#[derive(Debug, Clone)]
pub enum ApplicationError {
    /// The program with this name was not found.
    NotFound(String),
    /// No program was given.
    NotSpecified,
}

/// The error shown for an optional program name: `NotFound` with the name, or none.
pub fn application_error_for(program_name: Option<String>) -> (e: Option<ApplicationError>)
    ensures
        match (e, program_name) {
            (Some(ApplicationError::NotFound(a)), Some(b)) => a == b,
            (None, None) => true,
            _ => false,
        },
{
    match program_name {
        Some(name) => Some(ApplicationError::NotFound(name)),
        None => None,
    }
}

/// The program name and the message drawn for an application error.
pub fn error_caption(error: &ApplicationError) -> (r: (String, &'static str))
    ensures
        match *error {
            ApplicationError::NotFound(name) => r.0@ == name@ && r.1@ == "not found"@,
            ApplicationError::NotSpecified => r.0@ == "No program"@ && r.1@ == "not specified"@,
        },
{
    match error {
        ApplicationError::NotFound(name) => (name.clone(), "not found"),
        ApplicationError::NotSpecified => (owned_string("No program"), "not specified"),
    }
}

/// A render request draws when forced or when some surface has damage; without a
/// compositor, or when it cannot be locked, nothing is drawn.
pub fn render_requested(has_compositor: bool, locked: bool, force: bool, damage_regions: usize) -> (r: bool)
    ensures
        r == (has_compositor && locked && (force || damage_regions > 0)),
{
    has_compositor && locked && (force || damage_regions > 0)
}

/// The title a new header bar shows: the configured one, else `Smearor Compositor`.
pub fn header_bar_title(title: Option<String>) -> (t: String)
    ensures
        t@ == (match title {
            Some(s) => s@,
            None => "Smearor Compositor"@,
        }),
{
    match title {
        Some(s) => s,
        None => owned_string("Smearor Compositor"),
    }
}

/// The header bar label is set only when its text differs from the new title.
pub fn title_needs_update(current: &str, title: &str) -> (r: bool)
    ensures
        r == (current@ != title@),
{
    !same_text(current, title)
}

/// The color mask is detected from a texture when detection is on and no mask was
/// detected yet.
pub fn color_mask_detection_due(auto_color_mask: bool, detected: bool) -> (r: bool)
    ensures
        r == (auto_color_mask && !detected),
{
    auto_color_mask && !detected
}

/// The text to offer to Wayland clients when the host clipboard changed: none when
/// the host clipboard is empty or holds the widget's own content; else the content
/// with `\r\n` made `\n`. The automatic synchronization on a change takes this
/// path whether or not synchronization is enabled.
pub fn changed_host_text(content: Option<&str>, is_own_content: bool) -> (r: Option<String>)
    ensures
        match (r, content) {
            (Some(t), Some(c)) => !is_own_content && t@ == crlf_to_lf(c@),
            (None, Some(_)) => is_own_content,
            (None, None) => true,
            (Some(_), None) => false,
        },
{
    match content {
        Some(c) => {
            if is_own_content {
                None
            } else {
                Some(FormatConverter::gtk_to_wayland_text(c))
            }
        },
        None => None,
    }
}

/// Whether clipboard text is synchronized between the host and Wayland.
pub struct ClipboardSyncState {
    pub sync_enabled: bool,
}

impl ClipboardSyncState {
    /// Synchronization starts enabled.
    pub fn new() -> (s: Self)
        ensures
            s.sync_enabled,
    {
        ClipboardSyncState { sync_enabled: true }
    }

    /// Turns synchronization on or off.
    pub fn set_sync_enabled(&mut self, enabled: bool)
        ensures
            final(self).sync_enabled == enabled,
    {
        self.sync_enabled = enabled;
    }

    /// Whether synchronization is on.
    pub fn is_sync_enabled(&self) -> (r: bool)
        ensures
            r == self.sync_enabled,
    {
        self.sync_enabled
    }

    /// The text to offer to Wayland clients for host clipboard content: none when
    /// synchronization is off, the host is empty, or the content is the widget's own;
    /// else the content with `\r\n` made `\n`.
    pub fn host_to_wayland_text(&self, content: Option<&str>, is_own_content: bool) -> (r: Option<String>)
        ensures
            match (r, content) {
                (Some(t), Some(c)) => self.sync_enabled && !is_own_content && t@ == crlf_to_lf(c@),
                (None, Some(c)) => !self.sync_enabled || is_own_content,
                (None, None) => true,
                (Some(_), None) => false,
            },
    {
        if !self.sync_enabled {
            return None;
        }
        changed_host_text(content, is_own_content)
    }

    /// The text to write to the host clipboard for a Wayland selection: the selection
    /// as it is, when synchronization is on.
    pub fn wayland_to_host_text(&self, content: Option<&str>) -> (r: Option<String>)
        ensures
            match (r, content) {
                (Some(t), Some(c)) => self.sync_enabled && t@ == c@,
                (None, Some(_)) => !self.sync_enabled,
                (None, None) => true,
                (Some(_), None) => false,
            },
    {
        if !self.sync_enabled {
            return None;
        }
        match content {
            Some(c) => Some(FormatConverter::wayland_to_gtk_text(c)),
            None => None,
        }
    }

    /// The MIME types offered with host text: only `text/plain;charset=utf-8`.
    pub fn selection_mime_types() -> (v: Vec<String>)
        ensures
            v@.len() == 1,
            v@[0]@ == "text/plain;charset=utf-8"@,
    {
        let mut v: Vec<String> = Vec::new();
        v.push(owned_string(FormatConverter::canonical_text_mime_type()));
        v
    }
}

} // verus!
