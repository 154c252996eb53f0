use smearor_wrot::clipboard::{FormatConverter, WaylandSelectionError, WaylandSelectionHandler};

#[test]
fn test_gtk_to_wayland_text_conversion() {
    let gtk_text = "Hello\r\nWorld";
    let wayland_text = FormatConverter::gtk_to_wayland_text(gtk_text);
    assert_eq!(wayland_text, "Hello\nWorld");
}

#[test]
fn test_gtk_to_wayland_text_single_pass() {
    assert_eq!(FormatConverter::gtk_to_wayland_text("a\r\r\nb\r"), "a\r\nb\r");
    assert_eq!(FormatConverter::gtk_to_wayland_text(""), "");
}

#[test]
fn test_wayland_to_gtk_text_keeps_text() {
    assert_eq!(FormatConverter::wayland_to_gtk_text("x\r\ny"), "x\r\ny");
}

#[test]
fn test_normalize_line_endings() {
    let text = "Hello\r\nWorld\rTest";
    let normalized = FormatConverter::normalize_line_endings(text);
    assert_eq!(normalized, "Hello\nWorld\nTest");
}

#[test]
fn test_normalize_line_endings_twice_is_once() {
    let once = FormatConverter::normalize_line_endings("a\r\r\nb\r\n\rc");
    assert_eq!(once, "a\n\nb\n\nc");
    assert_eq!(FormatConverter::normalize_line_endings(&once), once);
}

#[test]
fn test_is_text_mime_type() {
    assert!(FormatConverter::is_text_mime_type("text/plain"));
    assert!(FormatConverter::is_text_mime_type("text/plain;charset=utf-8"));
    assert!(FormatConverter::is_text_mime_type("UTF8_STRING"));
    assert!(!FormatConverter::is_text_mime_type("text/uri-list"));
    assert!(FormatConverter::is_text_mime_type("TEXT"));
    assert!(FormatConverter::is_text_mime_type("STRING"));
    assert!(!FormatConverter::is_text_mime_type("string"));
}

#[test]
fn test_map_mime_type() {
    assert_eq!(FormatConverter::map_mime_type("UTF8_STRING"), "text/plain;charset=utf-8");
    assert_eq!(FormatConverter::map_mime_type("text/plain"), "text/plain;charset=utf-8");
    assert_eq!(FormatConverter::map_mime_type("text/uri-list"), "text/uri-list");
}

#[test]
fn test_canonical_text_mime_type() {
    assert_eq!(FormatConverter::canonical_text_mime_type(), "text/plain;charset=utf-8");
}

#[test]
fn test_selection_read_after_write() {
    let mut handler = WaylandSelectionHandler::new();
    assert_eq!(handler.get_selection().unwrap(), None);
    handler.set_selection("copied".to_string()).unwrap();
    assert_eq!(handler.get_selection().unwrap(), Some("copied".to_string()));
    handler.set_selection("again".to_string()).unwrap();
    assert_eq!(handler.get_selection().unwrap(), Some("again".to_string()));
    assert_eq!(WaylandSelectionError::LockError.message(), "Failed to acquire lock");
}

#[test]
fn normalize_line_endings_counts() {
    let text = "a\r\nb\rc\n\r\r\n";
    let result = FormatConverter::normalize_line_endings(text);
    assert_eq!(result, "a\nb\nc\n\n\n");
    assert_eq!(result.len(), text.len() - 2);
    assert_eq!(result.matches('\n').count(), text.matches('\n').count() + 2);
    assert!(!result.contains('\r'));
    assert_eq!(FormatConverter::normalize_line_endings("plain\ntext"), "plain\ntext");
}
