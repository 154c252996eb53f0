use smearor_wrot::config::{ConfigError, DebugOverlayConfig};
use smearor_wrot::errors::{
    CompositorError, ConfigError as WidgetConfigError, KeyboardInputEventError, MouseInputEventError,
    ShutdownCheckError, TouchInputEventError,
};
use smearor_wrot::keyboard::KeyboardLayout;
use smearor_wrot::managers::{KeyboardConfig, KeyboardManager, MarginConfig, MarginManager};
use smearor_wrot::message::CompositorMessage;

#[test]
fn test_keyboard_layout_new() {
    let layout = KeyboardLayout::new("de".to_string(), None);
    assert_eq!(layout.layout, "de");
    assert!(layout.variant.is_none());
}

#[test]
fn test_keyboard_layout_full_name_without_variant() {
    let layout = KeyboardLayout::new("us".to_string(), None);
    assert_eq!(layout.full_name(), "us");
}

#[test]
fn test_keyboard_layout_full_name_with_variant() {
    let layout = KeyboardLayout::new("de".to_string(), Some("nodeadkeys".to_string()));
    assert_eq!(layout.full_name(), "de(nodeadkeys)");
}

#[test]
fn test_keyboard_layout_from_localectl() {
    let out = "   System Locale: LANG=de_DE.UTF-8\n       VC Keymap: de\n      X11 Layout: de\n       X11 Model: pc105\n";
    let layout = KeyboardLayout::from_localectl_status(out).unwrap();
    assert_eq!(layout.layout, "de");
    assert!(layout.variant.is_none());
    assert!(KeyboardLayout::from_localectl_status("VC Keymap: us\n").is_none());
    let crlf = KeyboardLayout::from_localectl_status("X11 Layout:\tus \r\n").unwrap();
    assert_eq!(crlf.layout, "us");
}

#[test]
fn test_keyboard_layout_from_gsettings() {
    let plain = KeyboardLayout::from_gsettings_sources("[('xkb', 'us'), ('xkb', 'de')]\n").unwrap();
    assert_eq!(plain.layout, "us");
    assert!(plain.variant.is_none());
    let with_variant = KeyboardLayout::from_gsettings_sources("[('xkb',  'de(nodeadkeys)')]").unwrap();
    assert_eq!(with_variant.layout, "de");
    assert_eq!(with_variant.variant.as_deref(), Some("nodeadkeys"));
    let plus = KeyboardLayout::from_gsettings_sources("[('xkb', 'us+intl')]").unwrap();
    assert_eq!(plus.layout, "us+intl");
    assert!(KeyboardLayout::from_gsettings_sources("@a(ss) []").is_none());
    assert!(KeyboardLayout::from_gsettings_sources("[('ibus', 'mozc')]").is_none());
}

#[test]
fn test_keyboard_layout_from_etc_default_keyboard() {
    let content = "# KEYBOARD CONFIGURATION FILE\nXKBMODEL=\"pc105\"\nXKBLAYOUT=\"de\"\nXKBVARIANT=\"nodeadkeys\"\r\nXKBOPTIONS=\"\"\n";
    let layout = KeyboardLayout::from_etc_default_keyboard(content).unwrap();
    assert_eq!(layout.layout, "de");
    assert_eq!(layout.variant.as_deref(), Some("nodeadkeys"));
    assert!(KeyboardLayout::from_etc_default_keyboard("XKBVARIANT=\"x\"\n").is_none());
    let last_wins = KeyboardLayout::from_etc_default_keyboard("XKBLAYOUT=us\nXKBLAYOUT=fr").unwrap();
    assert_eq!(last_wins.layout, "fr");
    assert!(last_wins.variant.is_none());
}

#[test]
fn test_keyboard_manager() {
    let mut manager = KeyboardManager::new(KeyboardConfig::builder().build());
    assert_eq!(manager.keyboard_layout(), "us");
    assert_eq!(manager.keyboard_variant(), None);
    manager.set_keyboard_layout("de".to_string());
    manager.set_keyboard_variant("nodeadkeys".to_string());
    assert_eq!(manager.keyboard_layout(), "de");
    assert_eq!(manager.keyboard_variant(), Some("nodeadkeys".to_string()));
    let configured = KeyboardManager::new(KeyboardConfig::builder().keyboard_layout(Some("fr".to_string())).build());
    assert_eq!(configured.keyboard_layout(), "fr");
}

#[test]
fn test_margin_manager() {
    let config = MarginConfig::builder().margin_left(1).margin_right(2).margin_top(3).margin_bottom(4).dialog_margin(5).build();
    let mut manager = MarginManager::new(config);
    assert_eq!(manager.margin_horizontal(), 3);
    assert_eq!(manager.margin_vertical(), 7);
    assert_eq!(manager.dialog_margin(), 5);
    manager.set_margin_left(10);
    manager.set_margin_bottom(20);
    manager.set_margin_right(30);
    manager.set_margin_top(40);
    manager.set_dialog_margin(50);
    assert_eq!(manager.margin_left(), 10);
    assert_eq!(manager.margin_right(), 30);
    assert_eq!(manager.margin_top(), 40);
    assert_eq!(manager.margin_bottom(), 20);
    assert_eq!(manager.dialog_margin(), 50);
    let size = manager.margin_size();
    assert_eq!((size.width, size.height), (40, 60));
}

#[test]
fn test_debug_overlay_config_default() {
    let config = DebugOverlayConfig::default();
    assert!(!config.debug_pointer);
    assert!(!config.debug_touch);
}

#[test]
fn test_config_error_display() {
    assert_eq!(ConfigError::ReadError("gone".to_string()).to_display_string(), "Failed to read config file: gone");
    assert_eq!(ConfigError::ParseError("bad".to_string()).to_display_string(), "Failed to parse config file: bad");
}

#[test]
fn test_error_messages_and_conversions() {
    assert_eq!(CompositorError::CompositorNotFound.message(), "Compositor not found");
    let k: KeyboardInputEventError = CompositorError::CompositorLockError.into();
    assert_eq!(k.message(), "Failed to lock compositor");
    let m: MouseInputEventError = CompositorError::CompositorNotFound.into();
    assert_eq!(m, MouseInputEventError::CompositorError(CompositorError::CompositorNotFound));
    let t: TouchInputEventError = CompositorError::CompositorNotFound.into();
    assert_eq!(t.message(), "Compositor not found");
    let c: WidgetConfigError = CompositorError::CompositorLockError.into();
    assert_eq!(c.message(), "Failed to lock compositor");
    assert_eq!(WidgetConfigError::ConfigLockError.message(), "Failed to lock config");
    let s: ShutdownCheckError = CompositorError::CompositorNotFound.into();
    assert_eq!(s.message(), "Compositor not found");
}

#[test]
fn test_compositor_message_clone() {
    let msg = CompositorMessage::TitleChanged("test".to_string());
    let cloned = msg.clone();
    match cloned {
        CompositorMessage::TitleChanged(title) => assert_eq!(title, "test"),
        _ => panic!("Expected TitleChanged variant"),
    }
}

#[test]
fn test_compositor_message_debug() {
    let msg = CompositorMessage::Resize(800, 600);
    let debug_str = format!("{:?}", msg);
    assert!(debug_str.contains("Resize"));
    assert!(debug_str.contains("800"));
    assert!(debug_str.contains("600"));
}

#[test]
fn test_compositor_message_variant_maximize() {
    let msg = CompositorMessage::Maximize;
    let debug_str = format!("{:?}", msg);
    assert_eq!(debug_str, "Maximize");
}

#[test]
fn test_compositor_message_variant_shutdown() {
    let msg = CompositorMessage::Shutdown;
    let debug_str = format!("{:?}", msg);
    assert_eq!(debug_str, "Shutdown");
}

#[test]
fn test_compositor_message_variant_move_request() {
    let msg = CompositorMessage::MoveRequest(42);
    let debug_str = format!("{:?}", msg);
    assert!(debug_str.contains("42"));
}
