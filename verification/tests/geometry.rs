use smearor_wrot::buffer::BufferMetadata;
use smearor_wrot::geometry::{Position, Rectangle, Size};
use smearor_wrot::margin::Margins;

#[test]
fn test_buffer_metadata_new() {
    let metadata = BufferMetadata::new(1920, 1080, 7680);
    assert_eq!(metadata.width, 1920);
    assert_eq!(metadata.height, 1080);
    assert_eq!(metadata.stride, 7680);
}

#[test]
fn test_buffer_metadata_display() {
    let metadata = BufferMetadata::new(800, 600, 3200);
    assert_eq!(metadata.to_display_string(), "800x600 with stride 3200");
}

#[test]
fn test_buffer_metadata_display_negative() {
    let metadata = BufferMetadata::new(-1, 0, i32::MIN);
    assert_eq!(metadata.to_display_string(), "-1x0 with stride -2147483648");
}

#[test]
fn test_rectangle_new() {
    let rect = Rectangle::new(Position::new(10, 20), Size::new(100, 200));
    assert_eq!(rect.position.x, 10);
    assert_eq!(rect.position.y, 20);
    assert_eq!(rect.size.width, 100);
    assert_eq!(rect.size.height, 200);
}

#[test]
fn test_rectangle_from_components() {
    let rect = Rectangle::from_components(10, 20, 100, 200);
    assert_eq!(rect.position.x, 10);
    assert_eq!(rect.position.y, 20);
    assert_eq!(rect.size.width, 100);
    assert_eq!(rect.size.height, 200);
}

#[test]
fn test_rectangle_default() {
    let rect: Rectangle<i32> = Rectangle::default();
    assert_eq!(rect.position.x, 0);
    assert_eq!(rect.position.y, 0);
    assert_eq!(rect.size.width, 0);
    assert_eq!(rect.size.height, 0);
}

#[test]
fn test_rectangle_display() {
    let rect = Rectangle::new(Position::new(10, 20), Size::new(100, 200));
    assert_eq!(rect.to_display_string(), "Rectangle(pos: (10,20), size: 100x200)");
}

#[test]
fn test_rectangle_add() {
    let r1 = Rectangle::new(Position::new(10, 20), Size::new(100, 200));
    let r2 = Rectangle::new(Position::new(5, 5), Size::new(50, 50));
    let result = r1 + r2;
    assert_eq!(result.position.x, 15);
    assert_eq!(result.position.y, 25);
    assert_eq!(result.size.width, 150);
    assert_eq!(result.size.height, 250);
}

#[test]
fn test_rectangle_sub() {
    let r1 = Rectangle::new(Position::new(15, 25), Size::new(150, 250));
    let r2 = Rectangle::new(Position::new(5, 5), Size::new(50, 50));
    let result = r1 - r2;
    assert_eq!(result.position.x, 10);
    assert_eq!(result.position.y, 20);
    assert_eq!(result.size.width, 100);
    assert_eq!(result.size.height, 200);
}

#[test]
fn test_rectangle_add_then_sub_gives_back() {
    let r1 = Rectangle::new(Position::new(-7, 3), Size::new(11, 0));
    let r2 = Rectangle::new(Position::new(2, -9), Size::new(5, 6));
    assert_eq!((r1 + r2) - r2, r1);
}

#[test]
fn test_rectangle_eq() {
    let r1 = Rectangle::new(Position::new(10, 20), Size::new(100, 200));
    let r2 = Rectangle::new(Position::new(10, 20), Size::new(100, 200));
    let r3 = Rectangle::new(Position::new(10, 20), Size::new(100, 201));
    assert_eq!(r1, r2);
    assert_ne!(r1, r3);
}

#[test]
fn test_position_max() {
    let a = Position::new(3, -4);
    let b = Position::new(-1, 7);
    assert_eq!(a.max(&b), Position::new(3, 7));
}

#[test]
fn test_position_conversions() {
    let p: Position<u32> = Position::new(-1i32, 5i32).into();
    assert_eq!(p, Position::new(u32::MAX, 5));
    let q: Position<i32> = Position::new(u32::MAX, 5u32).into();
    assert_eq!(q, Position::new(-1, 5));
}

#[test]
fn test_position_and_size_display() {
    assert_eq!(Position::new(-3, 0).to_display_string(), "(-3,0)");
    assert_eq!(Size::new(640, 480).to_display_string(), "640x480");
}

#[test]
fn test_margins_new() {
    let margins = Margins::new(10, 20, 30, 40);
    assert_eq!(margins.left, 10);
    assert_eq!(margins.right, 20);
    assert_eq!(margins.top, 30);
    assert_eq!(margins.bottom, 40);
}

#[test]
fn test_margins_default() {
    let margins = Margins::default();
    assert_eq!(margins.left, 0);
    assert_eq!(margins.right, 0);
    assert_eq!(margins.top, 0);
    assert_eq!(margins.bottom, 0);
}

#[test]
fn test_margins_display() {
    let margins = Margins::new(10, 20, 30, 40);
    assert_eq!(margins.to_display_string(), "(left: 10, right: 20, top: 30, bottom: 40)");
}

#[test]
fn test_margins_builder() {
    let margins = Margins::builder().left(5).right(15).top(25).bottom(35).build();
    assert_eq!(margins.left, 5);
    assert_eq!(margins.right, 15);
    assert_eq!(margins.top, 25);
    assert_eq!(margins.bottom, 35);
}

#[test]
fn position_sign_conversion_roundtrip() {
    let p = Position::new(-1i32, 5i32);
    let u: Position<u32> = Position::from(p);
    assert_eq!(u.x, u32::MAX);
    assert_eq!(u.y, 5);
    let back: Position<i32> = Position::from(u);
    assert!(back == p);
    let q = Position::new(u32::MAX - 1, 0u32);
    let s: Position<i32> = Position::from(q);
    assert_eq!(s.x, -2);
    let q2: Position<u32> = Position::from(s);
    assert!(q2 == q);
}
