//! Positions, sizes and rectangles on an integer grid.
use crate::text::{push_char, push_signed_decimal, push_str, signed_decimal_seq};
use vstd::prelude::*;
use vstd::std_specs::convert::FromSpecImpl;
use vstd::std_specs::ops::{AddSpecImpl, SubSpecImpl};

verus! {

/// A point given by its two coordinates.
#[derive(Debug, Clone, Copy, PartialEq, Eq, Structural)]
pub struct Position<T> {
    pub x: T,
    pub y: T,
}

/// Width and height of an area.
#[derive(Debug, Clone, Copy, PartialEq, Eq, Structural)]
pub struct Size<T> {
    pub width: T,
    pub height: T,
}

/// A rectangle given by its top-left position and its size.
#[derive(Debug, Clone, Copy, PartialEq, Eq, Structural)]
pub struct Rectangle<T> {
    pub position: Position<T>,
    pub size: Size<T>,
}

/// The sum of two `i32` fits in an `i32`.
pub open spec fn i32_add_fits(a: i32, b: i32) -> bool {
    i32::MIN <= a + b <= i32::MAX
}

/// The difference of two `i32` fits in an `i32`.
pub open spec fn i32_sub_fits(a: i32, b: i32) -> bool {
    i32::MIN <= a - b <= i32::MAX
}


/// Both coordinate sums fit in `i32`.
pub open spec fn position_add_fits(a: Position<i32>, b: Position<i32>) -> bool {
    i32_add_fits(a.x, b.x) && i32_add_fits(a.y, b.y)
}

/// Both coordinate differences fit in `i32`.
pub open spec fn position_sub_fits(a: Position<i32>, b: Position<i32>) -> bool {
    i32_sub_fits(a.x, b.x) && i32_sub_fits(a.y, b.y)
}

/// The coordinate-wise sum of two positions.
pub open spec fn position_sum(a: Position<i32>, b: Position<i32>) -> Position<i32> {
    Position { x: (a.x + b.x) as i32, y: (a.y + b.y) as i32 }
}

/// The coordinate-wise difference of two positions.
pub open spec fn position_difference(a: Position<i32>, b: Position<i32>) -> Position<i32> {
    Position { x: (a.x - b.x) as i32, y: (a.y - b.y) as i32 }
}

/// Both component sums fit in `i32`.
pub open spec fn size_add_fits(a: Size<i32>, b: Size<i32>) -> bool {
    i32_add_fits(a.width, b.width) && i32_add_fits(a.height, b.height)
}

/// Both component differences fit in `i32`.
pub open spec fn size_sub_fits(a: Size<i32>, b: Size<i32>) -> bool {
    i32_sub_fits(a.width, b.width) && i32_sub_fits(a.height, b.height)
}

/// The component-wise sum of two sizes.
pub open spec fn size_sum(a: Size<i32>, b: Size<i32>) -> Size<i32> {
    Size { width: (a.width + b.width) as i32, height: (a.height + b.height) as i32 }
}

/// The component-wise difference of two sizes.
pub open spec fn size_difference(a: Size<i32>, b: Size<i32>) -> Size<i32> {
    Size { width: (a.width - b.width) as i32, height: (a.height - b.height) as i32 }
}

/// All four component sums fit in `i32`.
pub open spec fn rectangle_add_fits(a: Rectangle<i32>, b: Rectangle<i32>) -> bool {
    position_add_fits(a.position, b.position) && size_add_fits(a.size, b.size)
}

/// All four component differences fit in `i32`.
pub open spec fn rectangle_sub_fits(a: Rectangle<i32>, b: Rectangle<i32>) -> bool {
    position_sub_fits(a.position, b.position) && size_sub_fits(a.size, b.size)
}

/// The component-wise sum of two rectangles.
pub open spec fn rectangle_sum(a: Rectangle<i32>, b: Rectangle<i32>) -> Rectangle<i32> {
    Rectangle { position: position_sum(a.position, b.position), size: size_sum(a.size, b.size) }
}

/// The component-wise difference of two rectangles.
pub open spec fn rectangle_difference(a: Rectangle<i32>, b: Rectangle<i32>) -> Rectangle<i32> {
    Rectangle {
        position: position_difference(a.position, b.position),
        size: size_difference(a.size, b.size),
    }
}

impl<T> Position<T> {
    /// Creates a position from its coordinates.
    pub fn new(x: T, y: T) -> (p: Self)
        ensures
            p.x == x,
            p.y == y,
    {
        Position { x, y }
    }
}

impl Position<i32> {
    /// The coordinate-wise maximum of two positions.
    pub fn max(&self, other: &Self) -> (p: Position<i32>)
        ensures
            p.x == (if self.x >= other.x { self.x } else { other.x }),
            p.y == (if self.y >= other.y { self.y } else { other.y }),
    {
        let x = if self.x >= other.x { self.x } else { other.x };
        let y = if self.y >= other.y { self.y } else { other.y };
        Position::new(x, y)
    }

    /// `(x,y)` with decimal coordinates.
    pub fn to_display_string(&self) -> (s: String)
        ensures
            s@ == position_text(*self),
    {
        let mut s = String::new();
        push_position(&mut s, self);
        s
    }
}

/// The text of a position: `(x,y)`.
pub open spec fn position_text(p: Position<i32>) -> Seq<char> {
    seq!['('] + signed_decimal_seq(p.x as int) + seq![','] + signed_decimal_seq(p.y as int) + seq![
        ')',
    ]
}

/// The text of a size: `WIDTHxHEIGHT`.
pub open spec fn size_text(s: Size<i32>) -> Seq<char> {
    signed_decimal_seq(s.width as int) + seq!['x'] + signed_decimal_seq(s.height as int)
}

/// The text of a rectangle: `Rectangle(pos: (x,y), size: WxH)`.
pub open spec fn rectangle_text(r: Rectangle<i32>) -> Seq<char> {
    "Rectangle(pos: "@ + position_text(r.position) + ", size: "@ + size_text(r.size) + ")"@
}

fn push_position(s: &mut String, p: &Position<i32>)
    ensures
        final(s)@ == old(s)@ + position_text(*p),
{
    push_char(s, '(');
    push_signed_decimal(s, p.x as i64);
    push_char(s, ',');
    push_signed_decimal(s, p.y as i64);
    push_char(s, ')');
    assert(final(s)@ =~= old(s)@ + position_text(*p));
}

fn push_size(s: &mut String, z: &Size<i32>)
    ensures
        final(s)@ == old(s)@ + size_text(*z),
{
    push_signed_decimal(s, z.width as i64);
    push_char(s, 'x');
    push_signed_decimal(s, z.height as i64);
    assert(final(s)@ =~= old(s)@ + size_text(*z));
}

/// Each coordinate reinterpreted as `u32` (two's complement, as `as` does).
pub open spec fn unsigned_position(p: Position<i32>) -> Position<u32> {
    Position { x: p.x as u32, y: p.y as u32 }
}

/// Each coordinate reinterpreted as `i32` (two's complement, as `as` does).
pub open spec fn signed_position(p: Position<u32>) -> Position<i32> {
    Position { x: p.x as i32, y: p.y as i32 }
}

impl From<Position<i32>> for Position<u32> {
    /// Reinterprets each coordinate as `u32` (two's complement, as `as` does).
    fn from(position: Position<i32>) -> (p: Self) {
        Position { x: position.x as u32, y: position.y as u32 }
    }
}

impl FromSpecImpl<Position<i32>> for Position<u32> {
    open spec fn obeys_from_spec() -> bool {
        true
    }

    open spec fn from_spec(position: Position<i32>) -> Self {
        unsigned_position(position)
    }
}

impl From<Position<u32>> for Position<i32> {
    /// Reinterprets each coordinate as `i32` (two's complement, as `as` does).
    fn from(position: Position<u32>) -> (p: Self) {
        Position { x: position.x as i32, y: position.y as i32 }
    }
}

impl FromSpecImpl<Position<u32>> for Position<i32> {
    open spec fn obeys_from_spec() -> bool {
        true
    }

    open spec fn from_spec(position: Position<u32>) -> Self {
        signed_position(position)
    }
}

impl Default for Position<i32> {
    fn default() -> (p: Self)
        ensures
            p == (Position { x: 0i32, y: 0i32 }),
    {
        Position { x: 0, y: 0 }
    }
}

impl core::ops::Add for Position<i32> {
    type Output = Position<i32>;

    fn add(self, rhs: Self) -> (p: Self::Output) {
        Position { x: self.x + rhs.x, y: self.y + rhs.y }
    }
}

impl AddSpecImpl for Position<i32> {
    open spec fn obeys_add_spec() -> bool {
        true
    }

    open spec fn add_req(self, rhs: Self) -> bool {
        position_add_fits(self, rhs)
    }

    open spec fn add_spec(self, rhs: Self) -> Self {
        position_sum(self, rhs)
    }
}

impl core::ops::Sub for Position<i32> {
    type Output = Position<i32>;

    fn sub(self, rhs: Self) -> (p: Self::Output) {
        Position { x: self.x - rhs.x, y: self.y - rhs.y }
    }
}

impl SubSpecImpl for Position<i32> {
    open spec fn obeys_sub_spec() -> bool {
        true
    }

    open spec fn sub_req(self, rhs: Self) -> bool {
        position_sub_fits(self, rhs)
    }

    open spec fn sub_spec(self, rhs: Self) -> Self {
        position_difference(self, rhs)
    }
}

impl<T> Size<T> {
    /// Creates a size from its two components.
    pub fn new(width: T, height: T) -> (size: Self)
        ensures
            size.width == width,
            size.height == height,
    {
        Size { width, height }
    }
}

impl Size<i32> {
    /// `WIDTHxHEIGHT` with decimal components.
    pub fn to_display_string(&self) -> (s: String)
        ensures
            s@ == size_text(*self),
    {
        let mut s = String::new();
        push_size(&mut s, self);
        s
    }
}

impl Default for Size<i32> {
    fn default() -> (z: Self)
        ensures
            z == (Size { width: 0i32, height: 0i32 }),
    {
        Size { width: 0, height: 0 }
    }
}

impl core::ops::Add for Size<i32> {
    type Output = Size<i32>;

    fn add(self, rhs: Self) -> (z: Self::Output) {
        Size { width: self.width + rhs.width, height: self.height + rhs.height }
    }
}

impl AddSpecImpl for Size<i32> {
    open spec fn obeys_add_spec() -> bool {
        true
    }

    open spec fn add_req(self, rhs: Self) -> bool {
        size_add_fits(self, rhs)
    }

    open spec fn add_spec(self, rhs: Self) -> Self {
        size_sum(self, rhs)
    }
}

impl core::ops::Sub for Size<i32> {
    type Output = Size<i32>;

    fn sub(self, rhs: Self) -> (z: Self::Output) {
        Size { width: self.width - rhs.width, height: self.height - rhs.height }
    }
}

impl SubSpecImpl for Size<i32> {
    open spec fn obeys_sub_spec() -> bool {
        true
    }

    open spec fn sub_req(self, rhs: Self) -> bool {
        size_sub_fits(self, rhs)
    }

    open spec fn sub_spec(self, rhs: Self) -> Self {
        size_difference(self, rhs)
    }
}

impl<T> Rectangle<T> {
    /// Creates a rectangle from a position and a size.
    pub fn new(position: Position<T>, size: Size<T>) -> (r: Self)
        ensures
            r.position == position,
            r.size == size,
    {
        Rectangle { position, size }
    }

    /// Creates a rectangle from its four components.
    pub fn from_components(x: T, y: T, width: T, height: T) -> (r: Self)
        ensures
            r.position.x == x,
            r.position.y == y,
            r.size.width == width,
            r.size.height == height,
    {
        Rectangle { position: Position::new(x, y), size: Size::new(width, height) }
    }
}

impl Rectangle<i32> {
    /// `Rectangle(pos: (x,y), size: WxH)` with decimal components.
    pub fn to_display_string(&self) -> (s: String)
        ensures
            s@ == rectangle_text(*self),
    {
        let mut s = String::new();
        push_str(&mut s, "Rectangle(pos: ");
        push_position(&mut s, &self.position);
        push_str(&mut s, ", size: ");
        push_size(&mut s, &self.size);
        push_str(&mut s, ")");
        assert(s@ =~= rectangle_text(*self));
        s
    }
}

impl Default for Rectangle<i32> {
    fn default() -> (r: Self)
        ensures
            r == (Rectangle {
                position: Position { x: 0i32, y: 0i32 },
                size: Size { width: 0i32, height: 0i32 },
            }),
    {
        Rectangle { position: Position { x: 0, y: 0 }, size: Size { width: 0, height: 0 } }
    }
}

impl core::ops::Add for Rectangle<i32> {
    type Output = Rectangle<i32>;

    fn add(self, rhs: Self) -> (r: Self::Output) {
        Rectangle { position: self.position + rhs.position, size: self.size + rhs.size }
    }
}

impl AddSpecImpl for Rectangle<i32> {
    open spec fn obeys_add_spec() -> bool {
        true
    }

    open spec fn add_req(self, rhs: Self) -> bool {
        rectangle_add_fits(self, rhs)
    }

    open spec fn add_spec(self, rhs: Self) -> Self {
        rectangle_sum(self, rhs)
    }
}

impl core::ops::Sub for Rectangle<i32> {
    type Output = Rectangle<i32>;

    fn sub(self, rhs: Self) -> (r: Self::Output) {
        Rectangle { position: self.position - rhs.position, size: self.size - rhs.size }
    }
}

impl SubSpecImpl for Rectangle<i32> {
    open spec fn obeys_sub_spec() -> bool {
        true
    }

    open spec fn sub_req(self, rhs: Self) -> bool {
        rectangle_sub_fits(self, rhs)
    }

    open spec fn sub_spec(self, rhs: Self) -> Self {
        rectangle_difference(self, rhs)
    }
}

/// Adding a rectangle and then subtracting it again gives the first rectangle back.
pub proof fn lemma_rectangle_add_sub(a: Rectangle<i32>, b: Rectangle<i32>)
    requires
        rectangle_add_fits(a, b),
    ensures
        rectangle_sub_fits(rectangle_sum(a, b), b),
        rectangle_difference(rectangle_sum(a, b), b) == a,
{
}

/// Converting a position between signed and unsigned coordinates and back gives
/// it back unchanged, both ways.
pub proof fn lemma_position_conversion_roundtrip(p: Position<i32>, q: Position<u32>)
    ensures
        signed_position(unsigned_position(p)) == p,
        unsigned_position(signed_position(q)) == q,
{
    let (x, y) = (p.x, p.y);
    let (u, v) = (q.x, q.y);
    assert((x as u32) as i32 == x) by (bit_vector);
    assert((y as u32) as i32 == y) by (bit_vector);
    assert((u as i32) as u32 == u) by (bit_vector);
    assert((v as i32) as u32 == v) by (bit_vector);
}

} // verus!
