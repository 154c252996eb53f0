//! Dimensions of a shared-memory buffer.
use crate::text::{push_signed_decimal, push_str, signed_decimal_seq};
use vstd::prelude::*;

verus! {

/// A buffer's width and height in pixels and its stride in bytes per row.
#[derive(Debug, Clone, Copy, PartialEq, Eq, Structural)]
pub struct BufferMetadata {
    pub width: i32,
    pub height: i32,
    pub stride: i32,
}

/// The text of buffer metadata: `WxH with stride S`.
pub open spec fn buffer_metadata_text(m: BufferMetadata) -> Seq<char> {
    signed_decimal_seq(m.width as int) + "x"@ + signed_decimal_seq(m.height as int)
        + " with stride "@ + signed_decimal_seq(m.stride as int)
}

impl BufferMetadata {
    /// Creates buffer metadata.
    pub fn new(width: i32, height: i32, stride: i32) -> (m: Self)
        ensures
            m == (BufferMetadata { width, height, stride }),
    {
        BufferMetadata { width, height, stride }
    }

    /// `WxH with stride S`.
    pub fn to_display_string(&self) -> (s: String)
        ensures
            s@ == buffer_metadata_text(*self),
    {
        let mut s = String::new();
        push_signed_decimal(&mut s, self.width as i64);
        push_str(&mut s, "x");
        push_signed_decimal(&mut s, self.height as i64);
        push_str(&mut s, " with stride ");
        push_signed_decimal(&mut s, self.stride as i64);
        assert(s@ =~= buffer_metadata_text(*self));
        s
    }
}

} // verus!
