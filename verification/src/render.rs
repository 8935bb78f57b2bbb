//! Shared render plumbing: the options handed to a render pass, the cursor
//! every renderer writes through, and the render error type.

use vstd::prelude::*;
use crate::buffer::RenderBuffer;
use crate::header::Header;

verus! {

/// Configuration of one render pass. The pretty-print toggle is carried for
/// collaborators assembling the final document; the core emission protocol
/// ignores it.
pub struct RenderOptions {
    /// The responsive breakpoint, in pixels.
    pub breakpoint: u32,
    /// Whether the assembled document should be pretty-printed.
    pub pretty: bool,
}

impl Default for RenderOptions {
    /// The stock options: a 480px breakpoint, compact output.
    fn default() -> (r: RenderOptions)
        ensures
            r.breakpoint == 480,
            !r.pretty,
    {
        RenderOptions { breakpoint: 480, pretty: false }
    }
}

/// The mutable state threaded through one render pass: the output buffer
/// and the shared header accumulator.
pub struct RenderCursor {
    /// The output buffer.
    pub buffer: RenderBuffer,
    /// The shared header accumulator.
    pub header: Header,
}

impl RenderCursor {
    /// A fresh cursor for one render pass.
    pub fn new(breakpoint: u32) -> (r: RenderCursor)
        ensures
            r.buffer.content() == Seq::<char>::empty(),
            r.buffer.counts() == crate::buffer::MarkerCounts::zero(),
            r.header.fonts_view() == Seq::<Seq<char>>::empty(),
            r.header.styles_view() == Seq::<Seq<char>>::empty(),
            r.header.breakpoint_spec() == breakpoint,
            r.header.id_counter_spec() == 0,
    {
        RenderCursor { buffer: RenderBuffer::new(), header: Header::new(breakpoint) }
    }
}

/// A render error. The core render algorithm is total: the only errors a
/// render pass can surface are those signalled by a child renderer outside
/// the kinds defined here, carried through unchanged.
#[derive(Debug)]
pub enum RenderError {
    /// An error propagated from a child renderer.
    Child(String),
}

} // verus!
