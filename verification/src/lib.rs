//! Core element/render engine for a constrained XML-like email-markup
//! language: attribute resolution with three precedence tiers, pixel width
//! propagation, and HTML emission with mail-client conditional regions.

pub mod numbers;
pub mod strings;
pub mod attributes;
pub mod size;
pub mod buffer;
pub mod header;
pub mod render;
pub mod raw;
pub mod accordion;
pub mod navbar;
pub mod wrapper;
pub mod parser;
pub mod table;
pub mod laws;

use vstd::prelude::*;
use crate::attributes::Attributes;
use crate::render::{RenderOptions, RenderCursor, RenderError};
use crate::wrapper::{MjWrapper, wrapper_markup, children_ids};

verus! {

/// Renders one element tree into a standalone HTML fragment. A fresh
/// buffer and header serve the pass; the root starts with no ambient
/// container width and no parent-injected attributes, and the accumulated
/// header state is discarded with the pass.
pub fn render(root: &MjWrapper, options: &RenderOptions) -> (r: Result<String, RenderError>)
    requires
        children_ids(root@.children) <= u64::MAX,
    ensures
        r is Ok,
        r.unwrap()@ == wrapper_markup(root@, Map::empty(), None, 0),
{
    let mut cursor = RenderCursor::new(options.breakpoint);
    let extra = Attributes::new();
    match root.render(&extra, None, &mut cursor) {
        Ok(_) => Ok(cursor.buffer.into_string()),
        Err(e) => Err(e),
    }
}

} // verus!
