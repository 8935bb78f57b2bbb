//! The table kind's element: its attribute store, the layout state its
//! parent pushes onto it, and its children.

use vstd::prelude::*;
use crate::attributes::Attributes;
use crate::raw::Context;
use crate::wrapper::MjBodyChild;

verus! {

/// A table element: rows and cells authored directly in the document.
pub struct MJTable {
    attributes: Attributes,
    context: Option<Context>,
    children: Vec<MjBodyChild>,
}

impl MJTable {
    /// A fresh table element; the layout context is set by the parent
    /// during rendering.
    pub fn new(attributes: Attributes, children: Vec<MjBodyChild>) -> (r: MJTable)
        ensures
            r.attributes_ref() == attributes,
            r.spec_context() is None,
            r.children_ref() == children,
    {
        MJTable { attributes, context: None, children }
    }

    /// The table's own attributes.
    pub closed spec fn attributes_ref(&self) -> Attributes {
        self.attributes
    }

    /// The layout state the parent pushed, if any.
    pub closed spec fn spec_context(&self) -> Option<Context> {
        self.context
    }

    /// The table's children.
    pub closed spec fn children_ref(&self) -> Vec<MjBodyChild> {
        self.children
    }

    /// The table's own attributes.
    pub fn attributes(&self) -> (r: &Attributes)
        ensures
            *r == self.attributes_ref(),
    {
        &self.attributes
    }

    /// The layout state the parent pushed, if any.
    pub fn context(&self) -> (r: &Option<Context>)
        ensures
            *r == self.spec_context(),
    {
        &self.context
    }

    /// Stores the layout state the parent computed.
    pub fn set_context(&mut self, ctx: Context)
        ensures
            final(self).spec_context() == Some(ctx),
            final(self).attributes_ref() == old(self).attributes_ref(),
            final(self).children_ref() == old(self).children_ref(),
    {
        self.context = Some(ctx);
    }

    /// How many children the table holds.
    pub fn get_children_len(&self) -> (r: usize)
        ensures
            r == self.children_ref()@.len(),
    {
        self.children.len()
    }
}

} // verus!
