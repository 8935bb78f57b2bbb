//! Raw children: comments, plain text and arbitrary inline markup nodes.
//! Raw children are excluded from layout width and sibling computations and
//! are emitted directly into the parent's current row.

use vstd::prelude::*;
use crate::attributes::Attributes;
use crate::buffer::{TagView, Tag, open_markup, close_markup};
use crate::render::{RenderCursor, RenderError};

verus! {

/// Layout state pushed onto an element by its parent: the ambient container
/// width and the sibling counts used for percentage-width math.
pub struct Context {
    /// The ambient container width, in pixels; unconstrained at the root.
    pub container_width: Option<u32>,
    /// How many siblings render alongside this element.
    pub siblings: usize,
    /// How many of those siblings are raw.
    pub raw_siblings: usize,
}

impl Default for Context {
    /// The root context: no container width, one sibling, no raw siblings.
    fn default() -> (r: Context)
        ensures
            r.container_width is None,
            r.siblings == 1,
            r.raw_siblings == 0,
    {
        Context { container_width: None, siblings: 1, raw_siblings: 0 }
    }
}

/// A plain text child, kept verbatim.
pub struct Text {
    /// The text as written in the document.
    pub content: String,
}

impl Text {
    /// Wraps an owned string as a text child.
    pub fn from(content: String) -> (r: Text)
        ensures
            r.content == content,
    {
        Text { content }
    }
}

/// A leaf of an inline markup node.
pub enum RawLeaf {
    /// An HTML comment.
    Comment(String),
    /// Plain text.
    Text(String),
}

/// An inline markup node: a tag with attributes and leaf children.
pub struct Node {
    /// Tag name.
    pub tag: String,
    /// The node's own attributes, emitted in insertion order.
    pub attributes: Attributes,
    /// Layout state set by the parent, if any.
    pub context: Option<Context>,
    /// The node's children.
    pub children: Vec<RawLeaf>,
}

/// A raw child: a comment, an inline markup node, or plain text.
pub enum RawElement {
    /// An HTML comment.
    Comment(String),
    /// An inline markup node.
    Node(Node),
    /// Plain text.
    Text(String),
}

/// `<!-- text -->` markup of a comment.
pub open spec fn comment_markup(t: Seq<char>) -> Seq<char> {
    "<!--"@ + t + "-->"@
}

/// Markup of one leaf.
pub open spec fn leaf_markup(l: RawLeaf) -> Seq<char> {
    match l {
        RawLeaf::Comment(t) => comment_markup(t@),
        RawLeaf::Text(t) => t@,
    }
}

/// Markup of a leaf sequence, concatenated in order.
pub open spec fn leaves_markup(ls: Seq<RawLeaf>) -> Seq<char>
    decreases ls.len(),
{
    if ls.len() == 0 {
        Seq::empty()
    } else {
        leaves_markup(ls.drop_last()) + leaf_markup(ls.last())
    }
}

/// The tag skeleton of an inline node: its attributes in insertion order,
/// no classes or styles of its own.
pub open spec fn node_tag_view(n: Node) -> TagView {
    TagView {
        name: n.tag@,
        attrs: n.attributes.entries_view(),
        classes: Seq::empty(),
        styles: Seq::empty(),
    }
}

/// Markup of an inline node: its opening tag, its leaves, its closing tag.
pub open spec fn node_markup(n: Node) -> Seq<char> {
    open_markup(node_tag_view(n)) + leaves_markup(n.children@) + close_markup(node_tag_view(n))
}

/// Markup of a raw child.
pub open spec fn raw_markup(e: RawElement) -> Seq<char> {
    match e {
        RawElement::Comment(t) => comment_markup(t@),
        RawElement::Node(n) => node_markup(n),
        RawElement::Text(t) => t@,
    }
}

/// Writes `<!-- text -->`.
pub fn render_comment(text: &str, cursor: &mut RenderCursor) -> (r: Result<(), RenderError>)
    ensures
        r is Ok,
        final(cursor).buffer.content() == old(cursor).buffer.content() + comment_markup(text@),
        final(cursor).buffer.counts() == old(cursor).buffer.counts(),
        final(cursor).header == old(cursor).header,
{
    cursor.buffer.push_str("<!--");
    cursor.buffer.push_str(text);
    cursor.buffer.push_str("-->");
    proof {
        assert(final(cursor).buffer.content() =~= old(cursor).buffer.content() + comment_markup(
            text@,
        ));
    }
    Ok(())
}

impl Node {
    /// A fresh inline node.
    pub fn new(tag: String, attributes: Attributes, children: Vec<RawLeaf>) -> (r: Node)
        ensures
            r.tag == tag,
            r.attributes == attributes,
            r.context is None,
            r.children == children,
    {
        Node { tag, attributes, context: None, children }
    }

    /// Writes the node's markup: opening tag, leaves, closing tag.
    pub fn render(&self, cursor: &mut RenderCursor) -> (r: Result<(), RenderError>)
        ensures
            r is Ok,
            final(cursor).buffer.content() == old(cursor).buffer.content() + node_markup(*self),
            final(cursor).buffer.counts() == old(cursor).buffer.counts(),
            final(cursor).header == old(cursor).header,
    {
        let mut t = Tag::new(self.tag.as_str());
        let n = self.attributes.entry_count();
        let mut i: usize = 0;
        proof {
            assert(t@.attrs =~= self.attributes.entries_view().take(0));
        }
        while i < n
            invariant
                n == self.attributes.entries_view().len(),
                i <= n,
                t@ == (TagView {
                    name: self.tag@,
                    attrs: self.attributes.entries_view().take(i as int),
                    classes: Seq::empty(),
                    styles: Seq::empty(),
                }),
            decreases n - i,
        {
            let (k, v) = self.attributes.entry_at(i);
            t = t.add_attribute(k.as_str(), v.as_str());
            proof {
                assert(t@.attrs =~= self.attributes.entries_view().take(i as int + 1));
            }
            i = i + 1;
        }
        proof {
            assert(self.attributes.entries_view().take(n as int) =~= self.attributes.entries_view());
            assert(t@ == node_tag_view(*self));
        }
        t.render_open(&mut cursor.buffer);
        let ghost after_open = cursor.buffer.content();
        let cn = self.children.len();
        let mut j: usize = 0;
        proof {
            assert(leaves_markup(self.children@.take(0)) =~= Seq::<char>::empty());
            assert(cursor.buffer.content() =~= after_open + leaves_markup(self.children@.take(0)));
        }
        while j < cn
            invariant
                cn == self.children@.len(),
                j <= cn,
                cursor.buffer.content() == after_open + leaves_markup(
                    self.children@.take(j as int),
                ),
                cursor.buffer.counts() == old(cursor).buffer.counts(),
                cursor.header == old(cursor).header,
            decreases cn - j,
        {
            match &self.children[j] {
                RawLeaf::Comment(text) => {
                    cursor.buffer.push_str("<!--");
                    cursor.buffer.push_str(text.as_str());
                    cursor.buffer.push_str("-->");
                },
                RawLeaf::Text(text) => {
                    cursor.buffer.push_str(text.as_str());
                },
            }
            proof {
                assert(self.children@.take(j as int + 1).drop_last() =~= self.children@.take(
                    j as int,
                ));
                assert(self.children@.take(j as int + 1).last() == self.children@[j as int]);
                assert(cursor.buffer.content() =~= after_open + leaves_markup(
                    self.children@.take(j as int + 1),
                ));
            }
            j = j + 1;
        }
        proof {
            assert(self.children@.take(cn as int) =~= self.children@);
        }
        t.render_close(&mut cursor.buffer);
        proof {
            assert(cursor.buffer.content() =~= old(cursor).buffer.content() + node_markup(*self));
        }
        Ok(())
    }
}

impl RawElement {
    /// The inline node behind this raw child, if it is one.
    pub fn as_node(&self) -> (r: Option<&Node>)
        ensures
            match self {
                RawElement::Node(n) => r == Some(n),
                _ => r is None,
            },
    {
        match self {
            RawElement::Node(node) => Some(node),
            _ => None,
        }
    }

    /// Raw children never join layout computations.
    pub fn is_raw(&self) -> (r: bool)
        ensures
            r,
    {
        true
    }

    /// Layout state of the inline node, if this is one and its parent set
    /// any.
    pub fn context(&self) -> (r: Option<&Context>)
        ensures
            match self {
                RawElement::Node(n) => match n.context {
                    Some(_) => r is Some,
                    None => r is None,
                },
                _ => r is None,
            },
    {
        match self {
            RawElement::Node(node) => node.context.as_ref(),
            _ => None,
        }
    }

    /// Stores layout state on the inline node; leaves other raw children
    /// unchanged.
    pub fn set_context(&mut self, ctx: Context)
        ensures
            (*old(self)) is Node ==> {
                &&& (*final(self)) is Node
                &&& (*final(self))->Node_0.context == Some(ctx)
                &&& (*final(self))->Node_0.tag == (*old(self))->Node_0.tag
                &&& (*final(self))->Node_0.attributes == (*old(self))->Node_0.attributes
                &&& (*final(self))->Node_0.children == (*old(self))->Node_0.children
            },
            !((*old(self)) is Node) ==> *final(self) == *old(self),
    {
        match self {
            RawElement::Node(node) => {
                node.context = Some(ctx);
            },
            _ => {},
        }
    }

    /// How many children the inline node holds; zero for other raw children.
    pub fn get_children_len(&self) -> (r: usize)
        ensures
            match self {
                RawElement::Node(n) => r == n.children@.len(),
                _ => r == 0,
            },
    {
        match self.as_node() {
            Some(node) => node.children.len(),
            None => 0,
        }
    }

    /// The inline node's children; nothing for other raw children.
    pub fn get_children(&self) -> (r: Option<&Vec<RawLeaf>>)
        ensures
            match self {
                RawElement::Node(n) => r is Some && r.unwrap().view() == n.children@,
                _ => r is None,
            },
    {
        match self {
            RawElement::Node(node) => Some(&node.children),
            _ => None,
        }
    }

    /// The container width the parent pushed onto the inline node, if any.
    pub fn get_current_width(&self) -> (r: Option<u32>)
        ensures
            match self {
                RawElement::Node(n) => r == match n.context {
                    Some(c) => c.container_width,
                    None => None::<u32>,
                },
                _ => r is None,
            },
    {
        match self {
            RawElement::Node(node) => match &node.context {
                Some(c) => c.container_width,
                None => None,
            },
            _ => None,
        }
    }

    /// The inline node's attribute store; nothing for other raw children.
    pub fn attributes(&self) -> (r: Option<&Attributes>)
        ensures
            match self {
                RawElement::Node(n) => r is Some && *r.unwrap() == n.attributes,
                _ => r is None,
            },
    {
        match self {
            RawElement::Node(node) => Some(&node.attributes),
            _ => None,
        }
    }

    /// Writes the raw child's markup; dispatches on its variant.
    pub fn render(&self, cursor: &mut RenderCursor) -> (r: Result<(), RenderError>)
        ensures
            r is Ok,
            final(cursor).buffer.content() == old(cursor).buffer.content() + raw_markup(*self),
            final(cursor).buffer.counts() == old(cursor).buffer.counts(),
            final(cursor).header == old(cursor).header,
    {
        match self {
            RawElement::Comment(value) => render_comment(value.as_str(), cursor),
            RawElement::Node(node) => node.render(cursor),
            RawElement::Text(value) => {
                cursor.buffer.push_str(value.as_str());
                Ok(())
            },
        }
    }
}

} // verus!
