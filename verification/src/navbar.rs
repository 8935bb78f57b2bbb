//! The navigation-bar kind: inline links wrapped for the legacy client in a
//! conditional table, an optional hamburger disclosure toggle driven by a
//! checkbox/label pair with a pass-unique id, and one responsive style
//! block registered in the header per rendered navbar.

use vstd::prelude::*;
use vstd::string::StringExecFns;
use crate::attributes::{Attributes, resolve_spec, resolve_attribute, resolved_equals, opt_insert};
use crate::buffer::{
    Tag, TagView, open_markup, close_markup, closed_markup, opt_push, opt_push_one,
    mso_neg_start_marker, neg_end_marker, cond_start_marker, cond_end_marker, MarkerCounts,
};
use crate::numbers::{dec_seq, push_decimal};
use crate::raw::{Text, comment_markup};
use crate::render::{RenderCursor, RenderError};
use crate::strings::opt_str_view;
use crate::accordion::{texts_markup, fonts_after, plain_tag, class_tag};

verus! {

/// One link of a navigation bar.
pub struct MjNavbarLink {
    /// The link's own attributes.
    pub attributes: Attributes,
    /// The link's text children.
    pub children: Vec<Text>,
}

/// A child of a navigation bar: a link, or a comment kept verbatim.
pub enum MjNavbarChild {
    /// A link.
    MjNavbarLink(MjNavbarLink),
    /// A comment.
    Comment(String),
}

/// A navigation bar.
pub struct MjNavbar {
    /// The bar's own attributes.
    pub attributes: Attributes,
    /// The bar's children, in document order.
    pub children: Vec<MjNavbarChild>,
}

/// Per-render state of a navigation bar: the layout numbers pushed by the
/// parent and the pass-unique id pairing the toggle checkbox with its
/// label.
pub struct MjNavbarExtra {
    /// The ambient container width, set by the parent before rendering.
    pub container_width: Option<u32>,
    /// How many siblings render alongside the bar.
    pub siblings: usize,
    /// How many of those siblings are raw.
    pub raw_siblings: usize,
    /// The pass-unique id of the hamburger toggle.
    pub id: String,
}

impl MjNavbarExtra {
    /// Fresh per-render state; no container width is set yet.
    pub fn new(siblings: usize, raw_siblings: usize, id: String) -> (r: MjNavbarExtra)
        ensures
            r.container_width is None,
            r.siblings == siblings,
            r.raw_siblings == raw_siblings,
            r.id == id,
    {
        MjNavbarExtra { container_width: None, siblings, raw_siblings, id }
    }

    /// Stores the ambient container width pushed by the parent.
    pub fn set_container_width(&mut self, width: Option<u32>)
        ensures
            *final(self) == (MjNavbarExtra { container_width: width, ..*old(self) }),
    {
        self.container_width = width;
    }

    /// Stores the sibling count pushed by the parent.
    pub fn set_siblings(&mut self, value: usize)
        ensures
            *final(self) == (MjNavbarExtra { siblings: value, ..*old(self) }),
    {
        self.siblings = value;
    }

    /// Stores the raw-sibling count pushed by the parent.
    pub fn set_raw_siblings(&mut self, value: usize)
        ensures
            *final(self) == (MjNavbarExtra { raw_siblings: value, ..*old(self) }),
    {
        self.raw_siblings = value;
    }

    /// The width the bar renders in, if a container width was pushed.
    pub fn get_width(&self) -> (r: Option<u32>)
        ensures
            r == self.container_width,
    {
        self.container_width
    }
}

/// Abstract content of a link.
pub struct NavbarLinkView {
    /// The link's own attributes.
    pub attributes: Map<Seq<char>, Seq<char>>,
    /// The text contents of the link's children.
    pub children: Seq<Seq<char>>,
}

/// Abstract content of a navbar child.
pub enum NavbarChildView {
    /// A link.
    Link(NavbarLinkView),
    /// A comment.
    Comment(Seq<char>),
}

/// Abstract content of a navigation bar.
pub struct NavbarView {
    /// The bar's own attributes.
    pub attributes: Map<Seq<char>, Seq<char>>,
    /// The bar's children.
    pub children: Seq<NavbarChildView>,
}

impl View for MjNavbarLink {
    type V = NavbarLinkView;

    open spec fn view(&self) -> NavbarLinkView {
        NavbarLinkView {
            attributes: self.attributes@,
            children: Seq::new(self.children@.len(), |i: int| self.children@[i].content@),
        }
    }
}

impl View for MjNavbarChild {
    type V = NavbarChildView;

    open spec fn view(&self) -> NavbarChildView {
        match self {
            MjNavbarChild::MjNavbarLink(l) => NavbarChildView::Link(l@),
            MjNavbarChild::Comment(c) => NavbarChildView::Comment(c@),
        }
    }
}

impl View for MjNavbar {
    type V = NavbarView;

    open spec fn view(&self) -> NavbarView {
        NavbarView {
            attributes: self.attributes@,
            children: Seq::new(self.children@.len(), |i: int| self.children@[i]@),
        }
    }
}

/// The navigation bar's static defaults.
pub open spec fn navbar_default(name: Seq<char>) -> Option<Seq<char>> {
    if name == "align"@ {
        Some("center"@)
    } else if name == "ico-align"@ {
        Some("center"@)
    } else if name == "ico-open"@ {
        Some("&#9776;"@)
    } else if name == "ico-close"@ {
        Some("&#8855;"@)
    } else if name == "ico-color"@ {
        Some("#000000"@)
    } else if name == "ico-font-family"@ {
        Some("Ubuntu, Helvetica, Arial, sans-serif"@)
    } else if name == "ico-font-size"@ {
        Some("30px"@)
    } else if name == "ico-text-transform"@ {
        Some("uppercase"@)
    } else if name == "ico-padding"@ {
        Some("10px"@)
    } else if name == "ico-text-decoration"@ {
        Some("none"@)
    } else if name == "ico-line-height"@ {
        Some("30px"@)
    } else {
        None
    }
}

fn navbar_default_attribute(name: &str) -> (r: Option<&'static str>)
    ensures
        match r {
            Some(v) => navbar_default(name@) == Some(v@),
            None => navbar_default(name@) is None,
        },
{
    if crate::strings::str_eq(name, "align") {
        Some("center")
    } else if crate::strings::str_eq(name, "ico-align") {
        Some("center")
    } else if crate::strings::str_eq(name, "ico-open") {
        Some("&#9776;")
    } else if crate::strings::str_eq(name, "ico-close") {
        Some("&#8855;")
    } else if crate::strings::str_eq(name, "ico-color") {
        Some("#000000")
    } else if crate::strings::str_eq(name, "ico-font-family") {
        Some("Ubuntu, Helvetica, Arial, sans-serif")
    } else if crate::strings::str_eq(name, "ico-font-size") {
        Some("30px")
    } else if crate::strings::str_eq(name, "ico-text-transform") {
        Some("uppercase")
    } else if crate::strings::str_eq(name, "ico-padding") {
        Some("10px")
    } else if crate::strings::str_eq(name, "ico-text-decoration") {
        Some("none")
    } else if crate::strings::str_eq(name, "ico-line-height") {
        Some("30px")
    } else {
        None
    }
}

/// The link kind's static defaults.
pub open spec fn link_default(name: Seq<char>) -> Option<Seq<char>> {
    if name == "color"@ {
        Some("#000000"@)
    } else if name == "font-family"@ {
        Some("Ubuntu, Helvetica, Arial, sans-serif"@)
    } else if name == "font-size"@ {
        Some("13px"@)
    } else if name == "line-height"@ {
        Some("22px"@)
    } else if name == "padding"@ {
        Some("15px 10px"@)
    } else if name == "text-decoration"@ {
        Some("none"@)
    } else if name == "text-transform"@ {
        Some("uppercase"@)
    } else {
        None
    }
}

fn link_default_attribute(name: &str) -> (r: Option<&'static str>)
    ensures
        match r {
            Some(v) => link_default(name@) == Some(v@),
            None => link_default(name@) is None,
        },
{
    if crate::strings::str_eq(name, "color") {
        Some("#000000")
    } else if crate::strings::str_eq(name, "font-family") {
        Some("Ubuntu, Helvetica, Arial, sans-serif")
    } else if crate::strings::str_eq(name, "font-size") {
        Some("13px")
    } else if crate::strings::str_eq(name, "line-height") {
        Some("22px")
    } else if crate::strings::str_eq(name, "padding") {
        Some("15px 10px")
    } else if crate::strings::str_eq(name, "text-decoration") {
        Some("none")
    } else if crate::strings::str_eq(name, "text-transform") {
        Some("uppercase")
    } else {
        None
    }
}

/// Attribute resolution for a navigation bar.
pub open spec fn navbar_attr(
    n: NavbarView,
    extra: Map<Seq<char>, Seq<char>>,
    name: Seq<char>,
) -> Option<Seq<char>> {
    resolve_spec(extra, n.attributes, navbar_default(name), name)
}

/// Attribute resolution for a link.
pub open spec fn link_attr(
    l: NavbarLinkView,
    extra: Map<Seq<char>, Seq<char>>,
    name: Seq<char>,
) -> Option<Seq<char>> {
    resolve_spec(extra, l.attributes, link_default(name), name)
}

pub(crate) fn navbar_attribute(elt: &MjNavbar, extra: &Attributes, name: &str) -> (r: Option<String>)
    ensures
        opt_str_view(r) == navbar_attr(elt@, extra@, name@),
{
    resolve_attribute(extra, &elt.attributes, navbar_default_attribute(name), name)
}

fn link_attribute(elt: &MjNavbarLink, extra: &Attributes, name: &str) -> (r: Option<String>)
    ensures
        opt_str_view(r) == link_attr(elt@, extra@, name@),
{
    resolve_attribute(extra, &elt.attributes, link_default_attribute(name), name)
}

/// The destination of a link: the injected base url, its own `href`, or
/// their concatenation when both resolve.
pub open spec fn link_href(l: NavbarLinkView, extra: Map<Seq<char>, Seq<char>>) -> Option<
    Seq<char>,
> {
    match link_attr(l, extra, "href"@) {
        Some(h) => match link_attr(l, extra, "navbar-base-url"@) {
            Some(b) => Some(b + h),
            None => Some(h),
        },
        None => link_attr(l, extra, "navbar-base-url"@),
    }
}

/// The anchor tag of a link.
pub open spec fn link_a_view(l: NavbarLinkView, extra: Map<Seq<char>, Seq<char>>) -> TagView {
    TagView {
        name: "a"@,
        attrs: opt_push(
            opt_push(Seq::empty(), "href"@, link_href(l, extra)),
            "target"@,
            link_attr(l, extra, "target"@),
        ),
        classes: opt_push_one(seq!["mj-link"@], link_attr(l, extra, "css-class"@)),
        styles: opt_push(
            opt_push(
                opt_push(
                    opt_push(
                        opt_push(
                            opt_push(
                                opt_push(
                                    seq![("display"@, "inline-block"@)],
                                    "color"@,
                                    link_attr(l, extra, "color"@),
                                ),
                                "font-family"@,
                                link_attr(l, extra, "font-family"@),
                            ),
                            "font-size"@,
                            link_attr(l, extra, "font-size"@),
                        ),
                        "line-height"@,
                        link_attr(l, extra, "line-height"@),
                    ),
                    "padding"@,
                    link_attr(l, extra, "padding"@),
                ),
                "text-decoration"@,
                link_attr(l, extra, "text-decoration"@),
            ),
            "text-transform"@,
            link_attr(l, extra, "text-transform"@),
        ),
    }
}

/// Full markup of a link: its anchor wrapping its text children.
#[verifier::opaque]
pub open spec fn link_markup(l: NavbarLinkView, extra: Map<Seq<char>, Seq<char>>) -> Seq<char> {
    open_markup(link_a_view(l, extra)) + texts_markup(l.children) + close_markup(
        link_a_view(l, extra),
    )
}

impl MjNavbarLink {
    fn build_href(&self, extra: &Attributes) -> (r: Option<String>)
        ensures
            opt_str_view(r) == link_href(self@, extra@),
    {
        let href = link_attribute(self, extra, "href");
        let base = link_attribute(self, extra, "navbar-base-url");
        match href {
            Some(h) => match base {
                Some(b) => {
                    let mut full = b;
                    full.append(h.as_str());
                    Some(full)
                },
                None => Some(h),
            },
            None => base,
        }
    }

    /// Renders one link: its anchor tag with the injected base url applied,
    /// then its text children, then the closing tag.
    #[verifier::rlimit(100)]
    pub fn render(&self, extra: &Attributes, cursor: &mut RenderCursor) -> (r: Result<(), RenderError>)
        ensures
            r is Ok,
            final(cursor).buffer.content() == old(cursor).buffer.content() + link_markup(
                self@,
                extra@,
            ),
            final(cursor).buffer.counts() == old(cursor).buffer.counts(),
            final(cursor).header.fonts_view() == fonts_after(
                old(cursor).header.fonts_view(),
                link_attr(self@, extra@, "font-family"@),
            ),
            final(cursor).header.styles_view() == old(cursor).header.styles_view(),
            final(cursor).header.breakpoint_spec() == old(cursor).header.breakpoint_spec(),
            final(cursor).header.id_counter_spec() == old(cursor).header.id_counter_spec(),
    {
        cursor.header.maybe_add_font_families(link_attribute(self, extra, "font-family"));
        let a = Tag::new("a").add_class("mj-link").maybe_add_class(
            link_attribute(self, extra, "css-class"),
        ).add_style("display", "inline-block").maybe_add_style(
            "color",
            link_attribute(self, extra, "color"),
        ).maybe_add_style("font-family", link_attribute(self, extra, "font-family")).maybe_add_style(
            "font-size",
            link_attribute(self, extra, "font-size"),
        ).maybe_add_style("line-height", link_attribute(self, extra, "line-height")).maybe_add_style(
            "padding",
            link_attribute(self, extra, "padding"),
        ).maybe_add_style(
            "text-decoration",
            link_attribute(self, extra, "text-decoration"),
        ).maybe_add_style(
            "text-transform",
            link_attribute(self, extra, "text-transform"),
        ).maybe_add_attribute("href", self.build_href(extra)).maybe_add_attribute(
            "target",
            link_attribute(self, extra, "target"),
        );
        proof {
            reveal(link_markup);
            assert(a@.attrs =~= link_a_view(self@, extra@).attrs);
            assert(a@.classes =~= link_a_view(self@, extra@).classes);
            assert(a@.styles =~= link_a_view(self@, extra@).styles);
            assert(a@ == link_a_view(self@, extra@));
        }
        a.render_open(&mut cursor.buffer);
        let ghost after_open = cursor.buffer.content();
        let ghost header_now = cursor.header;
        let n = self.children.len();
        let mut i: usize = 0;
        proof {
            assert(cursor.buffer.content() =~= after_open + texts_markup(self@.children.take(0)));
        }
        while i < n
            invariant
                n == self.children@.len(),
                n == self@.children.len(),
                i <= n,
                self@.children == Seq::new(
                    self.children@.len(),
                    |k: int| self.children@[k].content@,
                ),
                cursor.buffer.content() == after_open + texts_markup(
                    self@.children.take(i as int),
                ),
                cursor.buffer.counts() == old(cursor).buffer.counts(),
                cursor.header == header_now,
            decreases n - i,
        {
            cursor.buffer.push_str(self.children[i].content.as_str());
            proof {
                assert(self@.children.take(i as int + 1).drop_last() =~= self@.children.take(
                    i as int,
                ));
                assert(self@.children.take(i as int + 1).last() == self@.children[i as int]);
                assert(cursor.buffer.content() =~= after_open + texts_markup(
                    self@.children.take(i as int + 1),
                ));
            }
            i = i + 1;
        }
        proof {
            assert(self@.children.take(n as int) =~= self@.children);
        }
        a.render_close(&mut cursor.buffer);
        proof {
            reveal(link_markup);
            assert(cursor.buffer.content() =~= old(cursor).buffer.content() + link_markup(
                self@,
                extra@,
            ));
        }
        Ok(())
    }
}

/// The content of an optional attribute pushed verbatim, or nothing.
pub open spec fn opt_text(v: Option<Seq<char>>) -> Seq<char> {
    match v {
        Some(x) => x,
        None => Seq::empty(),
    }
}

/// The hidden checkbox of the hamburger toggle.
pub open spec fn hamburger_input_view(id: Seq<char>) -> TagView {
    TagView {
        name: "input"@,
        attrs: seq![("id"@, id), ("type"@, "checkbox"@)],
        classes: seq!["mj-menu-checkbox"@],
        styles: seq![
            ("display"@, "none !important"@),
            ("max-height"@, "0"@),
            ("visibility"@, "hidden"@),
        ],
    }
}

/// The trigger block of the hamburger toggle.
pub open spec fn hamburger_trigger_view() -> TagView {
    TagView {
        name: "div"@,
        attrs: Seq::empty(),
        classes: seq!["mj-menu-trigger"@],
        styles: seq![
            ("display"@, "none"@),
            ("max-height"@, "0px"@),
            ("max-width"@, "0px"@),
            ("font-size"@, "0px"@),
            ("overflow"@, "hidden"@),
        ],
    }
}

/// The label of the hamburger toggle, referencing the checkbox by id.
pub open spec fn hamburger_label_view(
    n: NavbarView,
    extra: Map<Seq<char>, Seq<char>>,
    id: Seq<char>,
) -> TagView {
    TagView {
        name: "label"@,
        attrs: opt_push(Seq::empty(), "align"@, navbar_attr(n, extra, "ico-align"@)).push(
            ("for"@, id),
        ),
        classes: seq!["mj-menu-label"@],
        styles: opt_push(
            opt_push(
                opt_push(
                    opt_push(
                        opt_push(
                            opt_push(
                                opt_push(
                                    opt_push(
                                        opt_push(
                                            opt_push(
                                                opt_push(
                                                    seq![
                                                        ("display"@, "block"@),
                                                        ("cursor"@, "pointer"@),
                                                        ("mso-hide"@, "all"@),
                                                        ("-moz-user-select"@, "none"@),
                                                        ("user-select"@, "none"@),
                                                    ],
                                                    "color"@,
                                                    navbar_attr(n, extra, "ico-color"@),
                                                ),
                                                "font-size"@,
                                                navbar_attr(n, extra, "ico-font-size"@),
                                            ),
                                            "font-family"@,
                                            navbar_attr(n, extra, "ico-font-family"@),
                                        ),
                                        "text-transform"@,
                                        navbar_attr(n, extra, "ico-text-transform"@),
                                    ),
                                    "text-decoration"@,
                                    navbar_attr(n, extra, "ico-text-decoration"@),
                                ),
                                "line-height"@,
                                navbar_attr(n, extra, "ico-line-height"@),
                            ),
                            "padding-top"@,
                            navbar_attr(n, extra, "ico-padding-top"@),
                        ),
                        "padding-right"@,
                        navbar_attr(n, extra, "ico-padding-right"@),
                    ),
                    "padding-bottom"@,
                    navbar_attr(n, extra, "ico-padding-bottom"@),
                ),
                "padding-left"@,
                navbar_attr(n, extra, "ico-padding-left"@),
            ),
            "padding"@,
            navbar_attr(n, extra, "ico-padding"@),
        ),
    }
}

/// The open-state icon span.
pub open spec fn hamburger_span_open_view() -> TagView {
    TagView {
        name: "span"@,
        attrs: Seq::empty(),
        classes: seq!["mj-menu-icon-open"@],
        styles: seq![("mso-hide"@, "all"@)],
    }
}

/// The closed-state icon span.
pub open spec fn hamburger_span_close_view() -> TagView {
    TagView {
        name: "span"@,
        attrs: Seq::empty(),
        classes: seq!["mj-menu-icon-close"@],
        styles: seq![("display"@, "none"@), ("mso-hide"@, "all"@)],
    }
}

/// Full markup of the hamburger toggle: the checkbox inside an
/// MSO-negation region, then the trigger block with the label and the two
/// icon spans.
#[verifier::opaque]
pub open spec fn hamburger_markup(
    n: NavbarView,
    extra: Map<Seq<char>, Seq<char>>,
    id: Seq<char>,
) -> Seq<char> {
    mso_neg_start_marker() + closed_markup(hamburger_input_view(id)) + neg_end_marker()
        + open_markup(hamburger_trigger_view()) + open_markup(hamburger_label_view(n, extra, id))
        + open_markup(hamburger_span_open_view()) + opt_text(navbar_attr(n, extra, "ico-open"@))
        + close_markup(hamburger_span_open_view()) + open_markup(hamburger_span_close_view())
        + opt_text(navbar_attr(n, extra, "ico-close"@)) + close_markup(hamburger_span_close_view())
        + close_markup(hamburger_label_view(n, extra, id)) + close_markup(hamburger_trigger_view())
}

/// The responsive style fragment a navbar registers, parameterized by the
/// active breakpoint.
pub open spec fn style_block(bp: u32) -> Seq<char> {
    "noinput.mj-menu-checkbox { display:block!important; max-height:none!important; visibility:visible!important; }\n@media only screen and (max-width:"@
        + dec_seq(bp as nat) + "px"@
        + ") {\n.mj-menu-checkbox[type=\"checkbox\"] ~ .mj-inline-links { display:none!important; }\n.mj-menu-checkbox[type=\"checkbox\"]:checked ~ .mj-inline-links,\n.mj-menu-checkbox[type=\"checkbox\"] ~ .mj-menu-trigger { display:block!important; max-width:none!important; max-height:none!important; font-size:inherit!important; }\n.mj-menu-checkbox[type=\"checkbox\"] ~ .mj-inline-links > a { display:block!important; }\n.mj-menu-checkbox[type=\"checkbox\"]:checked ~ .mj-menu-trigger .mj-menu-icon-close { display:block!important; }\n.mj-menu-checkbox[type=\"checkbox\"]:checked ~ .mj-menu-trigger .mj-menu-icon-open { display:none!important; }\n}\n"@
}


impl MjNavbar {
    /// Styles hiding the toggle checkbox from every client.
    fn set_style_input(&self, tag: Tag) -> (r: Tag)
        ensures
            r@ == (TagView {
                styles: tag@.styles.push(("display"@, "none !important"@)).push(
                    ("max-height"@, "0"@),
                ).push(("visibility"@, "hidden"@)),
                ..tag@
            }),
    {
        tag.add_style("display", "none !important").add_style("max-height", "0").add_style(
            "visibility",
            "hidden",
        )
    }

    /// Styles of the toggle label, from the resolved `ico-*` attributes.
    fn set_style_label(&self, extra: &Attributes, tag: Tag) -> (r: Tag)
        ensures
            r@ == (TagView {
                styles: opt_push(
                    opt_push(
                        opt_push(
                            opt_push(
                                opt_push(
                                    opt_push(
                                        opt_push(
                                            opt_push(
                                                opt_push(
                                                    opt_push(
                                                        opt_push(
                                                            tag@.styles.push(
                                                                ("display"@, "block"@),
                                                            ).push(("cursor"@, "pointer"@)).push(
                                                                ("mso-hide"@, "all"@),
                                                            ).push(
                                                                ("-moz-user-select"@, "none"@),
                                                            ).push(("user-select"@, "none"@)),
                                                            "color"@,
                                                            navbar_attr(
                                                                self@,
                                                                extra@,
                                                                "ico-color"@,
                                                            ),
                                                        ),
                                                        "font-size"@,
                                                        navbar_attr(self@, extra@, "ico-font-size"@),
                                                    ),
                                                    "font-family"@,
                                                    navbar_attr(self@, extra@, "ico-font-family"@),
                                                ),
                                                "text-transform"@,
                                                navbar_attr(self@, extra@, "ico-text-transform"@),
                                            ),
                                            "text-decoration"@,
                                            navbar_attr(self@, extra@, "ico-text-decoration"@),
                                        ),
                                        "line-height"@,
                                        navbar_attr(self@, extra@, "ico-line-height"@),
                                    ),
                                    "padding-top"@,
                                    navbar_attr(self@, extra@, "ico-padding-top"@),
                                ),
                                "padding-right"@,
                                navbar_attr(self@, extra@, "ico-padding-right"@),
                            ),
                            "padding-bottom"@,
                            navbar_attr(self@, extra@, "ico-padding-bottom"@),
                        ),
                        "padding-left"@,
                        navbar_attr(self@, extra@, "ico-padding-left"@),
                    ),
                    "padding"@,
                    navbar_attr(self@, extra@, "ico-padding"@),
                ),
                ..tag@
            }),
    {
        tag.add_style("display", "block").add_style("cursor", "pointer").add_style(
            "mso-hide",
            "all",
        ).add_style("-moz-user-select", "none").add_style("user-select", "none").maybe_add_style(
            "color",
            navbar_attribute(self, extra, "ico-color"),
        ).maybe_add_style("font-size", navbar_attribute(self, extra, "ico-font-size")).maybe_add_style(
            "font-family",
            navbar_attribute(self, extra, "ico-font-family"),
        ).maybe_add_style(
            "text-transform",
            navbar_attribute(self, extra, "ico-text-transform"),
        ).maybe_add_style(
            "text-decoration",
            navbar_attribute(self, extra, "ico-text-decoration"),
        ).maybe_add_style(
            "line-height",
            navbar_attribute(self, extra, "ico-line-height"),
        ).maybe_add_style(
            "padding-top",
            navbar_attribute(self, extra, "ico-padding-top"),
        ).maybe_add_style(
            "padding-right",
            navbar_attribute(self, extra, "ico-padding-right"),
        ).maybe_add_style(
            "padding-bottom",
            navbar_attribute(self, extra, "ico-padding-bottom"),
        ).maybe_add_style(
            "padding-left",
            navbar_attribute(self, extra, "ico-padding-left"),
        ).maybe_add_style("padding", navbar_attribute(self, extra, "ico-padding"))
    }

    /// Styles collapsing the trigger block until the checkbox is checked.
    fn set_style_trigger(&self, tag: Tag) -> (r: Tag)
        ensures
            r@ == (TagView {
                styles: tag@.styles.push(("display"@, "none"@)).push(("max-height"@, "0px"@)).push(
                    ("max-width"@, "0px"@),
                ).push(("font-size"@, "0px"@)).push(("overflow"@, "hidden"@)),
                ..tag@
            }),
    {
        tag.add_style("display", "none").add_style("max-height", "0px").add_style(
            "max-width",
            "0px",
        ).add_style("font-size", "0px").add_style("overflow", "hidden")
    }

    /// Styles of the closed-state icon span.
    fn set_style_ico_close(&self, tag: Tag) -> (r: Tag)
        ensures
            r@ == (TagView {
                styles: tag@.styles.push(("display"@, "none"@)).push(("mso-hide"@, "all"@)),
                ..tag@
            }),
    {
        tag.add_style("display", "none").add_style("mso-hide", "all")
    }

    /// Styles of the open-state icon span.
    fn set_style_ico_open(&self, tag: Tag) -> (r: Tag)
        ensures
            r@ == (TagView { styles: tag@.styles.push(("mso-hide"@, "all"@)), ..tag@ }),
    {
        tag.add_style("mso-hide", "all")
    }
}

impl MjNavbar {
    /// Whether the hamburger toggle renders: the `hamburger` attribute must
    /// resolve to the sentinel value `hamburger`.
    pub open spec fn spec_has_hamburger(n: NavbarView, extra: Map<Seq<char>, Seq<char>>) -> bool {
        navbar_attr(n, extra, "hamburger"@) == Some("hamburger"@)
    }

    fn has_hamburger(&self, extra: &Attributes) -> (r: bool)
        ensures
            r == Self::spec_has_hamburger(self@, extra@),
    {
        resolved_equals(
            extra,
            &self.attributes,
            navbar_default_attribute("hamburger"),
            "hamburger",
            "hamburger",
        )
    }

    /// The responsive style fragment for the given breakpoint.
    fn render_style(breakpoint: u32) -> (r: String)
        ensures
            r@ == style_block(breakpoint),
    {
        let mut s = String::new();
        s.append(
            "noinput.mj-menu-checkbox { display:block!important; max-height:none!important; visibility:visible!important; }\n@media only screen and (max-width:",
        );
        push_decimal(&mut s, breakpoint as u64);
        s.append("px");
        s.append(
            ") {\n.mj-menu-checkbox[type=\"checkbox\"] ~ .mj-inline-links { display:none!important; }\n.mj-menu-checkbox[type=\"checkbox\"]:checked ~ .mj-inline-links,\n.mj-menu-checkbox[type=\"checkbox\"] ~ .mj-menu-trigger { display:block!important; max-width:none!important; max-height:none!important; font-size:inherit!important; }\n.mj-menu-checkbox[type=\"checkbox\"] ~ .mj-inline-links > a { display:block!important; }\n.mj-menu-checkbox[type=\"checkbox\"]:checked ~ .mj-menu-trigger .mj-menu-icon-close { display:block!important; }\n.mj-menu-checkbox[type=\"checkbox\"]:checked ~ .mj-menu-trigger .mj-menu-icon-open { display:none!important; }\n}\n",
        );
        proof {
            assert(s@ =~= style_block(breakpoint));
        }
        s
    }

    /// Renders the hamburger toggle, pairing the checkbox and the label
    /// through the pass-unique id.
    #[verifier::rlimit(100)]
    fn render_hamburger(&self, extra: &Attributes, id: &String, cursor: &mut RenderCursor)
        ensures
            final(cursor).buffer.content() == old(cursor).buffer.content() + hamburger_markup(
                self@,
                extra@,
                id@,
            ),
            final(cursor).buffer.counts() == (MarkerCounts {
                mso_open: old(cursor).buffer.counts().mso_open + 1,
                neg_close: old(cursor).buffer.counts().neg_close + 1,
                ..old(cursor).buffer.counts()
            }),
            final(cursor).header == old(cursor).header,
    {
        let input = self.set_style_input(Tag::new("input")).add_class(
            "mj-menu-checkbox",
        ).add_attribute("id", id.as_str()).add_attribute("type", "checkbox");
        let div = self.set_style_trigger(Tag::div()).add_class("mj-menu-trigger");
        let label = self.set_style_label(extra, Tag::new("label")).maybe_add_attribute(
            "align",
            navbar_attribute(self, extra, "ico-align"),
        ).add_class("mj-menu-label").add_attribute("for", id.as_str());
        let span_open = self.set_style_ico_open(Tag::new("span")).add_class("mj-menu-icon-open");
        let span_close = self.set_style_ico_close(Tag::new("span")).add_class(
            "mj-menu-icon-close",
        );
        proof {
            assert(input@.attrs =~= hamburger_input_view(id@).attrs);
            assert(input@.classes =~= hamburger_input_view(id@).classes);
            assert(input@.styles =~= hamburger_input_view(id@).styles);
            assert(input@ == hamburger_input_view(id@));
            assert(div@.classes =~= hamburger_trigger_view().classes);
            assert(div@.styles =~= hamburger_trigger_view().styles);
            assert(div@ == hamburger_trigger_view());
            assert(label@.attrs =~= hamburger_label_view(self@, extra@, id@).attrs);
            assert(label@.classes =~= hamburger_label_view(self@, extra@, id@).classes);
            assert(label@.styles =~= hamburger_label_view(self@, extra@, id@).styles);
            assert(label@ == hamburger_label_view(self@, extra@, id@));
            assert(span_open@.classes =~= hamburger_span_open_view().classes);
            assert(span_open@.styles =~= hamburger_span_open_view().styles);
            assert(span_open@ == hamburger_span_open_view());
            assert(span_close@.classes =~= hamburger_span_close_view().classes);
            assert(span_close@.styles =~= hamburger_span_close_view().styles);
            assert(span_close@ == hamburger_span_close_view());
        }
        cursor.buffer.start_mso_negation_conditional_tag();
        input.render_closed(&mut cursor.buffer);
        cursor.buffer.end_negation_conditional_tag();
        div.render_open(&mut cursor.buffer);
        label.render_open(&mut cursor.buffer);
        span_open.render_open(&mut cursor.buffer);
        if let Some(attr) = navbar_attribute(self, extra, "ico-open") {
            cursor.buffer.push_str(attr.as_str());
        }
        span_open.render_close(&mut cursor.buffer);
        span_close.render_open(&mut cursor.buffer);
        if let Some(attr) = navbar_attribute(self, extra, "ico-close") {
            cursor.buffer.push_str(attr.as_str());
        }
        span_close.render_close(&mut cursor.buffer);
        label.render_close(&mut cursor.buffer);
        div.render_close(&mut cursor.buffer);
        proof {
            reveal(hamburger_markup);
            assert(cursor.buffer.content() =~= old(cursor).buffer.content() + hamburger_markup(
                self@,
                extra@,
                id@,
            ));
        }
    }
}

/// The extra attributes a navbar injects into each of its children: the
/// shared base url, when one resolves.
pub open spec fn navbar_child_extra(n: NavbarView, extra: Map<Seq<char>, Seq<char>>) -> Map<
    Seq<char>,
    Seq<char>,
> {
    opt_insert(Map::empty(), "navbar-base-url"@, navbar_attr(n, extra, "base-url"@))
}

/// Markup of one navbar child under the injected extra attributes.
pub open spec fn navbar_child_markup(c: NavbarChildView, cextra: Map<Seq<char>, Seq<char>>) -> Seq<
    char,
> {
    match c {
        NavbarChildView::Link(l) => link_markup(l, cextra),
        NavbarChildView::Comment(t) => comment_markup(t),
    }
}

/// Markup of a navbar's children, concatenated in document order.
pub open spec fn navbar_children_markup(
    cs: Seq<NavbarChildView>,
    cextra: Map<Seq<char>, Seq<char>>,
) -> Seq<char>
    decreases cs.len(),
{
    if cs.len() == 0 {
        Seq::empty()
    } else {
        navbar_children_markup(cs.drop_last(), cextra) + navbar_child_markup(cs.last(), cextra)
    }
}

/// The header's font list after one navbar child rendered.
pub open spec fn navbar_child_fonts(
    fonts: Seq<Seq<char>>,
    c: NavbarChildView,
    cextra: Map<Seq<char>, Seq<char>>,
) -> Seq<Seq<char>> {
    match c {
        NavbarChildView::Link(l) => fonts_after(fonts, link_attr(l, cextra, "font-family"@)),
        NavbarChildView::Comment(_) => fonts,
    }
}

/// The header's font list after every navbar child rendered, in order.
pub open spec fn navbar_children_fonts(
    fonts: Seq<Seq<char>>,
    cs: Seq<NavbarChildView>,
    cextra: Map<Seq<char>, Seq<char>>,
) -> Seq<Seq<char>>
    decreases cs.len(),
{
    if cs.len() == 0 {
        fonts
    } else {
        navbar_children_fonts(navbar_child_fonts(fonts, cs[0], cextra), cs.skip(1), cextra)
    }
}

/// The presentation table wrapping the links for the legacy client.
pub open spec fn navbar_table_view(n: NavbarView, extra: Map<Seq<char>, Seq<char>>) -> TagView {
    TagView {
        name: "table"@,
        attrs: opt_push(
            seq![
                ("border"@, "0"@),
                ("cellpadding"@, "0"@),
                ("cellspacing"@, "0"@),
                ("role"@, "presentation"@),
            ],
            "align"@,
            navbar_attr(n, extra, "align"@),
        ),
        classes: Seq::empty(),
        styles: Seq::empty(),
    }
}

/// The hamburger fragment, or nothing when the toggle is not configured.
pub open spec fn ham_part(
    n: NavbarView,
    extra: Map<Seq<char>, Seq<char>>,
    id: Seq<char>,
) -> Seq<char> {
    if MjNavbar::spec_has_hamburger(n, extra) {
        hamburger_markup(n, extra, id)
    } else {
        Seq::empty()
    }
}

/// Markup of everything a navbar emits after the hamburger fragment: the
/// inline-links div, the conditional table wrap around the children, and
/// the closing tags.
#[verifier::opaque]
pub open spec fn navbar_tail_markup(n: NavbarView, extra: Map<Seq<char>, Seq<char>>) -> Seq<char> {
    open_markup(class_tag("div"@, "mj-inline-links"@)) + cond_start_marker() + open_markup(
        navbar_table_view(n, extra),
    ) + open_markup(plain_tag("tr"@)) + cond_end_marker() + navbar_children_markup(
        n.children,
        navbar_child_extra(n, extra),
    ) + cond_start_marker() + close_markup(plain_tag("tr"@)) + close_markup(
        navbar_table_view(n, extra),
    ) + cond_end_marker() + close_markup(class_tag("div"@, "mj-inline-links"@))
}

/// Full markup of a navigation bar.
#[verifier::opaque]
pub open spec fn navbar_markup(
    n: NavbarView,
    extra: Map<Seq<char>, Seq<char>>,
    id: Seq<char>,
) -> Seq<char> {
    ham_part(n, extra, id) + navbar_tail_markup(n, extra)
}

proof fn lemma_navbar_tail_assembly(
    c1: Seq<char>,
    n: NavbarView,
    extra: Map<Seq<char>, Seq<char>>,
    cf: Seq<char>,
)
    requires
        cf == c1 + open_markup(class_tag("div"@, "mj-inline-links"@)) + cond_start_marker()
            + open_markup(navbar_table_view(n, extra)) + open_markup(plain_tag("tr"@))
            + cond_end_marker() + navbar_children_markup(n.children, navbar_child_extra(n, extra))
            + cond_start_marker() + close_markup(plain_tag("tr"@)) + close_markup(
            navbar_table_view(n, extra),
        ) + cond_end_marker() + close_markup(class_tag("div"@, "mj-inline-links"@)),
    ensures
        cf == c1 + navbar_tail_markup(n, extra),
{
    reveal(navbar_tail_markup);
    assert(cf =~= c1 + navbar_tail_markup(n, extra));
}

impl MjNavbarChild {
    /// Renders one navbar child under the injected extra attributes.
    pub fn render(&self, extra: &Attributes, cursor: &mut RenderCursor) -> (r: Result<(), RenderError>)
        ensures
            r is Ok,
            final(cursor).buffer.content() == old(cursor).buffer.content() + navbar_child_markup(
                self@,
                extra@,
            ),
            final(cursor).buffer.counts() == old(cursor).buffer.counts(),
            final(cursor).header.fonts_view() == navbar_child_fonts(
                old(cursor).header.fonts_view(),
                self@,
                extra@,
            ),
            final(cursor).header.styles_view() == old(cursor).header.styles_view(),
            final(cursor).header.breakpoint_spec() == old(cursor).header.breakpoint_spec(),
            final(cursor).header.id_counter_spec() == old(cursor).header.id_counter_spec(),
    {
        match self {
            MjNavbarChild::MjNavbarLink(l) => l.render(extra, cursor),
            MjNavbarChild::Comment(c) => crate::raw::render_comment(c.as_str(), cursor),
        }
    }
}

impl MjNavbar {
    /// Renders the navigation bar: registers its responsive style block,
    /// renders the hamburger toggle when configured, then the children —
    /// each handed the shared base url — inside the conditional table wrap.
    #[verifier::rlimit(100)]
    pub fn render(&self, extra: &Attributes, nav_extra: &MjNavbarExtra, cursor: &mut RenderCursor)
        -> (r: Result<(), RenderError>)
        ensures
            r is Ok,
            final(cursor).buffer.content() == old(cursor).buffer.content() + navbar_markup(
                self@,
                extra@,
                nav_extra.id@,
            ),
            final(cursor).buffer.counts() == (MarkerCounts {
                cond_open: old(cursor).buffer.counts().cond_open + 2,
                cond_close: old(cursor).buffer.counts().cond_close + 2,
                mso_open: old(cursor).buffer.counts().mso_open + (
                    if Self::spec_has_hamburger(self@, extra@) {
                        1nat
                    } else {
                        0nat
                    }
                ),
                neg_close: old(cursor).buffer.counts().neg_close + (
                    if Self::spec_has_hamburger(self@, extra@) {
                        1nat
                    } else {
                        0nat
                    }
                ),
                ..old(cursor).buffer.counts()
            }),
            final(cursor).header.styles_view() == old(cursor).header.styles_view().push(
                style_block(old(cursor).header.breakpoint_spec()),
            ),
            final(cursor).header.fonts_view() == navbar_children_fonts(
                old(cursor).header.fonts_view(),
                self@.children,
                navbar_child_extra(self@, extra@),
            ),
            final(cursor).header.breakpoint_spec() == old(cursor).header.breakpoint_spec(),
            final(cursor).header.id_counter_spec() == old(cursor).header.id_counter_spec(),
    {
        let bp = cursor.header.breakpoint();
        let style = Self::render_style(bp);
        cursor.header.add_style(style);
        let mut child_extra = Attributes::new();
        child_extra.maybe_insert(
            "navbar-base-url".to_owned(),
            navbar_attribute(self, extra, "base-url"),
        );
        proof {
            assert(child_extra@ == navbar_child_extra(self@, extra@));
        }
        let div = Tag::div().add_class("mj-inline-links");
        let table = Tag::table_presentation().maybe_add_attribute(
            "align",
            navbar_attribute(self, extra, "align"),
        );
        let tr = Tag::tr();
        proof {
            assert(div@.classes =~= seq!["mj-inline-links"@]);
            assert(div@ == class_tag("div"@, "mj-inline-links"@));
            assert(table@.attrs =~= navbar_table_view(self@, extra@).attrs);
            assert(table@ == navbar_table_view(self@, extra@));
            assert(tr@ == plain_tag("tr"@));
        }
        if self.has_hamburger(extra) {
            self.render_hamburger(extra, &nav_extra.id, cursor);
        }
        let ghost c1 = cursor.buffer.content();
        proof {
            assert(c1 =~= old(cursor).buffer.content() + ham_part(self@, extra@, nav_extra.id@));
        }
        div.render_open(&mut cursor.buffer);
        cursor.buffer.start_conditional_tag();
        table.render_open(&mut cursor.buffer);
        tr.render_open(&mut cursor.buffer);
        cursor.buffer.end_conditional_tag();
        let ghost mid = cursor.buffer.content();
        let ghost counts_mid = cursor.buffer.counts();
        let ghost fonts0 = cursor.header.fonts_view();
        let n = self.children.len();
        let mut i: usize = 0;
        proof {
            assert(cursor.buffer.content() =~= mid + navbar_children_markup(
                self@.children.take(0),
                child_extra@,
            ));
            assert(self@.children.skip(0) =~= self@.children);
        }
        while i < n
            invariant
                n == self.children@.len(),
                n == self@.children.len(),
                i <= n,
                child_extra@ == navbar_child_extra(self@, extra@),
                self@.children == Seq::new(self.children@.len(), |k: int| self.children@[k]@),
                cursor.buffer.content() == mid + navbar_children_markup(
                    self@.children.take(i as int),
                    child_extra@,
                ),
                cursor.buffer.counts() == counts_mid,
                navbar_children_fonts(fonts0, self@.children, child_extra@)
                    == navbar_children_fonts(
                    cursor.header.fonts_view(),
                    self@.children.skip(i as int),
                    child_extra@,
                ),
                cursor.header.styles_view() == old(cursor).header.styles_view().push(
                    style_block(old(cursor).header.breakpoint_spec()),
                ),
                cursor.header.breakpoint_spec() == old(cursor).header.breakpoint_spec(),
                cursor.header.id_counter_spec() == old(cursor).header.id_counter_spec(),
            decreases n - i,
        {
            proof {
                assert(self@.children.skip(i as int)[0] == self@.children[i as int]);
                assert(self@.children.skip(i as int).skip(1) =~= self@.children.skip(i as int + 1));
            }
            let res = self.children[i].render(&child_extra, cursor);
            proof {
                assert(self@.children.take(i as int + 1).drop_last() =~= self@.children.take(
                    i as int,
                ));
                assert(self@.children.take(i as int + 1).last() == self@.children[i as int]);
                assert(cursor.buffer.content() =~= mid + navbar_children_markup(
                    self@.children.take(i as int + 1),
                    child_extra@,
                ));
            }
            if res.is_err() {
                return res;
            }
            i = i + 1;
        }
        proof {
            assert(self@.children.take(n as int) =~= self@.children);
            assert(self@.children.skip(n as int) =~= Seq::<NavbarChildView>::empty());
        }
        cursor.buffer.start_conditional_tag();
        tr.render_close(&mut cursor.buffer);
        table.render_close(&mut cursor.buffer);
        cursor.buffer.end_conditional_tag();
        div.render_close(&mut cursor.buffer);
        proof {
            lemma_navbar_tail_assembly(c1, self@, extra@, cursor.buffer.content());
            reveal(navbar_markup);
            assert(cursor.buffer.content() =~= old(cursor).buffer.content() + navbar_markup(
                self@,
                extra@,
                nav_extra.id@,
            ));
        }
        Ok(())
    }
}

} // verus!
