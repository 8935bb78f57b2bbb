//! The accordion compound kind: an element with exactly two logical slots
//! (title and text). Absent slots are synthesized from kind defaults, and a
//! fixed allow-list of shared attributes is copied from the element onto
//! both slot children as extra attributes.

use vstd::prelude::*;
use crate::attributes::{Attributes, resolve_spec, resolve_attribute, resolved_equals};
use crate::buffer::{
    Tag, TagView, open_markup, close_markup, closed_markup, opt_push, opt_push_one,
    neg_start_marker, neg_end_marker, MarkerCounts,
};
use crate::header::{register_all_spec, split_commas};
use crate::raw::{Text, RawElement, raw_markup};
use crate::render::{RenderCursor, RenderError};
use crate::strings::opt_str_view;

verus! {

/// An accordion title slot.
pub struct MjAccordionTitle {
    /// The title's own attributes.
    pub attributes: Attributes,
    /// The title's text children.
    pub children: Vec<Text>,
}

/// An accordion text slot.
pub struct MjAccordionText {
    /// The text slot's own attributes.
    pub attributes: Attributes,
    /// The text slot's raw children.
    pub children: Vec<RawElement>,
}

/// The two logical slots of an accordion element.
pub struct MjAccordionElementChildren {
    /// The title slot, if the author supplied one.
    pub title: Option<MjAccordionTitle>,
    /// The text slot, if the author supplied one.
    pub text: Option<MjAccordionText>,
}

/// One accordion entry: a toggleable title/text pair.
pub struct MjAccordionElement {
    /// The element's own attributes.
    pub attributes: Attributes,
    /// The two slots.
    pub children: MjAccordionElementChildren,
}

/// Abstract content of a title slot.
pub struct AccordionTitleView {
    /// The title's own attributes.
    pub attributes: Map<Seq<char>, Seq<char>>,
    /// The text contents of the title's children.
    pub children: Seq<Seq<char>>,
}

/// Abstract content of a text slot.
pub struct AccordionTextView {
    /// The text slot's own attributes.
    pub attributes: Map<Seq<char>, Seq<char>>,
    /// The slot's raw children.
    pub children: Seq<RawElement>,
}

/// Abstract content of an accordion element.
pub struct AccordionElementView {
    /// The element's own attributes.
    pub attributes: Map<Seq<char>, Seq<char>>,
    /// The title slot, if supplied.
    pub title: Option<AccordionTitleView>,
    /// The text slot, if supplied.
    pub text: Option<AccordionTextView>,
}

impl View for MjAccordionTitle {
    type V = AccordionTitleView;

    open spec fn view(&self) -> AccordionTitleView {
        AccordionTitleView {
            attributes: self.attributes@,
            children: Seq::new(self.children@.len(), |i: int| self.children@[i].content@),
        }
    }
}

impl View for MjAccordionText {
    type V = AccordionTextView;

    open spec fn view(&self) -> AccordionTextView {
        AccordionTextView { attributes: self.attributes@, children: self.children@ }
    }
}

impl View for MjAccordionElement {
    type V = AccordionElementView;

    open spec fn view(&self) -> AccordionElementView {
        AccordionElementView {
            attributes: self.attributes@,
            title: match self.children.title {
                Some(t) => Some(t@),
                None => None,
            },
            text: match self.children.text {
                Some(t) => Some(t@),
                None => None,
            },
        }
    }
}

/// The title kind's static defaults.
pub open spec fn title_default(name: Seq<char>) -> Option<Seq<char>> {
    if name == "font-size"@ {
        Some("13px"@)
    } else if name == "padding"@ {
        Some("16px"@)
    } else {
        None
    }
}

fn title_default_attribute(name: &str) -> (r: Option<&'static str>)
    ensures
        match r {
            Some(v) => title_default(name@) == Some(v@),
            None => title_default(name@) is None,
        },
{
    if crate::strings::str_eq(name, "font-size") {
        Some("13px")
    } else if crate::strings::str_eq(name, "padding") {
        Some("16px")
    } else {
        None
    }
}

/// The text kind's static defaults.
pub open spec fn text_default(name: Seq<char>) -> Option<Seq<char>> {
    if name == "font-size"@ {
        Some("13px"@)
    } else if name == "line-height"@ {
        Some("1"@)
    } else if name == "padding"@ {
        Some("16px"@)
    } else {
        None
    }
}

fn text_default_attribute(name: &str) -> (r: Option<&'static str>)
    ensures
        match r {
            Some(v) => text_default(name@) == Some(v@),
            None => text_default(name@) is None,
        },
{
    if crate::strings::str_eq(name, "font-size") {
        Some("13px")
    } else if crate::strings::str_eq(name, "line-height") {
        Some("1")
    } else if crate::strings::str_eq(name, "padding") {
        Some("16px")
    } else {
        None
    }
}

/// Attribute resolution for a title slot.
pub open spec fn title_attr(
    t: AccordionTitleView,
    extra: Map<Seq<char>, Seq<char>>,
    name: Seq<char>,
) -> Option<Seq<char>> {
    resolve_spec(extra, t.attributes, title_default(name), name)
}

/// Attribute resolution for a text slot.
pub open spec fn text_attr(
    t: AccordionTextView,
    extra: Map<Seq<char>, Seq<char>>,
    name: Seq<char>,
) -> Option<Seq<char>> {
    resolve_spec(extra, t.attributes, text_default(name), name)
}

/// Attribute resolution for an accordion element; the kind has no static
/// defaults of its own.
pub open spec fn element_attr(
    e: AccordionElementView,
    extra: Map<Seq<char>, Seq<char>>,
    name: Seq<char>,
) -> Option<Seq<char>> {
    resolve_spec(extra, e.attributes, None, name)
}

fn title_attribute(elt: &MjAccordionTitle, extra: &Attributes, name: &str) -> (r: Option<String>)
    ensures
        opt_str_view(r) == title_attr(elt@, extra@, name@),
{
    resolve_attribute(extra, &elt.attributes, title_default_attribute(name), name)
}

fn text_attribute(elt: &MjAccordionText, extra: &Attributes, name: &str) -> (r: Option<String>)
    ensures
        opt_str_view(r) == text_attr(elt@, extra@, name@),
{
    resolve_attribute(extra, &elt.attributes, text_default_attribute(name), name)
}

fn element_attribute(elt: &MjAccordionElement, extra: &Attributes, name: &str) -> (r: Option<
    String,
>)
    ensures
        opt_str_view(r) == element_attr(elt@, extra@, name@),
{
    resolve_attribute(extra, &elt.attributes, None, name)
}

/// Text contents concatenated in order.
pub open spec fn texts_markup(cs: Seq<Seq<char>>) -> Seq<char>
    decreases cs.len(),
{
    if cs.len() == 0 {
        Seq::empty()
    } else {
        texts_markup(cs.drop_last()) + cs.last()
    }
}

/// Raw children markup concatenated in order.
pub open spec fn raws_markup(cs: Seq<RawElement>) -> Seq<char>
    decreases cs.len(),
{
    if cs.len() == 0 {
        Seq::empty()
    } else {
        raws_markup(cs.drop_last()) + raw_markup(cs.last())
    }
}

/// The `td` holding the title's content.
pub open spec fn title_td_view(t: AccordionTitleView, extra: Map<Seq<char>, Seq<char>>) -> TagView {
    TagView {
        name: "td"@,
        attrs: Seq::empty(),
        classes: opt_push_one(Seq::empty(), title_attr(t, extra, "css-class"@)),
        styles: opt_push(
            opt_push(
                opt_push(
                    opt_push(
                        opt_push(
                            opt_push(
                                opt_push(
                                    opt_push(
                                        opt_push(
                                            seq![("width"@, "100%"@)],
                                            "background-color"@,
                                            title_attr(t, extra, "background-color"@),
                                        ),
                                        "color"@,
                                        title_attr(t, extra, "color"@),
                                    ),
                                    "font-size"@,
                                    title_attr(t, extra, "font-size"@),
                                ),
                                "font-family"@,
                                title_attr(t, extra, "font-family"@),
                            ),
                            "padding-top"@,
                            title_attr(t, extra, "padding-top"@),
                        ),
                        "padding-right"@,
                        title_attr(t, extra, "padding-right"@),
                    ),
                    "padding-bottom"@,
                    title_attr(t, extra, "padding-bottom"@),
                ),
                "padding-left"@,
                title_attr(t, extra, "padding-left"@),
            ),
            "padding"@,
            title_attr(t, extra, "padding"@),
        ),
    }
}

/// The title content cell: the `td` wrapping the title's text children.
#[verifier::opaque]
pub open spec fn title_section_markup(
    t: AccordionTitleView,
    extra: Map<Seq<char>, Seq<char>>,
) -> Seq<char> {
    open_markup(title_td_view(t, extra)) + texts_markup(t.children) + close_markup(
        title_td_view(t, extra),
    )
}

/// An icon image of the title: hidden inline, with the configured
/// dimensions, source and alternative text.
pub open spec fn title_img_view(
    t: AccordionTitleView,
    extra: Map<Seq<char>, Seq<char>>,
    url_name: Seq<char>,
    alt_name: Seq<char>,
    class: Seq<char>,
) -> TagView {
    TagView {
        name: "img"@,
        attrs: opt_push(
            opt_push(Seq::empty(), "src"@, title_attr(t, extra, url_name)),
            "alt"@,
            title_attr(t, extra, alt_name),
        ),
        classes: seq![class],
        styles: opt_push(
            opt_push(
                seq![("display"@, "none"@)],
                "width"@,
                title_attr(t, extra, "icon-width"@),
            ),
            "height"@,
            title_attr(t, extra, "icon-height"@),
        ),
    }
}

/// The `td` holding the icon pair.
pub open spec fn icons_td_view(t: AccordionTitleView, extra: Map<Seq<char>, Seq<char>>) -> TagView {
    TagView {
        name: "td"@,
        attrs: Seq::empty(),
        classes: seq!["mj-accordion-ico"@],
        styles: opt_push(
            opt_push(
                seq![("padding"@, "16px"@)],
                "background"@,
                title_attr(t, extra, "background-color"@),
            ),
            "vertical-align"@,
            title_attr(t, extra, "icon-align"@),
        ),
    }
}

/// The icon cell: wrapped/unwrapped icon images inside a negation region,
/// so the legacy client never renders them.
#[verifier::opaque]
pub open spec fn icons_markup(
    t: AccordionTitleView,
    extra: Map<Seq<char>, Seq<char>>,
) -> Seq<char> {
    neg_start_marker() + open_markup(icons_td_view(t, extra)) + closed_markup(
        title_img_view(t, extra, "icon-wrapped-url"@, "icon-wrapped-alt"@, "mj-accordion-more"@),
    ) + closed_markup(
        title_img_view(
            t,
            extra,
            "icon-unwrapped-url"@,
            "icon-unwrapped-alt"@,
            "mj-accordion-less"@,
        ),
    ) + close_markup(icons_td_view(t, extra)) + neg_end_marker()
}

/// The table wrapping a title row.
pub open spec fn title_table_view(
    t: AccordionTitleView,
    extra: Map<Seq<char>, Seq<char>>,
) -> TagView {
    TagView {
        name: "table"@,
        attrs: seq![("cellspacing"@, "0"@), ("cellpadding"@, "0"@)],
        classes: Seq::empty(),
        styles: opt_push(
            seq![("width"@, "100%"@)],
            "border-bottom"@,
            title_attr(t, extra, "border"@),
        ),
    }
}

/// A bare named tag.
pub open spec fn plain_tag(name: Seq<char>) -> TagView {
    TagView { name: name, attrs: Seq::empty(), classes: Seq::empty(), styles: Seq::empty() }
}

/// A bare named tag with one class.
pub open spec fn class_tag(name: Seq<char>, class: Seq<char>) -> TagView {
    TagView { name: name, attrs: Seq::empty(), classes: seq![class], styles: Seq::empty() }
}

/// Whether the icon cell renders after the title content: controlled by the
/// resolved `icon-position` attribute.
pub open spec fn icons_on_right(t: AccordionTitleView, extra: Map<Seq<char>, Seq<char>>) -> bool {
    title_attr(t, extra, "icon-position"@) == Some("right"@)
}

/// Full markup of a title slot.
#[verifier::opaque]
pub open spec fn accordion_title_markup(
    t: AccordionTitleView,
    extra: Map<Seq<char>, Seq<char>>,
) -> Seq<char> {
    open_markup(class_tag("div"@, "mj-accordion-title"@)) + open_markup(title_table_view(t, extra))
        + open_markup(plain_tag("tbody"@)) + open_markup(plain_tag("tr"@)) + (
    if icons_on_right(t, extra) {
        title_section_markup(t, extra) + icons_markup(t, extra)
    } else {
        icons_markup(t, extra) + title_section_markup(t, extra)
    }) + close_markup(plain_tag("tr"@)) + close_markup(plain_tag("tbody"@)) + close_markup(
        title_table_view(t, extra),
    ) + close_markup(class_tag("div"@, "mj-accordion-title"@))
}

/// The header's font list after a slot registered its resolved font family.
pub open spec fn fonts_after(fonts: Seq<Seq<char>>, resolved: Option<Seq<char>>) -> Seq<Seq<char>> {
    match resolved {
        Some(v) => register_all_spec(fonts, split_commas(v)),
        None => fonts,
    }
}

impl MjAccordionTitle {
    /// An empty title slot, as synthesized for an absent slot.
    pub fn default() -> (r: MjAccordionTitle)
        ensures
            r@ == default_title_view(),
    {
        let r = MjAccordionTitle { attributes: Attributes::new(), children: Vec::new() };
        proof {
            assert(r@.children =~= Seq::<Seq<char>>::empty());
        }
        r
    }

    fn render_title(&self, extra: &Attributes, cursor: &mut RenderCursor) -> (r: Result<
        (),
        RenderError,
    >)
        ensures
            r is Ok,
            final(cursor).buffer.content() == old(cursor).buffer.content() + title_section_markup(
                self@,
                extra@,
            ),
            final(cursor).buffer.counts() == old(cursor).buffer.counts(),
            final(cursor).header == old(cursor).header,
    {
        let td = Tag::td().add_style("width", "100%").maybe_add_style(
            "background-color",
            title_attribute(self, extra, "background-color"),
        ).maybe_add_style("color", title_attribute(self, extra, "color")).maybe_add_style(
            "font-size",
            title_attribute(self, extra, "font-size"),
        ).maybe_add_style("font-family", title_attribute(self, extra, "font-family")).maybe_add_style(
            "padding-top",
            title_attribute(self, extra, "padding-top"),
        ).maybe_add_style("padding-right", title_attribute(self, extra, "padding-right")).maybe_add_style(
            "padding-bottom",
            title_attribute(self, extra, "padding-bottom"),
        ).maybe_add_style("padding-left", title_attribute(self, extra, "padding-left")).maybe_add_style(
            "padding",
            title_attribute(self, extra, "padding"),
        ).maybe_add_class(title_attribute(self, extra, "css-class"));
        proof {
            reveal(title_section_markup);
            assert(td@ == title_td_view(self@, extra@));
        }
        td.render_open(&mut cursor.buffer);
        let ghost after_open = cursor.buffer.content();
        let n = self.children.len();
        let mut i: usize = 0;
        proof {
            assert(cursor.buffer.content() =~= after_open + texts_markup(self@.children.take(0)));
        }
        while i < n
            invariant
                n == self.children@.len(),
                n == self@.children.len(),
                i <= n,
                self@.children == Seq::new(
                    self.children@.len(),
                    |k: int| self.children@[k].content@,
                ),
                cursor.buffer.content() == after_open + texts_markup(
                    self@.children.take(i as int),
                ),
                cursor.buffer.counts() == old(cursor).buffer.counts(),
                cursor.header == old(cursor).header,
            decreases n - i,
        {
            cursor.buffer.push_str(self.children[i].content.as_str());
            proof {
                assert(self@.children.take(i as int + 1).drop_last() =~= self@.children.take(
                    i as int,
                ));
                assert(self@.children.take(i as int + 1).last() == self@.children[i as int]);
                assert(cursor.buffer.content() =~= after_open + texts_markup(
                    self@.children.take(i as int + 1),
                ));
            }
            i = i + 1;
        }
        proof {
            assert(self@.children.take(n as int) =~= self@.children);
        }
        td.render_close(&mut cursor.buffer);
        proof {
            reveal(title_section_markup);
            assert(cursor.buffer.content() =~= old(cursor).buffer.content()
                + title_section_markup(self@, extra@));
        }
        Ok(())
    }

    fn set_style_img(&self, extra: &Attributes, tag: Tag) -> (r: Tag)
        ensures
            r@ == (TagView {
                styles: opt_push(
                    opt_push(
                        tag@.styles.push(("display"@, "none"@)),
                        "width"@,
                        title_attr(self@, extra@, "icon-width"@),
                    ),
                    "height"@,
                    title_attr(self@, extra@, "icon-height"@),
                ),
                ..tag@
            }),
    {
        tag.add_style("display", "none").maybe_add_style(
            "width",
            title_attribute(self, extra, "icon-width"),
        ).maybe_add_style("height", title_attribute(self, extra, "icon-height"))
    }

    fn render_icons(&self, extra: &Attributes, cursor: &mut RenderCursor)
        ensures
            final(cursor).buffer.content() == old(cursor).buffer.content() + icons_markup(
                self@,
                extra@,
            ),
            final(cursor).buffer.counts() == (MarkerCounts {
                neg_open: old(cursor).buffer.counts().neg_open + 1,
                neg_close: old(cursor).buffer.counts().neg_close + 1,
                ..old(cursor).buffer.counts()
            }),
            final(cursor).header == old(cursor).header,
    {
        let img_more = self.set_style_img(extra, Tag::new("img")).maybe_add_attribute(
            "src",
            title_attribute(self, extra, "icon-wrapped-url"),
        ).maybe_add_attribute("alt", title_attribute(self, extra, "icon-wrapped-alt")).add_class(
            "mj-accordion-more",
        );
        let img_less = self.set_style_img(extra, Tag::new("img")).maybe_add_attribute(
            "src",
            title_attribute(self, extra, "icon-unwrapped-url"),
        ).maybe_add_attribute("alt", title_attribute(self, extra, "icon-unwrapped-alt")).add_class(
            "mj-accordion-less",
        );
        let td = Tag::td().add_style("padding", "16px").maybe_add_style(
            "background",
            title_attribute(self, extra, "background-color"),
        ).maybe_add_style("vertical-align", title_attribute(self, extra, "icon-align")).add_class(
            "mj-accordion-ico",
        );
        proof {
            assert(img_more@.attrs =~= title_img_view(
                self@,
                extra@,
                "icon-wrapped-url"@,
                "icon-wrapped-alt"@,
                "mj-accordion-more"@,
            ).attrs);
            assert(img_more@.classes =~= seq!["mj-accordion-more"@]);
            assert(img_more@ == title_img_view(
                self@,
                extra@,
                "icon-wrapped-url"@,
                "icon-wrapped-alt"@,
                "mj-accordion-more"@,
            ));
            assert(img_less@.attrs =~= title_img_view(
                self@,
                extra@,
                "icon-unwrapped-url"@,
                "icon-unwrapped-alt"@,
                "mj-accordion-less"@,
            ).attrs);
            assert(img_less@.classes =~= seq!["mj-accordion-less"@]);
            assert(img_less@ == title_img_view(
                self@,
                extra@,
                "icon-unwrapped-url"@,
                "icon-unwrapped-alt"@,
                "mj-accordion-less"@,
            ));
            assert(td@.classes =~= seq!["mj-accordion-ico"@]);
            assert(td@.styles =~= icons_td_view(self@, extra@).styles);
            assert(td@ == icons_td_view(self@, extra@));
        }
        cursor.buffer.start_negation_conditional_tag();
        td.render_open(&mut cursor.buffer);
        img_more.render_closed(&mut cursor.buffer);
        img_less.render_closed(&mut cursor.buffer);
        td.render_close(&mut cursor.buffer);
        cursor.buffer.end_negation_conditional_tag();
        proof {
            reveal(icons_markup);
            assert(cursor.buffer.content() =~= old(cursor).buffer.content() + icons_markup(
                self@,
                extra@,
            ));
        }
    }

    /// Renders the title slot: its font registration, its wrapping div and
    /// table, and the icon cell before or after the content cell as the
    /// resolved `icon-position` directs.
    #[verifier::rlimit(100)]
    pub fn render(&self, extra: &Attributes, cursor: &mut RenderCursor) -> (r: Result<(), RenderError>)
        ensures
            r is Ok,
            final(cursor).buffer.content() == old(cursor).buffer.content()
                + accordion_title_markup(self@, extra@),
            final(cursor).buffer.counts() == (MarkerCounts {
                neg_open: old(cursor).buffer.counts().neg_open + 1,
                neg_close: old(cursor).buffer.counts().neg_close + 1,
                ..old(cursor).buffer.counts()
            }),
            final(cursor).header.fonts_view() == fonts_after(
                old(cursor).header.fonts_view(),
                title_attr(self@, extra@, "font-family"@),
            ),
            final(cursor).header.styles_view() == old(cursor).header.styles_view(),
            final(cursor).header.breakpoint_spec() == old(cursor).header.breakpoint_spec(),
            final(cursor).header.id_counter_spec() == old(cursor).header.id_counter_spec(),
    {
        let font_families = title_attribute(self, extra, "font-family");
        cursor.header.maybe_add_font_families(font_families);
        let tr = Tag::tr();
        let tbody = Tag::tbody();
        let table = Tag::table().add_attribute("cellspacing", "0").add_attribute(
            "cellpadding",
            "0",
        ).add_style("width", "100%").maybe_add_style(
            "border-bottom",
            title_attribute(self, extra, "border"),
        );
        let div = Tag::div().add_class("mj-accordion-title");
        proof {
            assert(table@.attrs =~= seq![("cellspacing"@, "0"@), ("cellpadding"@, "0"@)]);
            assert(table@.styles =~= title_table_view(self@, extra@).styles);
            assert(table@ == title_table_view(self@, extra@));
            assert(div@.classes =~= seq!["mj-accordion-title"@]);
            assert(div@ == class_tag("div"@, "mj-accordion-title"@));
            assert(tr@ == plain_tag("tr"@));
            assert(tbody@ == plain_tag("tbody"@));
        }
        div.render_open(&mut cursor.buffer);
        table.render_open(&mut cursor.buffer);
        tbody.render_open(&mut cursor.buffer);
        tr.render_open(&mut cursor.buffer);
        if resolved_equals(extra, &self.attributes, title_default_attribute("icon-position"), "icon-position", "right") {
            let res = self.render_title(extra, cursor);
            if res.is_err() {
                return res;
            }
            self.render_icons(extra, cursor);
        } else {
            self.render_icons(extra, cursor);
            let res = self.render_title(extra, cursor);
            if res.is_err() {
                return res;
            }
        }
        tr.render_close(&mut cursor.buffer);
        tbody.render_close(&mut cursor.buffer);
        table.render_close(&mut cursor.buffer);
        div.render_close(&mut cursor.buffer);
        proof {
            let ghost (x1, x2) = if icons_on_right(self@, extra@) {
                (title_section_markup(self@, extra@), icons_markup(self@, extra@))
            } else {
                (icons_markup(self@, extra@), title_section_markup(self@, extra@))
            };
            lemma_title_assembly(
                old(cursor).buffer.content(),
                self@,
                extra@,
                x1,
                x2,
                cursor.buffer.content(),
            );
        }
        Ok(())
    }
}

proof fn lemma_title_assembly(
    c0: Seq<char>,
    t: AccordionTitleView,
    extra: Map<Seq<char>, Seq<char>>,
    x1: Seq<char>,
    x2: Seq<char>,
    cf: Seq<char>,
)
    requires
        cf == c0 + open_markup(class_tag("div"@, "mj-accordion-title"@)) + open_markup(
            title_table_view(t, extra),
        ) + open_markup(plain_tag("tbody"@)) + open_markup(plain_tag("tr"@)) + x1 + x2
            + close_markup(plain_tag("tr"@)) + close_markup(plain_tag("tbody"@)) + close_markup(
            title_table_view(t, extra),
        ) + close_markup(class_tag("div"@, "mj-accordion-title"@)),
        if icons_on_right(t, extra) {
            x1 == title_section_markup(t, extra) && x2 == icons_markup(t, extra)
        } else {
            x1 == icons_markup(t, extra) && x2 == title_section_markup(t, extra)
        },
    ensures
        cf == c0 + accordion_title_markup(t, extra),
{
    reveal(accordion_title_markup);
    assert(cf =~= c0 + accordion_title_markup(t, extra));
}

/// The view of the synthesized empty title slot.
pub open spec fn default_title_view() -> AccordionTitleView {
    AccordionTitleView {
        attributes: Map::empty(),
        children: Seq::empty(),
    }
}

/// The view of the synthesized empty text slot.
pub open spec fn default_text_view() -> AccordionTextView {
    AccordionTextView { attributes: Map::empty(), children: Seq::empty() }
}

/// The `td` holding a text slot's content.
pub open spec fn text_td_view(t: AccordionTextView, extra: Map<Seq<char>, Seq<char>>) -> TagView {
    TagView {
        name: "td"@,
        attrs: Seq::empty(),
        classes: opt_push_one(Seq::empty(), text_attr(t, extra, "css-class"@)),
        styles: opt_push(
            opt_push(
                opt_push(
                    opt_push(
                        opt_push(
                            opt_push(
                                Seq::empty(),
                                "background"@,
                                text_attr(t, extra, "background-color"@),
                            ),
                            "font-size"@,
                            text_attr(t, extra, "font-size"@),
                        ),
                        "font-family"@,
                        text_attr(t, extra, "font-family"@),
                    ),
                    "line-height"@,
                    text_attr(t, extra, "line-height"@),
                ),
                "color"@,
                text_attr(t, extra, "color"@),
            ),
            "padding"@,
            text_attr(t, extra, "padding"@),
        ),
    }
}

/// The table wrapping a text row.
pub open spec fn text_table_view(t: AccordionTextView, extra: Map<Seq<char>, Seq<char>>) -> TagView {
    TagView {
        name: "table"@,
        attrs: seq![("cellspacing"@, "0"@), ("cellpadding"@, "0"@)],
        classes: Seq::empty(),
        styles: seq![("width"@, "100%"@)],
    }
}

/// Full markup of a text slot.
#[verifier::opaque]
pub open spec fn accordion_text_markup(
    t: AccordionTextView,
    extra: Map<Seq<char>, Seq<char>>,
) -> Seq<char> {
    open_markup(class_tag("div"@, "mj-accordion-content"@)) + open_markup(text_table_view(t, extra))
        + open_markup(plain_tag("tbody"@)) + open_markup(plain_tag("tr"@)) + open_markup(
        text_td_view(t, extra),
    ) + raws_markup(t.children) + close_markup(text_td_view(t, extra)) + close_markup(
        plain_tag("tr"@),
    ) + close_markup(plain_tag("tbody"@)) + close_markup(text_table_view(t, extra)) + close_markup(
        class_tag("div"@, "mj-accordion-content"@),
    )
}

impl MjAccordionText {
    /// An empty text slot, as synthesized for an absent slot.
    pub fn default() -> (r: MjAccordionText)
        ensures
            r@ == default_text_view(),
    {
        let r = MjAccordionText { attributes: Attributes::new(), children: Vec::new() };
        proof {
            assert(r@.children =~= Seq::<RawElement>::empty());
        }
        r
    }

    /// Renders the text slot: its font registration, its wrapping div and
    /// table, and the raw children inside the content cell.
    #[verifier::rlimit(100)]
    pub fn render(&self, extra: &Attributes, cursor: &mut RenderCursor) -> (r: Result<(), RenderError>)
        ensures
            r is Ok,
            final(cursor).buffer.content() == old(cursor).buffer.content()
                + accordion_text_markup(self@, extra@),
            final(cursor).buffer.counts() == old(cursor).buffer.counts(),
            final(cursor).header.fonts_view() == fonts_after(
                old(cursor).header.fonts_view(),
                text_attr(self@, extra@, "font-family"@),
            ),
            final(cursor).header.styles_view() == old(cursor).header.styles_view(),
            final(cursor).header.breakpoint_spec() == old(cursor).header.breakpoint_spec(),
            final(cursor).header.id_counter_spec() == old(cursor).header.id_counter_spec(),
    {
        let font_families = text_attribute(self, extra, "font-family");
        cursor.header.maybe_add_font_families(font_families);
        let div = Tag::div().add_class("mj-accordion-content");
        let table = Tag::table().add_attribute("cellspacing", "0").add_attribute(
            "cellpadding",
            "0",
        ).add_style("width", "100%");
        let tbody = Tag::tbody();
        let tr = Tag::tr();
        let td = Tag::td().maybe_add_style(
            "background",
            text_attribute(self, extra, "background-color"),
        ).maybe_add_style("font-size", text_attribute(self, extra, "font-size")).maybe_add_style(
            "font-family",
            text_attribute(self, extra, "font-family"),
        ).maybe_add_style("line-height", text_attribute(self, extra, "line-height")).maybe_add_style(
            "color",
            text_attribute(self, extra, "color"),
        ).maybe_add_style("padding", text_attribute(self, extra, "padding")).maybe_add_class(
            text_attribute(self, extra, "css-class"),
        );
        proof {
            assert(div@.classes =~= seq!["mj-accordion-content"@]);
            assert(div@ == class_tag("div"@, "mj-accordion-content"@));
            assert(table@.attrs =~= seq![("cellspacing"@, "0"@), ("cellpadding"@, "0"@)]);
            assert(table@.styles =~= seq![("width"@, "100%"@)]);
            assert(table@ == text_table_view(self@, extra@));
            assert(tbody@ == plain_tag("tbody"@));
            assert(tr@ == plain_tag("tr"@));
            assert(td@.styles =~= text_td_view(self@, extra@).styles);
            assert(td@ == text_td_view(self@, extra@));
        }
        div.render_open(&mut cursor.buffer);
        table.render_open(&mut cursor.buffer);
        tbody.render_open(&mut cursor.buffer);
        tr.render_open(&mut cursor.buffer);
        td.render_open(&mut cursor.buffer);
        let ghost after_open = cursor.buffer.content();
        let ghost header_now = cursor.header;
        let n = self.children.len();
        let mut i: usize = 0;
        proof {
            assert(cursor.buffer.content() =~= after_open + raws_markup(self@.children.take(0)));
        }
        while i < n
            invariant
                n == self.children@.len(),
                i <= n,
                self@.children == self.children@,
                cursor.buffer.content() == after_open + raws_markup(self@.children.take(i as int)),
                cursor.buffer.counts() == old(cursor).buffer.counts(),
                cursor.header == header_now,
            decreases n - i,
        {
            let res = self.children[i].render(cursor);
            proof {
                assert(self@.children.take(i as int + 1).drop_last() =~= self@.children.take(
                    i as int,
                ));
                assert(self@.children.take(i as int + 1).last() == self@.children[i as int]);
                assert(cursor.buffer.content() =~= after_open + raws_markup(
                    self@.children.take(i as int + 1),
                ));
            }
            if res.is_err() {
                return res;
            }
            i = i + 1;
        }
        proof {
            assert(self@.children.take(n as int) =~= self@.children);
        }
        td.render_close(&mut cursor.buffer);
        tr.render_close(&mut cursor.buffer);
        tbody.render_close(&mut cursor.buffer);
        table.render_close(&mut cursor.buffer);
        div.render_close(&mut cursor.buffer);
        proof {
            reveal(accordion_text_markup);
            assert(cursor.buffer.content() =~= old(cursor).buffer.content()
                + accordion_text_markup(self@, extra@));
        }
        Ok(())
    }
}

/// The attributes an accordion element shares with both of its slots,
/// copied onto them as extra attributes: the border and the icon
/// configuration.
pub open spec fn children_extra(
    e: AccordionElementView,
    extra: Map<Seq<char>, Seq<char>>,
) -> Map<Seq<char>, Seq<char>> {
    crate::attributes::opt_insert(
        crate::attributes::opt_insert(
            crate::attributes::opt_insert(
                crate::attributes::opt_insert(
                    crate::attributes::opt_insert(
                        crate::attributes::opt_insert(
                            crate::attributes::opt_insert(
                                crate::attributes::opt_insert(
                                    crate::attributes::opt_insert(
                                        Map::empty(),
                                        "border"@,
                                        element_attr(e, extra, "border"@),
                                    ),
                                    "icon-align"@,
                                    element_attr(e, extra, "icon-align"@),
                                ),
                                "icon-width"@,
                                element_attr(e, extra, "icon-width"@),
                            ),
                            "icon-height"@,
                            element_attr(e, extra, "icon-height"@),
                        ),
                        "icon-position"@,
                        element_attr(e, extra, "icon-position"@),
                    ),
                    "icon-wrapped-url"@,
                    element_attr(e, extra, "icon-wrapped-url"@),
                ),
                "icon-wrapped-alt"@,
                element_attr(e, extra, "icon-wrapped-alt"@),
            ),
            "icon-unwrapped-url"@,
            element_attr(e, extra, "icon-unwrapped-url"@),
        ),
        "icon-unwrapped-alt"@,
        element_attr(e, extra, "icon-unwrapped-alt"@),
    )
}

fn build_children_extra(elt: &MjAccordionElement, extra: &Attributes) -> (r: Attributes)
    ensures
        r@ == children_extra(elt@, extra@),
{
    let mut child_extra = Attributes::new();
    child_extra.maybe_insert("border".to_owned(), element_attribute(elt, extra, "border"));
    child_extra.maybe_insert("icon-align".to_owned(), element_attribute(elt, extra, "icon-align"));
    child_extra.maybe_insert("icon-width".to_owned(), element_attribute(elt, extra, "icon-width"));
    child_extra.maybe_insert(
        "icon-height".to_owned(),
        element_attribute(elt, extra, "icon-height"),
    );
    child_extra.maybe_insert(
        "icon-position".to_owned(),
        element_attribute(elt, extra, "icon-position"),
    );
    child_extra.maybe_insert(
        "icon-wrapped-url".to_owned(),
        element_attribute(elt, extra, "icon-wrapped-url"),
    );
    child_extra.maybe_insert(
        "icon-wrapped-alt".to_owned(),
        element_attribute(elt, extra, "icon-wrapped-alt"),
    );
    child_extra.maybe_insert(
        "icon-unwrapped-url".to_owned(),
        element_attribute(elt, extra, "icon-unwrapped-url"),
    );
    child_extra.maybe_insert(
        "icon-unwrapped-alt".to_owned(),
        element_attribute(elt, extra, "icon-unwrapped-alt"),
    );
    child_extra
}

/// The title slot that actually renders: the supplied child, or the
/// synthesized empty default when the slot is absent.
pub open spec fn eff_title(e: AccordionElementView) -> AccordionTitleView {
    match e.title {
        Some(t) => t,
        None => default_title_view(),
    }
}

/// The text slot that actually renders: the supplied child, or the
/// synthesized empty default when the slot is absent.
pub open spec fn eff_text(e: AccordionElementView) -> AccordionTextView {
    match e.text {
        Some(t) => t,
        None => default_text_view(),
    }
}

/// The hidden checkbox driving the toggle.
pub open spec fn element_input_view() -> TagView {
    TagView {
        name: "input"@,
        attrs: seq![("type"@, "checkbox"@)],
        classes: seq!["mj-accordion-checkbox"@],
        styles: seq![("display"@, "none"@)],
    }
}

/// The label wrapping the element's slots.
pub open spec fn element_label_view(
    e: AccordionElementView,
    extra: Map<Seq<char>, Seq<char>>,
) -> TagView {
    TagView {
        name: "label"@,
        attrs: Seq::empty(),
        classes: seq!["mj-accordion-element"@],
        styles: opt_push(
            seq![("font-size"@, "13px"@)],
            "font-family"@,
            element_attr(e, extra, "font-family"@),
        ),
    }
}

/// The cell holding one accordion element.
pub open spec fn element_td_view(
    e: AccordionElementView,
    extra: Map<Seq<char>, Seq<char>>,
) -> TagView {
    TagView {
        name: "td"@,
        attrs: Seq::empty(),
        classes: Seq::empty(),
        styles: opt_push(
            seq![("padding"@, "0px"@)],
            "background-color"@,
            element_attr(e, extra, "background-color"@),
        ),
    }
}

/// The row holding one accordion element.
pub open spec fn element_tr_view(
    e: AccordionElementView,
    extra: Map<Seq<char>, Seq<char>>,
) -> TagView {
    TagView {
        name: "tr"@,
        attrs: Seq::empty(),
        classes: opt_push_one(Seq::empty(), element_attr(e, extra, "css-class"@)),
        styles: Seq::empty(),
    }
}

/// The opening frame of an accordion element: its row, cell and label, the
/// hidden checkbox inside a negation region, and the opening content div.
#[verifier::opaque]
pub open spec fn element_frame_open_markup(
    e: AccordionElementView,
    extra: Map<Seq<char>, Seq<char>>,
) -> Seq<char> {
    open_markup(element_tr_view(e, extra)) + open_markup(element_td_view(e, extra)) + open_markup(
        element_label_view(e, extra),
    ) + neg_start_marker() + closed_markup(element_input_view()) + neg_end_marker() + open_markup(
        plain_tag("div"@),
    )
}

/// The closing frame of an accordion element.
#[verifier::opaque]
pub open spec fn element_frame_close_markup(
    e: AccordionElementView,
    extra: Map<Seq<char>, Seq<char>>,
) -> Seq<char> {
    close_markup(plain_tag("div"@)) + close_markup(element_label_view(e, extra)) + close_markup(
        element_td_view(e, extra),
    ) + close_markup(element_tr_view(e, extra))
}

/// Full markup of an accordion element: the opening frame, then both slots
/// — the supplied children or their synthesized defaults — with the shared
/// attributes copied onto them, then the closing frame.
#[verifier::opaque]
pub open spec fn accordion_element_markup(
    e: AccordionElementView,
    extra: Map<Seq<char>, Seq<char>>,
) -> Seq<char> {
    element_frame_open_markup(e, extra) + accordion_title_markup(
        eff_title(e),
        children_extra(e, extra),
    ) + accordion_text_markup(eff_text(e), children_extra(e, extra)) + element_frame_close_markup(
        e,
        extra,
    )
}

/// The header's font list after both slots rendered.
pub open spec fn element_fonts_after(
    fonts: Seq<Seq<char>>,
    e: AccordionElementView,
    extra: Map<Seq<char>, Seq<char>>,
) -> Seq<Seq<char>> {
    fonts_after(
        fonts_after(fonts, title_attr(eff_title(e), children_extra(e, extra), "font-family"@)),
        text_attr(eff_text(e), children_extra(e, extra), "font-family"@),
    )
}

impl MjAccordionElement {
    fn render_title(&self, extra: &Attributes, cursor: &mut RenderCursor) -> (r: Result<
        (),
        RenderError,
    >)
        ensures
            r is Ok,
            final(cursor).buffer.content() == old(cursor).buffer.content()
                + accordion_title_markup(eff_title(self@), children_extra(self@, extra@)),
            final(cursor).buffer.counts() == (MarkerCounts {
                neg_open: old(cursor).buffer.counts().neg_open + 1,
                neg_close: old(cursor).buffer.counts().neg_close + 1,
                ..old(cursor).buffer.counts()
            }),
            final(cursor).header.fonts_view() == fonts_after(
                old(cursor).header.fonts_view(),
                title_attr(eff_title(self@), children_extra(self@, extra@), "font-family"@),
            ),
            final(cursor).header.styles_view() == old(cursor).header.styles_view(),
            final(cursor).header.breakpoint_spec() == old(cursor).header.breakpoint_spec(),
            final(cursor).header.id_counter_spec() == old(cursor).header.id_counter_spec(),
    {
        let child_extra = build_children_extra(self, extra);
        match &self.children.title {
            Some(child) => child.render(&child_extra, cursor),
            None => {
                let child = MjAccordionTitle::default();
                child.render(&child_extra, cursor)
            },
        }
    }

    fn render_text(&self, extra: &Attributes, cursor: &mut RenderCursor) -> (r: Result<(), RenderError>)
        ensures
            r is Ok,
            final(cursor).buffer.content() == old(cursor).buffer.content()
                + accordion_text_markup(eff_text(self@), children_extra(self@, extra@)),
            final(cursor).buffer.counts() == old(cursor).buffer.counts(),
            final(cursor).header.fonts_view() == fonts_after(
                old(cursor).header.fonts_view(),
                text_attr(eff_text(self@), children_extra(self@, extra@), "font-family"@),
            ),
            final(cursor).header.styles_view() == old(cursor).header.styles_view(),
            final(cursor).header.breakpoint_spec() == old(cursor).header.breakpoint_spec(),
            final(cursor).header.id_counter_spec() == old(cursor).header.id_counter_spec(),
    {
        let child_extra = build_children_extra(self, extra);
        match &self.children.text {
            Some(child) => child.render(&child_extra, cursor),
            None => {
                let child = MjAccordionText::default();
                child.render(&child_extra, cursor)
            },
        }
    }

    fn render_children(&self, extra: &Attributes, cursor: &mut RenderCursor) -> (r: Result<
        (),
        RenderError,
    >)
        ensures
            r is Ok,
            final(cursor).buffer.content() == old(cursor).buffer.content()
                + accordion_title_markup(eff_title(self@), children_extra(self@, extra@))
                + accordion_text_markup(eff_text(self@), children_extra(self@, extra@)),
            final(cursor).buffer.counts() == (MarkerCounts {
                neg_open: old(cursor).buffer.counts().neg_open + 1,
                neg_close: old(cursor).buffer.counts().neg_close + 1,
                ..old(cursor).buffer.counts()
            }),
            final(cursor).header.fonts_view() == element_fonts_after(
                old(cursor).header.fonts_view(),
                self@,
                extra@,
            ),
            final(cursor).header.styles_view() == old(cursor).header.styles_view(),
            final(cursor).header.breakpoint_spec() == old(cursor).header.breakpoint_spec(),
            final(cursor).header.id_counter_spec() == old(cursor).header.id_counter_spec(),
    {
        let res = self.render_title(extra, cursor);
        if res.is_err() {
            return res;
        }
        let res = self.render_text(extra, cursor);
        if res.is_err() {
            return res;
        }
        Ok(())
    }

    #[verifier::rlimit(100)]
    fn render_frame_open(&self, extra: &Attributes, cursor: &mut RenderCursor)
        ensures
            final(cursor).buffer.content() == old(cursor).buffer.content()
                + element_frame_open_markup(self@, extra@),
            final(cursor).buffer.counts() == (MarkerCounts {
                neg_open: old(cursor).buffer.counts().neg_open + 1,
                neg_close: old(cursor).buffer.counts().neg_close + 1,
                ..old(cursor).buffer.counts()
            }),
            final(cursor).header == old(cursor).header,
    {
        let input = Tag::new("input").add_attribute("type", "checkbox").add_class(
            "mj-accordion-checkbox",
        ).add_style("display", "none");
        let div = Tag::div();
        let label = Tag::new("label").add_class("mj-accordion-element").add_style(
            "font-size",
            "13px",
        ).maybe_add_style("font-family", element_attribute(self, extra, "font-family"));
        let td = Tag::td().add_style("padding", "0px").maybe_add_style(
            "background-color",
            element_attribute(self, extra, "background-color"),
        );
        let tr = Tag::tr().maybe_add_class(element_attribute(self, extra, "css-class"));
        proof {
            assert(input@.attrs =~= element_input_view().attrs);
            assert(input@.classes =~= element_input_view().classes);
            assert(input@.styles =~= element_input_view().styles);
            assert(input@ == element_input_view());
            assert(div@ == plain_tag("div"@));
            assert(label@.classes =~= seq!["mj-accordion-element"@]);
            assert(label@.styles =~= element_label_view(self@, extra@).styles);
            assert(label@ == element_label_view(self@, extra@));
            assert(td@.styles =~= element_td_view(self@, extra@).styles);
            assert(td@ == element_td_view(self@, extra@));
            assert(tr@.classes =~= element_tr_view(self@, extra@).classes);
            assert(tr@ == element_tr_view(self@, extra@));
        }
        tr.render_open(&mut cursor.buffer);
        td.render_open(&mut cursor.buffer);
        label.render_open(&mut cursor.buffer);
        cursor.buffer.start_negation_conditional_tag();
        input.render_closed(&mut cursor.buffer);
        cursor.buffer.end_negation_conditional_tag();
        div.render_open(&mut cursor.buffer);
        proof {
            reveal(element_frame_open_markup);
            assert(cursor.buffer.content() =~= old(cursor).buffer.content()
                + element_frame_open_markup(self@, extra@));
        }
    }

    #[verifier::rlimit(100)]
    fn render_frame_close(&self, extra: &Attributes, cursor: &mut RenderCursor)
        ensures
            final(cursor).buffer.content() == old(cursor).buffer.content()
                + element_frame_close_markup(self@, extra@),
            final(cursor).buffer.counts() == old(cursor).buffer.counts(),
            final(cursor).header == old(cursor).header,
    {
        let div = Tag::div();
        let label = Tag::new("label").add_class("mj-accordion-element").add_style(
            "font-size",
            "13px",
        ).maybe_add_style("font-family", element_attribute(self, extra, "font-family"));
        let td = Tag::td().add_style("padding", "0px").maybe_add_style(
            "background-color",
            element_attribute(self, extra, "background-color"),
        );
        let tr = Tag::tr().maybe_add_class(element_attribute(self, extra, "css-class"));
        proof {
            assert(div@ == plain_tag("div"@));
            assert(label@ == element_label_view(self@, extra@));
            assert(td@ == element_td_view(self@, extra@));
            assert(tr@ == element_tr_view(self@, extra@));
        }
        div.render_close(&mut cursor.buffer);
        label.render_close(&mut cursor.buffer);
        td.render_close(&mut cursor.buffer);
        tr.render_close(&mut cursor.buffer);
        proof {
            reveal(element_frame_close_markup);
            assert(cursor.buffer.content() =~= old(cursor).buffer.content()
                + element_frame_close_markup(self@, extra@));
        }
    }

    /// Renders one accordion element: row, cell and label, the hidden
    /// checkbox inside a negation region, then the title and text slots —
    /// synthesized from kind defaults when absent — carrying the shared
    /// border/icon attributes as extra attributes.
    #[verifier::rlimit(100)]
    pub fn render(&self, extra: &Attributes, cursor: &mut RenderCursor) -> (r: Result<(), RenderError>)
        ensures
            r is Ok,
            final(cursor).buffer.content() == old(cursor).buffer.content()
                + accordion_element_markup(self@, extra@),
            final(cursor).buffer.counts() == (MarkerCounts {
                neg_open: old(cursor).buffer.counts().neg_open + 2,
                neg_close: old(cursor).buffer.counts().neg_close + 2,
                ..old(cursor).buffer.counts()
            }),
            final(cursor).header.fonts_view() == element_fonts_after(
                old(cursor).header.fonts_view(),
                self@,
                extra@,
            ),
            final(cursor).header.styles_view() == old(cursor).header.styles_view(),
            final(cursor).header.breakpoint_spec() == old(cursor).header.breakpoint_spec(),
            final(cursor).header.id_counter_spec() == old(cursor).header.id_counter_spec(),
    {
        self.render_frame_open(extra, cursor);
        let res = self.render_children(extra, cursor);
        if res.is_err() {
            return res;
        }
        self.render_frame_close(extra, cursor);
        proof {
            lemma_element_assembly(
                old(cursor).buffer.content(),
                self@,
                extra@,
                cursor.buffer.content(),
            );
        }
        Ok(())
    }
}

proof fn lemma_element_assembly(
    c0: Seq<char>,
    e: AccordionElementView,
    extra: Map<Seq<char>, Seq<char>>,
    cf: Seq<char>,
)
    requires
        cf == c0 + element_frame_open_markup(e, extra) + accordion_title_markup(
            eff_title(e),
            children_extra(e, extra),
        ) + accordion_text_markup(eff_text(e), children_extra(e, extra))
            + element_frame_close_markup(e, extra),
    ensures
        cf == c0 + accordion_element_markup(e, extra),
{
    reveal(accordion_element_markup);
    assert(cf =~= c0 + accordion_element_markup(e, extra));
}

/// Rendering an accordion element with both slots absent yields the same
/// bytes as rendering it with both slots explicitly set to the kind's empty
/// defaults.
pub proof fn lemma_slot_synthesis_idempotent(
    a: AccordionElementView,
    b: AccordionElementView,
    extra: Map<Seq<char>, Seq<char>>,
)
    requires
        a.title is None,
        a.text is None,
        b.title == Some(default_title_view()),
        b.text == Some(default_text_view()),
        b.attributes == a.attributes,
    ensures
        accordion_element_markup(a, extra) == accordion_element_markup(b, extra),
{
    reveal(accordion_element_markup);
    reveal(element_frame_open_markup);
    reveal(element_frame_close_markup);
    assert(eff_title(a) == eff_title(b));
    assert(eff_text(a) == eff_text(b));
    assert(children_extra(a, extra) == children_extra(b, extra));
    assert(element_frame_open_markup(a, extra) == element_frame_open_markup(b, extra));
    assert(element_frame_close_markup(a, extra) == element_frame_close_markup(b, extra));
}

} // verus!
