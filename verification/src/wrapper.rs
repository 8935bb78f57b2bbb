//! The width-bearing container kind: it receives an ambient container width
//! from its parent, computes the width available to its children, and wraps
//! each layout child in a conditional table row carrying the computed pixel
//! width, while raw children are emitted directly.

use vstd::prelude::*;
use crate::attributes::{Attributes, resolve_spec, resolve_attribute, resolved_equals};
use crate::buffer::{
    Tag, TagView, open_markup, close_markup, opt_push, opt_push_one, cond_start_marker,
    cond_end_marker, MarkerCounts,
};
use crate::navbar::{
    MjNavbar, NavbarView, navbar_markup, navbar_attr, navbar_attribute, navbar_children_fonts,
    navbar_child_extra, style_block, MjNavbarExtra,
};
use crate::raw::{RawElement, raw_markup};
use crate::render::{RenderCursor, RenderError};
use crate::size::{
    border_pixel_spec, border_pixel, px_or_zero, shorthand_left_right, shorthand_horizontal,
    parse_pixel, px_str, opt_px_str, px_string, MAX_PIXEL,
};
use crate::strings::opt_str_view;
use crate::accordion::plain_tag;
use crate::header::id_of;

verus! {

/// A child of a body container: a layout element, or a raw child excluded
/// from layout math.
pub enum MjBodyChild {
    /// A navigation bar, laid out in a wrapped table cell.
    Navbar(MjNavbar),
    /// A raw child, emitted directly.
    Raw(RawElement),
}

/// Abstract content of a body child.
pub enum BodyChildView {
    /// A navigation bar.
    Navbar(NavbarView),
    /// A raw child.
    Raw(RawElement),
}

impl View for MjBodyChild {
    type V = BodyChildView;

    open spec fn view(&self) -> BodyChildView {
        match self {
            MjBodyChild::Navbar(n) => BodyChildView::Navbar(n@),
            MjBodyChild::Raw(r) => BodyChildView::Raw(*r),
        }
    }
}

impl MjBodyChild {
    /// Whether the child is raw: excluded from layout width and sibling
    /// computations and emitted without the table-cell wrap.
    pub fn is_raw(&self) -> (r: bool)
        ensures
            r == (self@ is Raw),
    {
        match self {
            MjBodyChild::Raw(_) => true,
            MjBodyChild::Navbar(_) => false,
        }
    }
}

/// A wrapper container.
pub struct MjWrapper {
    /// The wrapper's own attributes.
    pub attributes: Attributes,
    /// The wrapper's children, in document order.
    pub children: Vec<MjBodyChild>,
}

/// Abstract content of a wrapper.
pub struct WrapperView {
    /// The wrapper's own attributes.
    pub attributes: Map<Seq<char>, Seq<char>>,
    /// The wrapper's children.
    pub children: Seq<BodyChildView>,
}

impl View for MjWrapper {
    type V = WrapperView;

    open spec fn view(&self) -> WrapperView {
        WrapperView {
            attributes: self.attributes@,
            children: Seq::new(self.children@.len(), |i: int| self.children@[i]@),
        }
    }
}

/// The wrapper kind's static defaults.
pub open spec fn wrapper_default(name: Seq<char>) -> Option<Seq<char>> {
    if name == "background-position"@ {
        Some("top center"@)
    } else if name == "background-repeat"@ {
        Some("repeat"@)
    } else if name == "background-size"@ {
        Some("auto"@)
    } else if name == "direction"@ {
        Some("ltr"@)
    } else if name == "padding"@ {
        Some("20px 0"@)
    } else if name == "text-align"@ {
        Some("center"@)
    } else if name == "text-padding"@ {
        Some("4px 4px 4px 0"@)
    } else {
        None
    }
}

fn wrapper_default_attribute(name: &str) -> (r: Option<&'static str>)
    ensures
        match r {
            Some(v) => wrapper_default(name@) == Some(v@),
            None => wrapper_default(name@) is None,
        },
{
    if crate::strings::str_eq(name, "background-position") {
        Some("top center")
    } else if crate::strings::str_eq(name, "background-repeat") {
        Some("repeat")
    } else if crate::strings::str_eq(name, "background-size") {
        Some("auto")
    } else if crate::strings::str_eq(name, "direction") {
        Some("ltr")
    } else if crate::strings::str_eq(name, "padding") {
        Some("20px 0")
    } else if crate::strings::str_eq(name, "text-align") {
        Some("center")
    } else if crate::strings::str_eq(name, "text-padding") {
        Some("4px 4px 4px 0")
    } else {
        None
    }
}

/// Attribute resolution for a wrapper.
pub open spec fn wrapper_attr(
    w: WrapperView,
    extra: Map<Seq<char>, Seq<char>>,
    name: Seq<char>,
) -> Option<Seq<char>> {
    resolve_spec(extra, w.attributes, wrapper_default(name), name)
}

fn wrapper_attribute(elt: &MjWrapper, extra: &Attributes, name: &str) -> (r: Option<String>)
    ensures
        opt_str_view(r) == wrapper_attr(elt@, extra@, name@),
{
    resolve_attribute(extra, &elt.attributes, wrapper_default_attribute(name), name)
}

/// One side's border width: the longhand attribute overrides the
/// shorthand; zero when neither resolves.
pub open spec fn side_border_spec(
    w: WrapperView,
    extra: Map<Seq<char>, Seq<char>>,
    longhand: Seq<char>,
) -> u32 {
    match wrapper_attr(w, extra, longhand) {
        Some(v) => border_pixel_spec(v),
        None => match wrapper_attr(w, extra, "border"@) {
            Some(v) => border_pixel_spec(v),
            None => 0,
        },
    }
}

/// The wrapper's total horizontal border width.
pub open spec fn border_horizontal_spec(w: WrapperView, extra: Map<Seq<char>, Seq<char>>) -> int {
    side_border_spec(w, extra, "border-left"@) + side_border_spec(w, extra, "border-right"@)
}

/// One side's padding width: the longhand attribute overrides the
/// shorthand component; zero when neither resolves.
pub open spec fn side_padding_spec(
    w: WrapperView,
    extra: Map<Seq<char>, Seq<char>>,
    longhand: Seq<char>,
    left: bool,
) -> u32 {
    match wrapper_attr(w, extra, longhand) {
        Some(v) => px_or_zero(v),
        None => match wrapper_attr(w, extra, "padding"@) {
            Some(v) => if left {
                shorthand_left_right(v).0
            } else {
                shorthand_left_right(v).1
            },
            None => 0,
        },
    }
}

/// The wrapper's total horizontal padding width.
pub open spec fn padding_horizontal_spec(w: WrapperView, extra: Map<Seq<char>, Seq<char>>) -> int {
    side_padding_spec(w, extra, "padding-left"@, true) + side_padding_spec(
        w,
        extra,
        "padding-right"@,
        false,
    )
}

/// The width available to the wrapper's children: the container width less
/// its horizontal border and padding, floored at zero; unconstrained when
/// no container width was ever established.
pub open spec fn current_width_spec(
    w: WrapperView,
    extra: Map<Seq<char>, Seq<char>>,
    container: Option<u32>,
) -> Option<u32> {
    match container {
        None => None,
        Some(cw) => Some(
            if border_horizontal_spec(w, extra) + padding_horizontal_spec(w, extra) <= cw {
                (cw - border_horizontal_spec(w, extra) - padding_horizontal_spec(w, extra)) as u32
            } else {
                0u32
            },
        ),
    }
}

fn side_border(elt: &MjWrapper, extra: &Attributes, longhand: &str) -> (r: u32)
    ensures
        r == side_border_spec(elt@, extra@, longhand@),
        r < MAX_PIXEL,
{
    match wrapper_attribute(elt, extra, longhand) {
        Some(v) => border_pixel(v.as_str()),
        None => match wrapper_attribute(elt, extra, "border") {
            Some(v) => border_pixel(v.as_str()),
            None => 0,
        },
    }
}

fn side_padding(elt: &MjWrapper, extra: &Attributes, longhand: &str, left: bool) -> (r: u32)
    ensures
        r == side_padding_spec(elt@, extra@, longhand@, left),
        r < MAX_PIXEL,
{
    match wrapper_attribute(elt, extra, longhand) {
        Some(v) => match parse_pixel(v.as_str()) {
            Some(px) => px,
            None => 0,
        },
        None => match wrapper_attribute(elt, extra, "padding") {
            Some(v) => {
                let lr = shorthand_horizontal(v.as_str());
                if left {
                    lr.0
                } else {
                    lr.1
                }
            },
            None => 0,
        },
    }
}

impl MjWrapper {
    /// Computes the width available to children:
    /// `container - horizontal border - horizontal padding`, floored at
    /// zero, and unconstrained when no container width was set.
    pub fn current_width(&self, extra: &Attributes, container_width: Option<u32>) -> (r: Option<
        u32,
    >)
        ensures
            r == current_width_spec(self@, extra@, container_width),
    {
        match container_width {
            None => None,
            Some(cw) => {
                let bl = side_border(self, extra, "border-left");
                let br = side_border(self, extra, "border-right");
                let pl = side_padding(self, extra, "padding-left", true);
                let pr = side_padding(self, extra, "padding-right", false);
                let take = bl + br + pl + pr;
                if take <= cw {
                    Some(cw - take)
                } else {
                    Some(0)
                }
            },
        }
    }

    /// Whether the full-width render strategy applies: the resolved
    /// `full-width` attribute must equal the sentinel value.
    pub open spec fn spec_is_full_width(w: WrapperView, extra: Map<Seq<char>, Seq<char>>) -> bool {
        wrapper_attr(w, extra, "full-width"@) == Some("full-width"@)
    }

    fn is_full_width(&self, extra: &Attributes) -> (r: bool)
        ensures
            r == Self::spec_is_full_width(self@, extra@),
    {
        resolved_equals(
            extra,
            &self.attributes,
            wrapper_default_attribute("full-width"),
            "full-width",
            "full-width",
        )
    }

    /// How many children render alongside each other.
    pub fn get_siblings(&self) -> (r: usize)
        ensures
            r == self@.children.len(),
    {
        self.children.len()
    }

    /// How many of the children are raw.
    pub fn get_raw_siblings(&self) -> (r: usize)
        ensures
            r == count_raws(self@.children),
    {
        let n = self.children.len();
        let mut count: usize = 0;
        let mut i: usize = 0;
        proof {
            assert(self@.children.take(0) =~= Seq::<BodyChildView>::empty());
        }
        while i < n
            invariant
                n == self.children@.len(),
                n == self@.children.len(),
                i <= n,
                self@.children == Seq::new(self.children@.len(), |k: int| self.children@[k]@),
                count == count_raws(self@.children.take(i as int)),
                count <= i,
            decreases n - i,
        {
            proof {
                assert(self@.children.take(i as int + 1).drop_last() =~= self@.children.take(
                    i as int,
                ));
                assert(self@.children.take(i as int + 1).last() == self@.children[i as int]);
            }
            if self.children[i].is_raw() {
                count = count + 1;
            }
            i = i + 1;
        }
        proof {
            assert(self@.children.take(n as int) =~= self@.children);
        }
        count
    }
}

/// How many of the children are raw.
pub open spec fn count_raws(cs: Seq<BodyChildView>) -> int
    decreases cs.len(),
{
    if cs.len() == 0 {
        0
    } else {
        count_raws(cs.drop_last()) + if cs.last() is Raw {
            1int
        } else {
            0int
        }
    }
}

/// How many pass-unique ids a child consumes while rendering.
pub open spec fn child_ids(c: BodyChildView) -> nat {
    match c {
        BodyChildView::Navbar(_) => 1,
        BodyChildView::Raw(_) => 0,
    }
}

/// How many pass-unique ids the children consume while rendering.
pub open spec fn children_ids(cs: Seq<BodyChildView>) -> nat
    decreases cs.len(),
{
    if cs.len() == 0 {
        0
    } else {
        child_ids(cs[0]) + children_ids(cs.skip(1))
    }
}

/// The cell wrapping one layout child for the legacy client, carrying the
/// child's own alignment and css class and the explicit container width.
pub open spec fn wrapped_td_view(nv: NavbarView, container: Option<u32>) -> TagView {
    TagView {
        name: "td"@,
        attrs: opt_push(
            opt_push(Seq::empty(), "align"@, navbar_attr(nv, Map::empty(), "align"@)),
            "width"@,
            opt_px_str(container),
        ),
        classes: match navbar_attr(nv, Map::empty(), "css-class"@) {
            Some(c) => seq![c + "-"@ + "outlook"@],
            None => Seq::empty(),
        },
        styles: Seq::empty(),
    }
}

/// Markup of one wrapped child: a raw child is emitted directly; a layout
/// child is wrapped in a table row and cell, with the ambient conditional
/// region closed around its own markup.
pub open spec fn wrapped_child_markup(
    c: BodyChildView,
    container: Option<u32>,
    counter: nat,
) -> Seq<char> {
    match c {
        BodyChildView::Raw(r) => raw_markup(r),
        BodyChildView::Navbar(nv) => open_markup(plain_tag("tr"@)) + open_markup(
            wrapped_td_view(nv, container),
        ) + cond_end_marker() + navbar_markup(nv, Map::empty(), id_of(counter))
            + cond_start_marker() + close_markup(wrapped_td_view(nv, container)) + close_markup(
            plain_tag("tr"@),
        ),
    }
}

/// Markup of all wrapped children, in document order, with the unique-id
/// counter threaded through the layout children.
pub open spec fn wrapped_children_markup(
    cs: Seq<BodyChildView>,
    container: Option<u32>,
    counter: nat,
) -> Seq<char>
    decreases cs.len(),
{
    if cs.len() == 0 {
        Seq::empty()
    } else {
        wrapped_child_markup(cs[0], container, counter) + wrapped_children_markup(
            cs.skip(1),
            container,
            counter + child_ids(cs[0]),
        )
    }
}

/// The header's font list after one wrapped child rendered.
pub open spec fn child_fonts(fonts: Seq<Seq<char>>, c: BodyChildView) -> Seq<Seq<char>> {
    match c {
        BodyChildView::Navbar(nv) => navbar_children_fonts(
            fonts,
            nv.children,
            navbar_child_extra(nv, Map::empty()),
        ),
        BodyChildView::Raw(_) => fonts,
    }
}

/// The header's font list after all wrapped children rendered.
pub open spec fn children_fonts(fonts: Seq<Seq<char>>, cs: Seq<BodyChildView>) -> Seq<Seq<char>>
    decreases cs.len(),
{
    if cs.len() == 0 {
        fonts
    } else {
        children_fonts(child_fonts(fonts, cs[0]), cs.skip(1))
    }
}

/// The header's style list after one wrapped child rendered.
pub open spec fn child_styles(styles: Seq<Seq<char>>, c: BodyChildView, bp: u32) -> Seq<Seq<char>> {
    match c {
        BodyChildView::Navbar(_) => styles.push(style_block(bp)),
        BodyChildView::Raw(_) => styles,
    }
}

/// The header's style list after all wrapped children rendered.
pub open spec fn children_styles(styles: Seq<Seq<char>>, cs: Seq<BodyChildView>, bp: u32) -> Seq<
    Seq<char>,
>
    decreases cs.len(),
{
    if cs.len() == 0 {
        styles
    } else {
        children_styles(child_styles(styles, cs[0], bp), cs.skip(1), bp)
    }
}

/// The outer div of the simple strategy, centred and capped at the
/// container width.
pub open spec fn simple_div_view(
    w: WrapperView,
    extra: Map<Seq<char>, Seq<char>>,
    container: Option<u32>,
) -> TagView {
    TagView {
        name: "div"@,
        attrs: Seq::empty(),
        classes: opt_push_one(Seq::empty(), wrapper_attr(w, extra, "css-class"@)),
        styles: opt_push(seq![("margin"@, "0px auto"@)], "max-width"@, opt_px_str(container)),
    }
}

/// The conditional table of the simple strategy, carrying the explicit
/// container width for the legacy client.
pub open spec fn simple_table_view(
    w: WrapperView,
    extra: Map<Seq<char>, Seq<char>>,
    container: Option<u32>,
) -> TagView {
    TagView {
        name: "table"@,
        attrs: opt_push(
            seq![
                ("border"@, "0"@),
                ("cellpadding"@, "0"@),
                ("cellspacing"@, "0"@),
                ("role"@, "presentation"@),
                ("align"@, "center"@),
            ],
            "width"@,
            opt_px_str(container),
        ),
        classes: Seq::empty(),
        styles: seq![("width"@, "100%"@)],
    }
}

/// Markup of the simple strategy: the centred div, the conditional table
/// wrap, and the wrapped children within the computed width.
#[verifier::opaque]
pub open spec fn simple_markup(
    w: WrapperView,
    extra: Map<Seq<char>, Seq<char>>,
    container: Option<u32>,
    counter: nat,
) -> Seq<char> {
    open_markup(simple_div_view(w, extra, container)) + cond_start_marker() + open_markup(
        simple_table_view(w, extra, container),
    ) + open_markup(plain_tag("tr"@)) + open_markup(plain_tag("td"@)) + wrapped_children_markup(
        w.children,
        container,
        counter,
    ) + close_markup(plain_tag("td"@)) + close_markup(plain_tag("tr"@)) + close_markup(
        simple_table_view(w, extra, container),
    ) + cond_end_marker() + close_markup(simple_div_view(w, extra, container))
}

/// The background table of the full-width strategy, rendered against the
/// unconstrained outer width.
pub open spec fn full_table_view(w: WrapperView, extra: Map<Seq<char>, Seq<char>>) -> TagView {
    TagView {
        name: "table"@,
        attrs: seq![
            ("border"@, "0"@),
            ("cellpadding"@, "0"@),
            ("cellspacing"@, "0"@),
            ("role"@, "presentation"@),
        ],
        classes: Seq::empty(),
        styles: opt_push(
            seq![("width"@, "100%"@)],
            "background-color"@,
            wrapper_attr(w, extra, "background-color"@),
        ),
    }
}

/// Markup of the full-width strategy: the background table against the
/// unconstrained width, holding the simple strategy's output.
#[verifier::opaque]
pub open spec fn full_markup(
    w: WrapperView,
    extra: Map<Seq<char>, Seq<char>>,
    container: Option<u32>,
    counter: nat,
) -> Seq<char> {
    open_markup(full_table_view(w, extra)) + open_markup(plain_tag("tr"@)) + open_markup(
        plain_tag("td"@),
    ) + simple_markup(w, extra, container, counter) + close_markup(plain_tag("td"@))
        + close_markup(plain_tag("tr"@)) + close_markup(full_table_view(w, extra))
}

/// Full markup of a wrapper: the strategy the resolved `full-width`
/// attribute selects.
pub open spec fn wrapper_markup(
    w: WrapperView,
    extra: Map<Seq<char>, Seq<char>>,
    container: Option<u32>,
    counter: nat,
) -> Seq<char> {
    if MjWrapper::spec_is_full_width(w, extra) {
        full_markup(w, extra, container, counter)
    } else {
        simple_markup(w, extra, container, counter)
    }
}

proof fn lemma_simple_assembly(
    c0: Seq<char>,
    w: WrapperView,
    extra: Map<Seq<char>, Seq<char>>,
    container: Option<u32>,
    counter: nat,
    cf: Seq<char>,
)
    requires
        cf == c0 + open_markup(simple_div_view(w, extra, container)) + cond_start_marker()
            + open_markup(simple_table_view(w, extra, container)) + open_markup(plain_tag("tr"@))
            + open_markup(plain_tag("td"@)) + wrapped_children_markup(w.children, container, counter)
            + close_markup(plain_tag("td"@)) + close_markup(plain_tag("tr"@)) + close_markup(
            simple_table_view(w, extra, container),
        ) + cond_end_marker() + close_markup(simple_div_view(w, extra, container)),
    ensures
        cf == c0 + simple_markup(w, extra, container, counter),
{
    reveal(simple_markup);
    assert(cf =~= c0 + simple_markup(w, extra, container, counter));
}

proof fn lemma_full_assembly(
    c0: Seq<char>,
    w: WrapperView,
    extra: Map<Seq<char>, Seq<char>>,
    container: Option<u32>,
    counter: nat,
    cf: Seq<char>,
)
    requires
        cf == c0 + open_markup(full_table_view(w, extra)) + open_markup(plain_tag("tr"@))
            + open_markup(plain_tag("td"@)) + simple_markup(w, extra, container, counter)
            + close_markup(plain_tag("td"@)) + close_markup(plain_tag("tr"@)) + close_markup(
            full_table_view(w, extra),
        ),
    ensures
        cf == c0 + full_markup(w, extra, container, counter),
{
    reveal(full_markup);
    assert(cf =~= c0 + full_markup(w, extra, container, counter));
}

impl MjWrapper {
    /// Renders every child: a raw child is emitted
    /// directly into the current row; a layout child receives the computed
    /// current width, the sibling counts and a fresh id, and is wrapped in
    /// a table row and cell carrying the explicit container width, with the
    /// ambient conditional region closed around its own markup.
    #[verifier::rlimit(100)]
    fn render_wrapped_children(
        &self,
        extra: &Attributes,
        container_width: Option<u32>,
        cursor: &mut RenderCursor,
    ) -> (r: Result<(), RenderError>)
        requires
            old(cursor).header.id_counter_spec() + children_ids(self@.children) <= u64::MAX,
        ensures
            r is Ok,
            final(cursor).buffer.content() == old(cursor).buffer.content()
                + wrapped_children_markup(
                self@.children,
                container_width,
                old(cursor).header.id_counter_spec(),
            ),
            MarkerCounts::same_delta(old(cursor).buffer.counts(), final(cursor).buffer.counts()),
            final(cursor).header.fonts_view() == children_fonts(
                old(cursor).header.fonts_view(),
                self@.children,
            ),
            final(cursor).header.styles_view() == children_styles(
                old(cursor).header.styles_view(),
                self@.children,
                old(cursor).header.breakpoint_spec(),
            ),
            final(cursor).header.breakpoint_spec() == old(cursor).header.breakpoint_spec(),
            final(cursor).header.id_counter_spec() == old(cursor).header.id_counter_spec()
                + children_ids(self@.children),
    {
        let siblings = self.get_siblings();
        let raw_siblings = self.get_raw_siblings();
        let current = self.current_width(extra, container_width);
        let empty_extra = Attributes::new();
        let ghost cs = self@.children;
        let ghost mid0 = cursor.buffer.content();
        let ghost counts0 = cursor.buffer.counts();
        let ghost fonts0 = cursor.header.fonts_view();
        let ghost styles0 = cursor.header.styles_view();
        let ghost counter0 = cursor.header.id_counter_spec();
        let ghost bp = cursor.header.breakpoint_spec();
        let n = self.children.len();
        let mut i: usize = 0;
        proof {
            assert(cs.skip(0) =~= cs);
        }
        while i < n
            invariant
                n == self.children@.len(),
                n == cs.len(),
                i <= n,
                cs == Seq::new(self.children@.len(), |k: int| self.children@[k]@),
                empty_extra@ == Map::<Seq<char>, Seq<char>>::empty(),
                mid0 + wrapped_children_markup(cs, container_width, counter0)
                    == cursor.buffer.content() + wrapped_children_markup(
                    cs.skip(i as int),
                    container_width,
                    cursor.header.id_counter_spec(),
                ),
                MarkerCounts::same_delta(counts0, cursor.buffer.counts()),
                children_fonts(fonts0, cs) == children_fonts(
                    cursor.header.fonts_view(),
                    cs.skip(i as int),
                ),
                children_styles(styles0, cs, bp) == children_styles(
                    cursor.header.styles_view(),
                    cs.skip(i as int),
                    bp,
                ),
                cursor.header.breakpoint_spec() == bp,
                cursor.header.id_counter_spec() + children_ids(cs.skip(i as int)) == counter0
                    + children_ids(cs),
                counter0 + children_ids(cs) <= u64::MAX,
            decreases n - i,
        {
            let ghost c_before = cursor.buffer.content();
            let ghost counter_here = cursor.header.id_counter_spec();
            proof {
                assert(cs.skip(i as int)[0] == cs[i as int]);
                assert(cs.skip(i as int).skip(1) =~= cs.skip(i as int + 1));
            }
            match &self.children[i] {
                MjBodyChild::Raw(raw) => {
                    let res = raw.render(cursor);
                    if res.is_err() {
                        return res;
                    }
                },
                MjBodyChild::Navbar(nv) => {
                    proof {
                        assert(cs[i as int] is Navbar);
                        assert(children_ids(cs.skip(i as int)) == 1 + children_ids(
                            cs.skip(i as int + 1),
                        ));
                    }
                    let id = cursor.header.next_id();
                    let mut nav_extra = MjNavbarExtra::new(siblings, raw_siblings, id);
                    nav_extra.set_container_width(current);
                    let width_attr = match container_width {
                        Some(w) => Some(px_string(w)),
                        None => None,
                    };
                    let tr = Tag::tr();
                    let td = Tag::td().maybe_add_attribute(
                        "align",
                        navbar_attribute(nv, &empty_extra, "align"),
                    ).maybe_add_attribute("width", width_attr).maybe_add_suffixed_class(
                        navbar_attribute(nv, &empty_extra, "css-class"),
                        "outlook",
                    );
                    proof {
                        assert(tr@ == plain_tag("tr"@));
                        assert(td@.attrs =~= wrapped_td_view(nv@, container_width).attrs);
                        assert(td@.classes =~= wrapped_td_view(nv@, container_width).classes);
                        assert(td@ == wrapped_td_view(nv@, container_width));
                    }
                    tr.render_open(&mut cursor.buffer);
                    td.render_open(&mut cursor.buffer);
                    cursor.buffer.end_conditional_tag();
                    let res = nv.render(&empty_extra, &nav_extra, cursor);
                    if res.is_err() {
                        return res;
                    }
                    cursor.buffer.start_conditional_tag();
                    td.render_close(&mut cursor.buffer);
                    tr.render_close(&mut cursor.buffer);
                },
            }
            proof {
                assert(cursor.buffer.content() =~= c_before + wrapped_child_markup(
                    cs[i as int],
                    container_width,
                    counter_here,
                ));
                assert(c_before + wrapped_child_markup(cs[i as int], container_width, counter_here)
                    + wrapped_children_markup(
                    cs.skip(i as int + 1),
                    container_width,
                    cursor.header.id_counter_spec(),
                ) =~= c_before + (wrapped_child_markup(cs[i as int], container_width, counter_here)
                    + wrapped_children_markup(
                    cs.skip(i as int + 1),
                    container_width,
                    cursor.header.id_counter_spec(),
                )));
            }
            i = i + 1;
        }
        proof {
            assert(cs.skip(n as int) =~= Seq::<BodyChildView>::empty());
            assert(cursor.buffer.content() + wrapped_children_markup(
                cs.skip(n as int),
                container_width,
                cursor.header.id_counter_spec(),
            ) =~= cursor.buffer.content());
        }
        Ok(())
    }

    /// The simple strategy: a centred div capped at the container width,
    /// the conditional table wrap, and the children within the computed
    /// current width.
    #[verifier::rlimit(100)]
    fn render_simple(
        &self,
        extra: &Attributes,
        container_width: Option<u32>,
        cursor: &mut RenderCursor,
    ) -> (r: Result<(), RenderError>)
        requires
            old(cursor).header.id_counter_spec() + children_ids(self@.children) <= u64::MAX,
        ensures
            r is Ok,
            final(cursor).buffer.content() == old(cursor).buffer.content() + simple_markup(
                self@,
                extra@,
                container_width,
                old(cursor).header.id_counter_spec(),
            ),
            MarkerCounts::same_delta(old(cursor).buffer.counts(), final(cursor).buffer.counts()),
            final(cursor).header.fonts_view() == children_fonts(
                old(cursor).header.fonts_view(),
                self@.children,
            ),
            final(cursor).header.styles_view() == children_styles(
                old(cursor).header.styles_view(),
                self@.children,
                old(cursor).header.breakpoint_spec(),
            ),
            final(cursor).header.breakpoint_spec() == old(cursor).header.breakpoint_spec(),
            final(cursor).header.id_counter_spec() == old(cursor).header.id_counter_spec()
                + children_ids(self@.children),
    {
        let width_attr = match container_width {
            Some(w) => Some(px_string(w)),
            None => None,
        };
        let width_style = match container_width {
            Some(w) => Some(px_string(w)),
            None => None,
        };
        let div = Tag::div().maybe_add_class(wrapper_attribute(self, extra, "css-class")).add_style(
            "margin",
            "0px auto",
        ).maybe_add_style("max-width", width_style);
        let table = Tag::table_presentation().add_attribute("align", "center").maybe_add_attribute(
            "width",
            width_attr,
        ).add_style("width", "100%");
        let tr = Tag::tr();
        let td = Tag::td();
        proof {
            assert(div@.classes =~= simple_div_view(self@, extra@, container_width).classes);
            assert(div@.styles =~= simple_div_view(self@, extra@, container_width).styles);
            assert(div@ == simple_div_view(self@, extra@, container_width));
            assert(table@.attrs =~= simple_table_view(self@, extra@, container_width).attrs);
            assert(table@.styles =~= simple_table_view(self@, extra@, container_width).styles);
            assert(table@ == simple_table_view(self@, extra@, container_width));
            assert(tr@ == plain_tag("tr"@));
            assert(td@ == plain_tag("td"@));
        }
        div.render_open(&mut cursor.buffer);
        cursor.buffer.start_conditional_tag();
        table.render_open(&mut cursor.buffer);
        tr.render_open(&mut cursor.buffer);
        td.render_open(&mut cursor.buffer);
        let res = self.render_wrapped_children(extra, container_width, cursor);
        if res.is_err() {
            return res;
        }
        td.render_close(&mut cursor.buffer);
        tr.render_close(&mut cursor.buffer);
        table.render_close(&mut cursor.buffer);
        cursor.buffer.end_conditional_tag();
        div.render_close(&mut cursor.buffer);
        proof {
            lemma_simple_assembly(
                old(cursor).buffer.content(),
                self@,
                extra@,
                container_width,
                old(cursor).header.id_counter_spec(),
                cursor.buffer.content(),
            );
        }
        Ok(())
    }

    /// The full-width strategy: background styling rendered against the
    /// unconstrained outer width, holding the simple strategy's output.
    #[verifier::rlimit(100)]
    fn render_full_width(
        &self,
        extra: &Attributes,
        container_width: Option<u32>,
        cursor: &mut RenderCursor,
    ) -> (r: Result<(), RenderError>)
        requires
            old(cursor).header.id_counter_spec() + children_ids(self@.children) <= u64::MAX,
        ensures
            r is Ok,
            final(cursor).buffer.content() == old(cursor).buffer.content() + full_markup(
                self@,
                extra@,
                container_width,
                old(cursor).header.id_counter_spec(),
            ),
            MarkerCounts::same_delta(old(cursor).buffer.counts(), final(cursor).buffer.counts()),
            final(cursor).header.fonts_view() == children_fonts(
                old(cursor).header.fonts_view(),
                self@.children,
            ),
            final(cursor).header.styles_view() == children_styles(
                old(cursor).header.styles_view(),
                self@.children,
                old(cursor).header.breakpoint_spec(),
            ),
            final(cursor).header.breakpoint_spec() == old(cursor).header.breakpoint_spec(),
            final(cursor).header.id_counter_spec() == old(cursor).header.id_counter_spec()
                + children_ids(self@.children),
    {
        let table = Tag::table_presentation().add_style("width", "100%").maybe_add_style(
            "background-color",
            wrapper_attribute(self, extra, "background-color"),
        );
        let tr = Tag::tr();
        let td = Tag::td();
        proof {
            assert(table@.attrs =~= full_table_view(self@, extra@).attrs);
            assert(table@.styles =~= full_table_view(self@, extra@).styles);
            assert(table@ == full_table_view(self@, extra@));
            assert(tr@ == plain_tag("tr"@));
            assert(td@ == plain_tag("td"@));
        }
        table.render_open(&mut cursor.buffer);
        tr.render_open(&mut cursor.buffer);
        td.render_open(&mut cursor.buffer);
        let res = self.render_simple(extra, container_width, cursor);
        if res.is_err() {
            return res;
        }
        td.render_close(&mut cursor.buffer);
        tr.render_close(&mut cursor.buffer);
        table.render_close(&mut cursor.buffer);
        proof {
            lemma_full_assembly(
                old(cursor).buffer.content(),
                self@,
                extra@,
                container_width,
                old(cursor).header.id_counter_spec(),
                cursor.buffer.content(),
            );
        }
        Ok(())
    }

    /// Renders the wrapper with the strategy the resolved `full-width`
    /// attribute selects.
    pub fn render(
        &self,
        extra: &Attributes,
        container_width: Option<u32>,
        cursor: &mut RenderCursor,
    ) -> (r: Result<(), RenderError>)
        requires
            old(cursor).header.id_counter_spec() + children_ids(self@.children) <= u64::MAX,
        ensures
            r is Ok,
            final(cursor).buffer.content() == old(cursor).buffer.content() + wrapper_markup(
                self@,
                extra@,
                container_width,
                old(cursor).header.id_counter_spec(),
            ),
            MarkerCounts::same_delta(old(cursor).buffer.counts(), final(cursor).buffer.counts()),
            final(cursor).header.fonts_view() == children_fonts(
                old(cursor).header.fonts_view(),
                self@.children,
            ),
            final(cursor).header.styles_view() == children_styles(
                old(cursor).header.styles_view(),
                self@.children,
                old(cursor).header.breakpoint_spec(),
            ),
            final(cursor).header.breakpoint_spec() == old(cursor).header.breakpoint_spec(),
            final(cursor).header.id_counter_spec() == old(cursor).header.id_counter_spec()
                + children_ids(self@.children),
    {
        if self.is_full_width(extra) {
            self.render_full_width(extra, container_width, cursor)
        } else {
            self.render_simple(extra, container_width, cursor)
        }
    }
}

} // verus!
