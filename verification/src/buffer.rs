//! The append-only render buffer with its conditional-comment protocol, and
//! the tag builder that emits HTML skeletons into it.
//!
//! Three mutually exclusive region modes exist: *conditional* (rendered only
//! by the legacy table-based mail client), *negation-conditional* (rendered
//! by every client but that one) and *MSO-negation-conditional* (a variant
//! suppressing one particular legacy quirk). The ghost marker counts record
//! every enter/exit call, so balance of the protocol is stated exactly.

use vstd::prelude::*;
use vstd::string::StringExecFns;

verus! {

/// Ghost tally of the conditional-region markers written so far.
pub struct MarkerCounts {
    /// Opens of legacy-only regions.
    pub cond_open: nat,
    /// Closes of legacy-only regions.
    pub cond_close: nat,
    /// Opens of negation regions.
    pub neg_open: nat,
    /// Opens of MSO-negation regions; they share the negation close marker.
    pub mso_open: nat,
    /// Closes of negation and MSO-negation regions.
    pub neg_close: nat,
}

impl MarkerCounts {
    /// No marker written yet.
    pub open spec fn zero() -> MarkerCounts {
        MarkerCounts { cond_open: 0, cond_close: 0, neg_open: 0, mso_open: 0, neg_close: 0 }
    }

    /// Every opened region has been closed.
    pub open spec fn balanced(self) -> bool {
        self.cond_open == self.cond_close && self.neg_open + self.mso_open == self.neg_close
    }

    /// Between `pre` and `post`, as many regions were opened as closed.
    pub open spec fn same_delta(pre: MarkerCounts, post: MarkerCounts) -> bool {
        &&& post.cond_open - pre.cond_open == post.cond_close - pre.cond_close
        &&& post.neg_open + post.mso_open - pre.neg_open - pre.mso_open == post.neg_close
            - pre.neg_close
    }
}

/// Marker opening a legacy-only region.
pub open spec fn cond_start_marker() -> Seq<char> {
    "<!--[if mso | IE]>"@
}

/// Marker closing a legacy-only region.
pub open spec fn cond_end_marker() -> Seq<char> {
    "<![endif]-->"@
}

/// Marker opening a negation region (hidden from the legacy client).
pub open spec fn neg_start_marker() -> Seq<char> {
    "<!--[if !mso | IE]><!-->"@
}

/// Marker closing a negation or MSO-negation region.
pub open spec fn neg_end_marker() -> Seq<char> {
    "<!--<![endif]-->"@
}

/// Marker opening an MSO-negation region.
pub open spec fn mso_neg_start_marker() -> Seq<char> {
    "<!--[if !mso><!-->"@
}

/// Append-only output buffer for one render pass.
pub struct RenderBuffer {
    out: String,
    counts: Ghost<MarkerCounts>,
}

impl RenderBuffer {
    /// The characters written so far.
    pub closed spec fn content(self) -> Seq<char> {
        self.out@
    }

    /// The conditional-region markers written so far.
    pub closed spec fn counts(self) -> MarkerCounts {
        self.counts@
    }

    /// An empty buffer.
    pub fn new() -> (r: RenderBuffer)
        ensures
            r.content() == Seq::<char>::empty(),
            r.counts() == MarkerCounts::zero(),
    {
        RenderBuffer { out: String::new(), counts: Ghost(MarkerCounts::zero()) }
    }

    /// Appends plain markup.
    pub fn push_str(&mut self, s: &str)
        ensures
            final(self).content() == old(self).content() + s@,
            final(self).counts() == old(self).counts(),
    {
        self.out.append(s);
    }

    /// The rendered fragment.
    pub fn as_str(&self) -> (r: &str)
        ensures
            r@ == self.content(),
    {
        self.out.as_str()
    }

    /// The rendered fragment as an owned string.
    pub fn into_string(self) -> (r: String)
        ensures
            r@ == self.content(),
    {
        self.out
    }

    /// Opens a legacy-only region.
    pub fn start_conditional_tag(&mut self)
        ensures
            final(self).content() == old(self).content() + cond_start_marker(),
            final(self).counts() == (MarkerCounts {
                cond_open: old(self).counts().cond_open + 1,
                ..old(self).counts()
            }),
    {
        self.out.append("<!--[if mso | IE]>");
        proof {
            self.counts@ = MarkerCounts { cond_open: self.counts@.cond_open + 1, ..self.counts@ };
        }
    }

    /// Closes a legacy-only region.
    pub fn end_conditional_tag(&mut self)
        ensures
            final(self).content() == old(self).content() + cond_end_marker(),
            final(self).counts() == (MarkerCounts {
                cond_close: old(self).counts().cond_close + 1,
                ..old(self).counts()
            }),
    {
        self.out.append("<![endif]-->");
        proof {
            self.counts@ = MarkerCounts {
                cond_close: self.counts@.cond_close + 1,
                ..self.counts@
            };
        }
    }

    /// Opens a negation region, rendered by every client but the legacy one.
    pub fn start_negation_conditional_tag(&mut self)
        ensures
            final(self).content() == old(self).content() + neg_start_marker(),
            final(self).counts() == (MarkerCounts {
                neg_open: old(self).counts().neg_open + 1,
                ..old(self).counts()
            }),
    {
        self.out.append("<!--[if !mso | IE]><!-->");
        proof {
            self.counts@ = MarkerCounts { neg_open: self.counts@.neg_open + 1, ..self.counts@ };
        }
    }

    /// Closes a negation or MSO-negation region.
    pub fn end_negation_conditional_tag(&mut self)
        ensures
            final(self).content() == old(self).content() + neg_end_marker(),
            final(self).counts() == (MarkerCounts {
                neg_close: old(self).counts().neg_close + 1,
                ..old(self).counts()
            }),
    {
        self.out.append("<!--<![endif]-->");
        proof {
            self.counts@ = MarkerCounts { neg_close: self.counts@.neg_close + 1, ..self.counts@ };
        }
    }

    /// Opens an MSO-negation region; closed by
    /// [`Self::end_negation_conditional_tag`].
    pub fn start_mso_negation_conditional_tag(&mut self)
        ensures
            final(self).content() == old(self).content() + mso_neg_start_marker(),
            final(self).counts() == (MarkerCounts {
                mso_open: old(self).counts().mso_open + 1,
                ..old(self).counts()
            }),
    {
        self.out.append("<!--[if !mso><!-->");
        proof {
            self.counts@ = MarkerCounts { mso_open: self.counts@.mso_open + 1, ..self.counts@ };
        }
    }
}

/// Abstract content of a tag skeleton.
pub struct TagView {
    /// Tag name.
    pub name: Seq<char>,
    /// HTML attributes, in emission order.
    pub attrs: Seq<(Seq<char>, Seq<char>)>,
    /// CSS classes, joined into one `class` attribute.
    pub classes: Seq<Seq<char>>,
    /// Inline styles, joined into one `style` attribute.
    pub styles: Seq<(Seq<char>, Seq<char>)>,
}

/// Views of a key/value list.
pub open spec fn kv_views(s: Seq<(String, String)>) -> Seq<(Seq<char>, Seq<char>)> {
    Seq::new(s.len(), |i: int| (s[i].0@, s[i].1@))
}

/// Views of a string list.
pub open spec fn str_views(s: Seq<String>) -> Seq<Seq<char>> {
    Seq::new(s.len(), |i: int| s[i]@)
}

/// ` k="v"` for one attribute.
pub open spec fn attr_piece(k: Seq<char>, v: Seq<char>) -> Seq<char> {
    " "@ + k + "=\""@ + v + "\""@
}

/// The attribute pieces of a tag, concatenated.
pub open spec fn attrs_markup(attrs: Seq<(Seq<char>, Seq<char>)>) -> Seq<char>
    decreases attrs.len(),
{
    if attrs.len() == 0 {
        Seq::empty()
    } else {
        attrs_markup(attrs.drop_last()) + attr_piece(attrs.last().0, attrs.last().1)
    }
}

/// Class names joined by single spaces.
pub open spec fn join_space(cs: Seq<Seq<char>>) -> Seq<char>
    decreases cs.len(),
{
    if cs.len() == 0 {
        Seq::empty()
    } else if cs.len() == 1 {
        cs[0]
    } else {
        join_space(cs.drop_last()) + " "@ + cs.last()
    }
}

/// ` class="..."`, or nothing when the tag carries no class.
pub open spec fn classes_markup(cs: Seq<Seq<char>>) -> Seq<char> {
    if cs.len() == 0 {
        Seq::empty()
    } else {
        " class=\""@ + join_space(cs) + "\""@
    }
}

/// `k:v;` pairs of the inline style value, concatenated.
pub open spec fn styles_value(ss: Seq<(Seq<char>, Seq<char>)>) -> Seq<char>
    decreases ss.len(),
{
    if ss.len() == 0 {
        Seq::empty()
    } else {
        styles_value(ss.drop_last()) + ss.last().0 + ":"@ + ss.last().1 + ";"@
    }
}

/// ` style="..."`, or nothing when the tag carries no style.
pub open spec fn styles_markup(ss: Seq<(Seq<char>, Seq<char>)>) -> Seq<char> {
    if ss.len() == 0 {
        Seq::empty()
    } else {
        " style=\""@ + styles_value(ss) + "\""@
    }
}

/// Everything of an opening tag between `<` and `>`.
pub open spec fn tag_head(t: TagView) -> Seq<char> {
    t.name + attrs_markup(t.attrs) + classes_markup(t.classes) + styles_markup(t.styles)
}

/// The opening markup `<name ...>` of a tag.
pub open spec fn open_markup(t: TagView) -> Seq<char> {
    "<"@ + tag_head(t) + ">"@
}

/// The markup `<name ... />` of a childless tag.
pub open spec fn closed_markup(t: TagView) -> Seq<char> {
    "<"@ + tag_head(t) + " />"@
}

/// The closing markup `</name>` of a tag.
pub open spec fn close_markup(t: TagView) -> Seq<char> {
    "</"@ + t.name + ">"@
}

/// `s` with `(k, v)` appended when a value is given.
pub open spec fn opt_push(
    s: Seq<(Seq<char>, Seq<char>)>,
    k: Seq<char>,
    v: Option<Seq<char>>,
) -> Seq<(Seq<char>, Seq<char>)> {
    match v {
        Some(x) => s.push((k, x)),
        None => s,
    }
}

/// `s` with `v` appended when a value is given.
pub open spec fn opt_push_one(s: Seq<Seq<char>>, v: Option<Seq<char>>) -> Seq<Seq<char>> {
    match v {
        Some(x) => s.push(x),
        None => s,
    }
}

/// Builder for one HTML tag: attributes, classes and inline styles gathered
/// in emission order, then written as an opening, closing or self-closing
/// skeleton.
pub struct Tag {
    name: String,
    attrs: Vec<(String, String)>,
    classes: Vec<String>,
    styles: Vec<(String, String)>,
}

impl View for Tag {
    type V = TagView;

    closed spec fn view(&self) -> TagView {
        TagView {
            name: self.name@,
            attrs: kv_views(self.attrs@),
            classes: str_views(self.classes@),
            styles: kv_views(self.styles@),
        }
    }
}

impl Tag {
    /// A bare tag with the given name.
    pub fn new(name: &str) -> (r: Tag)
        ensures
            r@ == (TagView {
                name: name@,
                attrs: Seq::empty(),
                classes: Seq::empty(),
                styles: Seq::empty(),
            }),
    {
        let r = Tag { name: name.to_owned(), attrs: Vec::new(), classes: Vec::new(), styles: Vec::new() };
        proof {
            assert(r@.attrs =~= Seq::<(Seq<char>, Seq<char>)>::empty());
            assert(r@.classes =~= Seq::<Seq<char>>::empty());
            assert(r@.styles =~= Seq::<(Seq<char>, Seq<char>)>::empty());
        }
        r
    }

    /// A `div` tag.
    pub fn div() -> (r: Tag)
        ensures
            r@ == (TagView {
                name: "div"@,
                attrs: Seq::empty(),
                classes: Seq::empty(),
                styles: Seq::empty(),
            }),
    {
        Tag::new("div")
    }

    /// A `td` tag.
    pub fn td() -> (r: Tag)
        ensures
            r@ == (TagView {
                name: "td"@,
                attrs: Seq::empty(),
                classes: Seq::empty(),
                styles: Seq::empty(),
            }),
    {
        Tag::new("td")
    }

    /// A `tr` tag.
    pub fn tr() -> (r: Tag)
        ensures
            r@ == (TagView {
                name: "tr"@,
                attrs: Seq::empty(),
                classes: Seq::empty(),
                styles: Seq::empty(),
            }),
    {
        Tag::new("tr")
    }

    /// A `tbody` tag.
    pub fn tbody() -> (r: Tag)
        ensures
            r@ == (TagView {
                name: "tbody"@,
                attrs: Seq::empty(),
                classes: Seq::empty(),
                styles: Seq::empty(),
            }),
    {
        Tag::new("tbody")
    }

    /// A `table` tag.
    pub fn table() -> (r: Tag)
        ensures
            r@ == (TagView {
                name: "table"@,
                attrs: Seq::empty(),
                classes: Seq::empty(),
                styles: Seq::empty(),
            }),
    {
        Tag::new("table")
    }

    /// The presentation table every layout row sits in.
    pub fn table_presentation() -> (r: Tag)
        ensures
            r@ == (TagView {
                name: "table"@,
                attrs: seq![("border"@, "0"@), ("cellpadding"@, "0"@), ("cellspacing"@, "0"@), ("role"@, "presentation"@)],
                classes: Seq::empty(),
                styles: Seq::empty(),
            }),
    {
        let r = Tag::table().add_attribute("border", "0").add_attribute(
            "cellpadding",
            "0",
        ).add_attribute("cellspacing", "0").add_attribute("role", "presentation");
        proof {
            assert(r@.attrs =~= seq![
                ("border"@, "0"@),
                ("cellpadding"@, "0"@),
                ("cellspacing"@, "0"@),
                ("role"@, "presentation"@),
            ]);
        }
        r
    }

    /// Appends one attribute.
    pub fn add_attribute(self, k: &str, v: &str) -> (r: Tag)
        ensures
            r@ == (TagView { attrs: self@.attrs.push((k@, v@)), ..self@ }),
    {
        let ghost pre = self@;
        let mut t = self;
        t.attrs.push((k.to_owned(), v.to_owned()));
        proof {
            assert(t@.attrs =~= pre.attrs.push((k@, v@)));
        }
        t
    }

    /// Appends one attribute when a value is given.
    pub fn maybe_add_attribute(self, k: &str, v: Option<String>) -> (r: Tag)
        ensures
            r@ == match v {
                Some(s) => (TagView { attrs: self@.attrs.push((k@, s@)), ..self@ }),
                None => self@,
            },
    {
        match v {
            Some(s) => self.add_attribute(k, s.as_str()),
            None => self,
        }
    }

    /// Appends one CSS class.
    pub fn add_class(self, c: &str) -> (r: Tag)
        ensures
            r@ == (TagView { classes: self@.classes.push(c@), ..self@ }),
    {
        let ghost pre = self@;
        let mut t = self;
        t.classes.push(c.to_owned());
        proof {
            assert(t@.classes =~= pre.classes.push(c@));
        }
        t
    }

    /// Appends one CSS class when a value is given.
    pub fn maybe_add_class(self, c: Option<String>) -> (r: Tag)
        ensures
            r@ == match c {
                Some(s) => (TagView { classes: self@.classes.push(s@), ..self@ }),
                None => self@,
            },
    {
        match c {
            Some(s) => self.add_class(s.as_str()),
            None => self,
        }
    }

    /// Appends `c-suffix` as a CSS class when a value is given.
    pub fn maybe_add_suffixed_class(self, c: Option<String>, suffix: &str) -> (r: Tag)
        ensures
            r@ == match c {
                Some(s) => (TagView {
                    classes: self@.classes.push(s@ + "-"@ + suffix@),
                    ..self@
                }),
                None => self@,
            },
    {
        match c {
            Some(s) => {
                let mut joined = s;
                joined.append("-");
                joined.append(suffix);
                self.add_class(joined.as_str())
            },
            None => self,
        }
    }

    /// Appends one inline style.
    pub fn add_style(self, k: &str, v: &str) -> (r: Tag)
        ensures
            r@ == (TagView { styles: self@.styles.push((k@, v@)), ..self@ }),
    {
        let ghost pre = self@;
        let mut t = self;
        t.styles.push((k.to_owned(), v.to_owned()));
        proof {
            assert(t@.styles =~= pre.styles.push((k@, v@)));
        }
        t
    }

    /// Appends one inline style when a value is given.
    pub fn maybe_add_style(self, k: &str, v: Option<String>) -> (r: Tag)
        ensures
            r@ == match v {
                Some(s) => (TagView { styles: self@.styles.push((k@, s@)), ..self@ }),
                None => self@,
            },
    {
        match v {
            Some(s) => self.add_style(k, s.as_str()),
            None => self,
        }
    }

    fn push_head(&self, buf: &mut RenderBuffer)
        ensures
            final(buf).content() == old(buf).content() + "<"@ + tag_head(self@),
            final(buf).counts() == old(buf).counts(),
    {
        let ghost c0 = buf.content();
        buf.push_str("<");
        buf.push_str(self.name.as_str());
        let ghost head = c0 + "<"@ + self@.name;
        let n = self.attrs.len();
        let mut i: usize = 0;
        proof {
            assert(buf.content() =~= head + attrs_markup(self@.attrs.take(0)));
        }
        while i < n
            invariant
                n == self.attrs@.len(),
                i <= n,
                self@.attrs.len() == n,
                buf.content() == head + attrs_markup(self@.attrs.take(i as int)),
                buf.counts() == old(buf).counts(),
            decreases n - i,
        {
            buf.push_str(" ");
            buf.push_str(self.attrs[i].0.as_str());
            buf.push_str("=\"");
            buf.push_str(self.attrs[i].1.as_str());
            buf.push_str("\"");
            proof {
                assert(self@.attrs.take(i as int + 1).drop_last() =~= self@.attrs.take(i as int));
                assert(self@.attrs.take(i as int + 1).last() == self@.attrs[i as int]);
                assert(buf.content() =~= head + attrs_markup(self@.attrs.take(i as int + 1)));
            }
            i = i + 1;
        }
        proof {
            assert(self@.attrs.take(n as int) =~= self@.attrs);
        }
        // class attribute
        if self.classes.len() > 0 {
            buf.push_str(" class=\"");
            let cn = self.classes.len();
            buf.push_str(self.classes[0].as_str());
            let mut j: usize = 1;
            proof {
                assert(join_space(self@.classes.take(1)) =~= self@.classes[0]);
            }
            while j < cn
                invariant
                    cn == self.classes@.len(),
                    1 <= j <= cn,
                    self@.classes.len() == cn,
                    buf.content() == head + attrs_markup(self@.attrs) + " class=\""@ + join_space(
                        self@.classes.take(j as int),
                    ),
                    buf.counts() == old(buf).counts(),
                decreases cn - j,
            {
                buf.push_str(" ");
                buf.push_str(self.classes[j].as_str());
                proof {
                    assert(self@.classes.take(j as int + 1).drop_last() =~= self@.classes.take(
                        j as int,
                    ));
                    assert(self@.classes.take(j as int + 1).last() == self@.classes[j as int]);
                    assert(buf.content() =~= head + attrs_markup(self@.attrs) + " class=\""@
                        + join_space(self@.classes.take(j as int + 1)));
                }
                j = j + 1;
            }
            buf.push_str("\"");
            proof {
                assert(self@.classes.take(cn as int) =~= self@.classes);
            }
        }
        let ghost with_classes = head + attrs_markup(self@.attrs) + classes_markup(self@.classes);
        proof {
            assert(buf.content() =~= with_classes);
        }
        // style attribute
        if self.styles.len() > 0 {
            buf.push_str(" style=\"");
            let sn = self.styles.len();
            let mut j: usize = 0;
            proof {
                assert(buf.content() =~= with_classes + " style=\""@ + styles_value(
                    self@.styles.take(0),
                ));
            }
            while j < sn
                invariant
                    sn == self.styles@.len(),
                    j <= sn,
                    self@.styles.len() == sn,
                    buf.content() == with_classes + " style=\""@ + styles_value(
                        self@.styles.take(j as int),
                    ),
                    buf.counts() == old(buf).counts(),
                decreases sn - j,
            {
                buf.push_str(self.styles[j].0.as_str());
                buf.push_str(":");
                buf.push_str(self.styles[j].1.as_str());
                buf.push_str(";");
                proof {
                    assert(self@.styles.take(j as int + 1).drop_last() =~= self@.styles.take(
                        j as int,
                    ));
                    assert(self@.styles.take(j as int + 1).last() == self@.styles[j as int]);
                    assert(buf.content() =~= with_classes + " style=\""@ + styles_value(
                        self@.styles.take(j as int + 1),
                    ));
                }
                j = j + 1;
            }
            buf.push_str("\"");
            proof {
                assert(self@.styles.take(sn as int) =~= self@.styles);
            }
        }
        proof {
            assert(buf.content() =~= old(buf).content() + "<"@ + tag_head(self@));
        }
    }

    /// Writes the opening markup `<name ...>`.
    pub fn render_open(&self, buf: &mut RenderBuffer)
        ensures
            final(buf).content() == old(buf).content() + open_markup(self@),
            final(buf).counts() == old(buf).counts(),
    {
        self.push_head(buf);
        buf.push_str(">");
        proof {
            assert(buf.content() =~= old(buf).content() + open_markup(self@));
        }
    }

    /// Writes the self-closing markup `<name ... />`.
    pub fn render_closed(&self, buf: &mut RenderBuffer)
        ensures
            final(buf).content() == old(buf).content() + closed_markup(self@),
            final(buf).counts() == old(buf).counts(),
    {
        self.push_head(buf);
        buf.push_str(" />");
        proof {
            assert(buf.content() =~= old(buf).content() + closed_markup(self@));
        }
    }

    /// Writes the closing markup `</name>`.
    pub fn render_close(&self, buf: &mut RenderBuffer)
        ensures
            final(buf).content() == old(buf).content() + close_markup(self@),
            final(buf).counts() == old(buf).counts(),
    {
        buf.push_str("</");
        buf.push_str(self.name.as_str());
        buf.push_str(">");
        proof {
            assert(buf.content() =~= old(buf).content() + close_markup(self@));
        }
    }
}

} // verus!
