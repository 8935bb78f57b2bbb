use mrml::accordion::{
    MjAccordionElement, MjAccordionElementChildren, MjAccordionText, MjAccordionTitle,
};
use mrml::attributes::Attributes;
use mrml::navbar::{MjNavbar, MjNavbarChild, MjNavbarExtra, MjNavbarLink};
use mrml::raw::{Node, RawElement, RawLeaf, Text};
use mrml::render::{RenderCursor, RenderOptions};
use mrml::wrapper::{MjBodyChild, MjWrapper};

#[test]
fn basic() {
    let opts = RenderOptions::default();
    let mut cursor = RenderCursor::new(opts.breakpoint);

    let element = MjAccordionElement {
        attributes: Attributes::new(),
        children: MjAccordionElementChildren {
            title: Some(MjAccordionTitle {
                attributes: Attributes::new(),
                children: vec![Text::from("Hello World!".to_string())],
            }),
            text: Some(MjAccordionText {
                attributes: Attributes::new(),
                children: vec![RawElement::Text("Lorem Ipsum".to_string())],
            }),
        },
    };
    let extra = Attributes::new();
    element.render(&extra, &mut cursor).unwrap();
    let out = cursor.buffer.as_str();
    assert!(out.contains("Hello World!"));
    assert!(out.contains("Lorem Ipsum"));
}

#[test]
fn slot_synthesis_is_idempotent() {
    let absent = MjAccordionElement {
        attributes: Attributes::new(),
        children: MjAccordionElementChildren { title: None, text: None },
    };
    let explicit = MjAccordionElement {
        attributes: Attributes::new(),
        children: MjAccordionElementChildren {
            title: Some(MjAccordionTitle::default()),
            text: Some(MjAccordionText::default()),
        },
    };
    let extra = Attributes::new();
    let mut c1 = RenderCursor::new(480);
    absent.render(&extra, &mut c1).unwrap();
    let mut c2 = RenderCursor::new(480);
    explicit.render(&extra, &mut c2).unwrap();
    assert_eq!(c1.buffer.as_str(), c2.buffer.as_str());
}

#[test]
fn empty_slots_carry_shared_attributes() {
    let mut attrs = Attributes::new();
    attrs.insert("border".to_string(), "1px solid red".to_string());
    let element = MjAccordionElement {
        attributes: attrs,
        children: MjAccordionElementChildren { title: None, text: None },
    };
    let extra = Attributes::new();
    let mut cursor = RenderCursor::new(480);
    element.render(&extra, &mut cursor).unwrap();
    let out = cursor.buffer.as_str();
    assert!(out.contains("mj-accordion-title"));
    assert!(out.contains("mj-accordion-content"));
    // the element's border reaches the synthesized title as an extra attribute
    assert!(out.contains("border-bottom:1px solid red;"));
    // the title kind's default font size applies to the empty slot
    assert!(out.contains("font-size:13px;"));
}

#[test]
fn icon_position_right_renders_icons_after_title() {
    let mut attrs = Attributes::new();
    attrs.insert("icon-position".to_string(), "right".to_string());
    let title = MjAccordionTitle {
        attributes: attrs,
        children: vec![Text::from("HEAD".to_string())],
    };
    let extra = Attributes::new();
    let mut cursor = RenderCursor::new(480);
    title.render(&extra, &mut cursor).unwrap();
    let out = cursor.buffer.as_str().to_string();
    let content = out.find("HEAD").unwrap();
    let icons = out.find("mj-accordion-ico").unwrap();
    assert!(content < icons);

    // without the attribute, icons render before the content
    let title2 = MjAccordionTitle {
        attributes: Attributes::new(),
        children: vec![Text::from("HEAD".to_string())],
    };
    let mut cursor2 = RenderCursor::new(480);
    title2.render(&extra, &mut cursor2).unwrap();
    let out2 = cursor2.buffer.as_str().to_string();
    let content2 = out2.find("HEAD").unwrap();
    let icons2 = out2.find("mj-accordion-ico").unwrap();
    assert!(icons2 < content2);
}

#[test]
fn hamburger_emits_checkbox_and_label_with_shared_id() {
    let mut attrs = Attributes::new();
    attrs.insert("hamburger".to_string(), "hamburger".to_string());
    let navbar = MjNavbar { attributes: attrs, children: vec![] };
    let mut cursor = RenderCursor::new(480);
    let id = cursor.header.next_id();
    let nav_extra = MjNavbarExtra::new(1, 0, id);
    let extra = Attributes::new();
    navbar.render(&extra, &nav_extra, &mut cursor).unwrap();
    let out = cursor.buffer.as_str().to_string();
    let mso = out.find("<!--[if !mso><!-->").unwrap();
    let input = out.find("id=\"mj-id-0\"").unwrap();
    let label = out.find("for=\"mj-id-0\"").unwrap();
    assert!(mso < input);
    assert!(input < label);
    assert!(out.contains("type=\"checkbox\""));
}

#[test]
fn navbar_pushes_base_url_onto_links() {
    let mut attrs = Attributes::new();
    attrs.insert("base-url".to_string(), "https://example.com".to_string());
    let mut link_attrs = Attributes::new();
    link_attrs.insert("href".to_string(), "/about".to_string());
    let navbar = MjNavbar {
        attributes: attrs,
        children: vec![MjNavbarChild::MjNavbarLink(MjNavbarLink {
            attributes: link_attrs,
            children: vec![Text::from("About".to_string())],
        })],
    };
    let mut cursor = RenderCursor::new(480);
    let id = cursor.header.next_id();
    let nav_extra = MjNavbarExtra::new(1, 0, id);
    navbar.render(&Attributes::new(), &nav_extra, &mut cursor).unwrap();
    let out = cursor.buffer.as_str();
    assert!(out.contains("href=\"https://example.com/about\""));
    assert!(out.contains(">About</a>"));
}

#[test]
fn navbar_registers_responsive_style() {
    let navbar = MjNavbar { attributes: Attributes::new(), children: vec![] };
    let mut cursor = RenderCursor::new(480);
    let id = cursor.header.next_id();
    let nav_extra = MjNavbarExtra::new(1, 0, id);
    navbar.render(&Attributes::new(), &nav_extra, &mut cursor).unwrap();
    let styles = cursor.header.styles();
    assert_eq!(styles.len(), 1);
    assert!(styles[0].contains("@media only screen and (max-width:480px)"));
}

#[test]
fn conditional_markers_balance_over_a_render_pass() {
    let mut nav_attrs = Attributes::new();
    nav_attrs.insert("hamburger".to_string(), "hamburger".to_string());
    let wrapper = MjWrapper {
        attributes: Attributes::new(),
        children: vec![
            MjBodyChild::Raw(RawElement::Comment("a note".to_string())),
            MjBodyChild::Navbar(MjNavbar { attributes: nav_attrs, children: vec![] }),
        ],
    };
    let opts = RenderOptions::default();
    let out = mrml::render(&wrapper, &opts).unwrap();
    let cond_open = out.matches("<!--[if mso | IE]>").count();
    let all_endif = out.matches("<![endif]-->").count();
    let neg_close = out.matches("<!--<![endif]-->").count();
    let cond_close = all_endif - neg_close;
    assert_eq!(cond_open, cond_close);
    let neg_open =
        out.matches("<!--[if !mso | IE]><!-->").count() + out.matches("<!--[if !mso><!-->").count();
    assert_eq!(neg_open, neg_close);
    assert!(cond_open > 0);
}

#[test]
fn wrapper_carries_container_width_onto_layout_children() {
    let wrapper = MjWrapper {
        attributes: Attributes::new(),
        children: vec![MjBodyChild::Navbar(MjNavbar {
            attributes: Attributes::new(),
            children: vec![],
        })],
    };
    let mut cursor = RenderCursor::new(480);
    wrapper
        .render(&Attributes::new(), Some(600), &mut cursor)
        .unwrap();
    let out = cursor.buffer.as_str();
    assert!(out.contains("width=\"600px\""));
    assert!(out.contains("max-width:600px"));
    // the navbar's default alignment reaches its wrapping cell
    assert!(out.contains("align=\"center\""));
}

#[test]
fn full_width_wrapper_renders_background_table() {
    let mut attrs = Attributes::new();
    attrs.insert("full-width".to_string(), "full-width".to_string());
    attrs.insert("background-color".to_string(), "#ffcc00".to_string());
    let wrapper = MjWrapper { attributes: attrs, children: vec![] };
    let opts = RenderOptions::default();
    let out = mrml::render(&wrapper, &opts).unwrap();
    assert!(out.contains("background-color:#ffcc00;"));
    assert!(out.starts_with("<table"));
}

#[test]
fn raw_node_renders_attributes_and_leaves() {
    let mut attrs = Attributes::new();
    attrs.insert("class".to_string(), "x".to_string());
    let node = Node::new(
        "span".to_string(),
        attrs,
        vec![
            RawLeaf::Text("hi".to_string()),
            RawLeaf::Comment("c".to_string()),
        ],
    );
    let raw = RawElement::Node(node);
    assert!(raw.as_node().is_some());
    assert!(raw.is_raw());
    assert_eq!(raw.get_children_len(), 2);
    let mut cursor = RenderCursor::new(480);
    raw.render(&mut cursor).unwrap();
    assert_eq!(cursor.buffer.as_str(), "<span class=\"x\">hi<!--c--></span>");
}

#[test]
fn raw_comment_and_text_render_verbatim() {
    let mut cursor = RenderCursor::new(480);
    RawElement::Comment("note".to_string()).render(&mut cursor).unwrap();
    RawElement::Text("plain".to_string()).render(&mut cursor).unwrap();
    assert_eq!(cursor.buffer.as_str(), "<!--note-->plain");
    assert!(RawElement::Text("t".to_string()).as_node().is_none());
}
