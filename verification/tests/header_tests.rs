use mrml::buffer::{RenderBuffer, Tag};
use mrml::header::Header;
use mrml::numbers::decimal_string;

#[test]
fn fonts_deduplicate_case_and_whitespace_insensitively() {
    let mut header = Header::new(480);
    header.add_font_families("Ubuntu, ubuntu , Arial");
    let fonts = header.fonts();
    assert_eq!(fonts.len(), 2);
    assert_eq!(fonts[0].as_str(), "Ubuntu");
    assert_eq!(fonts[1].as_str(), "Arial");
    header.add_font_families("ARIAL,Roboto");
    let fonts = header.fonts();
    assert_eq!(fonts.len(), 3);
    assert_eq!(fonts[2].as_str(), "Roboto");
}

#[test]
fn blank_font_entries_are_ignored() {
    let mut header = Header::new(480);
    header.add_font_families(" , ,Lato");
    assert_eq!(header.fonts().len(), 1);
    assert_eq!(header.fonts()[0].as_str(), "Lato");
}

#[test]
fn styles_accumulate_in_order() {
    let mut header = Header::new(480);
    header.add_style(".a{}".to_string());
    header.add_style(".b{}".to_string());
    assert_eq!(header.styles().len(), 2);
    assert_eq!(header.styles()[0].as_str(), ".a{}");
    assert_eq!(header.styles()[1].as_str(), ".b{}");
}

#[test]
fn generated_ids_are_distinct() {
    let mut header = Header::new(480);
    let a = header.next_id();
    let b = header.next_id();
    let c = header.next_id();
    assert_eq!(a.as_str(), "mj-id-0");
    assert_eq!(b.as_str(), "mj-id-1");
    assert_eq!(c.as_str(), "mj-id-2");
    assert_ne!(a, b);
    assert_ne!(b, c);
    assert_ne!(a, c);
}

#[test]
fn decimal_rendering_is_exact() {
    assert_eq!(decimal_string(0).as_str(), "0");
    assert_eq!(decimal_string(7).as_str(), "7");
    assert_eq!(decimal_string(12345).as_str(), "12345");
    assert_eq!(decimal_string(1000000).as_str(), "1000000");
}

#[test]
fn tag_renders_attributes_classes_and_styles() {
    let mut buf = RenderBuffer::new();
    let tag = Tag::new("td")
        .add_attribute("align", "left")
        .add_class("c1")
        .add_class("c2")
        .add_style("width", "10px")
        .add_style("color", "#000");
    tag.render_open(&mut buf);
    tag.render_close(&mut buf);
    assert_eq!(
        buf.as_str(),
        "<td align=\"left\" class=\"c1 c2\" style=\"width:10px;color:#000;\"></td>"
    );
}

#[test]
fn bare_tag_renders_without_attribute_blocks() {
    let mut buf = RenderBuffer::new();
    let tag = Tag::tr();
    tag.render_open(&mut buf);
    tag.render_close(&mut buf);
    assert_eq!(buf.as_str(), "<tr></tr>");
}

#[test]
fn self_closing_tag_renders_with_slash() {
    let mut buf = RenderBuffer::new();
    Tag::new("img").add_attribute("src", "a.png").render_closed(&mut buf);
    assert_eq!(buf.as_str(), "<img src=\"a.png\" />");
}

#[test]
fn conditional_markers_write_their_exact_text() {
    let mut buf = RenderBuffer::new();
    buf.start_conditional_tag();
    buf.push_str("x");
    buf.end_conditional_tag();
    buf.start_negation_conditional_tag();
    buf.end_negation_conditional_tag();
    buf.start_mso_negation_conditional_tag();
    buf.end_negation_conditional_tag();
    assert_eq!(
        buf.into_string().as_str(),
        "<!--[if mso | IE]>x<![endif]--><!--[if !mso | IE]><!--><!--<![endif]--><!--[if !mso><!--><!--<![endif]-->"
    );
}
