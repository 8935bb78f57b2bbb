use mrml::attributes::{resolve_attribute, Attributes};
use mrml::parser::{MJMLElement, MJMLElementParser, ParserError};
use mrml::render::RenderOptions;
use xmlparser::Tokenizer;

#[test]
fn parses_a_minimal_document() {
    let opts = RenderOptions::default();
    let mut tokenizer = Tokenizer::from("<mjml></mjml>");
    let e = MJMLElement::parse_root(&mut tokenizer, &opts).unwrap();
    assert!(e.context.is_some());
    assert!(e.head.attributes.get("anything").is_none());
    assert!(e.body.attributes.get("anything").is_none());
}

#[test]
fn parses_head_and_body_attributes() {
    let opts = RenderOptions::default();
    let mut tokenizer = Tokenizer::from(
        "<mjml><mj-head></mj-head><mj-body width=\"100px\"><mj-section></mj-section></mj-body></mjml>",
    );
    let e = MJMLElement::parse_root(&mut tokenizer, &opts).unwrap();
    assert_eq!(e.body.attributes.get("width").unwrap().as_str(), "100px");
}

#[test]
fn parses_self_closing_sections() {
    let opts = RenderOptions::default();
    let mut tokenizer = Tokenizer::from("<mjml><mj-body color=\"red\"/></mjml>");
    let e = MJMLElement::parse_root(&mut tokenizer, &opts).unwrap();
    assert_eq!(e.body.attributes.get("color").unwrap().as_str(), "red");
}

#[test]
fn comments_between_children_are_ignored() {
    let opts = RenderOptions::default();
    let mut tokenizer = Tokenizer::from("<mjml><!-- note --><mj-body></mj-body></mjml>");
    assert!(MJMLElement::parse_root(&mut tokenizer, &opts).is_ok());
}

#[test]
fn rejects_a_foreign_root() {
    let opts = RenderOptions::default();
    let mut tokenizer = Tokenizer::from("<div></div>");
    let r = MJMLElement::parse_root(&mut tokenizer, &opts);
    assert!(matches!(r, Err(ParserError::UnexpectedElement(1))));
}

#[test]
fn rejects_an_empty_stream() {
    let opts = RenderOptions::default();
    let mut tokenizer = Tokenizer::from("");
    let r = MJMLElement::parse_root(&mut tokenizer, &opts);
    assert!(matches!(r, Err(ParserError::InvalidFormat)));
}

#[test]
fn rejects_an_unexpected_child() {
    let opts = RenderOptions::default();
    let mut tokenizer = Tokenizer::from("<mjml><p></p></mjml>");
    let r = MJMLElement::parse_root(&mut tokenizer, &opts);
    assert!(matches!(r, Err(ParserError::UnexpectedElement(7))));
}

#[test]
fn rejects_a_truncated_document() {
    let opts = RenderOptions::default();
    let mut tokenizer = Tokenizer::from("<mjml><mj-body>");
    let r = MJMLElement::parse_root(&mut tokenizer, &opts);
    assert!(matches!(r, Err(ParserError::InvalidFormat)));
}

#[test]
fn parser_dispatch_follows_the_allowed_child_set() {
    let opts = RenderOptions::default();
    let p = MJMLElementParser::new(&opts);
    assert_eq!(p.parse_child_element("mj-head", 10), Ok(true));
    assert_eq!(p.parse_child_element("mj-body", 10), Ok(false));
    assert_eq!(
        p.parse_child_element("mj-table", 10),
        Err(ParserError::UnexpectedElement(10))
    );
}

#[test]
fn resolution_prefers_extra_then_raw_then_default() {
    let mut extra = Attributes::new();
    extra.insert("k".to_string(), "from-extra".to_string());
    let mut raw = Attributes::new();
    raw.insert("k".to_string(), "from-raw".to_string());
    let empty = Attributes::new();

    let r = resolve_attribute(&extra, &raw, Some("from-default"), "k");
    assert_eq!(r.unwrap().as_str(), "from-extra");
    let r = resolve_attribute(&empty, &raw, Some("from-default"), "k");
    assert_eq!(r.unwrap().as_str(), "from-raw");
    let r = resolve_attribute(&empty, &empty, Some("from-default"), "k");
    assert_eq!(r.unwrap().as_str(), "from-default");
    let r = resolve_attribute(&empty, &empty, None, "k");
    assert!(r.is_none());
}

#[test]
fn later_attribute_writes_win() {
    let mut attrs = Attributes::new();
    attrs.insert("k".to_string(), "first".to_string());
    attrs.insert("k".to_string(), "second".to_string());
    assert_eq!(attrs.get("k").unwrap().as_str(), "second");
    assert!(attrs.get("other").is_none());
}

#[test]
fn table_holds_attributes_and_children() {
    let mut attrs = Attributes::new();
    attrs.insert("width".to_string(), "300px".to_string());
    let table = mrml::table::MJTable::new(attrs, vec![]);
    assert_eq!(table.attributes().get("width").unwrap().as_str(), "300px");
    assert!(table.context().is_none());
    assert_eq!(table.get_children_len(), 0);
}

#[test]
fn parse_continues_after_a_consumed_root_tag() {
    let opts = RenderOptions::default();
    let mut tokenizer = Tokenizer::from("<mjml><mj-body color=\"red\"></mj-body></mjml>");
    // the caller matched the root's opening tag already
    tokenizer.next();
    let e = MJMLElement::parse(&mut tokenizer, &opts).unwrap();
    assert_eq!(e.body.attributes.get("color").unwrap().as_str(), "red");
}
