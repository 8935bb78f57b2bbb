use mrml::attributes::Attributes;
use mrml::size::{border_pixel, parse_pixel, px_string, shorthand_horizontal};
use mrml::wrapper::MjWrapper;

#[test]
fn parse_pixel_accepts_digit_px_literals() {
    assert_eq!(parse_pixel("600px"), Some(600));
    assert_eq!(parse_pixel("0px"), Some(0));
    assert_eq!(parse_pixel("9999999px"), Some(9999999));
    assert_eq!(parse_pixel("px"), None);
    assert_eq!(parse_pixel("600"), None);
    assert_eq!(parse_pixel("60a px"), None);
    assert_eq!(parse_pixel("6.5px"), None);
    assert_eq!(parse_pixel(""), None);
}

#[test]
fn border_pixel_reads_the_leading_width() {
    assert_eq!(border_pixel("2px solid #000"), 2);
    assert_eq!(border_pixel("10px"), 10);
    assert_eq!(border_pixel("solid"), 0);
    assert_eq!(border_pixel(""), 0);
}

#[test]
fn shorthand_expands_per_css_rules() {
    assert_eq!(shorthand_horizontal("5px"), (5, 5));
    assert_eq!(shorthand_horizontal("4px 8px"), (8, 8));
    assert_eq!(shorthand_horizontal("1px 2px 3px"), (2, 2));
    assert_eq!(shorthand_horizontal("1px 2px 3px 4px"), (4, 2));
    assert_eq!(shorthand_horizontal("20px 0"), (0, 0));
    assert_eq!(shorthand_horizontal(""), (0, 0));
}

#[test]
fn current_width_subtracts_border_and_padding() {
    // container 600px, border "2px solid #000", no explicit padding: the
    // wrapper's default padding "20px 0" has no horizontal component
    let mut attrs = Attributes::new();
    attrs.insert("border".to_string(), "2px solid #000".to_string());
    let wrapper = MjWrapper { attributes: attrs, children: vec![] };
    let extra = Attributes::new();
    assert_eq!(wrapper.current_width(&extra, Some(600)), Some(596));
}

#[test]
fn current_width_is_unconstrained_without_a_container() {
    let wrapper = MjWrapper { attributes: Attributes::new(), children: vec![] };
    let extra = Attributes::new();
    assert_eq!(wrapper.current_width(&extra, None), None);
}

#[test]
fn current_width_floors_at_zero() {
    let mut attrs = Attributes::new();
    attrs.insert("border".to_string(), "400px solid #000".to_string());
    let wrapper = MjWrapper { attributes: attrs, children: vec![] };
    let extra = Attributes::new();
    assert_eq!(wrapper.current_width(&extra, Some(600)), Some(0));
}

#[test]
fn longhand_padding_overrides_shorthand() {
    let mut attrs = Attributes::new();
    attrs.insert("padding".to_string(), "10px 30px".to_string());
    attrs.insert("padding-left".to_string(), "5px".to_string());
    let wrapper = MjWrapper { attributes: attrs, children: vec![] };
    let extra = Attributes::new();
    // left 5 (longhand), right 30 (shorthand)
    assert_eq!(wrapper.current_width(&extra, Some(600)), Some(565));
}

#[test]
fn px_string_renders_decimal_pixels() {
    assert_eq!(px_string(600).as_str(), "600px");
    assert_eq!(px_string(0).as_str(), "0px");
}
