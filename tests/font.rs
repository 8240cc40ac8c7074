use gfx_debug_draw::bitmap_font::{attribute_value, parse_u8, BitmapCharacter, BitmapFont};
use gfx_debug_draw::xml_tree::{parse_xml, xml_parse_is_safe, XmlAttribute, XmlElement, XmlNode};

const FONT: &str = r#"<font>
  <info face="Test" size="16"/>
  <common lineHeight="16" base="13" scaleW="128" scaleH="64" pages="1"/>
  <chars count="3">
    <char id="32" x="2" y="2" width="0" height="0" xoffset="0" yoffset="14" xadvance="4"/>
    <char id="65" x="10" y="20" width="7" height="9" xoffset="1" yoffset="3" xadvance="8"/>
    <char id="66" x="20" y="20" width="6" height="9" xoffset="1" yoffset="3" xadvance="7"/>
  </chars>
</font>"#;

#[test]
fn parses_u8_values() {
    assert_eq!(parse_u8("0"), Some(0));
    assert_eq!(parse_u8("12"), Some(12));
    assert_eq!(parse_u8("255"), Some(255));
    assert_eq!(parse_u8("007"), Some(7));
    assert_eq!(parse_u8("+9"), Some(9));
}

#[test]
fn rejects_malformed_u8_values() {
    assert_eq!(parse_u8(""), None);
    assert_eq!(parse_u8("+"), None);
    assert_eq!(parse_u8("256"), None);
    assert_eq!(parse_u8("1000"), None);
    assert_eq!(parse_u8("-1"), None);
    assert_eq!(parse_u8(" 1"), None);
    assert_eq!(parse_u8("1x"), None);
    assert_eq!(parse_u8("++1"), None);
    assert_eq!(parse_u8("٣"), None);
}

#[test]
fn u8_parse_agrees_with_std() {
    for s in ["0", "99", "255", "256", "+1", "-0", "", "12a", "0000000001", "+", "1 "] {
        assert_eq!(parse_u8(s), s.parse::<u8>().ok(), "{}", s);
    }
}

#[test]
fn attribute_defaults_to_zero() {
    assert_eq!(attribute_value(&None), 0);
    assert_eq!(attribute_value(&Some("oops".to_string())), 0);
    assert_eq!(attribute_value(&Some("300".to_string())), 0);
    assert_eq!(attribute_value(&Some("42".to_string())), 42);
}

#[test]
fn loads_font_description() {
    let font = BitmapFont::from_string(FONT).unwrap();
    assert_eq!(font.scale_w, 128);
    assert_eq!(font.scale_h, 64);
    assert_eq!(font.characters.len(), 3);
    let a = font.characters[&65];
    assert_eq!(
        a,
        BitmapCharacter { x: 10, y: 20, width: 7, height: 9, xoffset: 1, yoffset: 3, xadvance: 8 }
    );
    assert_eq!(font.characters[&32].xadvance, 4);
    assert_eq!(font.character('B').width, 6);
}

#[test]
fn missing_character_is_all_zero() {
    let font = BitmapFont::from_string(FONT).unwrap();
    assert_eq!(font.character('z'), BitmapCharacter::default());
    assert_eq!(font.character('\n'), BitmapCharacter::default());
    assert_eq!(font.character('€'), BitmapCharacter::default());
}

#[test]
fn missing_chars_element_is_an_error() {
    let doc = r#"<font><common scaleW="128" scaleH="128"/></font>"#;
    assert_eq!(BitmapFont::from_string(doc).err(), Some("Missing <chars> element"));
    let neither = "<font/>";
    assert_eq!(BitmapFont::from_string(neither).err(), Some("Missing <chars> element"));
}

#[test]
fn missing_common_element_is_an_error() {
    let doc = r#"<font><chars><char id="65"/></chars></font>"#;
    assert_eq!(BitmapFont::from_string(doc).err(), Some("Missing <common> element"));
}

#[test]
fn unparsable_document_is_an_error() {
    assert_eq!(
        BitmapFont::from_string("not a document").err(),
        Some("Error while parsing font document.")
    );
    assert_eq!(
        BitmapFont::from_string("<font><chars>").err(),
        Some("Error while parsing font document.")
    );
}

#[test]
fn malformed_attributes_default_to_zero() {
    let doc = r#"<font>
      <common scaleW="big" scaleH="300"/>
      <chars><char id="65" x="-3" y="7" width="" xadvance="8"/></chars>
    </font>"#;
    let font = BitmapFont::from_string(doc).unwrap();
    assert_eq!(font.scale_w, 0);
    assert_eq!(font.scale_h, 0);
    assert_eq!(
        font.characters[&65],
        BitmapCharacter { x: 0, y: 7, width: 0, height: 0, xoffset: 0, yoffset: 0, xadvance: 8 }
    );
}

#[test]
fn later_character_replaces_earlier() {
    let doc = r#"<font>
      <common scaleW="16" scaleH="16"/>
      <chars><char id="65" x="1"/><char id="65" x="2"/><char x="5"/></chars>
    </font>"#;
    let font = BitmapFont::from_string(doc).unwrap();
    assert_eq!(font.characters.len(), 2);
    assert_eq!(font.characters[&65].x, 2);
    // a char without an id is kept under code 0
    assert_eq!(font.characters[&0].x, 5);
}

fn element(name: &str, attributes: &[(&str, &str)], children: Vec<XmlNode>) -> XmlElement {
    XmlElement {
        name: name.to_string(),
        ns: None,
        attributes: attributes
            .iter()
            .map(|(n, v)| XmlAttribute { name: n.to_string(), ns: None, value: v.to_string() })
            .collect(),
        children,
    }
}

#[test]
fn builds_from_a_document_tree() {
    let glyph = element(
        "char",
        &[("id", "97"), ("x", "1"), ("y", "2"), ("width", "3"), ("height", "4"), ("xoffset", "5"), ("yoffset", "6"), ("xadvance", "7")],
        vec![],
    );
    let chars = element("chars", &[], vec![XmlNode::Characters(" ".to_string()), XmlNode::Element(glyph)]);
    let common = element("common", &[("scaleW", "32")], vec![]);
    let no_common = element("font", &[], vec![XmlNode::Element(element("chars", &[], vec![]))]);
    assert_eq!(BitmapFont::from_xml_document(&no_common).err(), Some("Missing <common> element"));
    let no_chars = element("font", &[], vec![XmlNode::Element(element("common", &[], vec![]))]);
    assert_eq!(BitmapFont::from_xml_document(&no_chars).err(), Some("Missing <chars> element"));
    let root = element("font", &[], vec![XmlNode::Element(common), XmlNode::Element(chars)]);
    let font = BitmapFont::from_xml_document(&root).unwrap();
    assert_eq!(font.scale_w, 32);
    assert_eq!(font.scale_h, 0);
    assert_eq!(
        font.character('a'),
        BitmapCharacter { x: 1, y: 2, width: 3, height: 4, xoffset: 5, yoffset: 6, xadvance: 7 }
    );
}

#[test]
fn elements_in_a_namespace_are_not_read() {
    let mut chars = element("chars", &[], vec![]);
    chars.ns = Some("urn:other".to_string());
    let root = element(
        "font",
        &[],
        vec![XmlNode::Element(chars), XmlNode::Element(element("common", &[], vec![]))],
    );
    assert_eq!(BitmapFont::from_xml_document(&root).err(), Some("Missing <chars> element"));
}

#[test]
fn element_lookups_follow_document_order() {
    let root = parse_xml(r#"<a k="1"><b n="1"/>text<c/><b n="2"/><!-- c --></a>"#).unwrap();
    assert_eq!(root.name, "a");
    assert_eq!(root.attribute("k"), Some("1".to_string()));
    assert_eq!(root.attribute("missing"), None);
    let bs = root.children_named("b");
    assert_eq!(bs.len(), 2);
    assert_eq!(bs[1].attribute("n"), Some("2".to_string()));
    assert_eq!(root.child("b").unwrap().attribute("n"), Some("1".to_string()));
    assert!(root.child("c").is_some());
    assert!(root.child("d").is_none());
    assert_eq!(root.children.len(), 5);
    assert!(matches!(&root.children[1], XmlNode::Characters(t) if t == "text"));
    assert!(matches!(&root.children[4], XmlNode::Comment(_)));
}

#[test]
fn parse_xml_rejects_broken_documents() {
    assert!(parse_xml("").is_none());
    assert!(parse_xml("<a><b></a></b>").is_none());
    assert!(parse_xml("<a/>").is_some());
}

#[test]
fn malformed_numbers_load_as_zero() {
    let doc = r#"<font><common scaleW="300" scaleH="abc"/><chars><char id="66" x="-1" width="7"/></chars></font>"#;
    let font = BitmapFont::from_string(doc).unwrap();
    assert_eq!(font.scale_w, 0);
    assert_eq!(font.scale_h, 0);
    assert_eq!(font.characters.len(), 1);
    assert_eq!(
        font.characters[&66],
        BitmapCharacter { x: 0, y: 0, width: 7, height: 0, xoffset: 0, yoffset: 0, xadvance: 0 }
    );
}

#[test]
fn empty_text_is_a_parse_error() {
    assert_eq!(BitmapFont::from_string("").err(), Some("Error while parsing font document."));
}

fn nested(depth: usize) -> String {
    format!("{}{}", "<a>".repeat(depth), "</a>".repeat(depth))
}

#[test]
fn long_bracket_run_in_cdata_is_rejected() {
    let doc = format!("<a><![CDATA[{}]]></a>", "]".repeat(256));
    assert!(!xml_parse_is_safe(&doc));
    assert_eq!(BitmapFont::from_string(&doc).err(), Some("Error while parsing font document."));
    let ok = format!("<a><![CDATA[{}>x</a>", "]".repeat(253));
    assert!(xml_parse_is_safe(&ok));
    assert!(parse_xml(&ok).is_some());
}

#[test]
fn deep_nesting_is_rejected() {
    assert!(xml_parse_is_safe(&nested(1000)));
    assert!(parse_xml(&nested(1000)).is_some());
    assert!(!xml_parse_is_safe(&nested(1001)));
    assert_eq!(
        BitmapFont::from_string(&nested(1001)).err(),
        Some("Error while parsing font document.")
    );
    assert_eq!(
        BitmapFont::from_string(&nested(20000)).err(),
        Some("Error while parsing font document.")
    );
}

#[test]
fn slashes_in_attribute_names_do_not_close_elements() {
    // the parser reads `b/>` as an attribute name, so each repeat opens one more element
    let doc = r#"<a b/>="v">"#.repeat(1001);
    assert!(!xml_parse_is_safe(&doc));
}

#[test]
fn siblings_do_not_count_as_nesting() {
    let chars: String = (0..3000).map(|i| format!(r#"<char id="{}" x="1"/>"#, i % 256)).collect();
    let doc = format!(
        r#"<?xml version="1.0"?><font><common scaleW="8" scaleH="8"/><chars>{}</chars><kernings>{}</kernings></font>"#,
        chars,
        r#"<kerning first="1" second="2" amount="-1"></kerning>"#.repeat(3000)
    );
    assert!(xml_parse_is_safe(&doc));
    let font = BitmapFont::from_string(&doc).unwrap();
    assert_eq!(font.characters.len(), 256);
}

#[test]
fn text_after_a_comment_counts_every_tag() {
    let doc = r#"<!-- made by hand --><font><common scaleW="8" scaleH="8"/><chars><char id="65"/></chars></font>"#;
    assert!(xml_parse_is_safe(doc));
    assert_eq!(BitmapFont::from_string(doc).unwrap().characters.len(), 1);
    let many = format!("<!-- x --><a>{}</a>", "<b/>".repeat(1000));
    assert!(!xml_parse_is_safe(&many));
}
