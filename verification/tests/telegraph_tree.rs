use mangalib_parser::telegraph::methods::{is_ok, Error, ErrorResult};
use mangalib_parser::telegraph::types::{NodeElement, NodeElementAttribute, Tag};

#[test]
fn tags_serialize_under_their_names() {
    assert_eq!(Tag::A.as_str(), "a");
    assert_eq!(Tag::Blockquote.as_str(), "blockquote");
    assert_eq!(Tag::FigCaption.as_str(), "figcaption");
    assert_eq!(Tag::Text("hi".to_string()).as_str(), "text");
    // The ordered-list tag serializes as "ok", as the reference
    // serialization has it.
    assert_eq!(Tag::Ol.as_str(), "ok");
}

#[test]
fn attribute_pairs_list_href_then_src() {
    let both = NodeElementAttribute::new(Some("https://l.test".to_string()), Some("/s.jpg".to_string()));
    assert_eq!(
        both.to_hashmap(),
        vec![
            ("href".to_string(), "https://l.test".to_string()),
            ("src".to_string(), "/s.jpg".to_string()),
        ]
    );
    let none = NodeElementAttribute::new(None, None);
    assert_eq!(none.to_hashmap(), Vec::<(String, String)>::new());
}

#[test]
fn a_link_node_carries_its_target_and_children() {
    let child = NodeElement::text("click");
    let link = NodeElement::a("https://l.test", vec![child]);
    assert_eq!(link.tag.as_str(), "a");
    assert_eq!(link.attributes.href.as_deref(), Some("https://l.test"));
    assert_eq!(link.attributes.src, None);
    assert_eq!(link.children.len(), 1);
    match &link.children[0].tag {
        Tag::Text(s) => assert_eq!(s, "click"),
        other => panic!("expected a text child, got {other:?}"),
    }
}

#[test]
fn media_nodes_carry_their_source() {
    let img = NodeElement::img("/i.jpg");
    assert_eq!(img.tag.as_str(), "img");
    assert_eq!(img.attributes.src.as_deref(), Some("/i.jpg"));
    assert_eq!(img.attributes.href, None);
    assert!(img.children.is_empty());

    let video = NodeElement::video("/v.mp4");
    assert_eq!(video.tag.as_str(), "video");
    assert_eq!(video.attributes.src.as_deref(), Some("/v.mp4"));

    let frame = NodeElement::iframe("/f");
    assert_eq!(frame.tag.as_str(), "iframe");
}

#[test]
fn plain_container_nodes_have_no_attributes() {
    let p = NodeElement::p(vec![NodeElement::text("t")]);
    assert_eq!(p.tag.as_str(), "p");
    assert_eq!(p.attributes.href, None);
    assert_eq!(p.attributes.src, None);
    assert_eq!(p.children.len(), 1);

    let h3 = NodeElement::h3(Vec::new());
    assert_eq!(h3.tag.as_str(), "h3");
    let figure = NodeElement::figure(Vec::new());
    assert_eq!(figure.tag.as_str(), "figure");
}

#[test]
fn list_items_and_rules_keep_the_reference_tags() {
    // As in the reference serialization: a list item is tagged as an
    // ordered list, and a rule as a line break.
    let li = NodeElement::li(Vec::new());
    assert!(matches!(li.tag, Tag::Ol));
    let hr = NodeElement::hr();
    assert!(matches!(hr.tag, Tag::Br));
    let br = NodeElement::br();
    assert!(matches!(br.tag, Tag::Br));
}

#[test]
fn the_ok_member_decides_the_response_outcome() {
    assert!(matches!(is_ok(Some(true)), Ok(true)));
    assert!(matches!(is_ok(Some(false)), Ok(false)));
    assert!(matches!(is_ok(None), Err(Error::StructParseError)));
}

#[test]
fn an_error_result_keeps_its_text() {
    let e = ErrorResult::new("SHORT_NAME_REQUIRED".to_string());
    assert_eq!(e.error, "SHORT_NAME_REQUIRED");
}
