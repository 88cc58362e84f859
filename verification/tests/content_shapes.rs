use importer::dictionary_data::{meta_kind_for_keys, TermMetaModeType};
use importer::dictionary_database::FindMultiBulkDataItemType;
use importer::structured_content::{
    content_object_kind, element_kind_for_tag, looks_like_href, style_item_fits,
    tagged_content_kind_for, wrap_structured_content, ContentMatchType, ContentObjectKind, Element,
    ElementKind, HtmlTag, TaggedContentKind,
};
use importer::text::{reverse_str, split_words};

#[test]
fn element_tags_select_variants() {
    assert_eq!(element_kind_for_tag("a"), Some(ElementKind::Link));
    for t in ["div", "span", "ol", "ul", "li", "details", "summary"] {
        assert_eq!(element_kind_for_tag(t), Some(ElementKind::Styled), "{t}");
    }
    for t in ["ruby", "rt", "rp", "t", "table", "thead", "tbody", "tfoot", "tr", "tb", "tf"] {
        assert_eq!(element_kind_for_tag(t), Some(ElementKind::Unstyled), "{t}");
    }
    assert_eq!(element_kind_for_tag("td"), Some(ElementKind::Table));
    assert_eq!(element_kind_for_tag("th"), Some(ElementKind::Table));
    assert_eq!(element_kind_for_tag("br"), Some(ElementKind::LineBreak));
    assert_eq!(element_kind_for_tag("img"), Some(ElementKind::Image));
    assert_eq!(element_kind_for_tag("p"), None);
    assert_eq!(element_kind_for_tag("DIV"), None);
    assert_eq!(element_kind_for_tag(""), None);
}

#[test]
fn tagged_content_types() {
    assert_eq!(tagged_content_kind_for("text"), Some(TaggedContentKind::Text));
    assert_eq!(tagged_content_kind_for("img"), Some(TaggedContentKind::Image));
    assert_eq!(
        tagged_content_kind_for("structured-content"),
        Some(TaggedContentKind::StructuredContent)
    );
    assert_eq!(tagged_content_kind_for("image"), None);
}

#[test]
fn content_objects() {
    assert_eq!(content_object_kind(true, Some("structured-content")), Some(ContentObjectKind::Element));
    assert_eq!(
        content_object_kind(false, Some("structured-content")),
        Some(ContentObjectKind::StructuredContent)
    );
    assert_eq!(content_object_kind(false, Some("text")), None);
    assert_eq!(content_object_kind(false, None), None);
}

#[test]
fn nested_structured_content_is_a_div() {
    match wrap_structured_content(ContentMatchType::String("nested string".into())) {
        Element::Styled(s) => {
            assert_eq!(s.tag, HtmlTag::Div);
            assert_eq!(s.content, Some(ContentMatchType::String("nested string".into())));
            assert_eq!(s.title, None);
        }
        _ => panic!("expected a styled element"),
    }
}

#[test]
fn href_heuristic() {
    assert!(looks_like_href("?query=1"));
    assert!(looks_like_href("https://x"));
    assert!(looks_like_href("http"));
    assert!(!looks_like_href("htt"));
    assert!(!looks_like_href("text"));
    assert!(!looks_like_href(""));
}

#[test]
fn style_items() {
    assert!(style_item_fits(true, None));
    assert!(style_item_fits(false, Some("1em")));
    assert!(!style_item_fits(false, Some("【名】")));
    assert!(!style_item_fits(false, None));
}

#[test]
fn metadata_kinds() {
    assert_eq!(meta_kind_for_keys(true, false, true, false), Some(TermMetaModeType::Freq));
    assert_eq!(meta_kind_for_keys(false, true, false, false), Some(TermMetaModeType::Freq));
    assert_eq!(meta_kind_for_keys(false, false, true, true), Some(TermMetaModeType::Pitch));
    assert_eq!(meta_kind_for_keys(false, false, false, true), Some(TermMetaModeType::Ipa));
    assert_eq!(meta_kind_for_keys(false, false, false, false), None);
}

#[test]
fn strings_equal_bulk_items() {
    let item = FindMultiBulkDataItemType::String("x".into());
    assert!("x".to_string() == item);
    assert!("y".to_string() != item);
}

#[test]
fn reversing_twice_gives_back() {
    let s = "読みかた abc";
    assert_eq!(reverse_str(s), "cba たかみ読");
    assert_eq!(reverse_str(&reverse_str(s)), s);
}

#[test]
fn words_hold_no_spaces() {
    for w in split_words("  a b  cd ") {
        assert!(!w.is_empty());
        assert!(!w.contains(' '));
    }
}
