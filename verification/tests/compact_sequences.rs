use importer::structured_content::compact_sequence::{
    array_is_style_like, flexible_sequence_fields, link_sequence_fields, style_array_key,
    styled_sequence_fields, table_sequence_fields, unstyled_sequence_fields, ArrayItem, SequenceItem,
};

fn text(s: &str) -> SequenceItem {
    SequenceItem::Text(s.to_string())
}

fn object(reads_as_style: bool, reads_as_string_map: bool) -> SequenceItem {
    SequenceItem::Object { reads_as_style, reads_as_string_map }
}

fn number_item() -> ArrayItem {
    ArrayItem { is_number: true, text: None }
}

fn text_item(s: &str) -> ArrayItem {
    ArrayItem { is_number: false, text: Some(s.to_string()) }
}

#[test]
fn style_arrays_hold_numbers_and_plain_strings() {
    assert!(array_is_style_like(&vec![]));
    assert!(array_is_style_like(&vec![number_item(), text_item("1em")]));
    assert!(!array_is_style_like(&vec![text_item("【名】")]));
    assert!(!array_is_style_like(&vec![ArrayItem { is_number: false, text: None }]));
}

#[test]
fn style_array_positions_name_fields() {
    assert_eq!(style_array_key(0), Some("fontSize"));
    assert_eq!(style_array_key(1), Some("verticalAlign"));
    assert_eq!(style_array_key(2), Some("marginLeft"));
    assert_eq!(style_array_key(3), Some("marginRight"));
    assert_eq!(style_array_key(4), None);
}

#[test]
fn styled_sequence_fills_fields_in_order() {
    let items = vec![
        SequenceItem::Flag(true),
        SequenceItem::Flag(false),
        object(true, true),
        object(true, true),
        SequenceItem::Array { items: vec![number_item(), text_item("sub")], reads_as_style: true },
        text("hover"),
        text("body"),
    ];
    let f = styled_sequence_fields(&items);
    assert_eq!(f.open, Some(true));
    assert_eq!(f.data, Some(2));
    assert_eq!(f.style, Some(4));
    // The first string is both the title and the content, so that title is
    // dropped; the next string becomes the title.
    assert_eq!(f.content, Some(5));
    assert_eq!(f.title, Some("body".to_string()));
}

#[test]
fn styled_title_stays_when_content_came_first() {
    let items = vec![SequenceItem::Array { items: vec![text_item("【x】")], reads_as_style: false }, text("t")];
    let f = styled_sequence_fields(&items);
    assert_eq!(f.content, Some(0));
    assert_eq!(f.title, Some("t".to_string()));
    assert_eq!(f.style, None);
}

#[test]
fn styled_unreadable_style_array_is_passed_over() {
    let items = vec![
        SequenceItem::Array { items: vec![number_item()], reads_as_style: false },
        SequenceItem::Array { items: vec![text_item("1em")], reads_as_style: true },
        SequenceItem::Array { items: vec![text_item("2em")], reads_as_style: true },
    ];
    let f = styled_sequence_fields(&items);
    assert_eq!(f.style, Some(1));
    assert_eq!(f.content, Some(2));
}

#[test]
fn table_sequence_takes_spans_then_style_then_content() {
    let items = vec![
        SequenceItem::Count(70_000),
        SequenceItem::Count(2),
        SequenceItem::Count(9),
        object(true, true),
        object(false, true),
        object(false, false),
        text("cell"),
    ];
    let f = table_sequence_fields(&items);
    assert_eq!(f.row_span, Some(4_464));
    assert_eq!(f.col_span, Some(2));
    assert_eq!(f.style, Some(3));
    assert_eq!(f.data, Some(4));
    assert_eq!(f.content, Some(5));
}

#[test]
fn unstyled_sequence_takes_first_map_and_first_other() {
    let items = vec![text("a"), object(false, true), object(false, true), text("b")];
    let f = unstyled_sequence_fields(&items);
    assert_eq!(f.data, Some(1));
    assert_eq!(f.content, Some(0));
}

#[test]
fn link_sequence_takes_first_href() {
    let items = vec![text("word"), text("?query=1"), text("https://example.com")];
    let f = link_sequence_fields(&items);
    assert_eq!(f.href, Some("?query=1".to_string()));
    assert_eq!(f.content, Some(0));
    let none = link_sequence_fields(&[text("plain")]);
    assert_eq!(none.href, None);
    assert_eq!(none.content, Some(0));
}

#[test]
fn flexible_sequence_fills_map_keys() {
    let items = vec![
        text("content"),
        SequenceItem::Count(1),
        object(false, false),
        SequenceItem::Count(3),
        object(false, false),
        SequenceItem::Flag(false),
    ];
    let f = flexible_sequence_fields(&items);
    assert_eq!(f.row_span, Some(1));
    assert_eq!(f.col_span, Some(3));
    assert_eq!(f.data, Some(2));
    assert_eq!(f.content, Some(0));
    assert_eq!(f.style, Some(4));
}

#[test]
fn styled_lone_string_is_content_not_title() {
    let f = styled_sequence_fields(&[text("same")]);
    assert_eq!(f.content, Some(0));
    assert_eq!(f.title, None);
    assert_eq!(f.open, None);
}
