use importer::structured_content::{
    ContentMatchType, Element, HtmlTag, ImageElement, LineBreak, StyledElement, TableElement,
    TaggedContent, TermGlossary, TermGlossaryContent, TermGlossaryContentGroup,
    TermGlossaryDeinflection, TermGlossaryGroupType, UnstyledElement,
};

fn text(s: &str) -> ContentMatchType {
    ContentMatchType::String(s.to_string())
}

fn styled(tag: HtmlTag, content: Option<ContentMatchType>) -> ContentMatchType {
    ContentMatchType::Element(Box::new(Element::Styled(StyledElement {
        tag,
        content,
        data: None,
        style: None,
        title: None,
        open: None,
        lang: None,
    })))
}

fn image(path: &str, alt: Option<&str>) -> ImageElement {
    ImageElement {
        tag: HtmlTag::Img,
        content: None,
        vertical_align: None,
        border: None,
        border_radius: None,
        size_units: None,
        data: None,
        path: path.to_string(),
        width: Some(1.5f32.to_bits()),
        height: None,
        preferred_width: None,
        preferred_height: None,
        title: None,
        alt: alt.map(|a| a.to_string()),
        description: None,
        pixelated: None,
        image_rendering: None,
        appearance: None,
        background: None,
        collapsed: None,
        collapsible: None,
    }
}

fn structured(content: ContentMatchType) -> TermGlossaryContent {
    TermGlossaryContent::Tagged(TaggedContent::StructuredContent { content })
}

#[test]
fn plain_string_is_trimmed() {
    let c = TermGlossaryContent::String("  hello world \n".to_string());
    assert_eq!(c.to_plain_text(), "hello world");
}

#[test]
fn unicode_white_space_is_trimmed() {
    let c = TermGlossaryContent::String("\u{3000}語\u{00A0}".to_string());
    assert_eq!(c.to_plain_text(), "語");
}

#[test]
fn tagged_text_renders_its_text() {
    let c = TermGlossaryContent::Tagged(TaggedContent::Text { text: " 猫 ".to_string() });
    assert_eq!(c.to_plain_text(), "猫");
}

#[test]
fn image_without_alt_renders_placeholder() {
    let c = TermGlossaryContent::Tagged(TaggedContent::Image(Box::new(image("img/a.png", None))));
    assert_eq!(c.to_plain_text(), "[Image: img/a.png]");
}

#[test]
fn image_with_alt_renders_alt() {
    let c = TermGlossaryContent::Tagged(TaggedContent::Image(Box::new(image("a.png", Some("cat")))));
    assert_eq!(c.to_plain_text(), "cat");
}

#[test]
fn block_element_opens_and_closes_a_line() {
    let content = ContentMatchType::Content(vec![
        text("a"),
        styled(HtmlTag::Div, Some(text("b"))),
        text("c"),
    ]);
    assert_eq!(structured(content).to_plain_text(), "a\nb\nc");
}

#[test]
fn span_is_inline() {
    let content = ContentMatchType::Content(vec![
        text("a"),
        styled(HtmlTag::Span, Some(text("b"))),
        text("c"),
    ]);
    assert_eq!(structured(content).to_plain_text(), "abc");
}

#[test]
fn list_items_are_indented() {
    let content = styled(
        HtmlTag::UnorderedList,
        Some(ContentMatchType::Content(vec![
            styled(HtmlTag::ListItem, Some(text("one"))),
            styled(HtmlTag::ListItem, Some(text("two"))),
        ])),
    );
    assert_eq!(structured(content).to_plain_text(), "- one\n  - two");
}

#[test]
fn line_break_adds_one_line() {
    let content = ContentMatchType::Content(vec![
        text("a"),
        ContentMatchType::Element(Box::new(Element::LineBreak(LineBreak {
            tag: HtmlTag::Break,
            data: None,
        }))),
        text("b"),
    ]);
    assert_eq!(structured(content).to_plain_text(), "a\nb");
}

#[test]
fn table_cells_are_followed_by_tabs() {
    let cell = |s: &str| {
        ContentMatchType::Element(Box::new(Element::Table(TableElement {
            tag: HtmlTag::TableData,
            content: Some(text(s)),
            data: None,
            col_span: None,
            row_span: None,
            style: None,
            lang: None,
        })))
    };
    let row = ContentMatchType::Element(Box::new(Element::Unstyled(UnstyledElement {
        tag: HtmlTag::TableRow,
        content: Some(ContentMatchType::Content(vec![cell("x"), cell("y")])),
        data: None,
        lang: None,
    })));
    let content = ContentMatchType::Content(vec![text("t"), row, text("u")]);
    assert_eq!(structured(content).to_plain_text(), "t\nx\ty\t\nu");
}

#[test]
fn unknown_string_and_image_elements_render_inline() {
    let content = ContentMatchType::Content(vec![
        ContentMatchType::Element(Box::new(Element::UnknownString("[".to_string()))),
        ContentMatchType::Element(Box::new(Element::Image(image("p.png", None)))),
        ContentMatchType::Element(Box::new(Element::UnknownString("]".to_string()))),
    ]);
    assert_eq!(structured(content).to_plain_text(), "[[Image: p.png]]");
}

#[test]
fn glossary_content_becomes_plain_text_group() {
    let g = TermGlossary::Content(TermGlossaryContent::String(" x ".to_string()));
    let group = TermGlossaryGroupType::from(g);
    assert_eq!(
        group,
        TermGlossaryGroupType::Content(TermGlossaryContentGroup {
            plain_text: "x".to_string(),
            html: None,
        })
    );
}

#[test]
fn glossary_deinflection_is_kept() {
    let d = TermGlossaryDeinflection {
        form_of: "食べる".to_string(),
        rules: vec!["v1".to_string()],
    };
    let group = TermGlossaryGroupType::from(TermGlossary::Deinflection(d.clone()));
    assert_eq!(group, TermGlossaryGroupType::Deinflection(d));
}

#[test]
fn content_group_from_content() {
    let group = TermGlossaryContentGroup::from(structured(styled(HtmlTag::Div, Some(text("z")))));
    assert_eq!(group.plain_text, "z");
    assert_eq!(group.html, None);
}
