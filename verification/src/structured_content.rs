//! Structured content of dictionary entries: the element tree of a glossary
//! and its rendering into plain text.
//!
//! Text that the dictionary files store as compact strings is held here as
//! `String`; floating-point numbers (image sizes, style lengths) are held as
//! their IEEE-754 bit patterns, so that no value is lost.

use vstd::prelude::*;
use indexmap::IndexMap;
use std::marker::PhantomData;
use crate::text::{
    chars_are, chars_to_string, is_white_space, lemma_trim_edges, push_str_chars, str_to_chars, trim,
    trim_chars,
};

pub mod compact_sequence;

verus! {

/// The object holding all the content of one entry.
/// `content_type` is `"structured-content"` in a valid file.
#[derive(Debug, PartialEq)]
pub struct StructuredContent {
    /// The `type` field of the object.
    pub content_type: String,
    /// The content of the entry: an element or an array of content.
    pub content: ContentMatchType,
}

/// Any `content` value: a string, one element, or an array of content.
#[derive(Debug, PartialEq)]
pub enum ContentMatchType {
    /// A string.
    String(String),
    /// A single html element.
    Element(Box<Element>),
    /// An array of content.
    Content(Vec<ContentMatchType>),
}

/// The plain-text rendering of a glossary entry, and its html rendering if any.
#[derive(Clone, PartialEq, Debug)]
pub struct TermGlossaryContentGroup {
    /// Text usable by programs that cannot render html.
    pub plain_text: String,
    /// Html text (not produced by this library).
    pub html: Option<String>,
}

/// A glossary entry as the database stores it.
#[derive(Clone, PartialEq, Debug)]
pub enum TermGlossaryGroupType {
    /// A rendered content group.
    Content(TermGlossaryContentGroup),
    /// A deinflection group.
    Deinflection(TermGlossaryDeinflection),
}

/// A glossary entry as a term bank file holds it.
#[derive(Debug, PartialEq)]
pub enum TermGlossary {
    /// A content entry.
    Content(TermGlossaryContent),
    /// A deinflection entry (an array in the file).
    Deinflection(TermGlossaryDeinflection),
}

/// A deinflection entry in a term glossary.
#[derive(Clone, Debug, PartialEq)]
pub struct TermGlossaryDeinflection {
    /// The uninflected form.
    pub form_of: String,
    /// The deinflection rules.
    pub rules: Vec<String>,
}

/// The content of a term glossary.
#[derive(Debug, PartialEq)]
pub enum TermGlossaryContent {
    /// A string.
    String(String),
    /// Tagged content.
    Tagged(TaggedContent),
}

/// Content with a `type` tag.
#[derive(Debug, PartialEq)]
pub enum TaggedContent {
    /// `"type": "text"`.
    Text { text: String },
    /// `"type": "img"`.
    Image(Box<ImageElement>),
    /// `"type": "structured-content"`.
    StructuredContent { content: ContentMatchType },
}

/// A text entry in a term glossary.
#[derive(Clone, Debug, PartialEq, Default)]
pub struct TermGlossaryText {
    /// The text of the glossary entry.
    pub text: String,
}

/// The header and glossary of one `term_bank_$i.json` entry.
#[derive(Debug)]
pub struct TermEntryItem {
    /// The expression of the term.
    pub expression: String,
    /// The reading of the term.
    pub reading: String,
    /// The definition tags.
    pub def_tags: Option<String>,
    /// The rules for the term.
    pub rules: String,
    /// The score of the term.
    pub score: i128,
    /// The glossary of the term.
    pub structured_content: Vec<TermGlossary>,
    /// The sequence number of the term.
    pub sequence: i128,
    /// The term tags.
    pub term_tags: String,
}

/// The rendering of an image.
#[derive(Clone, Copy, Debug, PartialEq, Eq, Hash)]
pub enum ImageRendering {
    /// Automatic rendering.
    Auto,
    /// Pixelated rendering.
    Pixelated,
    /// Crisp edges rendering.
    CrispEdges,
}

/// The appearance of an image.
#[derive(Clone, Copy, Debug, PartialEq, Eq, Hash)]
pub enum ImageAppearance {
    /// Automatic appearance.
    Auto,
    /// Monochrome appearance.
    Monochrome,
}

/// An HTML tag.
#[derive(Clone, Copy, Debug, PartialEq, Eq, Hash)]
pub enum HtmlTag {
    /// `ruby`.
    Ruby,
    /// `rt`.
    RubyText,
    /// `rp`.
    RubyParenthesis,
    /// `table`.
    Table,
    /// `td`.
    TableData,
    /// `th`.
    TableHeader,
    /// `tb`.
    TableBody,
    /// `tf`.
    TableFooter,
    /// `tr`.
    TableRow,
    /// `a`.
    Anchor,
    /// `span`.
    Span,
    /// `div`.
    Div,
    /// `ol`.
    OrderedList,
    /// `ul`.
    UnorderedList,
    /// `li`.
    ListItem,
    /// `details`.
    Details,
    /// `summary`.
    Summary,
    /// `br`.
    Break,
    /// `img`.
    Img,
}

/// The vertical alignment of an element.
#[derive(Clone, Copy, Debug, PartialEq, Eq, Hash)]
pub enum VerticalAlign {
    /// Baseline alignment.
    Baseline,
    /// Subscript alignment.
    Sub,
    /// Superscript alignment.
    Super,
    /// Text top alignment.
    TextTop,
    /// Text bottom alignment.
    TextBottom,
    /// Middle alignment.
    Middle,
    /// Top alignment.
    Top,
    /// Bottom alignment.
    Bottom,
}

/// The text decoration line of an element.
#[derive(Clone, Copy, Debug, PartialEq, Eq, Hash)]
pub enum TextDecorationLine {
    /// Underline.
    Underline,
    /// Overline.
    Overline,
    /// Line through.
    LineThrough,
}

/// The text decoration line of an element, or none.
#[derive(Clone, Copy, Debug, PartialEq, Eq, Hash)]
pub enum TextDecorationLineOrNone {
    /// No text decoration (`"none"` in the files).
    NoDecoration,
    /// A text decoration line.
    TextDecorationLine(TextDecorationLine),
}

/// The text decoration style of an element.
#[derive(Clone, Debug, PartialEq)]
pub enum TextDecorationStyle {
    /// Solid.
    Solid,
    /// Double.
    Double,
    /// Dotted.
    Dotted,
    /// Dashed.
    Dashed,
    /// Wavy.
    Wavy,
}

/// The font style of an element.
#[derive(Clone, Debug, PartialEq)]
pub enum FontStyle {
    /// Normal.
    Normal,
    /// Italic.
    Italic,
}

/// The font weight of an element.
#[derive(Clone, Debug, PartialEq)]
pub enum FontWeight {
    /// Normal.
    Normal,
    /// Bold.
    Bold,
}

/// The word break of an element.
#[derive(Clone, Debug, PartialEq)]
pub enum WordBreak {
    /// Normal.
    Normal,
    /// Break all.
    BreakAll,
    /// Keep all.
    KeepAll,
}

/// The text alignment of an element.
#[derive(Clone, Copy, Debug, PartialEq)]
pub enum TextAlign {
    /// Start.
    Start,
    /// End.
    End,
    /// Left.
    Left,
    /// Right.
    Right,
    /// Center.
    Center,
    /// Justify.
    Justify,
    /// Justify all.
    JustifyAll,
    /// Match parent.
    MatchParent,
}

/// The size units of an element.
#[derive(Clone, Copy, Debug, PartialEq, Eq)]
pub enum SizeUnits {
    /// Pixels.
    Px,
    /// Ems.
    Em,
}

/// A number or a string; a number is held as the bit pattern of its `f64`.
#[derive(Clone, Debug, PartialEq)]
pub enum NumberOrString {
    /// A number (`f64::to_bits`).
    Number(u64),
    /// A string.
    String(String),
}

/// The style of a structured content element.
#[derive(Clone, Debug, PartialEq)]
pub struct StructuredContentStyle {
    pub font_style: Option<FontStyle>,
    pub font_weight: Option<FontWeight>,
    pub font_size: Option<String>,
    pub color: Option<String>,
    pub background: Option<String>,
    pub background_color: Option<String>,
    pub text_decoration_line: Option<TextDecorationLineOrNone>,
    pub text_decoration_style: Option<TextDecorationStyle>,
    pub text_decoration_color: Option<String>,
    pub border_color: Option<String>,
    pub border_style: Option<String>,
    pub border_radius: Option<String>,
    pub border_width: Option<String>,
    pub clip_path: Option<String>,
    pub vertical_align: Option<VerticalAlign>,
    pub text_align: Option<TextAlign>,
    pub text_emphasis: Option<String>,
    pub text_shadow: Option<String>,
    pub margin: Option<NumberOrString>,
    pub margin_top: Option<NumberOrString>,
    pub margin_left: Option<NumberOrString>,
    pub margin_right: Option<NumberOrString>,
    pub margin_bottom: Option<NumberOrString>,
    pub padding: Option<NumberOrString>,
    pub padding_top: Option<NumberOrString>,
    pub padding_left: Option<NumberOrString>,
    pub padding_right: Option<NumberOrString>,
    pub padding_bottom: Option<NumberOrString>,
    pub word_break: Option<WordBreak>,
    pub white_space: Option<String>,
    pub cursor: Option<String>,
    pub list_style_type: Option<String>,
}

/// All elements that can appear within a `content` section.
#[derive(Debug, PartialEq)]
pub enum Element {
    /// An unknown string.
    UnknownString(String),
    /// A link element.
    Link(LinkElement),
    /// A styled element.
    Styled(StyledElement),
    /// An unstyled element.
    Unstyled(UnstyledElement),
    /// A table cell element.
    Table(TableElement),
    /// A line break element.
    LineBreak(LineBreak),
    /// An image element.
    Image(ImageElement),
}

/// A line break (`br`); it has no children.
#[derive(Clone, Debug, PartialEq)]
pub struct LineBreak {
    /// [`HtmlTag::Break`].
    pub tag: HtmlTag,
    /// The data of the element.
    pub data: Option<IndexMap<String, String>>,
}

/// An unstyled element (`ruby`, `rt`, `rp`, `table`, `th`, `tb`, `tf`, `tr`).
#[derive(Debug, PartialEq)]
pub struct UnstyledElement {
    /// The tag of the element.
    pub tag: HtmlTag,
    /// The content of the element.
    pub content: Option<ContentMatchType>,
    /// The data of the element.
    pub data: Option<IndexMap<String, String>>,
    /// The language of the element (RFC 5646).
    pub lang: Option<String>,
}

/// A table cell element (`td`, `th`).
#[derive(Debug, PartialEq)]
pub struct TableElement {
    /// The tag of the element.
    pub tag: HtmlTag,
    /// The content of the element.
    pub content: Option<ContentMatchType>,
    /// The data of the element.
    pub data: Option<IndexMap<String, String>>,
    /// The column span of the element.
    pub col_span: Option<u16>,
    /// The row span of the element.
    pub row_span: Option<u16>,
    /// The style of the element.
    pub style: Option<StructuredContentStyle>,
    /// The language of the element (RFC 5646).
    pub lang: Option<String>,
}

/// A styled element (`span`, `div`, `ol`, `ul`, `li`, `details`, `summary`).
#[derive(Debug, PartialEq)]
pub struct StyledElement {
    /// The tag of the element.
    pub tag: HtmlTag,
    /// The content of the element.
    pub content: Option<ContentMatchType>,
    /// The data of the element.
    pub data: Option<IndexMap<String, String>>,
    /// The style of the element.
    pub style: Option<StructuredContentStyle>,
    /// Hover text for the element.
    pub title: Option<String>,
    /// Whether the element is open.
    pub open: Option<bool>,
    /// The language of the element (RFC 5646).
    pub lang: Option<String>,
}

/// A marker for reading an element either from a map or from a sequence.
pub struct FlexibleElementVisitor<T> {
    _marker: PhantomData<T>,
}

impl<T> FlexibleElementVisitor<T> {
    /// A new visitor.
    pub fn new() -> Self {
        FlexibleElementVisitor { _marker: PhantomData }
    }
}

/// A link element (`a`).
#[derive(Debug, PartialEq)]
pub struct LinkElement {
    /// [`HtmlTag::Anchor`].
    pub tag: HtmlTag,
    /// The content of the element.
    pub content: Option<ContentMatchType>,
    /// The URL of the link; one starting with `?` points into the dictionary.
    pub href: String,
    /// The language of the element (RFC 5646).
    pub lang: Option<String>,
}

/// An image element; sizes are held as the bit patterns of their `f32`.
#[derive(Clone, Debug, PartialEq)]
pub struct ImageElement {
    /// The tag of the element.
    pub tag: HtmlTag,
    /// This element has no children.
    pub content: Option<()>,
    /// The vertical alignment of the image.
    pub vertical_align: Option<VerticalAlign>,
    /// Shorthand for border width, style, and color.
    pub border: Option<String>,
    /// Roundness of the corners of the border.
    pub border_radius: Option<String>,
    /// The units for the width and height.
    pub size_units: Option<SizeUnits>,
    /// The data of the element.
    pub data: Option<IndexMap<String, String>>,
    /// Path to the image file in the archive.
    pub path: String,
    /// Preferred width (`f32::to_bits`).
    pub width: Option<u32>,
    /// Preferred height (`f32::to_bits`).
    pub height: Option<u32>,
    /// Preferred width in the internal database (`f32::to_bits`).
    pub preferred_width: Option<u32>,
    /// Preferred height in the internal database (`f32::to_bits`).
    pub preferred_height: Option<u32>,
    /// Hover text for the image.
    pub title: Option<String>,
    /// Alt text for the image.
    pub alt: Option<String>,
    /// Description of the image.
    pub description: Option<String>,
    /// Whether the image appears pixelated when enlarged.
    pub pixelated: Option<bool>,
    /// How the image is rendered; supersedes `pixelated`.
    pub image_rendering: Option<ImageRendering>,
    /// The appearance of the image.
    pub appearance: Option<ImageAppearance>,
    /// Whether a background color is shown behind the image.
    pub background: Option<bool>,
    /// Whether the image is collapsed by default.
    pub collapsed: Option<bool>,
    /// Whether the image can be collapsed.
    pub collapsible: Option<bool>,
}


/************* Deciding the shape of file content *************/

/// The element variants that the `tag` of an element selects.
#[derive(Clone, Copy, Debug, PartialEq, Eq)]
pub enum ElementKind {
    /// [`LinkElement`].
    Link,
    /// [`StyledElement`].
    Styled,
    /// [`UnstyledElement`].
    Unstyled,
    /// [`TableElement`].
    Table,
    /// [`LineBreak`].
    LineBreak,
    /// [`ImageElement`].
    Image,
}

/// The variant that an element tag selects: `a` a link; `div`, `span`, `ol`,
/// `ul`, `li`, `details`, `summary` a styled element; `ruby`, `rt`, `rp`, `t`,
/// `table`, `thead`, `tbody`, `tfoot`, `tr`, `tb`, `tf` an unstyled element;
/// `td`, `th` a table cell; `br` a line break; `img` an image; no other tag.
pub open spec fn element_kind_of_tag(tag: Seq<char>) -> Option<ElementKind> {
    if tag == "a"@ {
        Some(ElementKind::Link)
    } else if tag == "div"@ || tag == "span"@ || tag == "ol"@ || tag == "ul"@ || tag == "li"@
        || tag == "details"@ || tag == "summary"@ {
        Some(ElementKind::Styled)
    } else if tag == "ruby"@ || tag == "rt"@ || tag == "rp"@ || tag == "t"@ || tag == "table"@
        || tag == "thead"@ || tag == "tbody"@ || tag == "tfoot"@ || tag == "tr"@ || tag == "tb"@
        || tag == "tf"@ {
        Some(ElementKind::Unstyled)
    } else if tag == "td"@ || tag == "th"@ {
        Some(ElementKind::Table)
    } else if tag == "br"@ {
        Some(ElementKind::LineBreak)
    } else if tag == "img"@ {
        Some(ElementKind::Image)
    } else {
        None
    }
}

/// The element variant that an element tag selects, if any.
pub fn element_kind_for_tag(tag: &str) -> (r: Option<ElementKind>)
    ensures
        r == element_kind_of_tag(tag@),
{
    let t = str_to_chars(tag);
    let t = t.as_slice();
    if chars_are(t, "a") {
        Some(ElementKind::Link)
    } else if chars_are(t, "div") || chars_are(t, "span") || chars_are(t, "ol") || chars_are(t, "ul")
        || chars_are(t, "li") || chars_are(t, "details") || chars_are(t, "summary") {
        Some(ElementKind::Styled)
    } else if chars_are(t, "ruby") || chars_are(t, "rt") || chars_are(t, "rp") || chars_are(t, "t")
        || chars_are(t, "table") || chars_are(t, "thead") || chars_are(t, "tbody") || chars_are(
        t,
        "tfoot",
    ) || chars_are(t, "tr") || chars_are(t, "tb") || chars_are(t, "tf") {
        Some(ElementKind::Unstyled)
    } else if chars_are(t, "td") || chars_are(t, "th") {
        Some(ElementKind::Table)
    } else if chars_are(t, "br") {
        Some(ElementKind::LineBreak)
    } else if chars_are(t, "img") {
        Some(ElementKind::Image)
    } else {
        None
    }
}

/// The variants of tagged content.
#[derive(Clone, Copy, Debug, PartialEq, Eq)]
pub enum TaggedContentKind {
    /// `"text"`.
    Text,
    /// `"img"`.
    Image,
    /// `"structured-content"`.
    StructuredContent,
}

/// The variant that the `type` of tagged content selects.
pub open spec fn tagged_content_kind_of(tag: Seq<char>) -> Option<TaggedContentKind> {
    if tag == "text"@ {
        Some(TaggedContentKind::Text)
    } else if tag == "img"@ {
        Some(TaggedContentKind::Image)
    } else if tag == "structured-content"@ {
        Some(TaggedContentKind::StructuredContent)
    } else {
        None
    }
}

/// The variant of tagged content that a `type` selects, if any.
pub fn tagged_content_kind_for(tag: &str) -> (r: Option<TaggedContentKind>)
    ensures
        r == tagged_content_kind_of(tag@),
{
    let t = str_to_chars(tag);
    let t = t.as_slice();
    if chars_are(t, "text") {
        Some(TaggedContentKind::Text)
    } else if chars_are(t, "img") {
        Some(TaggedContentKind::Image)
    } else if chars_are(t, "structured-content") {
        Some(TaggedContentKind::StructuredContent)
    } else {
        None
    }
}

/// What an object in a `content` position is: an element (it has a `tag`),
/// or nested structured content (its `type` is `structured-content`).
#[derive(Clone, Copy, Debug, PartialEq, Eq)]
pub enum ContentObjectKind {
    /// An element.
    Element,
    /// Nested structured content.
    StructuredContent,
}

/// The kind of an object in a `content` position: one with a `tag` is an
/// element; else one whose `type` is `structured-content` is nested content;
/// any other object is none.
pub open spec fn content_object_kind_of(has_tag: bool, type_field: Option<Seq<char>>) -> Option<ContentObjectKind> {
    if has_tag {
        Some(ContentObjectKind::Element)
    } else if type_field == Some("structured-content"@) {
        Some(ContentObjectKind::StructuredContent)
    } else {
        None
    }
}

/// The kind of an object in a `content` position, from whether it has a
/// `tag` and the text of its `type`.
pub fn content_object_kind(has_tag: bool, type_field: Option<&str>) -> (r: Option<ContentObjectKind>)
    ensures
        r == content_object_kind_of(has_tag, match type_field {
            Some(t) => Some(t@),
            None => None,
        }),
{
    if has_tag {
        return Some(ContentObjectKind::Element);
    }
    match type_field {
        Some(t) => {
            let chars = str_to_chars(t);
            if chars_are(chars.as_slice(), "structured-content") {
                Some(ContentObjectKind::StructuredContent)
            } else {
                None
            }
        },
        None => None,
    }
}

/// Nested structured content, held as a `div` around its content.
pub fn wrap_structured_content(content: ContentMatchType) -> (r: Element)
    ensures
        r == Element::Styled(
            StyledElement {
                tag: HtmlTag::Div,
                content: Some(content),
                data: None,
                style: None,
                title: None,
                open: None,
                lang: None,
            },
        ),
{
    Element::Styled(
        StyledElement {
            tag: HtmlTag::Div,
            content: Some(content),
            data: None,
            style: None,
            title: None,
            open: None,
            lang: None,
        },
    )
}

/// Whether a string in a compact link sequence is its `href`: it starts with
/// `?` or with `http`.
pub open spec fn is_href_like(s: Seq<char>) -> bool {
    (s.len() > 0 && s[0] == '?') || (s.len() >= 4 && s.subrange(0, 4) == "http"@)
}

/// Whether a string in a compact link sequence is its `href`.
pub fn looks_like_href(s: &str) -> (r: bool)
    ensures
        r == is_href_like(s@),
{
    let chars = str_to_chars(s);
    if chars.len() > 0 && chars[0] == '?' {
        return true;
    }
    if chars.len() >= 4 {
        let mut prefix: Vec<char> = Vec::new();
        let mut i: usize = 0;
        while i < 4
            invariant
                i <= 4 <= chars@.len(),
                chars@ == s@,
                prefix@ == s@.subrange(0, i as int),
            decreases 4 - i,
        {
            prefix.push(chars[i]);
            i += 1;
            assert(prefix@ =~= s@.subrange(0, i as int));
        }
        return chars_are(prefix.as_slice(), "http");
    }
    false
}

/// Whether an item of an array in a compact styled-element sequence fits a
/// style array: a number, or a string without `【`.
pub open spec fn is_style_item(is_number: bool, text: Option<Seq<char>>) -> bool {
    is_number || (text matches Some(t) && !t.contains('【'))
}

/// Whether an array item fits a style array, from whether it is a number and
/// its text if it is a string.
pub fn style_item_fits(is_number: bool, text: Option<&str>) -> (r: bool)
    ensures
        r == is_style_item(is_number, match text {
            Some(t) => Some(t@),
            None => None,
        }),
{
    if is_number {
        return true;
    }
    match text {
        Some(t) => {
            let chars = str_to_chars(t);
            let mut i: usize = 0;
            while i < chars.len()
                invariant
                    i <= chars@.len(),
                    chars@ == t@,
                    !is_number,
                    text == Some(t),
                    forall|j: int| 0 <= j < i ==> chars@[j] != '【',
                decreases chars.len() - i,
            {
                if chars[i] == '【' {
                    assert(t@.contains('【')) by {
                        assert(t@[i as int] == '【');
                    }
                    return false;
                }
                i += 1;
            }
            true
        },
        None => false,
    }
}

/************* Plain-text rendering *************/

/// The text that stands for an image: its alt text, else `[Image: <path>]`.
pub open spec fn image_text(alt: Option<String>, path: String) -> Seq<char> {
    match alt {
        Some(a) => a@,
        None => seq!['[', 'I', 'm', 'a', 'g', 'e', ':', ' '] + path@ + seq![']'],
    }
}

/// Whether `buf` ends with a line feed.
pub open spec fn ends_with_newline(buf: Seq<char>) -> bool {
    buf.len() > 0 && buf[buf.len() - 1] == '\n'
}

/// Whether an element is rendered as a block, on lines of its own.
pub open spec fn is_block_element(e: Element) -> bool {
    match e {
        Element::Styled(s) => {
            ||| s.tag == HtmlTag::Div
            ||| s.tag == HtmlTag::OrderedList
            ||| s.tag == HtmlTag::UnorderedList
            ||| s.tag == HtmlTag::ListItem
            ||| s.tag == HtmlTag::Details
            ||| s.tag == HtmlTag::TableRow
        },
        Element::Unstyled(u) => u.tag == HtmlTag::TableRow || u.tag == HtmlTag::Table,
        Element::Table(t) => t.tag == HtmlTag::TableRow,
        Element::LineBreak(_) => true,
        _ => false,
    }
}

/// Before a block: a line feed, unless `buf` is empty or already ends with one.
pub open spec fn open_block(buf: Seq<char>) -> Seq<char> {
    if buf.len() > 0 && !ends_with_newline(buf) {
        buf.push('\n')
    } else {
        buf
    }
}

/// After a block: a line feed, unless `buf` already ends with one.
pub open spec fn close_block(buf: Seq<char>) -> Seq<char> {
    if !ends_with_newline(buf) {
        buf.push('\n')
    } else {
        buf
    }
}

/// `buf` followed by the rendering of `c`.
pub open spec fn render_content(buf: Seq<char>, c: ContentMatchType) -> Seq<char>
    decreases c,
{
    match c {
        ContentMatchType::String(s) => buf + s@,
        ContentMatchType::Content(v) => render_items(buf, v@),
        ContentMatchType::Element(e) => render_element(buf, *e),
    }
}

/// `buf` followed by the renderings of `items`, in order.
pub open spec fn render_items(buf: Seq<char>, items: Seq<ContentMatchType>) -> Seq<char>
    decreases items,
{
    if items.len() == 0 {
        buf
    } else {
        render_content(
            render_items(buf, items.subrange(0, items.len() - 1)),
            items[items.len() - 1],
        )
    }
}

/// `buf` followed by the rendering of optional content.
pub open spec fn render_optional(buf: Seq<char>, c: Option<ContentMatchType>) -> Seq<char>
    decreases c,
{
    match c {
        Some(inner) => render_content(buf, inner),
        None => buf,
    }
}

/// `buf` followed by the rendering of `e`: a block element opens and closes a
/// line, a list item is indented with `"  - "`, a table cell is followed by a
/// tab, an image stands as its alt text or a placeholder, a line break adds
/// nothing but its line.
pub open spec fn render_element(buf: Seq<char>, e: Element) -> Seq<char>
    decreases e,
{
    let block = is_block_element(e);
    let before = if block {
        open_block(buf)
    } else {
        buf
    };
    let body = match e {
        Element::UnknownString(s) => before + s@,
        Element::Link(l) => render_optional(before, l.content),
        Element::Styled(s) => render_optional(
            if s.tag == HtmlTag::ListItem {
                before + seq![' ', ' ', '-', ' ']
            } else {
                before
            },
            s.content,
        ),
        Element::Unstyled(u) => render_optional(before, u.content),
        Element::Table(t) => render_optional(before, t.content).push('\t'),
        Element::LineBreak(_) => before,
        Element::Image(img) => before + image_text(img.alt, img.path),
    };
    if block {
        close_block(body)
    } else {
        body
    }
}

/// `buf` followed by the rendering of tagged content.
pub open spec fn render_tagged(buf: Seq<char>, t: TaggedContent) -> Seq<char> {
    match t {
        TaggedContent::Text { text } => buf + text@,
        TaggedContent::Image(img) => buf + image_text(img.alt, img.path),
        TaggedContent::StructuredContent { content } => render_content(buf, content),
    }
}

/// The plain text of glossary content: its rendering, trimmed of white space.
pub open spec fn plain_text(c: TermGlossaryContent) -> Seq<char> {
    trim(
        match c {
            TermGlossaryContent::String(s) => s@,
            TermGlossaryContent::Tagged(t) => render_tagged(Seq::empty(), t),
        },
    )
}

fn buf_ends_with_newline(buf: &Vec<char>) -> (r: bool)
    ensures
        r == ends_with_newline(buf@),
{
    buf.len() > 0 && buf[buf.len() - 1] == '\n'
}

fn push_image_text(alt: &Option<String>, path: &String, buf: &mut Vec<char>)
    ensures
        final(buf)@ == old(buf)@ + image_text(*alt, *path),
{
    match alt {
        Some(a) => push_str_chars(buf, a.as_str()),
        None => {
            let ghost start = buf@;
            buf.push('[');
            buf.push('I');
            buf.push('m');
            buf.push('a');
            buf.push('g');
            buf.push('e');
            buf.push(':');
            buf.push(' ');
            push_str_chars(buf, path.as_str());
            buf.push(']');
            assert(buf@ =~= start + image_text(*alt, *path));
        },
    }
}

fn element_is_block(e: &Element) -> (r: bool)
    ensures
        r == is_block_element(*e),
{
    match e {
        Element::Styled(s) => match s.tag {
            HtmlTag::Div | HtmlTag::OrderedList | HtmlTag::UnorderedList | HtmlTag::ListItem
            | HtmlTag::Details | HtmlTag::TableRow => true,
            _ => false,
        },
        Element::Unstyled(u) => match u.tag {
            HtmlTag::TableRow | HtmlTag::Table => true,
            _ => false,
        },
        Element::Table(t) => match t.tag {
            HtmlTag::TableRow => true,
            _ => false,
        },
        Element::LineBreak(_) => true,
        _ => false,
    }
}

impl TermGlossaryContent {
    /// The plain text of this content: its rendering with white space trimmed
    /// at both ends.
    pub fn to_plain_text(&self) -> (r: String)
        ensures
            r@ == plain_text(*self),
    {
        let mut buffer: Vec<char> = Vec::new();
        match self {
            TermGlossaryContent::String(s) => push_str_chars(&mut buffer, s.as_str()),
            TermGlossaryContent::Tagged(t) => Self::render_tagged_content(t, &mut buffer),
        }
        let trimmed = trim_chars(buffer.as_slice());
        chars_to_string(trimmed.as_slice())
    }

    fn render_tagged_content(tagged: &TaggedContent, buf: &mut Vec<char>)
        ensures
            final(buf)@ == render_tagged(old(buf)@, *tagged),
    {
        match tagged {
            TaggedContent::Text { text } => push_str_chars(buf, text.as_str()),
            TaggedContent::Image(img) => push_image_text(&img.alt, &img.path, buf),
            TaggedContent::StructuredContent { content } => Self::render_content_match_type(content, buf),
        }
    }

    fn render_content_match_type(c: &ContentMatchType, buf: &mut Vec<char>)
        ensures
            final(buf)@ == render_content(old(buf)@, *c),
        decreases c,
    {
        match c {
            ContentMatchType::String(s) => push_str_chars(buf, s.as_str()),
            ContentMatchType::Content(v) => {
                let ghost start = buf@;
                let mut i: usize = 0;
                assert(v@.take(0) =~= Seq::<ContentMatchType>::empty());
                while i < v.len()
                    invariant
                        i <= v@.len(),
                        *c == ContentMatchType::Content(*v),
                        buf@ == render_items(start, v@.take(i as int)),
                    decreases v.len() - i,
                {
                    assert(v@.take(i + 1).subrange(0, i as int) =~= v@.take(i as int));
                    proof {
                        assert(decreases_to!(*c => (*c)->Content_0));
                        assert(decreases_to!((*c)->Content_0 => v@));
                        assert(decreases_to!(v@ => v@[i as int]));
                    }
                    Self::render_content_match_type(&v[i], buf);
                    i += 1;
                }
                assert(v@.take(i as int) =~= v@);
            },
            ContentMatchType::Element(e) => Self::render_element(e, buf),
        }
    }

    fn render_optional_content(c: &Option<ContentMatchType>, buf: &mut Vec<char>)
        ensures
            final(buf)@ == render_optional(old(buf)@, *c),
        decreases c,
    {
        match c {
            Some(inner) => Self::render_content_match_type(inner, buf),
            None => {},
        }
    }

    fn render_element(e: &Element, buf: &mut Vec<char>)
        ensures
            final(buf)@ == render_element(old(buf)@, *e),
        decreases e,
    {
        let block = element_is_block(e);
        let ghost start = buf@;
        if block {
            if buf.len() > 0 && !buf_ends_with_newline(buf) {
                buf.push('\n');
            }
        }
        let ghost before = buf@;
        assert(before == if block { open_block(start) } else { start });
        match e {
            Element::UnknownString(s) => push_str_chars(buf, s.as_str()),
            Element::Link(l) => Self::render_optional_content(&l.content, buf),
            Element::Styled(s) => {
                match s.tag {
                    HtmlTag::ListItem => {
                        buf.push(' ');
                        buf.push(' ');
                        buf.push('-');
                        buf.push(' ');
                        assert(buf@ =~= before + seq![' ', ' ', '-', ' ']);
                    },
                    _ => {},
                }
                Self::render_optional_content(&s.content, buf);
            },
            Element::Unstyled(u) => Self::render_optional_content(&u.content, buf),
            Element::Table(t) => {
                Self::render_optional_content(&t.content, buf);
                buf.push('\t');
            },
            Element::LineBreak(_) => {},
            Element::Image(img) => push_image_text(&img.alt, &img.path, buf),
        }
        assert(render_element(start, *e) == if block { close_block(buf@) } else { buf@ });
        if block {
            if !buf_ends_with_newline(buf) {
                buf.push('\n');
            }
        }
    }
}


/// Whether `b` starts with `a`.
pub open spec fn extends(a: Seq<char>, b: Seq<char>) -> bool {
    a.len() <= b.len() && b.subrange(0, a.len() as int) == a
}

proof fn lemma_extends_trans(a: Seq<char>, b: Seq<char>, c: Seq<char>)
    requires
        extends(a, b),
        extends(b, c),
    ensures
        extends(a, c),
{
    assert(c.subrange(0, a.len() as int) =~= c.subrange(0, b.len() as int).subrange(0, a.len() as int));
}

proof fn lemma_extends_append(a: Seq<char>, t: Seq<char>)
    ensures
        extends(a, a + t),
        extends(a, a.push('\n')),
{
    assert((a + t).subrange(0, a.len() as int) =~= a);
    assert(a.push('\n').subrange(0, a.len() as int) =~= a);
}

/// Rendering content only appends to the text before it.
pub proof fn lemma_render_content_extends(buf: Seq<char>, c: ContentMatchType)
    ensures
        extends(buf, render_content(buf, c)),
    decreases c,
{
    match c {
        ContentMatchType::String(s) => lemma_extends_append(buf, s@),
        ContentMatchType::Content(v) => {
            assert(decreases_to!(c => v));
            lemma_render_items_extends(buf, v@);
        },
        ContentMatchType::Element(e) => lemma_render_element_extends(buf, *e),
    }
}

/// Rendering a sequence of content only appends to the text before it.
pub proof fn lemma_render_items_extends(buf: Seq<char>, items: Seq<ContentMatchType>)
    ensures
        extends(buf, render_items(buf, items)),
    decreases items,
{
    if items.len() > 0 {
        let init = items.subrange(0, items.len() - 1);
        lemma_render_items_extends(buf, init);
        lemma_render_content_extends(render_items(buf, init), items[items.len() - 1]);
        lemma_extends_trans(buf, render_items(buf, init), render_items(buf, items));
    } else {
        assert(buf.subrange(0, buf.len() as int) =~= buf);
    }
}

proof fn lemma_render_optional_extends(buf: Seq<char>, c: Option<ContentMatchType>)
    ensures
        extends(buf, render_optional(buf, c)),
    decreases c,
{
    match c {
        Some(inner) => lemma_render_content_extends(buf, inner),
        None => {
            assert(buf.subrange(0, buf.len() as int) =~= buf);
        },
    }
}

/// Rendering an element only appends to the text before it, and a block
/// element appends to the text with its opening line feed.
pub proof fn lemma_render_element_extends(buf: Seq<char>, e: Element)
    ensures
        extends(buf, render_element(buf, e)),
        extends(
            if is_block_element(e) {
                open_block(buf)
            } else {
                buf
            },
            render_element(buf, e),
        ),
    decreases e,
{
    let block = is_block_element(e);
    let before = if block {
        open_block(buf)
    } else {
        buf
    };
    lemma_extends_append(buf, Seq::empty());
    assert(buf + Seq::<char>::empty() =~= buf);
    assert(extends(buf, before));
    let body = match e {
        Element::UnknownString(s) => before + s@,
        Element::Link(l) => render_optional(before, l.content),
        Element::Styled(s) => render_optional(
            if s.tag == HtmlTag::ListItem {
                before + seq![' ', ' ', '-', ' ']
            } else {
                before
            },
            s.content,
        ),
        Element::Unstyled(u) => render_optional(before, u.content),
        Element::Table(t) => render_optional(before, t.content).push('\t'),
        Element::LineBreak(_) => before,
        Element::Image(img) => before + image_text(img.alt, img.path),
    };
    match e {
        Element::UnknownString(s) => lemma_extends_append(before, s@),
        Element::Link(l) => lemma_render_optional_extends(before, l.content),
        Element::Styled(s) => {
            let indented = if s.tag == HtmlTag::ListItem {
                before + seq![' ', ' ', '-', ' ']
            } else {
                before
            };
            lemma_extends_append(before, seq![' ', ' ', '-', ' ']);
            lemma_extends_append(before, Seq::empty());
            assert(before + Seq::<char>::empty() =~= before);
            lemma_render_optional_extends(indented, s.content);
            lemma_extends_trans(before, indented, body);
        },
        Element::Unstyled(u) => lemma_render_optional_extends(before, u.content),
        Element::Table(t) => {
            let inner = render_optional(before, t.content);
            lemma_render_optional_extends(before, t.content);
            lemma_extends_append(inner, seq!['\t']);
            assert(inner + seq!['\t'] =~= inner.push('\t'));
            lemma_extends_trans(before, inner, body);
        },
        Element::LineBreak(_) => {
            assert(before.subrange(0, before.len() as int) =~= before);
        },
        Element::Image(img) => lemma_extends_append(before, image_text(img.alt, img.path)),
    }
    lemma_extends_trans(buf, before, body);
    lemma_extends_append(body, Seq::empty());
    assert(body + Seq::<char>::empty() =~= body);
    lemma_extends_trans(buf, body, render_element(buf, e));
    lemma_extends_trans(before, body, render_element(buf, e));
}

/// A block element after text that does not end a line starts a new line:
/// its rendering begins with that text and a line feed, and ends with a line
/// feed.
pub proof fn lemma_block_element_starts_line(buf: Seq<char>, e: Element)
    requires
        is_block_element(e),
        buf.len() > 0,
        !ends_with_newline(buf),
    ensures
        extends(buf.push('\n'), render_element(buf, e)),
        ends_with_newline(render_element(buf, e)),
{
    lemma_render_element_extends(buf, e);
}

/// Rendering a link gives exactly the rendering of its content: a link is not
/// a block, and its `href` adds nothing to the text.
pub proof fn lemma_link_renders_its_content(buf: Seq<char>, l: LinkElement)
    ensures
        render_element(buf, Element::Link(l)) == render_optional(buf, l.content),
{
}

/// Whether `t` is the text of a string leaf of `c`: `c` itself if it is a
/// string, a leaf of one of its items if it is an array, a leaf of it if it
/// is an element.
pub open spec fn content_has_leaf(c: ContentMatchType, t: Seq<char>) -> bool
    decreases c,
{
    match c {
        ContentMatchType::String(s) => s@ == t,
        ContentMatchType::Content(v) => items_have_leaf(v@, t),
        ContentMatchType::Element(e) => element_has_leaf(*e, t),
    }
}

/// Whether `t` is the text of a string leaf of one of `items`.
pub open spec fn items_have_leaf(items: Seq<ContentMatchType>, t: Seq<char>) -> bool
    decreases items,
{
    if items.len() == 0 {
        false
    } else {
        items_have_leaf(items.subrange(0, items.len() - 1), t) || content_has_leaf(items[items.len() - 1], t)
    }
}

/// Whether `t` is the text of a string leaf of optional content.
pub open spec fn optional_has_leaf(c: Option<ContentMatchType>, t: Seq<char>) -> bool
    decreases c,
{
    match c {
        Some(inner) => content_has_leaf(inner, t),
        None => false,
    }
}

/// Whether `t` is the text of a string leaf of an element: its text if it is
/// an unknown string, a leaf of its content if it is a link, a styled, an
/// unstyled or a table element.
pub open spec fn element_has_leaf(e: Element, t: Seq<char>) -> bool
    decreases e,
{
    match e {
        Element::UnknownString(s) => s@ == t,
        Element::Link(l) => optional_has_leaf(l.content, t),
        Element::Styled(x) => optional_has_leaf(x.content, t),
        Element::Unstyled(u) => optional_has_leaf(u.content, t),
        Element::Table(x) => optional_has_leaf(x.content, t),
        Element::LineBreak(_) => false,
        Element::Image(_) => false,
    }
}

/// Whether `t` stands somewhere in `s` as a contiguous piece.
pub open spec fn occurs_in(t: Seq<char>, s: Seq<char>) -> bool {
    exists|k: int| 0 <= k && k + t.len() <= s.len() && #[trigger] s.subrange(k, k + t.len()) == t
}

proof fn lemma_occurs_extends(t: Seq<char>, x: Seq<char>, y: Seq<char>)
    requires
        occurs_in(t, x),
        extends(x, y),
    ensures
        occurs_in(t, y),
{
    let k = choose|k: int| 0 <= k && k + t.len() <= x.len() && #[trigger] x.subrange(k, k + t.len()) == t;
    assert(y.subrange(k, k + t.len()) =~= y.subrange(0, x.len() as int).subrange(k, k + t.len()));
}

proof fn lemma_occurs_at_end(buf: Seq<char>, t: Seq<char>)
    ensures
        occurs_in(t, buf + t),
{
    assert((buf + t).subrange(buf.len() as int, (buf.len() + t.len()) as int) =~= t);
}

/// Every string leaf of content stands in its rendering: no text of the
/// content is dropped, whatever elements it sits in.
pub proof fn lemma_content_leaves_rendered(buf: Seq<char>, c: ContentMatchType, t: Seq<char>)
    requires
        content_has_leaf(c, t),
    ensures
        occurs_in(t, render_content(buf, c)),
    decreases c,
{
    match c {
        ContentMatchType::String(s) => lemma_occurs_at_end(buf, t),
        ContentMatchType::Content(v) => {
            assert(decreases_to!(c => v));
            lemma_items_leaves_rendered(buf, v@, t);
        },
        ContentMatchType::Element(e) => lemma_element_leaves_rendered(buf, *e, t),
    }
}

/// Every string leaf of a sequence of content stands in its rendering.
pub proof fn lemma_items_leaves_rendered(buf: Seq<char>, items: Seq<ContentMatchType>, t: Seq<char>)
    requires
        items_have_leaf(items, t),
    ensures
        occurs_in(t, render_items(buf, items)),
    decreases items,
{
    let init = items.subrange(0, items.len() - 1);
    let last = items[items.len() - 1];
    if content_has_leaf(last, t) {
        lemma_content_leaves_rendered(render_items(buf, init), last, t);
    } else {
        lemma_items_leaves_rendered(buf, init, t);
        lemma_render_content_extends(render_items(buf, init), last);
        lemma_occurs_extends(t, render_items(buf, init), render_items(buf, items));
    }
}

proof fn lemma_optional_leaves_rendered(buf: Seq<char>, c: Option<ContentMatchType>, t: Seq<char>)
    requires
        optional_has_leaf(c, t),
    ensures
        occurs_in(t, render_optional(buf, c)),
    decreases c,
{
    if let Some(inner) = c {
        lemma_content_leaves_rendered(buf, inner, t);
    }
}

/// Every string leaf of an element stands in its rendering.
pub proof fn lemma_element_leaves_rendered(buf: Seq<char>, e: Element, t: Seq<char>)
    requires
        element_has_leaf(e, t),
    ensures
        occurs_in(t, render_element(buf, e)),
    decreases e,
{
    let block = is_block_element(e);
    let before = if block {
        open_block(buf)
    } else {
        buf
    };
    let body = match e {
        Element::UnknownString(s) => before + s@,
        Element::Link(l) => render_optional(before, l.content),
        Element::Styled(s) => render_optional(
            if s.tag == HtmlTag::ListItem {
                before + seq![' ', ' ', '-', ' ']
            } else {
                before
            },
            s.content,
        ),
        Element::Unstyled(u) => render_optional(before, u.content),
        Element::Table(x) => render_optional(before, x.content).push('\t'),
        Element::LineBreak(_) => before,
        Element::Image(img) => before + image_text(img.alt, img.path),
    };
    match e {
        Element::UnknownString(s) => lemma_occurs_at_end(before, t),
        Element::Link(l) => lemma_optional_leaves_rendered(before, l.content, t),
        Element::Styled(x) => {
            let indented = if x.tag == HtmlTag::ListItem {
                before + seq![' ', ' ', '-', ' ']
            } else {
                before
            };
            lemma_optional_leaves_rendered(indented, x.content, t);
        },
        Element::Unstyled(u) => lemma_optional_leaves_rendered(before, u.content, t),
        Element::Table(x) => {
            let inner = render_optional(before, x.content);
            lemma_optional_leaves_rendered(before, x.content, t);
            lemma_extends_append(inner, Seq::empty());
            assert(inner.push('\t').subrange(0, inner.len() as int) =~= inner);
            lemma_occurs_extends(t, inner, body);
        },
        _ => {},
    }
    assert(occurs_in(t, body));
    let out = render_element(buf, e);
    assert(body.push('\n').subrange(0, body.len() as int) =~= body);
    assert(body.subrange(0, body.len() as int) =~= body);
    assert(extends(body, out));
    lemma_occurs_extends(t, body, out);
}

/// A block element leaves the text ending with a line feed.
pub proof fn lemma_block_element_ends_line(buf: Seq<char>, e: Element)
    requires
        is_block_element(e),
    ensures
        ends_with_newline(render_element(buf, e)),
{
}

/// Plain text neither starts nor ends with white space.
pub proof fn lemma_plain_text_trimmed(c: TermGlossaryContent)
    ensures
        plain_text(c).len() > 0 ==> !is_white_space(plain_text(c)[0])
            && !is_white_space(plain_text(c)[plain_text(c).len() - 1]),
{
    let raw = match c {
        TermGlossaryContent::String(s) => s@,
        TermGlossaryContent::Tagged(t) => render_tagged(Seq::empty(), t),
    };
    lemma_trim_edges(raw);
}

/// The content group of a glossary entry: its plain text, and no html.
pub open spec fn content_group_of(c: TermGlossaryContent, g: TermGlossaryContentGroup) -> bool {
    g.plain_text@ == plain_text(c) && g.html is None
}

/// The database form of a glossary entry: content is rendered to plain text,
/// a deinflection is kept as it is.
pub open spec fn group_type_of(g: TermGlossary, r: TermGlossaryGroupType) -> bool {
    match g {
        TermGlossary::Deinflection(d) => r == TermGlossaryGroupType::Deinflection(d),
        TermGlossary::Content(c) => match r {
            TermGlossaryGroupType::Content(group) => content_group_of(c, group),
            _ => false,
        },
    }
}

impl From<TermGlossaryContent> for TermGlossaryContentGroup {
    fn from(value: TermGlossaryContent) -> (r: Self)
        ensures
            content_group_of(value, r),
    {
        let plain_text = value.to_plain_text();
        TermGlossaryContentGroup { plain_text, html: None }
    }
}

impl vstd::std_specs::convert::FromSpecImpl<TermGlossaryContent> for TermGlossaryContentGroup {
    open spec fn obeys_from_spec() -> bool {
        false
    }

    open spec fn from_spec(v: TermGlossaryContent) -> Self {
        arbitrary()
    }
}

impl From<TermGlossary> for TermGlossaryGroupType {
    fn from(value: TermGlossary) -> (r: Self)
        ensures
            group_type_of(value, r),
    {
        match value {
            TermGlossary::Deinflection(d) => TermGlossaryGroupType::Deinflection(d),
            TermGlossary::Content(c) => TermGlossaryGroupType::Content(TermGlossaryContentGroup::from(c)),
        }
    }
}

impl vstd::std_specs::convert::FromSpecImpl<TermGlossary> for TermGlossaryGroupType {
    open spec fn obeys_from_spec() -> bool {
        false
    }

    open spec fn from_spec(v: TermGlossary) -> Self {
        arbitrary()
    }
}

} // verus!
