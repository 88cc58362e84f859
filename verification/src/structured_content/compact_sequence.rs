//! The compact sequence form of elements (`["span", ...]`), as a database
//! stores them: which item of a sequence fills which field of the element.
//!
//! The items after the tag carry no names; each element kind takes them in
//! order by their shape. The functions here make that choice from a
//! description of each item, and give the positions of the items that fill
//! each field.

use vstd::prelude::*;
use crate::structured_content::{is_href_like, is_style_item, looks_like_href, style_item_fits};

verus! {

/// An item of an array in a compact sequence: whether it is a number, and
/// its text if it is a string.
#[derive(Clone, Debug)]
pub struct ArrayItem {
    pub is_number: bool,
    pub text: Option<String>,
}

/// What an item of a compact element sequence (after the tag) is, as far as
/// the field that it fills depends on it.
#[derive(Clone, Debug)]
pub enum SequenceItem {
    /// A boolean.
    Flag(bool),
    /// A non-negative integer within 64 bits.
    Count(u64),
    /// An object, with whether it reads as an element style and whether it
    /// reads as a map from strings to strings.
    Object { reads_as_style: bool, reads_as_string_map: bool },
    /// A string.
    Text(String),
    /// An array: its items, and whether the style made of it reads.
    Array { items: Vec<ArrayItem>, reads_as_style: bool },
    /// Anything else: another number, or null.
    Other,
}

/// Whether every item of an array fits a style array.
pub open spec fn style_like(items: Seq<ArrayItem>) -> bool {
    forall|k: int|
        0 <= k < items.len() ==> is_style_item(
            #[trigger] items[k].is_number,
            match items[k].text {
                Some(t) => Some(t@),
                None => None,
            },
        )
}

/// Whether every item of an array fits a style array: numbers, and strings
/// without `【`.
pub fn array_is_style_like(items: &Vec<ArrayItem>) -> (r: bool)
    ensures
        r == style_like(items@),
{
    let mut k: usize = 0;
    while k < items.len()
        invariant
            k <= items@.len(),
            forall|j: int|
                0 <= j < k ==> is_style_item(
                    #[trigger] items@[j].is_number,
                    match items@[j].text {
                        Some(t) => Some(t@),
                        None => None,
                    },
                ),
        decreases items.len() - k,
    {
        let item = &items[k];
        let fits = match &item.text {
            Some(t) => style_item_fits(item.is_number, Some(t.as_str())),
            None => style_item_fits(item.is_number, None),
        };
        if !fits {
            return false;
        }
        k += 1;
    }
    true
}

/// The style field that the item at `position` of a style array gives:
/// `fontSize`, `verticalAlign`, `marginLeft`, `marginRight`; later items give
/// none.
pub open spec fn style_array_key_of(position: int) -> Option<Seq<char>> {
    if position == 0 {
        Some("fontSize"@)
    } else if position == 1 {
        Some("verticalAlign"@)
    } else if position == 2 {
        Some("marginLeft"@)
    } else if position == 3 {
        Some("marginRight"@)
    } else {
        None
    }
}

/// The style field that the item at `position` of a style array gives.
pub fn style_array_key(position: usize) -> (r: Option<&'static str>)
    ensures
        match r {
            Some(k) => style_array_key_of(position as int) == Some(k@),
            None => style_array_key_of(position as int) is None,
        },
{
    proof {
        reveal_strlit("fontSize");
        reveal_strlit("verticalAlign");
        reveal_strlit("marginLeft");
        reveal_strlit("marginRight");
    }
    if position == 0 {
        Some("fontSize")
    } else if position == 1 {
        Some("verticalAlign")
    } else if position == 2 {
        Some("marginLeft")
    } else if position == 3 {
        Some("marginRight")
    } else {
        None
    }
}

/************* Styled elements *************/

/// The fields of a styled element that its compact sequence fills: the value
/// of `open`, the title, and the positions of the items that give the data,
/// the style and the content.
#[derive(Clone, Debug)]
pub struct StyledSequenceFields {
    pub open: Option<bool>,
    pub data: Option<usize>,
    pub style: Option<usize>,
    pub title: Option<String>,
    pub content: Option<usize>,
}

/// No field filled.
pub open spec fn styled_empty() -> StyledSequenceFields {
    StyledSequenceFields { open: None, data: None, style: None, title: None, content: None }
}

/// The content step of a styled sequence: the first item to reach it is the
/// content; where that item is the string that is also the title, the title
/// is dropped.
pub open spec fn styled_content_step(f: StyledSequenceFields, i: usize, item: SequenceItem) -> StyledSequenceFields {
    if f.content is None {
        let title = match (item, f.title) {
            (SequenceItem::Text(s), Some(t)) if s@ == t@ => None,
            _ => f.title,
        };
        StyledSequenceFields { title, content: Some(i), ..f }
    } else {
        f
    }
}

/// One item of a styled sequence: the first boolean is `open`; the first
/// object that reads as a string map is the data (later ones are passed
/// over); a string is the title if none is yet, and goes on to the content
/// step; an array of style items, while no style is set, gives the style if
/// it reads (and is passed over if not); everything else goes to the content
/// step.
pub open spec fn styled_step(f: StyledSequenceFields, i: usize, item: SequenceItem) -> StyledSequenceFields {
    match item {
        SequenceItem::Flag(b) => if f.open is None {
            StyledSequenceFields { open: Some(b), ..f }
        } else {
            f
        },
        SequenceItem::Object { reads_as_style: _, reads_as_string_map: true } => if f.data is None {
            StyledSequenceFields { data: Some(i), ..f }
        } else {
            f
        },
        SequenceItem::Text(s) => {
            let titled = if f.title is None {
                StyledSequenceFields { title: Some(s), ..f }
            } else {
                f
            };
            styled_content_step(titled, i, item)
        },
        SequenceItem::Array { items, reads_as_style } if style_like(items@) && f.style is None => {
            StyledSequenceFields {
                style: if reads_as_style {
                    Some(i)
                } else {
                    None
                },
                ..f
            }
        },
        _ => styled_content_step(f, i, item),
    }
}

/// The fields that a styled sequence fills, item by item.
pub open spec fn styled_fields_of(items: Seq<SequenceItem>) -> StyledSequenceFields
    decreases items.len(),
{
    if items.len() == 0 {
        styled_empty()
    } else {
        styled_step(styled_fields_of(items.drop_last()), (items.len() - 1) as usize, items.last())
    }
}

fn styled_exec_content_step(f: StyledSequenceFields, i: usize, item: &SequenceItem) -> (r: StyledSequenceFields)
    ensures
        r == styled_content_step(f, i, *item),
{
    if f.content.is_none() {
        let same_as_title = match (item, &f.title) {
            (SequenceItem::Text(s), Some(t)) => *s == *t,
            _ => false,
        };
        let title = if same_as_title {
            None
        } else {
            f.title
        };
        StyledSequenceFields { open: f.open, data: f.data, style: f.style, title, content: Some(i) }
    } else {
        f
    }
}

fn styled_exec_step(f: StyledSequenceFields, i: usize, item: &SequenceItem) -> (r: StyledSequenceFields)
    ensures
        r == styled_step(f, i, *item),
{
    match item {
        SequenceItem::Flag(b) => {
            let open = if f.open.is_none() {
                Some(*b)
            } else {
                f.open
            };
            StyledSequenceFields { open, data: f.data, style: f.style, title: f.title, content: f.content }
        },
        SequenceItem::Object { reads_as_style: _, reads_as_string_map } => {
            if *reads_as_string_map {
                let data = if f.data.is_none() {
                    Some(i)
                } else {
                    f.data
                };
                StyledSequenceFields { open: f.open, data, style: f.style, title: f.title, content: f.content }
            } else {
                styled_exec_content_step(f, i, item)
            }
        },
        SequenceItem::Text(s) => {
            let title = if f.title.is_none() {
                Some(s.clone())
            } else {
                f.title
            };
            let g = StyledSequenceFields { open: f.open, data: f.data, style: f.style, title, content: f.content };
            styled_exec_content_step(g, i, item)
        },
        SequenceItem::Array { items, reads_as_style } => {
            if array_is_style_like(items) && f.style.is_none() {
                let style = if *reads_as_style {
                    Some(i)
                } else {
                    None
                };
                StyledSequenceFields { open: f.open, data: f.data, style, title: f.title, content: f.content }
            } else {
                styled_exec_content_step(f, i, item)
            }
        },
        _ => styled_exec_content_step(f, i, item),
    }
}

/// The fields that the items of a styled element's compact sequence fill.
pub fn styled_sequence_fields(items: &[SequenceItem]) -> (r: StyledSequenceFields)
    ensures
        r == styled_fields_of(items@),
{
    let mut f = StyledSequenceFields { open: None, data: None, style: None, title: None, content: None };
    let mut i: usize = 0;
    while i < items.len()
        invariant
            i <= items@.len(),
            f == styled_fields_of(items@.take(i as int)),
        decreases items.len() - i,
    {
        assert(items@.take(i + 1).drop_last() =~= items@.take(i as int));
        f = styled_exec_step(f, i, &items[i]);
        i += 1;
    }
    assert(items@.take(i as int) =~= items@);
    f
}

/************* Table cells *************/

/// The fields of a table cell that its compact sequence fills: the row and
/// column spans, and the positions of the items that give the style, the
/// data and the content.
#[derive(Clone, Debug)]
pub struct TableSequenceFields {
    pub row_span: Option<u16>,
    pub col_span: Option<u16>,
    pub style: Option<usize>,
    pub data: Option<usize>,
    pub content: Option<usize>,
}

/// One item of a table cell sequence: the first count is the row span and
/// the second the column span (both kept modulo 2^16; later counts are
/// passed over); an object that reads as a style is the style, else one that
/// reads as a string map is the data (a later such object replaces an
/// earlier); the first of the other items is the content.
pub open spec fn table_step(f: TableSequenceFields, i: usize, item: SequenceItem) -> TableSequenceFields {
    match item {
        SequenceItem::Count(n) => if f.row_span is None {
            TableSequenceFields { row_span: Some(n as u16), ..f }
        } else if f.col_span is None {
            TableSequenceFields { col_span: Some(n as u16), ..f }
        } else {
            f
        },
        SequenceItem::Object { reads_as_style, reads_as_string_map } if reads_as_style || reads_as_string_map => {
            if reads_as_style {
                TableSequenceFields { style: Some(i), ..f }
            } else {
                TableSequenceFields { data: Some(i), ..f }
            }
        },
        _ => if f.content is None {
            TableSequenceFields { content: Some(i), ..f }
        } else {
            f
        },
    }
}

/// The fields that a table cell sequence fills, item by item.
pub open spec fn table_fields_of(items: Seq<SequenceItem>) -> TableSequenceFields
    decreases items.len(),
{
    if items.len() == 0 {
        TableSequenceFields { row_span: None, col_span: None, style: None, data: None, content: None }
    } else {
        table_step(table_fields_of(items.drop_last()), (items.len() - 1) as usize, items.last())
    }
}

/// The fields that the items of a table cell's compact sequence fill.
pub fn table_sequence_fields(items: &[SequenceItem]) -> (r: TableSequenceFields)
    ensures
        r == table_fields_of(items@),
{
    let mut f = TableSequenceFields { row_span: None, col_span: None, style: None, data: None, content: None };
    let mut i: usize = 0;
    while i < items.len()
        invariant
            i <= items@.len(),
            f == table_fields_of(items@.take(i as int)),
        decreases items.len() - i,
    {
        assert(items@.take(i + 1).drop_last() =~= items@.take(i as int));
        match &items[i] {
            SequenceItem::Count(n) => {
                let span: u16 = #[verifier::truncate] (*n as u16);
                if f.row_span.is_none() {
                    f.row_span = Some(span);
                } else if f.col_span.is_none() {
                    f.col_span = Some(span);
                }
            },
            SequenceItem::Object { reads_as_style, reads_as_string_map } if *reads_as_style
                || *reads_as_string_map => {
                if *reads_as_style {
                    f.style = Some(i);
                } else {
                    f.data = Some(i);
                }
            },
            _ => {
                if f.content.is_none() {
                    f.content = Some(i);
                }
            },
        }
        i += 1;
    }
    assert(items@.take(i as int) =~= items@);
    f
}

/************* Unstyled elements *************/

/// The fields of an unstyled element that its compact sequence fills: the
/// positions of the items that give the data and the content.
#[derive(Clone, Debug)]
pub struct UnstyledSequenceFields {
    pub data: Option<usize>,
    pub content: Option<usize>,
}

/// One item of an unstyled sequence: the first object that reads as a
/// string map is the data (later ones are passed over); the first of the
/// other items is the content.
pub open spec fn unstyled_step(f: UnstyledSequenceFields, i: usize, item: SequenceItem) -> UnstyledSequenceFields {
    if item matches SequenceItem::Object { reads_as_string_map: true, .. } {
        if f.data is None {
            UnstyledSequenceFields { data: Some(i), ..f }
        } else {
            f
        }
    } else if f.content is None {
        UnstyledSequenceFields { content: Some(i), ..f }
    } else {
        f
    }
}

/// The fields that an unstyled sequence fills, item by item.
pub open spec fn unstyled_fields_of(items: Seq<SequenceItem>) -> UnstyledSequenceFields
    decreases items.len(),
{
    if items.len() == 0 {
        UnstyledSequenceFields { data: None, content: None }
    } else {
        unstyled_step(unstyled_fields_of(items.drop_last()), (items.len() - 1) as usize, items.last())
    }
}

/// The fields that the items of an unstyled element's compact sequence fill.
pub fn unstyled_sequence_fields(items: &[SequenceItem]) -> (r: UnstyledSequenceFields)
    ensures
        r == unstyled_fields_of(items@),
{
    let mut f = UnstyledSequenceFields { data: None, content: None };
    let mut i: usize = 0;
    while i < items.len()
        invariant
            i <= items@.len(),
            f == unstyled_fields_of(items@.take(i as int)),
        decreases items.len() - i,
    {
        assert(items@.take(i + 1).drop_last() =~= items@.take(i as int));
        let is_map = match &items[i] {
            SequenceItem::Object { reads_as_style: _, reads_as_string_map } => *reads_as_string_map,
            _ => false,
        };
        if is_map {
            if f.data.is_none() {
                f.data = Some(i);
            }
        } else if f.content.is_none() {
            f.content = Some(i);
        }
        i += 1;
    }
    assert(items@.take(i as int) =~= items@);
    f
}

/************* Links *************/

/// The fields of a link that its compact sequence fills: the `href`, and the
/// position of the item that gives the content.
#[derive(Clone, Debug)]
pub struct LinkSequenceFields {
    pub href: Option<String>,
    pub content: Option<usize>,
}

/// One item of a link sequence: the first string that looks like an `href`
/// (starting with `?` or `http`) is the `href` (later ones are passed over);
/// the first of the other items is the content.
pub open spec fn link_step(f: LinkSequenceFields, i: usize, item: SequenceItem) -> LinkSequenceFields {
    match item {
        SequenceItem::Text(s) if is_href_like(s@) => if f.href is None {
            LinkSequenceFields { href: Some(s), ..f }
        } else {
            f
        },
        _ => if f.content is None {
            LinkSequenceFields { content: Some(i), ..f }
        } else {
            f
        },
    }
}

/// The fields that a link sequence fills, item by item.
pub open spec fn link_fields_of(items: Seq<SequenceItem>) -> LinkSequenceFields
    decreases items.len(),
{
    if items.len() == 0 {
        LinkSequenceFields { href: None, content: None }
    } else {
        link_step(link_fields_of(items.drop_last()), (items.len() - 1) as usize, items.last())
    }
}

/// The fields that the items of a link's compact sequence fill.
pub fn link_sequence_fields(items: &[SequenceItem]) -> (r: LinkSequenceFields)
    ensures
        r == link_fields_of(items@),
{
    let mut f = LinkSequenceFields { href: None, content: None };
    let mut i: usize = 0;
    while i < items.len()
        invariant
            i <= items@.len(),
            f == link_fields_of(items@.take(i as int)),
        decreases items.len() - i,
    {
        assert(items@.take(i + 1).drop_last() =~= items@.take(i as int));
        let href = match &items[i] {
            SequenceItem::Text(s) => if looks_like_href(s.as_str()) {
                Some(s)
            } else {
                None
            },
            _ => None,
        };
        match href {
            Some(s) => {
                if f.href.is_none() {
                    f.href = Some(s.clone());
                }
            },
            None => {
                if f.content.is_none() {
                    f.content = Some(i);
                }
            },
        }
        i += 1;
    }
    assert(items@.take(i as int) =~= items@);
    f
}

/************* Any element, read as a map *************/

/// The fields of an element that a compact sequence fills where it is read
/// by turning it into a map: the positions of the items that give
/// `rowSpan`, `colSpan`, `data`, `content` and `style`.
#[derive(Clone, Debug)]
pub struct FlexibleSequenceFields {
    pub row_span: Option<usize>,
    pub col_span: Option<usize>,
    pub data: Option<usize>,
    pub content: Option<usize>,
    pub style: Option<usize>,
}

/// One item of a sequence read as a map: the first count is `rowSpan` and
/// the second `colSpan` (later counts are passed over); the first object is
/// `data`; of the other items (and later objects) the first is `content` and
/// the second `style`; the rest are passed over.
pub open spec fn flexible_step(f: FlexibleSequenceFields, i: usize, item: SequenceItem) -> FlexibleSequenceFields {
    if item is Count {
        if f.row_span is None {
            FlexibleSequenceFields { row_span: Some(i), ..f }
        } else if f.col_span is None {
            FlexibleSequenceFields { col_span: Some(i), ..f }
        } else {
            f
        }
    } else if item is Object && f.data is None {
        FlexibleSequenceFields { data: Some(i), ..f }
    } else if f.content is None {
        FlexibleSequenceFields { content: Some(i), ..f }
    } else if f.style is None {
        FlexibleSequenceFields { style: Some(i), ..f }
    } else {
        f
    }
}

/// The fields that a sequence read as a map fills, item by item.
pub open spec fn flexible_fields_of(items: Seq<SequenceItem>) -> FlexibleSequenceFields
    decreases items.len(),
{
    if items.len() == 0 {
        FlexibleSequenceFields { row_span: None, col_span: None, data: None, content: None, style: None }
    } else {
        flexible_step(flexible_fields_of(items.drop_last()), (items.len() - 1) as usize, items.last())
    }
}

/// The fields that the items of a compact sequence fill where it is read by
/// turning it into a map.
pub fn flexible_sequence_fields(items: &[SequenceItem]) -> (r: FlexibleSequenceFields)
    ensures
        r == flexible_fields_of(items@),
{
    let mut f = FlexibleSequenceFields { row_span: None, col_span: None, data: None, content: None, style: None };
    let mut i: usize = 0;
    while i < items.len()
        invariant
            i <= items@.len(),
            f == flexible_fields_of(items@.take(i as int)),
        decreases items.len() - i,
    {
        assert(items@.take(i + 1).drop_last() =~= items@.take(i as int));
        let is_count = match &items[i] {
            SequenceItem::Count(_) => true,
            _ => false,
        };
        let is_object = match &items[i] {
            SequenceItem::Object { .. } => true,
            _ => false,
        };
        if is_count {
            if f.row_span.is_none() {
                f.row_span = Some(i);
            } else if f.col_span.is_none() {
                f.col_span = Some(i);
            }
        } else if is_object && f.data.is_none() {
            f.data = Some(i);
        } else if f.content.is_none() {
            f.content = Some(i);
        } else if f.style.is_none() {
            f.style = Some(i);
        }
        i += 1;
    }
    assert(items@.take(i as int) =~= items@);
    f
}

/************* What the choices come to *************/

/// The booleans of a sequence, in order.
pub open spec fn flags_of(items: Seq<SequenceItem>) -> Seq<bool>
    decreases items.len(),
{
    if items.len() == 0 {
        Seq::empty()
    } else {
        flags_of(items.drop_last()) + match items.last() {
            SequenceItem::Flag(b) => seq![b],
            _ => Seq::empty(),
        }
    }
}

/// The counts of a sequence, in order.
pub open spec fn counts_of(items: Seq<SequenceItem>) -> Seq<u64>
    decreases items.len(),
{
    if items.len() == 0 {
        Seq::empty()
    } else {
        counts_of(items.drop_last()) + match items.last() {
            SequenceItem::Count(n) => seq![n],
            _ => Seq::empty(),
        }
    }
}

/// The strings of a sequence that look like an `href`, in order.
pub open spec fn hrefs_of(items: Seq<SequenceItem>) -> Seq<String>
    decreases items.len(),
{
    if items.len() == 0 {
        Seq::empty()
    } else {
        hrefs_of(items.drop_last()) + match items.last() {
            SequenceItem::Text(s) => if is_href_like(s@) {
                seq![s]
            } else {
                Seq::empty()
            },
            _ => Seq::empty(),
        }
    }
}

/// A styled element's `open` is the first boolean of its sequence.
pub proof fn lemma_styled_open_is_first_flag(items: Seq<SequenceItem>)
    ensures
        styled_fields_of(items).open == if flags_of(items).len() > 0 {
            Some(flags_of(items)[0])
        } else {
            None
        },
    decreases items.len(),
{
    if items.len() > 0 {
        lemma_styled_open_is_first_flag(items.drop_last());
    }
}

/// A table cell's row span is the first count of its sequence and its column
/// span the second, each modulo 2^16.
pub proof fn lemma_table_spans_are_first_counts(items: Seq<SequenceItem>)
    ensures
        table_fields_of(items).row_span == if counts_of(items).len() > 0 {
            Some(counts_of(items)[0] as u16)
        } else {
            None
        },
        table_fields_of(items).col_span == if counts_of(items).len() > 1 {
            Some(counts_of(items)[1] as u16)
        } else {
            None
        },
    decreases items.len(),
{
    if items.len() > 0 {
        lemma_table_spans_are_first_counts(items.drop_last());
    }
}

/// A link's `href` is the first string of its sequence that looks like one.
pub proof fn lemma_link_href_is_first_href(items: Seq<SequenceItem>)
    ensures
        link_fields_of(items).href == if hrefs_of(items).len() > 0 {
            Some(hrefs_of(items)[0])
        } else {
            None
        },
    decreases items.len(),
{
    if items.len() > 0 {
        lemma_link_href_is_first_href(items.drop_last());
    }
}

/// The positions that a styled sequence gives lie within it, at items of the
/// shape that the field takes: the data at an object that reads as a string
/// map, the style at a readable array of style items, the content at an item
/// that is neither a boolean nor such an object.
pub proof fn lemma_styled_positions_fit(items: Seq<SequenceItem>)
    requires
        items.len() <= usize::MAX,
    ensures
        styled_fields_of(items).data matches Some(k) ==> k < items.len() && (
        items[k as int] matches SequenceItem::Object { reads_as_string_map: true, .. }),
        styled_fields_of(items).style matches Some(k) ==> k < items.len() && (
        items[k as int] matches SequenceItem::Array { items: a, reads_as_style: true } && style_like(a@)),
        styled_fields_of(items).content matches Some(k) ==> k < items.len() && !(items[k as int] is Flag)
            && !(items[k as int] matches SequenceItem::Object { reads_as_string_map: true, .. }),
    decreases items.len(),
{
    if items.len() > 0 {
        let prefix = items.drop_last();
        let last = (items.len() - 1) as usize;
        lemma_styled_positions_fit(prefix);
        let f = styled_fields_of(prefix);
        assert(styled_fields_of(items) == styled_step(f, last, items.last()));
        if let Some(k) = f.data {
            assert(items[k as int] == prefix[k as int]);
        }
        if let Some(k) = f.style {
            assert(items[k as int] == prefix[k as int]);
        }
        if let Some(k) = f.content {
            assert(items[k as int] == prefix[k as int]);
        }
        assert(items[last as int] == items.last());
    }
}

} // verus!
