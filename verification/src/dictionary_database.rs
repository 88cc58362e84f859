//! The data structures of the database format, and the conversion of
//! dictionary file entries into database rows.

use vstd::prelude::*;
use indexmap::IndexMap;
use crate::dictionary_data::{
    MetaDataMatchType, TermMeta, TermMetaFreqDataMatchType, TermMetaModeType, TermMetaPitchData,
};
use crate::dictionary_importer::DictionarySummary;
use crate::structured_content::TermGlossaryGroupType;
use crate::text::{split_words, string_views, words};

verus! {

/// Media data with array buffer content.
pub type MediaDataArrayBufferContent = MediaDataBase<Vec<u8>>;

/// Media data with string content.
pub type MediaDataStringContent = MediaDataBase<String>;

/// Base struct for media data.
#[derive(Clone, Debug, PartialEq)]
pub struct MediaDataBase<TContentType> {
    pub dictionary: String,
    pub path: String,
    pub media_type: String,
    pub width: u16,
    pub height: u16,
    pub content: TContentType,
}

/// The type of media.
#[derive(Clone, Debug, PartialEq)]
pub enum MediaType {
    /// Media as an array buffer.
    ArrayBuffer(Vec<u8>),
    /// Media as a string.
    String(String),
}

/// A media entry.
#[derive(Clone, Debug, PartialEq)]
pub struct Media<T = MediaType> {
    pub index: usize,
    pub data: T,
}

/// A term entry in the database.
#[derive(Clone, Debug, PartialEq, Default)]
pub struct DatabaseTermEntry {
    /// The unique ID of the term.
    pub id: String,
    /// The term expression.
    pub expression: String,
    /// The term reading.
    pub reading: String,
    /// The reverse of the term expression.
    pub expression_reverse: String,
    /// The reverse of the term reading.
    pub reading_reverse: String,
    /// The definition tags.
    pub definition_tags: Option<String>,
    /// Legacy alias for the `definitionTags` field.
    pub tags: Option<String>,
    /// The rules for the term.
    pub rules: String,
    /// The score of the term.
    pub score: i128,
    /// The glossary of the term.
    pub glossary: Vec<TermGlossaryGroupType>,
    /// The sequence number of the term.
    pub sequence: Option<i128>,
    /// The term tags.
    pub term_tags: Option<String>,
    /// The dictionary the term belongs to.
    pub dictionary: String,
    /// The path to the file containing the term.
    pub file_path: String,
}

/// The tuple form of a [`DatabaseTermEntry`], fields in declaration order.
#[derive(Debug)]
pub struct DatabaseTermEntryTuple(
    pub String,
    pub String,
    pub String,
    pub String,
    pub String,
    pub Option<String>,
    pub Option<String>,
    pub String,
    pub i128,
    pub Vec<TermGlossaryGroupType>,
    pub Option<i128>,
    pub Option<String>,
    pub String,
    pub String,
);

/// The entry whose fields are those of the tuple, in order.
pub open spec fn entry_of_tuple(t: DatabaseTermEntryTuple) -> DatabaseTermEntry {
    DatabaseTermEntry {
        id: t.0,
        expression: t.1,
        reading: t.2,
        expression_reverse: t.3,
        reading_reverse: t.4,
        definition_tags: t.5,
        tags: t.6,
        rules: t.7,
        score: t.8,
        glossary: t.9,
        sequence: t.10,
        term_tags: t.11,
        dictionary: t.12,
        file_path: t.13,
    }
}

/// The tuple whose fields are those of the entry, in order.
pub open spec fn tuple_of_entry(s: DatabaseTermEntry) -> DatabaseTermEntryTuple {
    DatabaseTermEntryTuple(
        s.id,
        s.expression,
        s.reading,
        s.expression_reverse,
        s.reading_reverse,
        s.definition_tags,
        s.tags,
        s.rules,
        s.score,
        s.glossary,
        s.sequence,
        s.term_tags,
        s.dictionary,
        s.file_path,
    )
}

impl From<DatabaseTermEntryTuple> for DatabaseTermEntry {
    fn from(tuple: DatabaseTermEntryTuple) -> (r: Self)
        ensures
            r == entry_of_tuple(tuple),
    {
        Self {
            id: tuple.0,
            expression: tuple.1,
            reading: tuple.2,
            expression_reverse: tuple.3,
            reading_reverse: tuple.4,
            definition_tags: tuple.5,
            tags: tuple.6,
            rules: tuple.7,
            score: tuple.8,
            glossary: tuple.9,
            sequence: tuple.10,
            term_tags: tuple.11,
            dictionary: tuple.12,
            file_path: tuple.13,
        }
    }
}

impl vstd::std_specs::convert::FromSpecImpl<DatabaseTermEntryTuple> for DatabaseTermEntry {
    open spec fn obeys_from_spec() -> bool {
        true
    }

    open spec fn from_spec(v: DatabaseTermEntryTuple) -> Self {
        entry_of_tuple(v)
    }
}

impl From<DatabaseTermEntry> for DatabaseTermEntryTuple {
    fn from(s: DatabaseTermEntry) -> (r: Self)
        ensures
            r == tuple_of_entry(s),
    {
        Self(
            s.id,
            s.expression,
            s.reading,
            s.expression_reverse,
            s.reading_reverse,
            s.definition_tags,
            s.tags,
            s.rules,
            s.score,
            s.glossary,
            s.sequence,
            s.term_tags,
            s.dictionary,
            s.file_path,
        )
    }
}

impl vstd::std_specs::convert::FromSpecImpl<DatabaseTermEntry> for DatabaseTermEntryTuple {
    open spec fn obeys_from_spec() -> bool {
        true
    }

    open spec fn from_spec(v: DatabaseTermEntry) -> Self {
        tuple_of_entry(v)
    }
}

/// Converting an entry to its tuple and back gives the entry again, and
/// converting a tuple to an entry and back gives the tuple again.
pub proof fn lemma_entry_tuple_round_trip(e: DatabaseTermEntry, t: DatabaseTermEntryTuple)
    ensures
        entry_of_tuple(tuple_of_entry(e)) == e,
        tuple_of_entry(entry_of_tuple(t)) == t,
{
}

/// The fields of a term tuple are the fields of its entry in the order they
/// are declared: id, expression, reading, their reversals, definition tags,
/// legacy tags, rules, score, glossary, sequence, term tags, dictionary and
/// file path; and the other way round.
pub proof fn lemma_tuple_positions(t: DatabaseTermEntryTuple, e: DatabaseTermEntry)
    ensures
        ({
            let x = entry_of_tuple(t);
            &&& x.id == t.0
            &&& x.expression == t.1
            &&& x.reading == t.2
            &&& x.expression_reverse == t.3
            &&& x.reading_reverse == t.4
            &&& x.definition_tags == t.5
            &&& x.tags == t.6
            &&& x.rules == t.7
            &&& x.score == t.8
            &&& x.glossary == t.9
            &&& x.sequence == t.10
            &&& x.term_tags == t.11
            &&& x.dictionary == t.12
            &&& x.file_path == t.13
        }),
        ({
            let y = tuple_of_entry(e);
            &&& y.0 == e.id
            &&& y.1 == e.expression
            &&& y.2 == e.reading
            &&& y.3 == e.expression_reverse
            &&& y.4 == e.reading_reverse
            &&& y.5 == e.definition_tags
            &&& y.6 == e.tags
            &&& y.7 == e.rules
            &&& y.8 == e.score
            &&& y.9 == e.glossary
            &&& y.10 == e.sequence
            &&& y.11 == e.term_tags
            &&& y.12 == e.dictionary
            &&& y.13 == e.file_path
        }),
{
}

/// What database field was used to match the source term.
#[derive(Clone, Copy, Debug, PartialEq, Eq, Hash)]
pub enum TermSourceMatchSource {
    /// Matched by the term field.
    Term,
    /// Matched by the reading field.
    Reading,
    /// Matched by the sequence field.
    Sequence,
}

/// How the search term relates to the final term.
#[derive(Clone, Copy, Debug, PartialEq, Eq, Hash, PartialOrd, Ord)]
pub enum TermSourceMatchType {
    /// An exact match.
    Exact,
    /// The search term is a prefix of the final term.
    Prefix,
    /// The search term is a suffix of the final term.
    Suffix,
}

/// A term entry.
#[derive(Clone, Debug, PartialEq)]
pub struct TermEntry {
    /// The unique ID of the term.
    pub id: String,
    /// The index of the term.
    pub index: usize,
    /// The match type.
    pub match_type: TermSourceMatchType,
    /// The match source.
    pub match_source: TermSourceMatchSource,
    /// The term expression.
    pub term: String,
    /// The term reading.
    pub reading: String,
    /// The definition tags.
    pub definition_tags: Vec<String>,
    /// The term tags.
    pub term_tags: Vec<String>,
    /// The rules for the term.
    pub rules: Vec<String>,
    /// The definitions of the term.
    pub definitions: Vec<TermGlossaryGroupType>,
    /// The score of the term.
    pub score: i128,
    /// The dictionary the term belongs to.
    pub dictionary: String,
    /// The sequence number of the term (`-1` where there is none).
    pub sequence: i128,
}

/// The words of an optional space-separated field; none if it is absent.
pub open spec fn optional_words(field: Option<String>) -> Seq<Seq<char>> {
    match field {
        Some(s) => words(s@),
        None => Seq::empty(),
    }
}

impl DatabaseTermEntry {
    /// The term entry for this row, found at position `index` by `match_source`
    /// with `match_type`: tag and rule fields are split into words (the
    /// definition tags taken from the legacy `tags` field where
    /// `definition_tags` is absent), a missing sequence becomes `-1`.
    pub fn into_term_entry_specific(
        self,
        match_source: TermSourceMatchSource,
        match_type: TermSourceMatchType,
        index: usize,
    ) -> (r: TermEntry)
        ensures
            r.id == self.id,
            r.index == index,
            r.match_type == match_type,
            r.match_source == match_source,
            r.term == self.expression,
            r.reading == self.reading,
            string_views(r.definition_tags@) == optional_words(
                if self.definition_tags is Some {
                    self.definition_tags
                } else {
                    self.tags
                },
            ),
            string_views(r.term_tags@) == optional_words(self.term_tags),
            string_views(r.rules@) == words(self.rules@),
            r.definitions == self.glossary,
            r.score == self.score,
            r.dictionary == self.dictionary,
            r.sequence == match self.sequence {
                Some(s) => s,
                None => -1i128,
            },
    {
        let DatabaseTermEntry {
            id,
            expression,
            reading,
            expression_reverse: _expression_reverse,
            reading_reverse: _reading_reverse,
            definition_tags,
            tags,
            rules,
            score,
            glossary,
            sequence,
            term_tags,
            dictionary,
            file_path: _file_path,
        } = self;
        TermEntry {
            id,
            index,
            match_type,
            match_source,
            term: expression,
            reading,
            definition_tags: split_optional_string_field(
                match definition_tags {
                    Some(d) => Some(d),
                    None => tags,
                },
            ),
            term_tags: split_optional_string_field(term_tags),
            rules: split_optional_string_field(Some(rules)),
            definitions: glossary,
            score,
            dictionary,
            sequence: match sequence {
                Some(s) => s,
                None => -1,
            },
        }
    }
}

/// A tag in the database.
#[derive(Clone, Debug, PartialEq, Eq, PartialOrd, Ord, Hash)]
pub struct DatabaseTag {
    /// The unique ID of the tag.
    pub id: String,
    /// The name of the tag.
    pub name: String,
    /// The category of the tag.
    pub category: String,
    /// The order of the tag.
    pub order: u64,
    /// The notes of the tag.
    pub notes: String,
    /// The score of the tag.
    pub score: i128,
    /// The dictionary the tag belongs to.
    pub dictionary: String,
}

/// Metadata rows that carry a mode and an expression.
pub trait DBMetaType {
    /// The mode of the metadata.
    fn mode(&self) -> &TermMetaModeType;

    /// The expression the metadata is about.
    fn expression(&self) -> &str;
}

/// A term metadata row of one of the three kinds.
#[derive(Clone, Debug, PartialEq)]
pub enum DatabaseMetaMatchType {
    /// Frequency metadata.
    Frequency(DatabaseMetaFrequency),
    /// Pitch accent metadata.
    Pitch(DatabaseMetaPitch),
    /// Phonetic transcription metadata.
    Phonetic(DatabaseMetaPhonetic),
}


/// Whether `c` is a lowercase hexadecimal digit.
pub open spec fn is_lower_hex_digit(c: char) -> bool {
    (48 <= (c as u32) <= 57) || (97 <= (c as u32) <= 102)
}

/// Whether `s` is a version 7 UUID written in the hyphenated form: 36
/// characters, hyphens at positions 8, 13, 18 and 23, the version digit `7` at
/// position 14, lowercase hexadecimal digits elsewhere.
pub open spec fn is_hyphenated_uuid_v7(s: Seq<char>) -> bool {
    &&& s.len() == 36
    &&& s[14] == '7'
    &&& forall|i: int|
        0 <= i < 36 ==> if i == 8 || i == 13 || i == 18 || i == 23 {
            #[trigger] s[i] == '-'
        } else {
            is_lower_hex_digit(s[i])
        }
}

/// A fresh row id: `uuid::Uuid::now_v7`, written with `to_string`. The
/// identifier depends on the time and on chance; the contract claims only the
/// written form that every version 7 UUID has.
#[verifier::external_body]
pub(crate) fn new_entry_id() -> (r: String)
    ensures
        is_hyphenated_uuid_v7(r@),
{
    uuid::Uuid::now_v7().to_string()
}

/// The database row for a term metadata entry of dictionary `dict_name`: the
/// variant follows the kind of data, the mode is set from it, the expression
/// and data are kept, and the id is a fresh UUID.
pub open spec fn database_meta_of(entry: TermMeta, row: DatabaseMetaMatchType, dict_name: Seq<char>) -> bool {
    match entry.data {
        MetaDataMatchType::Frequency(d) => row matches DatabaseMetaMatchType::Frequency(f) && f.freq_expression
            == entry.expression && f.mode == TermMetaModeType::Freq && f.data == d
            && f.dictionary@ == dict_name && is_hyphenated_uuid_v7(f.id@),
        MetaDataMatchType::Pitch(d) => row matches DatabaseMetaMatchType::Pitch(p) && p.pitch_expression
            == entry.expression && p.mode == TermMetaModeType::Pitch && p.data == d
            && p.dictionary@ == dict_name && is_hyphenated_uuid_v7(p.id@),
        MetaDataMatchType::Phonetic(d) => row matches DatabaseMetaMatchType::Phonetic(p)
            && p.phonetic_expression == entry.expression && p.mode == TermMetaModeType::Ipa && p.data
            == d && p.dictionary@ == dict_name && is_hyphenated_uuid_v7(p.id@),
    }
}

/// The mode that a database metadata row carries.
pub open spec fn row_mode(row: DatabaseMetaMatchType) -> TermMetaModeType {
    match row {
        DatabaseMetaMatchType::Frequency(f) => f.mode,
        DatabaseMetaMatchType::Pitch(p) => p.mode,
        DatabaseMetaMatchType::Phonetic(p) => p.mode,
    }
}

/// A converted row's mode agrees with its kind: frequency rows have mode
/// `Freq`, pitch rows `Pitch`, phonetic rows `Ipa`, whatever mode the file gave.
pub proof fn lemma_database_meta_mode_matches_kind(
    entry: TermMeta,
    row: DatabaseMetaMatchType,
    dict_name: Seq<char>,
)
    requires
        database_meta_of(entry, row, dict_name),
    ensures
        row_mode(row) == match row {
            DatabaseMetaMatchType::Frequency(_) => TermMetaModeType::Freq,
            DatabaseMetaMatchType::Pitch(_) => TermMetaModeType::Pitch,
            DatabaseMetaMatchType::Phonetic(_) => TermMetaModeType::Ipa,
        },
{
}

/// The expression that a metadata row is about, whatever its kind (what
/// [`DBMetaType::expression`] gives).
pub open spec fn row_expression(row: DatabaseMetaMatchType) -> String {
    match row {
        DatabaseMetaMatchType::Frequency(f) => f.freq_expression,
        DatabaseMetaMatchType::Pitch(p) => p.pitch_expression,
        DatabaseMetaMatchType::Phonetic(p) => p.phonetic_expression,
    }
}

/// The data that a metadata row carries, as entry data of the same kind.
pub open spec fn row_data(row: DatabaseMetaMatchType) -> MetaDataMatchType {
    match row {
        DatabaseMetaMatchType::Frequency(f) => MetaDataMatchType::Frequency(f.data),
        DatabaseMetaMatchType::Pitch(p) => MetaDataMatchType::Pitch(p.data),
        DatabaseMetaMatchType::Phonetic(p) => MetaDataMatchType::Phonetic(p.data),
    }
}

/// The dictionary that a metadata row belongs to.
pub open spec fn row_dictionary(row: DatabaseMetaMatchType) -> String {
    match row {
        DatabaseMetaMatchType::Frequency(f) => f.dictionary,
        DatabaseMetaMatchType::Pitch(p) => p.dictionary,
        DatabaseMetaMatchType::Phonetic(p) => p.dictionary,
    }
}

/// A metadata row keeps the entry it was made from: its expression is the
/// entry's expression and its data the entry's data, whatever their kind, and
/// it belongs to the dictionary it was made for.
pub proof fn lemma_database_meta_keeps_entry(entry: TermMeta, row: DatabaseMetaMatchType, dict_name: Seq<char>)
    requires
        database_meta_of(entry, row, dict_name),
    ensures
        row_expression(row) == entry.expression,
        row_data(row) == entry.data,
        row_dictionary(row)@ == dict_name,
{
}

/// A kanji metadata row as read, given a fresh id and the dictionary name.
pub open spec fn kanji_meta_prepared(before: DatabaseMetaFrequency, after: DatabaseMetaFrequency, dict_name: Seq<char>) -> bool {
    &&& after.freq_expression == before.freq_expression
    &&& after.mode == before.mode
    &&& after.data == before.data
    &&& after.dictionary@ == dict_name
    &&& is_hyphenated_uuid_v7(after.id@)
}

impl DatabaseMetaMatchType {
    /// The rows for the entries of a `term_meta_bank_$i.json` file of
    /// dictionary `dict_name`, in order.
    pub fn from_term_metas(entries: Vec<TermMeta>, dict_name: &str) -> (r: Vec<DatabaseMetaMatchType>)
        ensures
            r@.len() == entries@.len(),
            forall|i: int|
                0 <= i < entries@.len() ==> database_meta_of(entries@[i], #[trigger] r@[i], dict_name@),
    {
        let ghost input = entries@;
        let mut out: Vec<DatabaseMetaMatchType> = Vec::new();
        for entry in it: entries.into_iter()
            invariant
                it.seq() == input,
                out@.len() == it.index(),
                forall|i: int|
                    0 <= i < it.index() ==> database_meta_of(input[i], #[trigger] out@[i], dict_name@),
        {
            let id = new_entry_id();
            let TermMeta { expression, mode: _, data } = entry;
            let row = match data {
                MetaDataMatchType::Frequency(data) => DatabaseMetaMatchType::Frequency(
                    DatabaseMetaFrequency {
                        id,
                        freq_expression: expression,
                        mode: TermMetaModeType::Freq,
                        data,
                        dictionary: dict_name.to_owned(),
                    },
                ),
                MetaDataMatchType::Pitch(data) => DatabaseMetaMatchType::Pitch(
                    DatabaseMetaPitch {
                        id,
                        pitch_expression: expression,
                        mode: TermMetaModeType::Pitch,
                        data,
                        dictionary: dict_name.to_owned(),
                    },
                ),
                MetaDataMatchType::Phonetic(data) => DatabaseMetaMatchType::Phonetic(
                    DatabaseMetaPhonetic {
                        id,
                        phonetic_expression: expression,
                        mode: TermMetaModeType::Ipa,
                        data,
                        dictionary: dict_name.to_owned(),
                    },
                ),
            };
            out.push(row);
        }
        out
    }

    /// The rows of a `kanji_meta_bank_$i.json` file of dictionary `dict_name`:
    /// each entry as read, with a fresh id and the dictionary name.
    pub fn prepare_kanji_metas(entries: Vec<DatabaseMetaFrequency>, dict_name: &str) -> (r: Vec<DatabaseMetaFrequency>)
        ensures
            r@.len() == entries@.len(),
            forall|i: int|
                0 <= i < entries@.len() ==> kanji_meta_prepared(entries@[i], #[trigger] r@[i], dict_name@),
    {
        let ghost input = entries@;
        let mut out: Vec<DatabaseMetaFrequency> = Vec::new();
        for entry in it: entries.into_iter()
            invariant
                it.seq() == input,
                out@.len() == it.index(),
                forall|i: int|
                    0 <= i < it.index() ==> kanji_meta_prepared(input[i], #[trigger] out@[i], dict_name@),
        {
            let mut entry = entry;
            entry.id = new_entry_id();
            entry.dictionary = dict_name.to_owned();
            out.push(entry);
        }
        out
    }
}

/// Used to store the frequency metadata of a term in the db.
#[derive(Clone, Debug, PartialEq)]
pub struct DatabaseMetaFrequency {
    /// The unique ID of the metadata.
    pub id: String,
    /// The expression of the term.
    pub freq_expression: String,
    /// Is [`TermMetaModeType::Freq`].
    pub mode: TermMetaModeType,
    /// The frequency data.
    pub data: TermMetaFreqDataMatchType,
    /// The dictionary the metadata belongs to.
    pub dictionary: String,
}

impl DBMetaType for DatabaseMetaFrequency {
    fn mode(&self) -> (r: &TermMetaModeType)
        ensures
            *r == self.mode,
    {
        &self.mode
    }

    fn expression(&self) -> (r: &str)
        ensures
            r@ == self.freq_expression@,
    {
        self.freq_expression.as_str()
    }
}

/// Used to store the pitch metadata of a term in the db.
#[derive(Clone, Debug, PartialEq)]
pub struct DatabaseMetaPitch {
    /// The unique ID of the metadata.
    pub id: String,
    /// The expression of the term.
    pub pitch_expression: String,
    /// Is [`TermMetaModeType::Pitch`].
    pub mode: TermMetaModeType,
    /// The pitch data.
    pub data: TermMetaPitchData,
    /// The dictionary the metadata belongs to.
    pub dictionary: String,
}

impl DBMetaType for DatabaseMetaPitch {
    fn mode(&self) -> (r: &TermMetaModeType)
        ensures
            *r == self.mode,
    {
        &self.mode
    }

    fn expression(&self) -> (r: &str)
        ensures
            r@ == self.pitch_expression@,
    {
        self.pitch_expression.as_str()
    }
}

/// A tag: brief information about part of a dictionary entry.
#[derive(Clone, Debug, PartialEq, Eq, Hash, PartialOrd, Ord)]
pub struct DictionaryTag {
    /// The name of the tag.
    pub name: String,
    /// The category of the tag.
    pub category: String,
    /// The sorting order of the tag.
    pub order: usize,
    /// A score value for the tag.
    pub score: usize,
    /// Descriptions of the tag, duplicates removed.
    pub content: Vec<String>,
    /// The dictionaries that had a tag with this name and category.
    pub dictionaries: Vec<String>,
    /// Whether this tag is redundant with previous tags.
    pub redundant: bool,
}

/// The category given to a tag that has none: `default`.
pub open spec fn default_category() -> Seq<char> {
    seq!['d', 'e', 'f', 'a', 'u', 'l', 't']
}

impl DictionaryTag {
    /// A tag of category `default`, order and score `0`, no content, from the
    /// one dictionary `dictionary`, not redundant.
    pub fn new_default(name: String, dictionary: String) -> (r: Self)
        ensures
            r.name == name,
            r.category@ == default_category(),
            r.order == 0,
            r.score == 0,
            r.content@.len() == 0,
            r.dictionaries@ == seq![dictionary],
            !r.redundant,
    {
        let category = "default".to_owned();
        proof {
            reveal_strlit("default");
        }
        let mut dictionaries: Vec<String> = Vec::new();
        dictionaries.push(dictionary);
        assert(dictionaries@ =~= seq![dictionary]);
        Self {
            name,
            category,
            order: 0,
            score: 0,
            content: Vec::new(),
            dictionaries,
            redundant: false,
        }
    }
}

/// Pitch accent information for a term: the position of the downstep.
#[derive(Clone, Debug, PartialEq, Eq, Hash, PartialOrd, Ord)]
pub struct PitchAccent {
    /// `"pitch-accent"` in the file.
    pub term: TermPronunciationMatchType,
    /// Position of the downstep, as a number of morae.
    pub position: u8,
    /// Positions of morae with a nasal sound.
    pub nasal_positions: Vec<u8>,
    /// Positions of morae with a devoiced sound.
    pub devoice_positions: Vec<u8>,
    /// Tags for the pitch accent.
    pub tags: Vec<DictionaryTag>,
}

/// Used to store the phonetic metadata of a term in the db.
#[derive(Clone, Debug, PartialEq)]
pub struct DatabaseMetaPhonetic {
    /// The unique ID of the metadata.
    pub id: String,
    /// The expression of the term.
    pub phonetic_expression: String,
    /// Is [`TermMetaModeType::Ipa`].
    pub mode: TermMetaModeType,
    /// The phonetic data.
    pub data: TermMetaPhoneticData,
    /// The dictionary the metadata belongs to.
    pub dictionary: String,
}

impl DBMetaType for DatabaseMetaPhonetic {
    fn mode(&self) -> (r: &TermMetaModeType)
        ensures
            *r == self.mode,
    {
        &self.mode
    }

    fn expression(&self) -> (r: &str)
        ensures
            r@ == self.phonetic_expression@,
    {
        self.phonetic_expression.as_str()
    }
}

/// The phonetic data of a term.
#[derive(Clone, Debug, PartialEq)]
pub struct TermMetaPhoneticData {
    /// The reading of the term.
    pub reading: String,
    /// The IPA transcriptions for the term and reading.
    pub transcriptions: Vec<PhoneticTranscription>,
}

/// A phonetic transcription of a term.
#[derive(Clone, Debug, PartialEq, Eq, Hash, PartialOrd, Ord)]
pub struct PhoneticTranscription {
    /// `"phonetic-transcription"` in the file.
    pub match_type: TermPronunciationMatchType,
    /// IPA transcription for the term.
    pub ipa: String,
    /// Tags for this transcription.
    pub tags: Vec<DictionaryTag>,
}

/// The type of pronunciation.
#[derive(Clone, Copy, Debug, PartialEq, Eq, Hash, PartialOrd, Ord)]
pub enum TermPronunciationMatchType {
    /// Pitch accent.
    PitchAccent,
    /// Phonetic transcription.
    PhoneticTranscription,
}

/// The pronunciation of a term.
#[derive(Clone, Debug, PartialEq, Eq, Hash, PartialOrd, Ord)]
pub enum Pronunciation {
    /// Pitch accent.
    PitchAccent(PitchAccent),
    /// Phonetic transcription.
    PhoneticTranscription(PhoneticTranscription),
}

/// Kanji metadata: frequency data only.
#[derive(Clone, Debug, PartialEq)]
pub struct DatabaseKanjiMeta {
    /// The kanji character.
    pub character: String,
    /// Is [`TermMetaModeType::Freq`].
    pub mode: TermMetaModeType,
    /// The frequency data.
    pub data: TermMetaFreqDataMatchType,
    /// The dictionary the kanji belongs to.
    pub dictionary: String,
}

/// A kanji entry in the database (a `kanji_bank_$i.json` entry).
#[derive(Clone, Debug, PartialEq, Eq)]
pub struct DatabaseKanjiEntry {
    /// The kanji character.
    pub character: String,
    /// The on'yomi readings (an empty string in the file stands for none).
    pub onyomi: Option<String>,
    /// The kun'yomi readings (an empty string in the file stands for none).
    pub kunyomi: Option<String>,
    /// The tags (an empty string in the file stands for none).
    pub tags: Option<String>,
    /// The meanings of the kanji.
    pub meanings: Vec<String>,
    /// The stats of the kanji.
    pub stats: Option<IndexMap<String, String>>,
    /// The dictionary name; added after reading the file.
    pub dictionary: Option<String>,
}

/// A kanji entry.
#[derive(Clone, Debug, PartialEq, Eq)]
pub struct KanjiEntry {
    /// The index of the kanji.
    pub index: usize,
    /// The kanji character.
    pub character: String,
    /// The on'yomi readings.
    pub onyomi: Vec<String>,
    /// The kun'yomi readings.
    pub kunyomi: Vec<String>,
    /// The tags of the kanji.
    pub tags: Vec<String>,
    /// The definitions of the kanji.
    pub definitions: Vec<String>,
    /// The stats of the kanji.
    pub stats: IndexMap<String, String>,
    /// The dictionary the kanji belongs to.
    pub dictionary: String,
}

/// A group of dictionary counts.
pub type DictionaryCountGroup = IndexMap<String, u16>;

/// The counts of a dictionary.
#[derive(Clone, Debug, PartialEq)]
pub struct DictionaryCounts {
    pub total: Option<DictionaryCountGroup>,
    pub counts: Vec<DictionaryCountGroup>,
}

/// The progress data for deleting a dictionary.
#[derive(Clone, Debug, PartialEq)]
pub struct DeleteDictionaryProgressData {
    pub count: u64,
    pub processed: u64,
    pub store_count: u16,
    pub stores_processed: u64,
}

/// The type of query request.
#[derive(Clone, Debug, PartialEq, Eq, PartialOrd, Ord, Hash)]
pub enum QueryRequestMatchType {
    /// An exact term query request.
    TermExactQueryRequest(TermExactQueryRequest),
    /// A generic query request.
    GenericQueryRequest(GenericQueryRequest),
}

/// An exact term query request.
#[derive(Clone, Debug, PartialEq, Eq, PartialOrd, Ord, Hash)]
pub struct TermExactQueryRequest {
    /// The term to query.
    pub term: String,
    /// The reading of the term.
    pub reading: String,
}

/// The type of query.
#[derive(Debug, PartialEq, Eq, PartialOrd, Ord, Hash)]
pub enum QueryType {
    /// A string query.
    String(String),
    /// A sequence query.
    Sequence(i128),
}

impl Clone for QueryType {
    fn clone(&self) -> (r: Self)
        ensures
            r == *self,
    {
        match self {
            QueryType::String(s) => QueryType::String(s.clone()),
            QueryType::Sequence(n) => QueryType::Sequence(*n),
        }
    }
}

/// A query for one dictionary.
#[derive(Clone, Debug, PartialEq, Eq, PartialOrd, Ord, Hash)]
pub struct GenericQueryRequest {
    pub query_type: QueryType,
    pub dictionary: String,
}

impl GenericQueryRequest {
    /// The query `query_type` for the dictionary `dictionary`.
    pub fn new(query_type: QueryType, dictionary: &str) -> (r: Self)
        ensures
            r.query_type == query_type,
            r.dictionary@ == dictionary@,
    {
        Self { query_type, dictionary: dictionary.to_owned() }
    }

    /// One query for `dictionary` per element of `queries`, in order.
    pub fn from_query_type_slice_to_vec(queries: &[QueryType], dictionary: &str) -> (r: Vec<Self>)
        ensures
            r@.len() == queries@.len(),
            forall|i: int|
                0 <= i < queries@.len() ==> (#[trigger] r@[i]).query_type == queries@[i]
                    && r@[i].dictionary@ == dictionary@,
    {
        let mut out: Vec<Self> = Vec::new();
        let mut i: usize = 0;
        while i < queries.len()
            invariant
                i <= queries@.len(),
                out@.len() == i,
                forall|k: int|
                    0 <= k < i ==> (#[trigger] out@[k]).query_type == queries@[k]
                        && out@[k].dictionary@ == dictionary@,
            decreases queries.len() - i,
        {
            out.push(Self::new(queries[i].clone(), dictionary));
            i += 1;
        }
        out
    }
}

/// A media request.
#[derive(Clone, Debug, PartialEq)]
pub struct MediaRequest {
    pub path: String,
    pub dictionary: String,
}

/// The type of item in a multi-bulk find data.
#[derive(Clone, Debug, PartialEq)]
pub enum FindMultiBulkDataItemType {
    /// A string item.
    String(String),
}

impl PartialEq<FindMultiBulkDataItemType> for String {
    fn eq(&self, other: &FindMultiBulkDataItemType) -> (r: bool) {
        match other {
            FindMultiBulkDataItemType::String(s_other) => *self == *s_other,
        }
    }
}

impl vstd::std_specs::cmp::PartialEqSpecImpl<FindMultiBulkDataItemType> for String {
    open spec fn obeys_eq_spec() -> bool {
        true
    }

    open spec fn eq_spec(&self, other: &FindMultiBulkDataItemType) -> bool {
        match other {
            FindMultiBulkDataItemType::String(s_other) => self@ == s_other@,
        }
    }
}

/// A single dictionary's file data, all parsed into rows.
#[derive(Debug)]
pub struct DatabaseDictionaryData {
    /// The list of tags.
    pub tag_list: Vec<DatabaseTag>,
    /// The list of kanji metadata.
    pub kanji_meta_list: Vec<DatabaseMetaFrequency>,
    /// The list of kanji.
    pub kanji_list: Vec<DatabaseKanjiEntry>,
    /// The list of term metadata.
    pub term_meta_list: Vec<DatabaseMetaMatchType>,
    /// The list of terms.
    pub term_list: Vec<DatabaseTermEntryTuple>,
    /// The summary of the dictionary.
    pub summary: DictionarySummary,
}

/// A present field splits into the words of its text; an absent one into none.
pub proof fn lemma_optional_words(s: String)
    ensures
        optional_words(Some(s)) == words(s@),
        optional_words(None) == Seq::<Seq<char>>::empty(),
{
}

/// The space-separated words of an optional field; none if it is absent.
pub fn split_optional_string_field(field: Option<String>) -> (r: Vec<String>)
    ensures
        string_views(r@) == optional_words(field),
{
    match field {
        Some(s) => split_words(s.as_str()),
        None => {
            let r: Vec<String> = Vec::new();
            assert(string_views(r@) =~= Seq::<Seq<char>>::empty());
            r
        },
    }
}

/// The space-separated words of a field.
pub fn split_string_field(field: String) -> (r: Vec<String>)
    ensures
        string_views(r@) == words(field@),
{
    split_words(field.as_str())
}

} // verus!
