//! Importing a Yomichan dictionary: turning the parsed contents of its files
//! into database rows and a summary of the dictionary.
//!
//! Reading the files of a dictionary folder (or zip archive) is left to the
//! caller; the functions here take what was read.

use vstd::prelude::*;
use indexmap::IndexMap;
use crate::dictionary_data::{
    DictionaryDataTag, MetaDataMatchType, TermGlossaryImage, TermMeta, YomichanIndexFile,
};
use crate::dictionary_data::dictionary_data_util::{
    compare_revisions, revision_is_older, revisions_comparable, try_compare_revisions,
    url_parse_result, validate_url,
};
use crate::dictionary_database::{
    database_meta_of, is_hyphenated_uuid_v7, kanji_meta_prepared, new_entry_id, DatabaseDictionaryData,
    DatabaseKanjiEntry,
    DatabaseMetaFrequency, DatabaseMetaMatchType, DatabaseTag, DatabaseTermEntry,
    DatabaseTermEntryTuple, MediaDataArrayBufferContent, entry_of_tuple,
};
use crate::structured_content::{group_type_of, TermEntryItem, TermGlossary, TermGlossaryGroupType};
use crate::text::{chars_equal, reverse_chars, reverse_str, str_to_chars};

verus! {

/// The steps of the import process.
#[derive(Clone, Debug, PartialEq, Eq, PartialOrd, Ord)]
pub enum ImportSteps {
    /// The import process has not started.
    Uninitialized,
    /// Validating the index file.
    ValidateIndex,
    /// Validating the schema of the dictionary files.
    ValidateSchema,
    /// Formatting the dictionary data.
    FormatDictionary,
    /// Importing media files.
    ImportMedia,
    /// Importing data files.
    ImportData,
    /// The import process has completed.
    Completed,
}

/// The kinds of dictionary data files.
#[derive(Clone, Copy, Debug, PartialEq, Eq, PartialOrd, Ord)]
pub enum CompiledSchemaNames {
    /// A file containing term entries.
    TermBank,
    /// Metadata of terms: frequency, pitch accent and phonetic data.
    TermMetaBank,
    /// A file containing kanji entries.
    KanjiBank,
    /// A file containing kanji metadata.
    KanjiMetaBank,
    /// Tag information for terms and kanji.
    TagBank,
}

/// The two kinds of frequency dictionaries.
#[derive(Clone, Copy, Debug, PartialEq, Eq, PartialOrd, Ord, Hash)]
pub enum FrequencyMode {
    /// Based on occurrence count (`"occurrence-based"`).
    OccurrenceBased,
    /// Based on rank (`"rank-based"`).
    RankBased,
}

/// A moment in local time: seconds and nanoseconds since the Unix epoch, and
/// the local offset from UTC in seconds.
#[derive(Clone, Copy, Debug, PartialEq, Eq, PartialOrd, Ord)]
pub struct ImportDate {
    pub timestamp: i64,
    pub subsec_nanos: u32,
    pub utc_offset_seconds: i32,
}

/// The current local time (`chrono::Local::now`). Of every outcome the
/// contract claims only the ranges that `chrono` documents: the nanoseconds
/// stay below two seconds (a leap second runs past one), the offset stays
/// within a day.
#[verifier::external_body]
fn local_now() -> (r: ImportDate)
    ensures
        r.subsec_nanos < 2_000_000_000,
        -86_400 < r.utc_offset_seconds < 86_400,
{
    let now = chrono::Local::now();
    ImportDate {
        timestamp: now.timestamp(),
        subsec_nanos: now.timestamp_subsec_nanos(),
        utc_offset_seconds: chrono::Offset::fix(now.offset()).local_minus_utc(),
    }
}

/// Final details about the dictionary and its import.
#[derive(Clone, Debug, PartialEq)]
pub struct DictionarySummary {
    /// Name of the dictionary.
    pub title: String,
    /// Revision of the dictionary; only displayed.
    pub revision: String,
    /// Whether the dictionary has sequencing information for related terms.
    pub sequenced: Option<bool>,
    /// The minimum Yomitan version the dictionary needs.
    pub minimum_yomitan_version: Option<String>,
    /// Format of data found in the JSON data files.
    pub version: Option<u8>,
    /// Date the dictionary was added.
    pub import_date: ImportDate,
    /// Whether a search may match terms that the query is a prefix of.
    pub prefix_wildcards_supported: bool,
    /// The counts of the dictionary.
    pub counts: SummaryCounts,
    /// The styles of the dictionary.
    pub styles: String,
    /// Whether the dictionary is updatable.
    pub is_updatable: bool,
    /// The URL of the index file.
    pub index_url: Option<String>,
    /// The URL to download the dictionary from.
    pub download_url: Option<String>,
    /// The author of the dictionary.
    pub author: Option<String>,
    /// URL for the source of the dictionary.
    pub url: Option<String>,
    /// Description of the dictionary data.
    pub description: Option<String>,
    /// Attribution information for the dictionary data.
    pub attribution: Option<String>,
    /// Language of the terms in the dictionary.
    pub source_language: Option<String>,
    /// Main language of the definitions in the dictionary.
    pub target_language: Option<String>,
    /// See [`FrequencyMode`].
    pub frequency_mode: Option<FrequencyMode>,
}

/// An error that can occur when creating a dictionary summary.
#[derive(Debug)]
pub enum DictionarySummaryError {
    /// The dictionary needs a newer version of Yomitan.
    IncompatibleYomitanVersion {
        yomitan_version: String,
        minimum_required_yomitan_version: String,
        dictionary: String,
    },
    /// `is_updatable` is present but false.
    InvalidIndexIsNotUpdatabale,
    /// An index or download URL is not a valid URL.
    InvalidIndexUrl { url: String, err: url::ParseError },
}

/// The version string of a development build of Yomitan: `0.0.0.0`.
pub open spec fn development_version() -> Seq<char> {
    seq!['0', '.', '0', '.', '0', '.', '0']
}

/// Whether the dictionary needs a newer Yomitan than `yomitan_version`.
pub open spec fn needs_newer_yomitan(index: YomichanIndexFile, yomitan_version: Seq<char>) -> bool {
    &&& yomitan_version != development_version()
    &&& index.minimum_yomitan_version matches Some(m)
    &&& revision_is_older(yomitan_version, m@)
}

/// The inputs on which a summary can be made without the version comparison
/// failing (see [`revisions_comparable`]).
pub open spec fn summary_comparable(index: YomichanIndexFile, yomitan_version: Seq<char>) -> bool {
    yomitan_version != development_version() ==> (index.minimum_yomitan_version matches Some(m)
        ==> revisions_comparable(yomitan_version, m@))
}

/// Whether an optional URL is present and does not parse.
pub open spec fn bad_url(u: Option<String>) -> bool {
    u matches Some(x) && url_parse_result(x@) is Err
}

/// Whether `s` is the summary that the index and import details give: the
/// index's fields, the import details' counts and styles, `is_updatable`
/// false where the index leaves it out; the import date is any.
pub open spec fn summary_matches(
    s: DictionarySummary,
    index: YomichanIndexFile,
    prefix_wildcards_supported: bool,
    counts: SummaryCounts,
    styles: Seq<char>,
) -> bool {
    &&& s.title == index.title
    &&& s.revision == index.revision
    &&& s.sequenced == index.sequenced
    &&& s.minimum_yomitan_version == index.minimum_yomitan_version
    &&& s.version == index.version
    &&& s.prefix_wildcards_supported == prefix_wildcards_supported
    &&& s.counts == counts
    &&& s.styles@ == styles
    &&& s.is_updatable == (index.is_updatable == Some(true))
    &&& s.index_url == index.index_url
    &&& s.download_url == index.download_url
    &&& s.author == index.author
    &&& s.url == index.url
    &&& s.description == index.description
    &&& s.attribution == index.attribution
    &&& s.source_language == index.source_language
    &&& s.target_language == index.target_language
    &&& s.frequency_mode == index.frequency_mode
}

/// What making a summary gives: the version check comes first, then an index
/// that says it is not updatable, then a bad index URL, then a bad download
/// URL (the URLs are checked only for an updatable dictionary); else the
/// summary of the index and details.
pub open spec fn summary_result(
    index: YomichanIndexFile,
    prefix_wildcards_supported: bool,
    counts: SummaryCounts,
    styles: Seq<char>,
    yomitan_version: Seq<char>,
    r: Result<DictionarySummary, DictionarySummaryError>,
) -> bool {
    if needs_newer_yomitan(index, yomitan_version) {
        r matches Err(DictionarySummaryError::IncompatibleYomitanVersion {
            yomitan_version: v,
            minimum_required_yomitan_version,
            dictionary,
        }) && v@ == yomitan_version && Some(minimum_required_yomitan_version)
            == index.minimum_yomitan_version && dictionary == index.title
    } else if index.is_updatable == Some(false) {
        r matches Err(DictionarySummaryError::InvalidIndexIsNotUpdatabale)
    } else if index.is_updatable == Some(true) && bad_url(index.index_url) {
        r matches Err(DictionarySummaryError::InvalidIndexUrl { url, err }) && Some(url)
            == index.index_url && url_parse_result(url@) == Err::<(), url::ParseError>(err)
    } else if index.is_updatable == Some(true) && bad_url(index.download_url) {
        r matches Err(DictionarySummaryError::InvalidIndexUrl { url, err }) && Some(url)
            == index.download_url && url_parse_result(url@) == Err::<(), url::ParseError>(err)
    } else {
        r matches Ok(s) && summary_matches(s, index, prefix_wildcards_supported, counts, styles)
    }
}

/// The outcome of checking an optional URL: what parsing it gives, or success
/// where there is none.
pub open spec fn url_check_of(u: Option<String>) -> Result<(), url::ParseError> {
    match u {
        Some(x) => url_parse_result(x@),
        None => Ok(()),
    }
}

/// What making a summary gives from the outcomes of its checks: a dictionary
/// that needs a newer Yomitan fails first; then an index that says it is not
/// updatable; then, for an updatable dictionary, a present index URL whose
/// check failed, then such a download URL; else the summary of the index and
/// details, dated `import_date`.
pub open spec fn summary_given(
    index: YomichanIndexFile,
    prefix_wildcards_supported: bool,
    counts: SummaryCounts,
    styles: Seq<char>,
    yomitan_version: Seq<char>,
    import_date: ImportDate,
    needs_newer: bool,
    index_url_check: Result<(), url::ParseError>,
    download_url_check: Result<(), url::ParseError>,
    r: Result<DictionarySummary, DictionarySummaryError>,
) -> bool {
    if needs_newer {
        r matches Err(DictionarySummaryError::IncompatibleYomitanVersion {
            yomitan_version: v,
            minimum_required_yomitan_version,
            dictionary,
        }) && v@ == yomitan_version && Some(minimum_required_yomitan_version)
            == index.minimum_yomitan_version && dictionary == index.title
    } else if index.is_updatable == Some(false) {
        r matches Err(DictionarySummaryError::InvalidIndexIsNotUpdatabale)
    } else if index.is_updatable == Some(true) && index.index_url is Some && index_url_check is Err {
        r matches Err(DictionarySummaryError::InvalidIndexUrl { url, err }) && Some(url)
            == index.index_url && index_url_check == Err::<(), url::ParseError>(err)
    } else if index.is_updatable == Some(true) && index.download_url is Some && download_url_check is Err {
        r matches Err(DictionarySummaryError::InvalidIndexUrl { url, err }) && Some(url)
            == index.download_url && download_url_check == Err::<(), url::ParseError>(err)
    } else {
        r matches Ok(s) && summary_matches(s, index, prefix_wildcards_supported, counts, styles)
            && s.import_date == import_date
    }
}

/// A summary is made exactly when no check fails (the dictionary does not
/// need a newer Yomitan, is not marked as not updatable, and, if updatable,
/// gives no URL that does not parse); a made summary names the dictionary by
/// the index's title and revision and carries the counts it was given.
pub proof fn lemma_summary_made_iff_checks_pass(
    index: YomichanIndexFile,
    prefix_wildcards_supported: bool,
    counts: SummaryCounts,
    styles: Seq<char>,
    yomitan_version: Seq<char>,
    r: Result<DictionarySummary, DictionarySummaryError>,
)
    requires
        summary_result(index, prefix_wildcards_supported, counts, styles, yomitan_version, r),
    ensures
        r is Ok <==> (!needs_newer_yomitan(index, yomitan_version) && index.is_updatable != Some(false)
            && !(index.is_updatable == Some(true) && (bad_url(index.index_url) || bad_url(index.download_url)))),
        r matches Ok(s) ==> s.title == index.title && s.revision == index.revision && s.counts == counts,
{
}

fn is_development_version(v: &str) -> (r: bool)
    ensures
        r == (v@ == development_version()),
{
    let dev = str_to_chars("0.0.0.0");
    proof {
        reveal_strlit("0.0.0.0");
    }
    assert(dev@ =~= development_version());
    let chars = str_to_chars(v);
    chars_equal(chars.as_slice(), dev.as_slice())
}

impl DictionarySummary {
    /// The summary of a dictionary, made from its index file and the details of
    /// its import; fails where the dictionary needs a newer Yomitan, where the
    /// index says it is not updatable, or where an updatable dictionary gives a
    /// URL that does not parse.
    pub fn new(
        index: YomichanIndexFile,
        prefix_wildcards_supported: bool,
        details: SummaryDetails,
    ) -> (r: Result<Self, DictionarySummaryError>)
        requires
            summary_comparable(index, details.yomitan_version@),
        ensures
            summary_result(
                index,
                prefix_wildcards_supported,
                details.counts,
                details.styles@,
                details.yomitan_version@,
                r,
            ),
            r matches Ok(s) ==> s.import_date.subsec_nanos < 2_000_000_000 && -86_400
                < s.import_date.utc_offset_seconds < 86_400,
    {
        let import_date = local_now();
        let needs_newer = if is_development_version(details.yomitan_version.as_str()) {
            false
        } else {
            match &index.minimum_yomitan_version {
                Some(minimum) => compare_revisions(details.yomitan_version.as_str(), minimum.as_str()),
                None => false,
            }
        };
        let index_url_check = match &index.index_url {
            Some(u) => validate_url(u.as_str()),
            None => Ok(()),
        };
        let download_url_check = match &index.download_url {
            Some(u) => validate_url(u.as_str()),
            None => Ok(()),
        };
        Self::from_checks(
            index,
            prefix_wildcards_supported,
            details,
            import_date,
            needs_newer,
            index_url_check,
            download_url_check,
        )
    }

    /// The summary of a dictionary from the outcomes of its checks: whether
    /// it needs a newer Yomitan, and what checking its index and download
    /// URLs gave (success where a URL is absent); it is dated `import_date`.
    pub fn from_checks(
        index: YomichanIndexFile,
        prefix_wildcards_supported: bool,
        details: SummaryDetails,
        import_date: ImportDate,
        needs_newer: bool,
        index_url_check: Result<(), url::ParseError>,
        download_url_check: Result<(), url::ParseError>,
    ) -> (r: Result<Self, DictionarySummaryError>)
        requires
            needs_newer ==> index.minimum_yomitan_version is Some,
        ensures
            summary_given(
                index,
                prefix_wildcards_supported,
                details.counts,
                details.styles@,
                details.yomitan_version@,
                import_date,
                needs_newer,
                index_url_check,
                download_url_check,
                r,
            ),
    {
        let SummaryDetails {
            prefix_wildcard_supported: _,
            counts,
            styles,
            yomitan_version,
        } = details;
        let YomichanIndexFile {
            title,
            revision,
            sequenced,
            format: _,
            version,
            minimum_yomitan_version,
            is_updatable,
            index_url,
            download_url,
            author,
            url,
            description,
            attribution,
            source_language,
            target_language,
            frequency_mode,
            tag_meta: _,
        } = index;
        if needs_newer {
            if let Some(minimum) = minimum_yomitan_version {
                return Err(
                    DictionarySummaryError::IncompatibleYomitanVersion {
                        yomitan_version,
                        minimum_required_yomitan_version: minimum,
                        dictionary: title,
                    },
                );
            }
        }
        if let Some(updatable) = is_updatable {
            if !updatable {
                return Err(DictionarySummaryError::InvalidIndexIsNotUpdatabale);
            }
            if let Some(u) = &index_url {
                if let Err(err) = index_url_check {
                    return Err(DictionarySummaryError::InvalidIndexUrl { url: u.clone(), err });
                }
            }
            if let Some(u) = &download_url {
                if let Err(err) = download_url_check {
                    return Err(DictionarySummaryError::InvalidIndexUrl { url: u.clone(), err });
                }
            }
        }
        let res = Self {
            title,
            revision,
            sequenced,
            minimum_yomitan_version,
            version,
            import_date,
            prefix_wildcards_supported,
            counts,
            styles,
            is_updatable: match is_updatable {
                Some(b) => b,
                None => false,
            },
            index_url,
            download_url,
            author,
            url,
            description,
            attribution,
            source_language,
            target_language,
            frequency_mode,
        };
        Ok(res)
    }

    /// As [`DictionarySummary::new`], or `None` on the inputs on which the
    /// version comparison cannot complete.
    pub fn try_new(
        index: YomichanIndexFile,
        prefix_wildcards_supported: bool,
        details: SummaryDetails,
    ) -> (r: Option<Result<Self, DictionarySummaryError>>)
        ensures
            r is Some <==> summary_comparable(index, details.yomitan_version@),
            r matches Some(res) ==> summary_result(
                index,
                prefix_wildcards_supported,
                details.counts,
                details.styles@,
                details.yomitan_version@,
                res,
            ),
            r matches Some(Ok(s)) ==> s.import_date.subsec_nanos < 2_000_000_000 && -86_400
                < s.import_date.utc_offset_seconds < 86_400,
    {
        if !is_development_version(details.yomitan_version.as_str()) {
            if let Some(minimum) = &index.minimum_yomitan_version {
                if try_compare_revisions(details.yomitan_version.as_str(), minimum.as_str()).is_none() {
                    return None;
                }
            }
        }
        Some(Self::new(index, prefix_wildcards_supported, details))
    }
}

/// The details of a dictionary summary.
#[derive(Clone, Debug, PartialEq, Eq, PartialOrd, Ord)]
pub struct SummaryDetails {
    /// Whether prefix wildcards are supported.
    pub prefix_wildcard_supported: bool,
    /// The counts of the dictionary.
    pub counts: SummaryCounts,
    /// The styles of the dictionary.
    pub styles: String,
    /// The version of Yomitan.
    pub yomitan_version: String,
}

/// The counts of a dictionary.
#[derive(Clone, Copy, Debug, PartialEq, Eq, PartialOrd, Ord)]
pub struct SummaryCounts {
    /// The number of terms.
    pub terms: SummaryItemCount,
    /// The number of term metadata entries.
    pub term_meta: SummaryMetaCount,
    /// The number of kanji.
    pub kanji: SummaryItemCount,
    /// The number of kanji metadata entries.
    pub kanji_meta: SummaryMetaCount,
    /// The number of tag entries.
    pub tag_meta: SummaryItemCount,
    /// The number of media files.
    pub media: SummaryItemCount,
}

impl SummaryCounts {
    /// The counts of a dictionary with the given numbers of entries; each
    /// total is kept modulo 2^16, and media are not counted.
    pub fn new(
        term_len: usize,
        term_meta_len: usize,
        tag_len: usize,
        kanji_len: usize,
        kanji_meta_len: usize,
        term_meta_counts: MetaCounts,
        kanji_meta_counts: MetaCounts,
    ) -> (r: Self)
        ensures
            r.terms.total == term_len as u16,
            r.term_meta.total == term_meta_len as u16,
            r.term_meta.meta == term_meta_counts,
            r.tag_meta.total == tag_len as u16,
            r.kanji_meta.total == kanji_meta_len as u16,
            r.kanji_meta.meta == kanji_meta_counts,
            r.kanji.total == kanji_len as u16,
            r.media.total == 0,
    {
        Self {
            terms: SummaryItemCount { total: #[verifier::truncate] (term_len as u16) },
            term_meta: SummaryMetaCount {
                total: #[verifier::truncate] (term_meta_len as u16),
                meta: term_meta_counts,
            },
            tag_meta: SummaryItemCount { total: #[verifier::truncate] (tag_len as u16) },
            kanji_meta: SummaryMetaCount {
                total: #[verifier::truncate] (kanji_meta_len as u16),
                meta: kanji_meta_counts,
            },
            kanji: SummaryItemCount { total: #[verifier::truncate] (kanji_len as u16) },
            media: SummaryItemCount { total: 0 },
        }
    }
}

/// The count of a summary item.
#[derive(Clone, Copy, Debug, PartialEq, Eq, PartialOrd, Ord)]
pub struct SummaryItemCount {
    /// The total number of items.
    pub total: u16,
}

/// The count of a summary metadata item.
#[derive(Clone, Copy, Debug, PartialEq, Eq, PartialOrd, Ord)]
pub struct SummaryMetaCount {
    /// The total number of items.
    pub total: u16,
    /// The counts of the metadata types.
    pub meta: MetaCounts,
}

/// The counts of the metadata types.
#[derive(Clone, Copy, Debug, PartialEq, Eq, PartialOrd, Ord, Default)]
pub struct MetaCounts {
    /// The number of frequency metadata entries.
    pub freq: u32,
    /// The number of pitch metadata entries.
    pub pitch: u32,
    /// The number of IPA metadata entries.
    pub ipa: u32,
}

/// The numbers of frequency, pitch and phonetic rows among `metas`.
pub open spec fn meta_kind_counts(metas: Seq<DatabaseMetaMatchType>) -> (nat, nat, nat)
    decreases metas.len(),
{
    if metas.len() == 0 {
        (0, 0, 0)
    } else {
        let (f, p, i) = meta_kind_counts(metas.subrange(0, metas.len() - 1));
        match metas[metas.len() - 1] {
            DatabaseMetaMatchType::Frequency(_) => (f + 1, p, i),
            DatabaseMetaMatchType::Pitch(_) => (f, p + 1, i),
            DatabaseMetaMatchType::Phonetic(_) => (f, p, i + 1),
        }
    }
}

/// Every row is of exactly one of the three kinds.
pub proof fn lemma_meta_kind_counts_total(metas: Seq<DatabaseMetaMatchType>)
    ensures
        meta_kind_counts(metas).0 + meta_kind_counts(metas).1 + meta_kind_counts(metas).2
            == metas.len(),
    decreases metas.len(),
{
    if metas.len() > 0 {
        lemma_meta_kind_counts_total(metas.subrange(0, metas.len() - 1));
    }
}

impl MetaCounts {
    /// The counts of kanji metadata: all of it is frequency data (its number
    /// kept modulo 2^32).
    pub fn count_kanji_metas(kanji_metas: &[DatabaseMetaFrequency]) -> (r: Self)
        ensures
            r.freq == kanji_metas@.len() as u32,
            r.pitch == 0,
            r.ipa == 0,
    {
        MetaCounts { freq: #[verifier::truncate] (kanji_metas.len() as u32), pitch: 0, ipa: 0 }
    }

    /// The numbers of frequency, pitch and phonetic rows among `metas`.
    pub fn count_term_metas(metas: &[DatabaseMetaMatchType]) -> (r: Self)
        requires
            metas@.len() <= u32::MAX,
        ensures
            r.freq == meta_kind_counts(metas@).0,
            r.pitch == meta_kind_counts(metas@).1,
            r.ipa == meta_kind_counts(metas@).2,
    {
        let mut meta_counts = MetaCounts { freq: 0, pitch: 0, ipa: 0 };
        let mut k: usize = 0;
        while k < metas.len()
            invariant
                k <= metas@.len() <= u32::MAX,
                meta_counts.freq == meta_kind_counts(metas@.take(k as int)).0,
                meta_counts.pitch == meta_kind_counts(metas@.take(k as int)).1,
                meta_counts.ipa == meta_kind_counts(metas@.take(k as int)).2,
            decreases metas.len() - k,
        {
            proof {
                lemma_meta_kind_counts_total(metas@.take(k as int));
                assert(metas@.take(k + 1).subrange(0, k as int) =~= metas@.take(k as int));
            }
            match &metas[k] {
                DatabaseMetaMatchType::Frequency(_) => meta_counts.freq = meta_counts.freq + 1,
                DatabaseMetaMatchType::Pitch(_) => meta_counts.pitch = meta_counts.pitch + 1,
                DatabaseMetaMatchType::Phonetic(_) => meta_counts.ipa = meta_counts.ipa + 1,
            }
            k += 1;
        }
        assert(metas@.take(k as int) =~= metas@);
        meta_counts
    }
}


/************* Converting file entries into rows *************/

/// The row for a tag of dictionary `dictionary`: the tag's fields, the
/// dictionary name, and a fresh id.
pub open spec fn database_tag_of(tag: DictionaryDataTag, row: DatabaseTag, dictionary: Seq<char>) -> bool {
    &&& row.name == tag.name
    &&& row.category == tag.category
    &&& row.order == tag.order
    &&& row.notes == tag.notes
    &&& row.score == tag.score
    &&& row.dictionary@ == dictionary
    &&& is_hyphenated_uuid_v7(row.id@)
}

/// The rows for the tags of a `tag_bank_$i.json` file, in order.
pub fn convert_tag_bank(tags: Vec<DictionaryDataTag>, dictionary: &str) -> (r: Vec<DatabaseTag>)
    ensures
        r@.len() == tags@.len(),
        forall|i: int| 0 <= i < tags@.len() ==> database_tag_of(tags@[i], #[trigger] r@[i], dictionary@),
{
    let ghost input = tags@;
    let mut out: Vec<DatabaseTag> = Vec::new();
    for tag in it: tags.into_iter()
        invariant
            it.seq() == input,
            out@.len() == it.index(),
            forall|i: int| 0 <= i < it.index() ==> database_tag_of(input[i], #[trigger] out@[i], dictionary@),
    {
        let DictionaryDataTag { name, category, order, notes, score } = tag;
        out.push(DatabaseTag {
            id: new_entry_id(),
            name,
            category,
            order,
            notes,
            score,
            dictionary: dictionary.to_owned(),
        });
    }
    out
}

/// A kanji entry as read, given the dictionary name.
pub open spec fn kanji_assigned(a: DatabaseKanjiEntry, b: DatabaseKanjiEntry, dict_name: Seq<char>) -> bool {
    &&& b.character == a.character
    &&& b.onyomi == a.onyomi
    &&& b.kunyomi == a.kunyomi
    &&& b.tags == a.tags
    &&& b.meanings == a.meanings
    &&& b.stats == a.stats
    &&& b.dictionary matches Some(d) && d@ == dict_name
}

/// The entries of a `kanji_bank_$i.json` file, each given the dictionary name.
pub fn assign_kanji_dictionary(entries: KanjiBank, dict_name: &str) -> (r: KanjiBank)
    ensures
        r@.len() == entries@.len(),
        forall|i: int| 0 <= i < entries@.len() ==> kanji_assigned(entries@[i], #[trigger] r@[i], dict_name@),
{
    let ghost input = entries@;
    let mut out: KanjiBank = Vec::new();
    for item in it: entries.into_iter()
        invariant
            it.seq() == input,
            out@.len() == it.index(),
            forall|i: int| 0 <= i < it.index() ==> kanji_assigned(input[i], #[trigger] out@[i], dict_name@),
    {
        let mut item = item;
        item.dictionary = Some(dict_name.to_owned());
        out.push(item);
    }
    out
}

/// The database form of each glossary entry, in order.
pub fn convert_glossary(glossary: Vec<TermGlossary>) -> (r: Vec<TermGlossaryGroupType>)
    ensures
        r@.len() == glossary@.len(),
        forall|i: int| 0 <= i < glossary@.len() ==> group_type_of(glossary@[i], #[trigger] r@[i]),
{
    let ghost input = glossary@;
    let mut out: Vec<TermGlossaryGroupType> = Vec::new();
    for g in it: glossary.into_iter()
        invariant
            it.seq() == input,
            out@.len() == it.index(),
            forall|i: int| 0 <= i < it.index() ==> group_type_of(input[i], #[trigger] out@[i]),
    {
        out.push(TermGlossaryGroupType::from(g));
    }
    out
}

/// The row for a term of dictionary `dict_name` read from file `file_path`:
/// a fresh id, the expression and reading with their reversals, the tags,
/// rules and score as given, no legacy tags, the glossary in database form,
/// and the sequence and term tags as present values.
pub open spec fn term_row_of(
    item: TermEntryItem,
    row: DatabaseTermEntryTuple,
    dict_name: Seq<char>,
    file_path: Seq<char>,
) -> bool {
    &&& is_hyphenated_uuid_v7(row.0@)
    &&& row.1 == item.expression
    &&& row.2 == item.reading
    &&& row.3@ == reverse_chars(item.expression@)
    &&& row.4@ == reverse_chars(item.reading@)
    &&& row.5 == item.def_tags
    &&& row.6 is None
    &&& row.7 == item.rules
    &&& row.8 == item.score
    &&& row.9@.len() == item.structured_content@.len()
    &&& forall|k: int|
        0 <= k < row.9@.len() ==> group_type_of(item.structured_content@[k], #[trigger] row.9@[k])
    &&& row.10 == Some(item.sequence)
    &&& row.11 == Some(item.term_tags)
    &&& row.12@ == dict_name
    &&& row.13@ == file_path
}

/// The rows for the entries of a `term_bank_$i.json` file, in order.
pub fn convert_term_bank(entries: Vec<TermEntryItem>, dict_name: &str, file_path: &str) -> (r: Vec<DatabaseTermEntryTuple>)
    ensures
        r@.len() == entries@.len(),
        forall|i: int|
            0 <= i < entries@.len() ==> term_row_of(entries@[i], #[trigger] r@[i], dict_name@, file_path@),
{
    let ghost input = entries@;
    let mut out: Vec<DatabaseTermEntryTuple> = Vec::new();
    for entry in it: entries.into_iter()
        invariant
            it.seq() == input,
            out@.len() == it.index(),
            forall|i: int|
                0 <= i < it.index() ==> term_row_of(input[i], #[trigger] out@[i], dict_name@, file_path@),
    {
        let TermEntryItem {
            expression,
            reading,
            def_tags,
            rules,
            score,
            structured_content,
            sequence,
            term_tags,
        } = entry;
        let id = new_entry_id();
        let expression_reverse = reverse_str(expression.as_str());
        let reading_reverse = reverse_str(reading.as_str());
        out.push(DatabaseTermEntryTuple(
            id,
            expression,
            reading,
            expression_reverse,
            reading_reverse,
            def_tags,
            None,
            rules,
            score,
            convert_glossary(structured_content),
            Some(sequence),
            Some(term_tags),
            dict_name.to_owned(),
            file_path.to_owned(),
        ));
    }
    out
}

/************* What conversion keeps *************/

/// The tag that a tag row describes: the row without its id and dictionary.
pub open spec fn tag_of_row(row: DatabaseTag) -> DictionaryDataTag {
    DictionaryDataTag {
        name: row.name,
        category: row.category,
        order: row.order,
        notes: row.notes,
        score: row.score,
    }
}

/// A tag row describes exactly the tag it was made from, belongs to the
/// dictionary it was made for, and has a fresh id.
pub proof fn lemma_tag_row_keeps_tag(tag: DictionaryDataTag, row: DatabaseTag, dictionary: Seq<char>)
    requires
        database_tag_of(tag, row, dictionary),
    ensures
        tag_of_row(row) == tag,
        row.dictionary@ == dictionary,
        is_hyphenated_uuid_v7(row.id@),
{
}

/// A kanji row is the kanji entry it was made from, with only its dictionary
/// set.
pub proof fn lemma_kanji_row_keeps_entry(entry: DatabaseKanjiEntry, row: DatabaseKanjiEntry, dict_name: Seq<char>)
    requires
        kanji_assigned(entry, row, dict_name),
    ensures
        (DatabaseKanjiEntry { dictionary: entry.dictionary, ..row }) == entry,
        (row.dictionary matches Some(d) && d@ == dict_name),
{
}

/// A kanji metadata row is the row that was read, with only its id and
/// dictionary replaced.
pub proof fn lemma_kanji_meta_row_keeps_entry(
    entry: DatabaseMetaFrequency,
    row: DatabaseMetaFrequency,
    dict_name: Seq<char>,
)
    requires
        kanji_meta_prepared(entry, row, dict_name),
    ensures
        (DatabaseMetaFrequency { id: entry.id, dictionary: entry.dictionary, ..row }) == entry,
        row.dictionary@ == dict_name,
{
}

/// A term row, read as a database entry, is the term bank entry it was made
/// from: the same expression and reading (with their reversals), definition
/// tags, rules, score, sequence and term tags, no legacy tags, the glossary
/// in database form, and the dictionary and file it was made for.
pub proof fn lemma_term_row_keeps_entry(
    item: TermEntryItem,
    row: DatabaseTermEntryTuple,
    dict_name: Seq<char>,
    file_path: Seq<char>,
)
    requires
        term_row_of(item, row, dict_name, file_path),
    ensures
        ({
            let e = entry_of_tuple(row);
            &&& e.expression == item.expression
            &&& e.reading == item.reading
            &&& e.expression_reverse@ == reverse_chars(item.expression@)
            &&& e.reading_reverse@ == reverse_chars(item.reading@)
            &&& e.definition_tags == item.def_tags
            &&& e.tags is None
            &&& e.rules == item.rules
            &&& e.score == item.score
            &&& e.glossary@.len() == item.structured_content@.len()
            &&& forall|k: int|
                0 <= k < e.glossary@.len() ==> group_type_of(item.structured_content@[k], #[trigger] e.glossary@[k])
            &&& e.sequence == Some(item.sequence)
            &&& e.term_tags == Some(item.term_tags)
            &&& e.dictionary@ == dict_name
            &&& e.file_path@ == file_path
            &&& is_hyphenated_uuid_v7(e.id@)
        }),
{
}

/************* Recognising dictionary files *************/

/// The kinds of files in a dictionary folder.
#[derive(Clone, Copy, Debug, PartialEq, Eq)]
pub enum DictionaryFileKind {
    /// `term_bank_$i.json`.
    TermBank,
    /// `index.json`.
    Index,
    /// `term_meta_bank_$i.json`.
    TermMetaBank,
    /// `kanji_meta_bank_$i.json`.
    KanjiMetaBank,
    /// `kanji_bank_$i.json`.
    KanjiBank,
    /// `tag_bank_$i.json`.
    TagBank,
}

/// The bytes of an ASCII text.
pub open spec fn ascii_bytes(s: Seq<char>) -> Seq<u8> {
    s.map_values(|c: char| c as u8)
}

/// Whether `needle` occurs in `hay`.
pub open spec fn contains_bytes(hay: Seq<u8>, needle: Seq<u8>) -> bool {
    exists|i: int| 0 <= i && i + needle.len() <= hay.len() && #[trigger] hay.subrange(i, i + needle.len()) == needle
}

/// The kind of file that a path names: a path that ends with `/` names none;
/// else the first of `term_bank`, `index.json`, `term_meta_bank`,
/// `kanji_meta_bank`, `kanji_bank`, `tag_bank` that occurs in it decides.
pub open spec fn dictionary_file_kind(path: Seq<u8>) -> Option<DictionaryFileKind> {
    if path.len() > 0 && path[path.len() - 1] == 47u8 {
        None
    } else if contains_bytes(path, ascii_bytes("term_bank"@)) {
        Some(DictionaryFileKind::TermBank)
    } else if contains_bytes(path, ascii_bytes("index.json"@)) {
        Some(DictionaryFileKind::Index)
    } else if contains_bytes(path, ascii_bytes("term_meta_bank"@)) {
        Some(DictionaryFileKind::TermMetaBank)
    } else if contains_bytes(path, ascii_bytes("kanji_meta_bank"@)) {
        Some(DictionaryFileKind::KanjiMetaBank)
    } else if contains_bytes(path, ascii_bytes("kanji_bank"@)) {
        Some(DictionaryFileKind::KanjiBank)
    } else if contains_bytes(path, ascii_bytes("tag_bank"@)) {
        Some(DictionaryFileKind::TagBank)
    } else {
        None
    }
}

/// The word that names files of each kind.
pub open spec fn file_kind_word(k: DictionaryFileKind) -> Seq<char> {
    match k {
        DictionaryFileKind::TermBank => "term_bank"@,
        DictionaryFileKind::Index => "index.json"@,
        DictionaryFileKind::TermMetaBank => "term_meta_bank"@,
        DictionaryFileKind::KanjiMetaBank => "kanji_meta_bank"@,
        DictionaryFileKind::KanjiBank => "kanji_bank"@,
        DictionaryFileKind::TagBank => "tag_bank"@,
    }
}

/// A path is taken for a kind of file only if it holds that kind's word and
/// does not end in `/`; and a path that does not end in `/` and holds the
/// word of some kind is taken for some kind.
pub proof fn lemma_file_kind_names_its_word(path: Seq<u8>)
    ensures
        (dictionary_file_kind(path) matches Some(k) ==> contains_bytes(path, ascii_bytes(file_kind_word(k)))
            && !(path.len() > 0 && path[path.len() - 1] == 47u8)),
        (!(path.len() > 0 && path[path.len() - 1] == 47u8) && (contains_bytes(
            path,
            ascii_bytes(file_kind_word(DictionaryFileKind::TermBank)),
        ) || contains_bytes(path, ascii_bytes(file_kind_word(DictionaryFileKind::Index))) || contains_bytes(
            path,
            ascii_bytes(file_kind_word(DictionaryFileKind::TermMetaBank)),
        ) || contains_bytes(path, ascii_bytes(file_kind_word(DictionaryFileKind::KanjiMetaBank)))
            || contains_bytes(path, ascii_bytes(file_kind_word(DictionaryFileKind::KanjiBank))) || contains_bytes(
            path,
            ascii_bytes(file_kind_word(DictionaryFileKind::TagBank)),
        ))) ==> dictionary_file_kind(path) is Some,
{
}

fn ascii_needle(s: &str) -> (r: Vec<u8>)
    ensures
        r@ == ascii_bytes(s@),
{
    let chars = str_to_chars(s);
    let mut out: Vec<u8> = Vec::new();
    let mut i: usize = 0;
    while i < chars.len()
        invariant
            i <= chars@.len(),
            chars@ == s@,
            out@ == ascii_bytes(s@.take(i as int)),
        decreases chars.len() - i,
    {
        out.push(chars[i] as u8);
        i += 1;
        assert(out@ =~= ascii_bytes(s@.take(i as int)));
    }
    assert(s@.take(i as int) =~= s@);
    out
}

fn contains_subslice(hay: &[u8], needle: &[u8]) -> (r: bool)
    ensures
        r == contains_bytes(hay@, needle@),
{
    if needle.len() > hay.len() {
        return false;
    }
    let last = hay.len() - needle.len();
    let mut i: usize = 0;
    loop
        invariant
            last == hay@.len() - needle@.len(),
            needle@.len() <= hay@.len(),
            i <= last,
            forall|j: int| 0 <= j < i ==> #[trigger] hay@.subrange(j, j + needle@.len()) != needle@,
        decreases last - i,
    {
        let mut k: usize = 0;
        let mut same = true;
        while k < needle.len()
            invariant
                i <= last,
                last == hay@.len() - needle@.len(),
                needle@.len() <= hay@.len(),
                hay@.len() == hay.len(),
                k <= needle@.len(),
                same == (forall|m: int| 0 <= m < k ==> hay@[i + m] == needle@[m]),
            decreases needle.len() - k,
        {
            if hay[i + k] != needle[k] {
                same = false;
            }
            k += 1;
        }
        if same {
            assert(hay@.subrange(i as int, i + needle@.len()) =~= needle@);
            return true;
        }
        assert(hay@.subrange(i as int, i + needle@.len()) != needle@) by {
            let m = choose|m: int| 0 <= m < needle@.len() && hay@[i + m] != needle@[m];
            assert(hay@.subrange(i as int, i + needle@.len())[m] == hay@[i + m]);
        }
        if i == last {
            return false;
        }
        i += 1;
    }
}

/// The kind of dictionary file that a path (its bytes as the platform
/// encodes them) names.
pub fn classify_dictionary_path(path: &[u8]) -> (r: Option<DictionaryFileKind>)
    ensures
        r == dictionary_file_kind(path@),
{
    if path.len() > 0 && path[path.len() - 1] == 47u8 {
        return None;
    }
    let term_bank = ascii_needle("term_bank");
    let index = ascii_needle("index.json");
    let term_meta_bank = ascii_needle("term_meta_bank");
    let kanji_meta_bank = ascii_needle("kanji_meta_bank");
    let kanji_bank = ascii_needle("kanji_bank");
    let tag_bank = ascii_needle("tag_bank");
    if contains_subslice(path, term_bank.as_slice()) {
        Some(DictionaryFileKind::TermBank)
    } else if contains_subslice(path, index.as_slice()) {
        Some(DictionaryFileKind::Index)
    } else if contains_subslice(path, term_meta_bank.as_slice()) {
        Some(DictionaryFileKind::TermMetaBank)
    } else if contains_subslice(path, kanji_meta_bank.as_slice()) {
        Some(DictionaryFileKind::KanjiMetaBank)
    } else if contains_subslice(path, kanji_bank.as_slice()) {
        Some(DictionaryFileKind::KanjiBank)
    } else if contains_subslice(path, tag_bank.as_slice()) {
        Some(DictionaryFileKind::TagBank)
    } else {
        None
    }
}

/************* Assembling a dictionary *************/

/// The counts of a dictionary with these rows (totals modulo 2^16, kanji
/// metadata counted modulo 2^32).
pub open spec fn dictionary_counts(
    term_len: nat,
    term_metas: Seq<DatabaseMetaMatchType>,
    tag_len: nat,
    kanji_len: nat,
    kanji_meta_len: nat,
) -> SummaryCounts {
    SummaryCounts {
        terms: SummaryItemCount { total: term_len as u16 },
        term_meta: SummaryMetaCount {
            total: term_metas.len() as u16,
            meta: MetaCounts {
                freq: meta_kind_counts(term_metas).0 as u32,
                pitch: meta_kind_counts(term_metas).1 as u32,
                ipa: meta_kind_counts(term_metas).2 as u32,
            },
        },
        tag_meta: SummaryItemCount { total: tag_len as u16 },
        kanji_meta: SummaryMetaCount {
            total: kanji_meta_len as u16,
            meta: MetaCounts { freq: kanji_meta_len as u32, pitch: 0, ipa: 0 },
        },
        kanji: SummaryItemCount { total: kanji_len as u16 },
        media: SummaryItemCount { total: 0 },
    }
}

/// All the rows of one dictionary with its summary: the summary is made
/// from the index for Yomitan version `yomitan_version`, with no prefix
/// wildcards, no styles, and the counts of the rows. `None` where the version
/// comparison cannot complete.
pub fn prepare_dictionary_data(
    index: YomichanIndexFile,
    tag_list: Vec<DatabaseTag>,
    kanji_meta_list: Vec<DatabaseMetaFrequency>,
    kanji_list: Vec<DatabaseKanjiEntry>,
    term_meta_list: Vec<DatabaseMetaMatchType>,
    term_list: Vec<DatabaseTermEntryTuple>,
    yomitan_version: String,
) -> (r: Option<Result<DatabaseDictionaryData, DictionarySummaryError>>)
    requires
        term_meta_list@.len() <= u32::MAX,
    ensures
        r is Some <==> summary_comparable(index, yomitan_version@),
        r matches Some(res) ==> {
            let counts = dictionary_counts(
                term_list@.len(),
                term_meta_list@,
                tag_list@.len(),
                kanji_list@.len(),
                kanji_meta_list@.len(),
            );
            let summary = match res {
                Ok(d) => Ok(d.summary),
                Err(e) => Err(e),
            };
            &&& summary_result(index, false, counts, Seq::empty(), yomitan_version@, summary)
            &&& res matches Ok(d) ==> {
                &&& d.tag_list == tag_list
                &&& d.kanji_meta_list == kanji_meta_list
                &&& d.kanji_list == kanji_list
                &&& d.term_meta_list == term_meta_list
                &&& d.term_list == term_list
                &&& d.summary.import_date.subsec_nanos < 2_000_000_000
                &&& -86_400 < d.summary.import_date.utc_offset_seconds < 86_400
            }
        },
{
    let term_meta_counts = MetaCounts::count_term_metas(term_meta_list.as_slice());
    let kanji_meta_counts = MetaCounts::count_kanji_metas(kanji_meta_list.as_slice());
    let counts = SummaryCounts::new(
        term_list.len(),
        term_meta_list.len(),
        tag_list.len(),
        kanji_list.len(),
        kanji_meta_list.len(),
        term_meta_counts,
        kanji_meta_counts,
    );
    let details = SummaryDetails {
        prefix_wildcard_supported: false,
        counts,
        styles: String::new(),
        yomitan_version,
    };
    match DictionarySummary::try_new(index, false, details)? {
        Ok(summary) => Some(
            Ok(
                DatabaseDictionaryData {
                    tag_list,
                    kanji_meta_list,
                    kanji_list,
                    term_meta_list,
                    term_list,
                    summary,
                },
            ),
        ),
        Err(e) => Some(Err(e)),
    }
}

/************* Assembling a dictionary from its files *************/

/// Each bank as the sequence of its items.
pub open spec fn bank_views<T>(banks: Seq<Vec<T>>) -> Seq<Seq<T>> {
    banks.map_values(|b: Vec<T>| b@)
}

/// The items of a list of banks, bank after bank.
pub open spec fn bank_items<T>(banks: Seq<Vec<T>>) -> Seq<T> {
    bank_views(banks).flatten()
}

/// Each term bank as the sequence of its entries, each paired with the path
/// of the bank's file.
pub open spec fn term_bank_views(banks: Seq<(Vec<TermEntryItem>, String)>) -> Seq<Seq<(TermEntryItem, Seq<char>)>> {
    banks.map_values(|b: (Vec<TermEntryItem>, String)| b.0@.map_values(|e: TermEntryItem| (e, b.1@)))
}

/// The entries of a list of term banks, bank after bank, each with the path
/// of its file.
pub open spec fn term_bank_items(banks: Seq<(Vec<TermEntryItem>, String)>) -> Seq<(TermEntryItem, Seq<char>)> {
    term_bank_views(banks).flatten()
}

proof fn lemma_bank_items_push<T>(banks: Seq<Vec<T>>, b: Vec<T>)
    ensures
        bank_items(banks.push(b)) == bank_items(banks) + b@,
{
    assert(bank_views(banks.push(b)) =~= bank_views(banks).push(b@));
    bank_views(banks).lemma_flatten_push(b@);
}

proof fn lemma_term_bank_items_push(banks: Seq<(Vec<TermEntryItem>, String)>, b: (Vec<TermEntryItem>, String))
    ensures
        term_bank_items(banks.push(b)) == term_bank_items(banks) + b.0@.map_values(
            |e: TermEntryItem| (e, b.1@),
        ),
{
    assert(term_bank_views(banks.push(b)) =~= term_bank_views(banks).push(
        b.0@.map_values(|e: TermEntryItem| (e, b.1@)),
    ));
    term_bank_views(banks).lemma_flatten_push(b.0@.map_values(|e: TermEntryItem| (e, b.1@)));
}

/// The numbers of frequency, pitch and phonetic entries among term metadata
/// entries, by the kind of their data.
pub open spec fn meta_entry_kind_counts(entries: Seq<TermMeta>) -> (nat, nat, nat)
    decreases entries.len(),
{
    if entries.len() == 0 {
        (0, 0, 0)
    } else {
        let (f, p, i) = meta_entry_kind_counts(entries.subrange(0, entries.len() - 1));
        match entries[entries.len() - 1].data {
            MetaDataMatchType::Frequency(_) => (f + 1, p, i),
            MetaDataMatchType::Pitch(_) => (f, p + 1, i),
            MetaDataMatchType::Phonetic(_) => (f, p, i + 1),
        }
    }
}

/// Rows made from term metadata entries have the entries' kinds, so they
/// count as the entries do.
pub proof fn lemma_meta_counts_follow_entries(entries: Seq<TermMeta>, rows: Seq<DatabaseMetaMatchType>, dict: Seq<char>)
    requires
        rows.len() == entries.len(),
        forall|i: int| 0 <= i < entries.len() ==> database_meta_of(entries[i], #[trigger] rows[i], dict),
    ensures
        meta_kind_counts(rows) == meta_entry_kind_counts(entries),
    decreases entries.len(),
{
    if entries.len() > 0 {
        let n = entries.len() - 1;
        let (e, r) = (entries.subrange(0, n), rows.subrange(0, n));
        assert forall|i: int| 0 <= i < e.len() implies database_meta_of(e[i], #[trigger] r[i], dict) by {
            assert(e[i] == entries[i] && r[i] == rows[i]);
        }
        lemma_meta_counts_follow_entries(e, r, dict);
        assert(database_meta_of(entries[n], rows[n], dict));
    }
}

/// The counts of a dictionary made from these files.
pub open spec fn file_counts(
    term_len: nat,
    term_metas: Seq<TermMeta>,
    tag_len: nat,
    kanji_len: nat,
    kanji_meta_len: nat,
) -> SummaryCounts {
    SummaryCounts {
        terms: SummaryItemCount { total: term_len as u16 },
        term_meta: SummaryMetaCount {
            total: term_metas.len() as u16,
            meta: MetaCounts {
                freq: meta_entry_kind_counts(term_metas).0 as u32,
                pitch: meta_entry_kind_counts(term_metas).1 as u32,
                ipa: meta_entry_kind_counts(term_metas).2 as u32,
            },
        },
        tag_meta: SummaryItemCount { total: tag_len as u16 },
        kanji_meta: SummaryMetaCount {
            total: kanji_meta_len as u16,
            meta: MetaCounts { freq: kanji_meta_len as u32, pitch: 0, ipa: 0 },
        },
        kanji: SummaryItemCount { total: kanji_len as u16 },
        media: SummaryItemCount { total: 0 },
    }
}

/// All the rows of one dictionary with its summary, from the parsed contents
/// of its files: every row is named with the index's title; the tag, kanji
/// metadata, kanji, term metadata and term rows follow their banks in order
/// (each term row carrying the path of its bank's file); the summary is made
/// for Yomitan version `yomitan_version` as [`prepare_dictionary_data`] makes
/// it. `None` where the version comparison cannot complete.
pub fn prepare_dictionary_files(
    index: YomichanIndexFile,
    tag_banks: Vec<Vec<DictionaryDataTag>>,
    kanji_meta_banks: Vec<Vec<DatabaseMetaFrequency>>,
    kanji_banks: Vec<KanjiBank>,
    term_meta_banks: Vec<Vec<TermMeta>>,
    term_banks: Vec<(Vec<TermEntryItem>, String)>,
    yomitan_version: String,
) -> (r: Option<Result<DatabaseDictionaryData, DictionarySummaryError>>)
    requires
        bank_items(term_meta_banks@).len() <= u32::MAX,
    ensures
        r is Some <==> summary_comparable(index, yomitan_version@),
        r matches Some(res) ==> summary_result(
            index,
            false,
            file_counts(
                term_bank_items(term_banks@).len(),
                bank_items(term_meta_banks@),
                bank_items(tag_banks@).len(),
                bank_items(kanji_banks@).len(),
                bank_items(kanji_meta_banks@).len(),
            ),
            Seq::empty(),
            yomitan_version@,
            match res {
                Ok(d) => Ok(d.summary),
                Err(e) => Err(e),
            },
        ),
        r matches Some(Ok(d)) ==> {
            let title = index.title@;
            let (tags, kanji_metas, kanji, term_metas, terms) = (
                bank_items(tag_banks@),
                bank_items(kanji_meta_banks@),
                bank_items(kanji_banks@),
                bank_items(term_meta_banks@),
                term_bank_items(term_banks@),
            );
            &&& d.tag_list@.len() == tags.len()
            &&& forall|i: int| 0 <= i < tags.len() ==> database_tag_of(tags[i], #[trigger] d.tag_list@[i], title)
            &&& d.kanji_meta_list@.len() == kanji_metas.len()
            &&& forall|i: int|
                0 <= i < kanji_metas.len() ==> kanji_meta_prepared(kanji_metas[i], #[trigger] d.kanji_meta_list@[i], title)
            &&& d.kanji_list@.len() == kanji.len()
            &&& forall|i: int| 0 <= i < kanji.len() ==> kanji_assigned(kanji[i], #[trigger] d.kanji_list@[i], title)
            &&& d.term_meta_list@.len() == term_metas.len()
            &&& forall|i: int|
                0 <= i < term_metas.len() ==> database_meta_of(term_metas[i], #[trigger] d.term_meta_list@[i], title)
            &&& d.term_list@.len() == terms.len()
            &&& forall|i: int|
                0 <= i < terms.len() ==> term_row_of(terms[i].0, #[trigger] d.term_list@[i], title, terms[i].1)
            &&& d.summary.import_date.subsec_nanos < 2_000_000_000
            &&& -86_400 < d.summary.import_date.utc_offset_seconds < 86_400
        },
{
    let title = index.title.clone();

    let ghost input = tag_banks@;
    let mut tag_list: Vec<DatabaseTag> = Vec::new();
    for bank in it: tag_banks.into_iter()
        invariant
            it.seq() == input,
            tag_list@.len() == bank_items(input.take(it.index() as int)).len(),
            forall|i: int|
                0 <= i < tag_list@.len() ==> database_tag_of(
                    bank_items(input.take(it.index() as int))[i],
                    #[trigger] tag_list@[i],
                    title@,
                ),
    {
        let ghost before = tag_list@;
        let ghost k = it.index() as int;
        proof {
            assert(input.take(k + 1) =~= input.take(k).push(bank));
            lemma_bank_items_push(input.take(k), bank);
        }
        let mut rows = convert_tag_bank(bank, title.as_str());
        tag_list.append(&mut rows);
        assert forall|i: int| 0 <= i < tag_list@.len() implies database_tag_of(
            bank_items(input.take(k + 1))[i],
            #[trigger] tag_list@[i],
            title@,
        ) by {
            if i >= before.len() {
                assert(bank_items(input.take(k + 1))[i] == bank@[i - before.len()]);
            } else {
                assert(tag_list@[i] == before[i]);
            }
        }
    }
    assert(input.take(input.len() as int) =~= input);

    let ghost input = kanji_meta_banks@;
    let mut kanji_meta_list: Vec<DatabaseMetaFrequency> = Vec::new();
    for bank in it: kanji_meta_banks.into_iter()
        invariant
            it.seq() == input,
            kanji_meta_list@.len() == bank_items(input.take(it.index() as int)).len(),
            forall|i: int|
                0 <= i < kanji_meta_list@.len() ==> kanji_meta_prepared(
                    bank_items(input.take(it.index() as int))[i],
                    #[trigger] kanji_meta_list@[i],
                    title@,
                ),
    {
        let ghost before = kanji_meta_list@;
        let ghost k = it.index() as int;
        proof {
            assert(input.take(k + 1) =~= input.take(k).push(bank));
            lemma_bank_items_push(input.take(k), bank);
        }
        let mut rows = DatabaseMetaMatchType::prepare_kanji_metas(bank, title.as_str());
        kanji_meta_list.append(&mut rows);
        assert forall|i: int| 0 <= i < kanji_meta_list@.len() implies kanji_meta_prepared(
            bank_items(input.take(k + 1))[i],
            #[trigger] kanji_meta_list@[i],
            title@,
        ) by {
            if i >= before.len() {
                assert(bank_items(input.take(k + 1))[i] == bank@[i - before.len()]);
            } else {
                assert(kanji_meta_list@[i] == before[i]);
            }
        }
    }
    assert(input.take(input.len() as int) =~= input);

    let ghost input = kanji_banks@;
    let mut kanji_list: Vec<DatabaseKanjiEntry> = Vec::new();
    for bank in it: kanji_banks.into_iter()
        invariant
            it.seq() == input,
            kanji_list@.len() == bank_items(input.take(it.index() as int)).len(),
            forall|i: int|
                0 <= i < kanji_list@.len() ==> kanji_assigned(
                    bank_items(input.take(it.index() as int))[i],
                    #[trigger] kanji_list@[i],
                    title@,
                ),
    {
        let ghost before = kanji_list@;
        let ghost k = it.index() as int;
        proof {
            assert(input.take(k + 1) =~= input.take(k).push(bank));
            lemma_bank_items_push(input.take(k), bank);
        }
        let mut rows = assign_kanji_dictionary(bank, title.as_str());
        kanji_list.append(&mut rows);
        assert forall|i: int| 0 <= i < kanji_list@.len() implies kanji_assigned(
            bank_items(input.take(k + 1))[i],
            #[trigger] kanji_list@[i],
            title@,
        ) by {
            if i >= before.len() {
                assert(bank_items(input.take(k + 1))[i] == bank@[i - before.len()]);
            } else {
                assert(kanji_list@[i] == before[i]);
            }
        }
    }
    assert(input.take(input.len() as int) =~= input);

    let ghost input = term_meta_banks@;
    let mut term_meta_list: Vec<DatabaseMetaMatchType> = Vec::new();
    for bank in it: term_meta_banks.into_iter()
        invariant
            it.seq() == input,
            term_meta_list@.len() == bank_items(input.take(it.index() as int)).len(),
            forall|i: int|
                0 <= i < term_meta_list@.len() ==> database_meta_of(
                    bank_items(input.take(it.index() as int))[i],
                    #[trigger] term_meta_list@[i],
                    title@,
                ),
    {
        let ghost before = term_meta_list@;
        let ghost k = it.index() as int;
        proof {
            assert(input.take(k + 1) =~= input.take(k).push(bank));
            lemma_bank_items_push(input.take(k), bank);
        }
        let mut rows = DatabaseMetaMatchType::from_term_metas(bank, title.as_str());
        term_meta_list.append(&mut rows);
        assert forall|i: int| 0 <= i < term_meta_list@.len() implies database_meta_of(
            bank_items(input.take(k + 1))[i],
            #[trigger] term_meta_list@[i],
            title@,
        ) by {
            if i >= before.len() {
                assert(bank_items(input.take(k + 1))[i] == bank@[i - before.len()]);
            } else {
                assert(term_meta_list@[i] == before[i]);
            }
        }
    }
    assert(input.take(input.len() as int) =~= input);

    let ghost input = term_banks@;
    let mut term_list: Vec<DatabaseTermEntryTuple> = Vec::new();
    for bank in it: term_banks.into_iter()
        invariant
            it.seq() == input,
            term_list@.len() == term_bank_items(input.take(it.index() as int)).len(),
            forall|i: int|
                0 <= i < term_list@.len() ==> term_row_of(
                    term_bank_items(input.take(it.index() as int))[i].0,
                    #[trigger] term_list@[i],
                    title@,
                    term_bank_items(input.take(it.index() as int))[i].1,
                ),
    {
        let ghost before = term_list@;
        let ghost k = it.index() as int;
        proof {
            assert(input.take(k + 1) =~= input.take(k).push(bank));
            lemma_term_bank_items_push(input.take(k), bank);
        }
        let (entries, path) = bank;
        let mut rows = convert_term_bank(entries, title.as_str(), path.as_str());
        term_list.append(&mut rows);
        assert forall|i: int| 0 <= i < term_list@.len() implies term_row_of(
            term_bank_items(input.take(k + 1))[i].0,
            #[trigger] term_list@[i],
            title@,
            term_bank_items(input.take(k + 1))[i].1,
        ) by {
            if i >= before.len() {
                assert(term_bank_items(input.take(k + 1))[i] == (entries@[i - before.len()], path@));
            } else {
                assert(term_list@[i] == before[i]);
            }
        }
    }
    assert(input.take(input.len() as int) =~= input);

    proof {
        lemma_meta_counts_follow_entries(bank_items(term_meta_banks@), term_meta_list@, title@);
    }
    prepare_dictionary_data(index, tag_list, kanji_meta_list, kanji_list, term_meta_list, term_list, yomitan_version)
}

/// The kind of image import.
#[derive(Clone, Debug, PartialEq)]
pub enum ImageImportMatchType {
    /// An image.
    Image,
    /// An image in structured content.
    StructuredContentImage,
}

/// A requirement for importing an image.
#[derive(Clone, Debug, PartialEq)]
pub struct ImageImportRequirement {
    /// [`ImageImportMatchType::Image`].
    pub image_type: ImageImportMatchType,
    pub target: TermGlossaryImage,
    pub source: TermGlossaryImage,
    pub entry: DatabaseTermEntry,
}

/// A requirement for importing an image from structured content.
#[derive(Clone, Debug, PartialEq)]
pub struct StructuredContentImageImportRequirement {
    /// [`ImageImportMatchType::StructuredContentImage`].
    pub image_type: ImageImportMatchType,
    pub target: TermGlossaryImage,
    pub source: TermGlossaryImage,
    pub entry: DatabaseTermEntry,
}

/// The context for an import requirement.
#[derive(Clone, Debug, PartialEq)]
pub struct ImportRequirementContext {
    pub media: IndexMap<String, MediaDataArrayBufferContent>,
}

/// The entries of a `kanji_bank_$i.json` file.
pub type KanjiBank = Vec<DatabaseKanjiEntry>;

} // verus!
