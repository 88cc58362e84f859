//! The data structures of the Yomichan dictionary format.

use vstd::prelude::*;
use indexmap::IndexMap;
use crate::dictionary_database::TermMetaPhoneticData;
use crate::dictionary_importer::FrequencyMode;
use crate::structured_content::ImageElement;
use crate::utils::{convert_string_to_number, leading_integer};

pub mod dictionary_data_util;

verus! {

/// The type of glossary entry.
#[derive(Clone, Copy, Debug, PartialEq, Eq, Hash)]
pub enum TermGlossaryType {
    /// The glossary entry is text.
    Text,
    /// The glossary entry is an image.
    Image,
}

/// An image in a glossary entry.
#[derive(Clone, Debug, PartialEq)]
pub struct TermGlossaryImage {
    /// The type of the glossary entry.
    pub term_glossary_type: TermGlossaryType,
    /// The image element.
    pub term_image: Option<ImageElement>,
}

/// The metadata of a dictionary (its `index.json`).
#[derive(Clone, Debug, PartialEq)]
pub struct YomichanIndexFile {
    /// Title of the dictionary.
    pub title: String,
    /// Revision of the dictionary; only displayed.
    pub revision: String,
    /// Whether the dictionary has sequencing information for related terms.
    pub sequenced: Option<bool>,
    /// Format of data found in the JSON data files.
    pub format: Option<u8>,
    /// Alias for format (`1` to `3`).
    pub version: Option<u8>,
    /// The minimum version of Yomitan required to use this dictionary.
    pub minimum_yomitan_version: Option<String>,
    /// Whether this dictionary can be updated.
    pub is_updatable: Option<bool>,
    /// The URL where the index file can be found.
    pub index_url: Option<String>,
    /// The URL where the dictionary can be downloaded.
    pub download_url: Option<String>,
    /// Creator of the dictionary.
    pub author: Option<String>,
    /// URL for the source of the dictionary.
    pub url: Option<String>,
    /// Description of the dictionary data.
    pub description: Option<String>,
    /// Attribution information for the dictionary data.
    pub attribution: Option<String>,
    /// Language of the terms (ISO 639).
    pub source_language: Option<String>,
    /// Main language of the definitions (ISO 639).
    pub target_language: Option<String>,
    /// The frequency mode of the dictionary.
    pub frequency_mode: Option<FrequencyMode>,
    /// The tag metadata of the dictionary.
    pub tag_meta: Option<IndexMap<String, IndexTag>>,
}

/// Tag information for terms and kanji.
#[derive(Clone, Debug, PartialEq)]
pub struct IndexTagMeta {
    /// A map of tags.
    pub tags: IndexMap<String, IndexTag>,
}

/// Tag information for terms and kanji, as older index files give it.
#[derive(Clone, Debug, PartialEq)]
pub struct IndexTag {
    pub category: String,
    pub order: u16,
    pub notes: String,
    pub score: u16,
}

/// Information about a single tag (a `tag_bank_$i.json` entry).
#[derive(Clone, Debug, PartialEq)]
pub struct DictionaryDataTag {
    /// Tag name.
    pub name: String,
    /// Category for the tag.
    pub category: String,
    /// Sorting order for the tag.
    pub order: u64,
    /// Notes for the tag.
    pub notes: String,
    /// Popularity score; negative is rarer, positive more frequent.
    pub score: i128,
}

/// A term metadata entry.
#[derive(Clone, Debug, PartialEq)]
pub struct TermMeta {
    /// The term expression.
    pub expression: String,
    /// The type of metadata.
    pub mode: TermMetaModeType,
    /// The metadata content.
    pub data: MetaDataMatchType,
}

/// The metadata of a term.
#[derive(Clone, Debug, PartialEq)]
pub enum MetaDataMatchType {
    /// Frequency metadata.
    Frequency(TermMetaFreqDataMatchType),
    /// Pitch accent metadata.
    Pitch(TermMetaPitchData),
    /// Phonetic transcription metadata.
    Phonetic(TermMetaPhoneticData),
}

/// The main type of a [`TermMeta`] entry.
#[derive(Clone, Copy, Debug, PartialEq, Eq, PartialOrd, Ord)]
pub enum TermMetaModeType {
    /// Frequency metadata.
    Freq,
    /// Pitch accent metadata.
    Pitch,
    /// IPA transcription metadata.
    Ipa,
}

/// The number that stands for a mode: `0` frequency, `1` pitch, `2` IPA.
pub open spec fn mode_number(value: TermMetaModeType) -> u8 {
    match value {
        TermMetaModeType::Freq => 0,
        TermMetaModeType::Pitch => 1,
        TermMetaModeType::Ipa => 2,
    }
}

impl From<TermMetaModeType> for u8 {
    fn from(value: TermMetaModeType) -> (r: u8)
        ensures
            r == mode_number(value),
    {
        match value {
            TermMetaModeType::Freq => 0,
            TermMetaModeType::Pitch => 1,
            TermMetaModeType::Ipa => 2,
        }
    }
}

impl vstd::std_specs::convert::FromSpecImpl<TermMetaModeType> for u8 {
    open spec fn obeys_from_spec() -> bool {
        true
    }

    open spec fn from_spec(v: TermMetaModeType) -> u8 {
        mode_number(v)
    }
}

/// Different modes stand for different numbers.
pub proof fn lemma_mode_number_injective(a: TermMetaModeType, b: TermMetaModeType)
    ensures
        mode_number(a) == mode_number(b) ==> a == b,
{
}


/// The kind of term metadata that an object in a metadata file holds: one
/// with `frequency` or `value` is frequency data, else one with `pitches`
/// pitch data, else one with `transcriptions` phonetic data; none otherwise.
pub open spec fn meta_kind_of_keys(
    has_frequency: bool,
    has_value: bool,
    has_pitches: bool,
    has_transcriptions: bool,
) -> Option<TermMetaModeType> {
    if has_frequency || has_value {
        Some(TermMetaModeType::Freq)
    } else if has_pitches {
        Some(TermMetaModeType::Pitch)
    } else if has_transcriptions {
        Some(TermMetaModeType::Ipa)
    } else {
        None
    }
}

/// The kind of term metadata that an object holds, from the keys it has.
pub fn meta_kind_for_keys(
    has_frequency: bool,
    has_value: bool,
    has_pitches: bool,
    has_transcriptions: bool,
) -> (r: Option<TermMetaModeType>)
    ensures
        r == meta_kind_of_keys(has_frequency, has_value, has_pitches, has_transcriptions),
{
    if has_frequency || has_value {
        Some(TermMetaModeType::Freq)
    } else if has_pitches {
        Some(TermMetaModeType::Pitch)
    } else if has_transcriptions {
        Some(TermMetaModeType::Ipa)
    } else {
        None
    }
}

/// The frequency metadata of a term (a `term_meta_bank_$i.json` entry).
#[derive(Clone, Debug, PartialEq)]
pub struct TermMetaFrequency {
    /// The term expression.
    pub expression: String,
    /// `"freq"` in the file.
    pub mode: TermMetaModeType,
    /// The frequency data.
    pub data: TermMetaFreqDataMatchType,
}

/// Information about the frequency of a term.
#[derive(Clone, Debug, PartialEq)]
pub struct FrequencyInfo {
    /// The frequency of the term.
    pub frequency: i128,
    /// The display value of the frequency.
    pub display_value: Option<String>,
    /// Whether the frequency was read from the display value.
    pub display_value_parsed: bool,
}

/// The frequency data of a term.
#[derive(Clone, Debug, PartialEq)]
pub enum TermMetaFreqDataMatchType {
    /// Frequency data with a reading.
    WithReading(TermMetaFreqDataWithReading),
    /// Generic frequency data.
    Generic(GenericFreqData),
}

/// Generic frequency data.
#[derive(Clone, Debug, PartialEq)]
pub enum GenericFreqData {
    /// Frequency data as an object.
    Object(FreqObjectData),
    /// Frequency data as an integer.
    Integer(i128),
    /// Frequency data as a string.
    String(String),
}

/// The frequency information that a frequency value carries: an object gives
/// its value and display value, an integer itself, and a string the number it
/// starts with, keeping the string as its display value.
pub open spec fn frequency_info_of(data: GenericFreqData, r: FrequencyInfo) -> bool {
    match data {
        GenericFreqData::Object(obj) => {
            &&& r.frequency == obj.value
            &&& r.display_value == obj.display_value
            &&& !r.display_value_parsed
        },
        GenericFreqData::Integer(num) => {
            &&& r.frequency == num
            &&& r.display_value is None
            &&& !r.display_value_parsed
        },
        GenericFreqData::String(s) => {
            &&& r.frequency == leading_integer(s@)
            &&& r.display_value matches Some(d) && d@ == s@
            &&& r.display_value_parsed
        },
    }
}

impl GenericFreqData {
    /// The frequency information of this value.
    pub fn get_frequency_info(&self) -> (r: FrequencyInfo)
        ensures
            frequency_info_of(*self, r),
    {
        match self {
            GenericFreqData::Object(obj) => FrequencyInfo {
                frequency: obj.value,
                display_value: match &obj.display_value {
                    Some(d) => Some(d.clone()),
                    None => None,
                },
                display_value_parsed: false,
            },
            GenericFreqData::Integer(num) => FrequencyInfo {
                frequency: *num,
                display_value: None,
                display_value_parsed: false,
            },
            GenericFreqData::String(s_val) => {
                let numeric_value = convert_string_to_number(s_val.as_str());
                FrequencyInfo {
                    frequency: numeric_value,
                    display_value: Some(s_val.clone()),
                    display_value_parsed: true,
                }
            },
        }
    }

    /// The text that a frequency value carries, if any: the string of a string
    /// value, the display value of an object, nothing for an integer.
    pub fn try_get_reading(&self) -> (r: Option<&String>)
        ensures
            match *self {
                GenericFreqData::Integer(_) => r is None,
                GenericFreqData::String(s) => r matches Some(x) && *x == s,
                GenericFreqData::Object(obj) => match obj.display_value {
                    Some(d) => r matches Some(x) && *x == d,
                    None => r is None,
                },
            },
    {
        match self {
            GenericFreqData::Integer(_) => None,
            GenericFreqData::String(s) => Some(s),
            GenericFreqData::Object(obj) => match &obj.display_value {
                Some(d) => Some(d),
                None => None,
            },
        }
    }
}

/// Frequency data as an object.
#[derive(Clone, Debug, PartialEq, Eq, PartialOrd, Ord)]
pub struct FreqObjectData {
    /// The frequency value.
    pub value: i128,
    /// The display value of the frequency (`displayValue` in the file).
    pub display_value: Option<String>,
}

/// Frequency data with a reading.
#[derive(Clone, Debug, PartialEq)]
pub struct TermMetaFreqDataWithReading {
    /// The reading of the term.
    pub reading: String,
    /// The frequency data.
    pub frequency: GenericFreqData,
}

/// The pitch metadata of a term.
#[derive(Clone, Debug, PartialEq)]
pub struct TermMetaPitch {
    pub expression: String,
    /// `"pitch"` in the file.
    pub mode: TermMetaModeType,
    pub data: TermMetaPitchData,
}

/// A list of numbers or a single number.
#[derive(Clone, Debug, PartialEq, Eq, PartialOrd, Ord, Hash)]
pub enum VecNumOrNum {
    /// A vector of numbers.
    Vec(Vec<u8>),
    /// A single number.
    Num(u8),
}

/// Pitch accent information for a term and reading.
#[derive(Clone, Debug, PartialEq)]
pub struct Pitch {
    /// Mora position of the downstep; `0` means no downstep (heiban).
    pub position: u8,
    /// Positions of morae with a nasal sound.
    pub nasal: Option<VecNumOrNum>,
    /// Positions of morae with a devoiced sound.
    pub devoice: Option<VecNumOrNum>,
    /// Tags for this pitch accent, typically parts of speech.
    pub tags: Option<Vec<String>>,
}

/// The pitch data of a term.
#[derive(Clone, Debug, PartialEq)]
pub struct TermMetaPitchData {
    /// The reading of the term.
    pub reading: String,
    /// The pitch accent information.
    pub pitches: Vec<Pitch>,
}

} // verus!
