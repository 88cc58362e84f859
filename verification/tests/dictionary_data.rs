use importer::dictionary_data::dictionary_data_util::{
    compare_revision_texts, compare_revisions, try_compare_revisions, validate_url,
};
use importer::dictionary_data::{FreqObjectData, FrequencyInfo, GenericFreqData, TermMetaModeType};
use importer::utils::{convert_string_to_number, CollectionExt};

#[test]
fn numeric_revision_parts_compare_as_numbers() {
    assert!(compare_revisions("1.2.3", "1.2.4"));
    assert!(!compare_revisions("1.2.4", "1.2.3"));
    assert!(!compare_revisions("1.10", "1.9"));
    assert!(compare_revisions("1.5", "1.20"));
}

#[test]
fn equal_revisions_are_not_older() {
    assert!(!compare_revisions("0.0.1", "0.0.1"));
    assert!(!compare_revisions("abc", "abc"));
}

#[test]
fn different_part_counts_compare_as_strings() {
    // "1.5" vs "1.2.0": '5' > '2'
    assert!(!compare_revisions("1.5", "1.2.0"));
    assert!(compare_revisions("1.2", "1.2.0"));
}

#[test]
fn non_numeric_revisions_compare_as_strings() {
    assert!(compare_revisions("abc", "abd"));
    assert!(compare_revisions("1.2-beta", "1.3"));
    assert!(!compare_revisions("b", "a"));
    assert!(compare_revisions("", "a"));
}

#[test]
fn revision_part_too_large_cannot_be_compared() {
    assert_eq!(try_compare_revisions("99999999999", "1"), None);
    assert_eq!(try_compare_revisions("1", "4294967296"), None);
    assert_eq!(try_compare_revisions("4294967295", "1"), Some(false));
}

#[test]
fn non_simple_current_skips_latest_check() {
    assert_eq!(try_compare_revisions("x", "99999999999"), Some(false));
}

#[test]
fn url_validation() {
    assert!(validate_url("https://example.com/index.json").is_ok());
    assert_eq!(validate_url("not a url"), Err(url::ParseError::RelativeUrlWithoutBase));
    assert!(validate_url("").is_err());
}

#[test]
fn string_frequency_is_parsed() {
    let info = GenericFreqData::String("1234㋕".to_string()).get_frequency_info();
    assert_eq!(
        info,
        FrequencyInfo {
            frequency: 1234,
            display_value: Some("1234㋕".to_string()),
            display_value_parsed: true,
        }
    );
}

#[test]
fn integer_and_object_frequencies() {
    let info = GenericFreqData::Integer(-7).get_frequency_info();
    assert_eq!(info.frequency, -7);
    assert_eq!(info.display_value, None);
    assert!(!info.display_value_parsed);
    let obj = GenericFreqData::Object(FreqObjectData {
        value: 42,
        display_value: Some("42★".to_string()),
    });
    let info = obj.get_frequency_info();
    assert_eq!(info.frequency, 42);
    assert_eq!(info.display_value, Some("42★".to_string()));
    assert!(!info.display_value_parsed);
}

#[test]
fn readings_of_frequency_values() {
    assert_eq!(GenericFreqData::Integer(1).try_get_reading(), None);
    let s = GenericFreqData::String("よむ".to_string());
    assert_eq!(s.try_get_reading(), Some(&"よむ".to_string()));
    let o = GenericFreqData::Object(FreqObjectData { value: 1, display_value: None });
    assert_eq!(o.try_get_reading(), None);
    let o = GenericFreqData::Object(FreqObjectData {
        value: 1,
        display_value: Some("d".to_string()),
    });
    assert_eq!(o.try_get_reading(), Some(&"d".to_string()));
}

#[test]
fn leading_integers_of_strings() {
    assert_eq!(convert_string_to_number("abc-12x"), -12);
    assert_eq!(convert_string_to_number("+7"), 7);
    assert_eq!(convert_string_to_number("12.9"), 12);
    assert_eq!(convert_string_to_number(""), 0);
    assert_eq!(convert_string_to_number("none"), 0);
    assert_eq!(convert_string_to_number("１２"), 0);
    assert_eq!(
        convert_string_to_number("170141183460469231731687303715884105727"),
        i128::MAX
    );
    assert_eq!(convert_string_to_number("170141183460469231731687303715884105728"), 0);
}

#[test]
fn mode_numbers() {
    assert_eq!(u8::from(TermMetaModeType::Freq), 0);
    assert_eq!(u8::from(TermMetaModeType::Pitch), 1);
    assert_eq!(u8::from(TermMetaModeType::Ipa), 2);
}

#[test]
fn collection_lengths() {
    let v: Vec<u8> = vec![1, 2, 3];
    assert_eq!(CollectionExt::len(&v), 3);
    assert!(!CollectionExt::is_empty(&v));
    let none: Option<Vec<u8>> = None;
    assert!(CollectionExt::is_empty(&none));
    assert_eq!(CollectionExt::len(&"語".to_string()), 3);
    assert_eq!(CollectionExt::len(&Some("ab".to_string())), 2);
    let mut m: indexmap::IndexMap<String, String> = indexmap::IndexMap::new();
    m.insert("a".to_string(), "b".to_string());
    assert_eq!(CollectionExt::len(&m), 1);
    assert_eq!(CollectionExt::len(&Some(m)), 1);
}

#[test]
fn revision_texts_compare_by_their_shape() {
    assert_eq!(compare_revision_texts("1.10", "1.9", true), Some(false));
    assert_eq!(compare_revision_texts("1.9", "1.10", true), Some(true));
    assert_eq!(compare_revision_texts("1.10", "1.9", false), Some(true));
    assert_eq!(compare_revision_texts("1.5", "1.20.0", true), Some(false));
    assert_eq!(compare_revision_texts("2.0", "2.0", true), Some(false));
    assert_eq!(compare_revision_texts("1.99999999999", "1.2", true), None);
    assert_eq!(compare_revision_texts("1.99999999999", "1.2", false), Some(false));
}

#[test]
fn revision_order_chains_when_compared_alike() {
    assert!(compare_revisions("1.2", "1.3"));
    assert!(compare_revisions("1.3", "1.10"));
    assert!(compare_revisions("1.2", "1.10"));
    // Mixed comparisons need not chain.
    assert!(compare_revisions("1.9", "1.10"));
    assert!(compare_revisions("1.10", "1.1x"));
    assert!(!compare_revisions("1.9", "1.1x"));
}
