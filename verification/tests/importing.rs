use importer::dictionary_data::{
    DictionaryDataTag, FreqObjectData, GenericFreqData, MetaDataMatchType, TermMeta,
    TermMetaFreqDataMatchType, TermMetaModeType, TermMetaPitchData, YomichanIndexFile,
};
use importer::dictionary_database::{
    split_optional_string_field, split_string_field, DBMetaType, DatabaseMetaFrequency,
    DatabaseMetaMatchType, DatabaseTermEntry, DatabaseTermEntryTuple, DictionaryTag,
    GenericQueryRequest, QueryType, TermMetaPhoneticData, TermSourceMatchSource,
    TermSourceMatchType,
};
use importer::dictionary_importer::{
    assign_kanji_dictionary, classify_dictionary_path, convert_tag_bank, convert_term_bank,
    prepare_dictionary_data, prepare_dictionary_files, DictionaryFileKind, DictionarySummary, DictionarySummaryError, ImportDate,
    MetaCounts, SummaryCounts, SummaryDetails,
};
use importer::dictionary_database::DatabaseKanjiEntry;
use importer::errors::error_helpers::fmterr_module;
use importer::structured_content::{
    TermEntryItem, TermGlossary, TermGlossaryContent, TermGlossaryContentGroup,
    TermGlossaryGroupType,
};

fn is_uuid_v7(s: &str) -> bool {
    s.len() == 36
        && s.chars().nth(14) == Some('7')
        && s.chars().enumerate().all(|(i, c)| {
            if [8, 13, 18, 23].contains(&i) {
                c == '-'
            } else {
                c.is_ascii_digit() || ('a'..='f').contains(&c)
            }
        })
}

fn index(title: &str) -> YomichanIndexFile {
    YomichanIndexFile {
        title: title.to_string(),
        revision: "1".to_string(),
        sequenced: Some(true),
        format: Some(3),
        version: Some(3),
        minimum_yomitan_version: None,
        is_updatable: None,
        index_url: None,
        download_url: None,
        author: Some("me".to_string()),
        url: None,
        description: None,
        attribution: None,
        source_language: Some("ja".to_string()),
        target_language: Some("en".to_string()),
        frequency_mode: None,
        tag_meta: None,
    }
}

fn zero_counts() -> SummaryCounts {
    SummaryCounts::new(0, 0, 0, 0, 0, MetaCounts::default(), MetaCounts::default())
}

fn details(version: &str) -> SummaryDetails {
    SummaryDetails {
        prefix_wildcard_supported: false,
        counts: zero_counts(),
        styles: "s".to_string(),
        yomitan_version: version.to_string(),
    }
}

#[test]
fn words_of_fields() {
    assert_eq!(split_string_field("a  b c ".to_string()), vec!["a", "b", "c"]);
    assert_eq!(split_string_field("".to_string()), Vec::<String>::new());
    assert_eq!(split_string_field("   ".to_string()), Vec::<String>::new());
    assert_eq!(split_optional_string_field(None), Vec::<String>::new());
    assert_eq!(split_optional_string_field(Some("v5 vt".to_string())), vec!["v5", "vt"]);
}

#[test]
fn database_entry_becomes_term_entry() {
    let entry = DatabaseTermEntry {
        id: "id".to_string(),
        expression: "読む".to_string(),
        reading: "よむ".to_string(),
        expression_reverse: "む読".to_string(),
        reading_reverse: "むよ".to_string(),
        definition_tags: Some("v5 vt".to_string()),
        tags: Some("legacy".to_string()),
        rules: "v5".to_string(),
        score: 3,
        glossary: vec![],
        sequence: None,
        term_tags: None,
        dictionary: "d".to_string(),
        file_path: "p".to_string(),
    };
    let t = entry.into_term_entry_specific(TermSourceMatchSource::Reading, TermSourceMatchType::Prefix, 4);
    assert_eq!(t.id, "id");
    assert_eq!(t.index, 4);
    assert_eq!(t.term, "読む");
    assert_eq!(t.definition_tags, vec!["v5", "vt"]);
    assert_eq!(t.term_tags, Vec::<String>::new());
    assert_eq!(t.rules, vec!["v5"]);
    assert_eq!(t.sequence, -1);
    assert_eq!(t.match_source, TermSourceMatchSource::Reading);
    assert_eq!(t.match_type, TermSourceMatchType::Prefix);
}

#[test]
fn legacy_tags_stand_in_for_definition_tags() {
    let entry = DatabaseTermEntry {
        definition_tags: None,
        tags: Some("n adj".to_string()),
        ..Default::default()
    };
    let t = entry.into_term_entry_specific(TermSourceMatchSource::Term, TermSourceMatchType::Exact, 0);
    assert_eq!(t.definition_tags, vec!["n", "adj"]);
    let entry = DatabaseTermEntry { definition_tags: None, tags: None, ..Default::default() };
    let t = entry.into_term_entry_specific(TermSourceMatchSource::Term, TermSourceMatchType::Exact, 0);
    assert_eq!(t.definition_tags, Vec::<String>::new());
}

#[test]
fn tuple_and_entry_round_trip() {
    let tuple = DatabaseTermEntryTuple(
        "i".into(), "e".into(), "r".into(), "e".into(), "r".into(), None, None, "".into(), 1,
        vec![], Some(9), Some("t".into()), "d".into(), "f".into(),
    );
    let entry = DatabaseTermEntry::from(tuple);
    assert_eq!(entry.id, "i");
    assert_eq!(entry.sequence, Some(9));
    let back = DatabaseTermEntryTuple::from(entry.clone());
    assert_eq!(DatabaseTermEntry::from(back), entry);
}

#[test]
fn default_tags() {
    let t = DictionaryTag::new_default("n".to_string(), "dict".to_string());
    assert_eq!(t.category, "default");
    assert_eq!(t.dictionaries, vec!["dict"]);
    assert_eq!(t.order, 0);
    assert!(t.content.is_empty());
    assert!(!t.redundant);
}

#[test]
fn generic_queries() {
    let q = GenericQueryRequest::new(QueryType::Sequence(5), "d");
    assert_eq!(q.query_type, QueryType::Sequence(5));
    assert_eq!(q.dictionary, "d");
    let qs = GenericQueryRequest::from_query_type_slice_to_vec(
        &[QueryType::String("a".into()), QueryType::Sequence(1)],
        "x",
    );
    assert_eq!(qs.len(), 2);
    assert_eq!(qs[0].query_type, QueryType::String("a".into()));
    assert_eq!(qs[1].dictionary, "x");
}

#[test]
fn term_metas_become_rows() {
    let metas = vec![
        TermMeta {
            expression: "a".into(),
            mode: TermMetaModeType::Pitch,
            data: MetaDataMatchType::Frequency(TermMetaFreqDataMatchType::Generic(
                GenericFreqData::Integer(1),
            )),
        },
        TermMeta {
            expression: "b".into(),
            mode: TermMetaModeType::Pitch,
            data: MetaDataMatchType::Pitch(TermMetaPitchData { reading: "b".into(), pitches: vec![] }),
        },
        TermMeta {
            expression: "c".into(),
            mode: TermMetaModeType::Freq,
            data: MetaDataMatchType::Phonetic(TermMetaPhoneticData {
                reading: "c".into(),
                transcriptions: vec![],
            }),
        },
    ];
    let rows = DatabaseMetaMatchType::from_term_metas(metas, "dict");
    assert_eq!(rows.len(), 3);
    match &rows[0] {
        DatabaseMetaMatchType::Frequency(f) => {
            assert_eq!(f.mode, TermMetaModeType::Freq);
            assert_eq!(f.expression(), "a");
            assert_eq!(f.dictionary, "dict");
            assert!(is_uuid_v7(&f.id));
        }
        _ => panic!("expected a frequency row"),
    }
    match &rows[1] {
        DatabaseMetaMatchType::Pitch(p) => assert_eq!(*p.mode(), TermMetaModeType::Pitch),
        _ => panic!("expected a pitch row"),
    }
    match &rows[2] {
        DatabaseMetaMatchType::Phonetic(p) => assert_eq!(*p.mode(), TermMetaModeType::Ipa),
        _ => panic!("expected a phonetic row"),
    }
    let counts = MetaCounts::count_term_metas(&rows);
    assert_eq!((counts.freq, counts.pitch, counts.ipa), (1, 1, 1));
}

#[test]
fn kanji_metas_get_ids_and_dictionary() {
    let metas = vec![DatabaseMetaFrequency {
        id: String::new(),
        freq_expression: "日".into(),
        mode: TermMetaModeType::Freq,
        data: TermMetaFreqDataMatchType::Generic(GenericFreqData::Object(FreqObjectData {
            value: 3,
            display_value: None,
        })),
        dictionary: String::new(),
    }];
    let rows = DatabaseMetaMatchType::prepare_kanji_metas(metas, "k");
    assert_eq!(rows[0].dictionary, "k");
    assert_eq!(rows[0].freq_expression, "日");
    assert!(is_uuid_v7(&rows[0].id));
    let counts = MetaCounts::count_kanji_metas(&rows);
    assert_eq!((counts.freq, counts.pitch, counts.ipa), (1, 0, 0));
}

#[test]
fn tag_banks_become_rows() {
    let rows = convert_tag_bank(
        vec![DictionaryDataTag {
            name: "n".into(),
            category: "partOfSpeech".into(),
            order: 2,
            notes: "noun".into(),
            score: -1,
        }],
        "dict",
    );
    assert_eq!(rows.len(), 1);
    assert_eq!(rows[0].name, "n");
    assert_eq!(rows[0].score, -1);
    assert_eq!(rows[0].dictionary, "dict");
    assert!(is_uuid_v7(&rows[0].id));
}

#[test]
fn kanji_entries_get_dictionary() {
    let entries = vec![DatabaseKanjiEntry {
        character: "日".into(),
        onyomi: Some("ニチ".into()),
        kunyomi: None,
        tags: None,
        meanings: vec!["day".into()],
        stats: None,
        dictionary: None,
    }];
    let out = assign_kanji_dictionary(entries, "kd");
    assert_eq!(out[0].dictionary, Some("kd".to_string()));
    assert_eq!(out[0].meanings, vec!["day"]);
}

#[test]
fn term_banks_become_rows() {
    let items = vec![TermEntryItem {
        expression: "読む".into(),
        reading: "よむ".into(),
        def_tags: Some("v5".into()),
        rules: "v5".into(),
        score: 10,
        structured_content: vec![TermGlossary::Content(TermGlossaryContent::String(" to read ".into()))],
        sequence: 7,
        term_tags: "".into(),
    }];
    let rows = convert_term_bank(items, "dict", "dict/term_bank_1.json");
    assert_eq!(rows.len(), 1);
    let r = &rows[0];
    assert!(is_uuid_v7(&r.0));
    assert_eq!(r.1, "読む");
    assert_eq!(r.3, "む読");
    assert_eq!(r.4, "むよ");
    assert_eq!(r.6, None);
    assert_eq!(
        r.9,
        vec![TermGlossaryGroupType::Content(TermGlossaryContentGroup {
            plain_text: "to read".into(),
            html: None,
        })]
    );
    assert_eq!(r.10, Some(7));
    assert_eq!(r.11, Some(String::new()));
    assert_eq!(r.12, "dict");
    assert_eq!(r.13, "dict/term_bank_1.json");
}

#[test]
fn dictionary_paths_are_classified() {
    assert_eq!(classify_dictionary_path(b"d/term_bank_1.json"), Some(DictionaryFileKind::TermBank));
    assert_eq!(classify_dictionary_path(b"d/index.json"), Some(DictionaryFileKind::Index));
    assert_eq!(
        classify_dictionary_path(b"d/term_meta_bank_2.json"),
        Some(DictionaryFileKind::TermMetaBank)
    );
    assert_eq!(
        classify_dictionary_path(b"d/kanji_meta_bank_1.json"),
        Some(DictionaryFileKind::KanjiMetaBank)
    );
    assert_eq!(classify_dictionary_path(b"d/kanji_bank_1.json"), Some(DictionaryFileKind::KanjiBank));
    assert_eq!(classify_dictionary_path(b"d/tag_bank_1.json"), Some(DictionaryFileKind::TagBank));
    assert_eq!(classify_dictionary_path(b"d/styles.css"), None);
    assert_eq!(classify_dictionary_path(b"term_bank/"), None);
    assert_eq!(classify_dictionary_path(b""), None);
}

#[test]
fn summary_copies_the_index() {
    let s = DictionarySummary::new(index("辞書"), true, details("1.0.0")).unwrap();
    assert_eq!(s.title, "辞書");
    assert_eq!(s.author, Some("me".to_string()));
    assert_eq!(s.styles, "s");
    assert!(s.prefix_wildcards_supported);
    assert!(!s.is_updatable);
    assert_eq!(s.counts, zero_counts());
}

#[test]
fn summary_rejects_newer_requirement() {
    let mut i = index("t");
    i.minimum_yomitan_version = Some("2.0.0".to_string());
    match DictionarySummary::new(i, false, details("1.9.9")) {
        Err(DictionarySummaryError::IncompatibleYomitanVersion {
            yomitan_version,
            minimum_required_yomitan_version,
            dictionary,
        }) => {
            assert_eq!(yomitan_version, "1.9.9");
            assert_eq!(minimum_required_yomitan_version, "2.0.0");
            assert_eq!(dictionary, "t");
        }
        other => panic!("unexpected {other:?}"),
    }
}

#[test]
fn development_version_accepts_any_requirement() {
    let mut i = index("t");
    i.minimum_yomitan_version = Some("99.0".to_string());
    assert!(DictionarySummary::new(i, false, details("0.0.0.0")).is_ok());
}

#[test]
fn summary_rejects_not_updatable() {
    let mut i = index("t");
    i.is_updatable = Some(false);
    assert!(matches!(
        DictionarySummary::new(i, false, details("1.0")),
        Err(DictionarySummaryError::InvalidIndexIsNotUpdatabale)
    ));
}

#[test]
fn summary_rejects_bad_urls() {
    let mut i = index("t");
    i.is_updatable = Some(true);
    i.index_url = Some("https://ok.example/index.json".to_string());
    i.download_url = Some("nope".to_string());
    match DictionarySummary::new(i, false, details("1.0")) {
        Err(DictionarySummaryError::InvalidIndexUrl { url, err }) => {
            assert_eq!(url, "nope");
            assert_eq!(err, url::ParseError::RelativeUrlWithoutBase);
        }
        other => panic!("unexpected {other:?}"),
    }
    let mut i = index("t");
    i.is_updatable = Some(true);
    i.index_url = Some("https://ok.example/index.json".to_string());
    let s = DictionarySummary::new(i, false, details("1.0")).unwrap();
    assert!(s.is_updatable);
}

#[test]
fn summary_that_cannot_compare_is_none() {
    let mut i = index("t");
    i.minimum_yomitan_version = Some("1.99999999999".to_string());
    assert!(DictionarySummary::try_new(i, false, details("1.0")).is_none());
    let i = index("t");
    assert!(DictionarySummary::try_new(i, false, details("1.0")).is_some());
}

#[test]
fn counts_wrap_at_sixteen_bits() {
    let c = SummaryCounts::new(70000, 1, 2, 3, 4, MetaCounts::default(), MetaCounts::default());
    assert_eq!(c.terms.total, 4464);
    assert_eq!(c.term_meta.total, 1);
    assert_eq!(c.tag_meta.total, 2);
    assert_eq!(c.kanji.total, 3);
    assert_eq!(c.kanji_meta.total, 4);
    assert_eq!(c.media.total, 0);
}

#[test]
fn dictionary_data_is_assembled() {
    let data = prepare_dictionary_data(
        index("小学館 西和中辞典 第2版"),
        vec![],
        vec![],
        vec![],
        vec![],
        vec![],
        "0.1.0".to_string(),
    )
    .unwrap()
    .unwrap();
    assert_eq!(data.summary.title, "小学館 西和中辞典 第2版");
    assert_eq!(data.summary.styles, "");
    assert!(!data.summary.prefix_wildcards_supported);
    assert_eq!(data.summary.counts.terms.total, 0);
}

#[test]
fn module_paths_are_joined() {
    assert_eq!(fmterr_module(vec!["main", "database"]), "main::database");
    assert_eq!(fmterr_module(vec!["one"]), "one");
    assert_eq!(fmterr_module(vec![]), "");
}

#[test]
fn summary_from_checks_follows_the_outcomes() {
    let date = ImportDate { timestamp: 1_700_000_000, subsec_nanos: 5, utc_offset_seconds: 3600 };

    let mut i = index("t");
    i.minimum_yomitan_version = Some("9".to_string());
    assert!(matches!(
        DictionarySummary::from_checks(i, false, details("1"), date, true, Ok(()), Ok(())),
        Err(DictionarySummaryError::IncompatibleYomitanVersion { .. })
    ));

    let mut i = index("t");
    i.is_updatable = Some(true);
    i.index_url = Some("bad".to_string());
    i.download_url = Some("also bad".to_string());
    match DictionarySummary::from_checks(
        i,
        false,
        details("1"),
        date,
        false,
        Err(url::ParseError::EmptyHost),
        Err(url::ParseError::InvalidPort),
    ) {
        Err(DictionarySummaryError::InvalidIndexUrl { url, err }) => {
            assert_eq!(url, "bad");
            assert_eq!(err, url::ParseError::EmptyHost);
        }
        other => panic!("unexpected {other:?}"),
    }

    // A failed check of an absent URL, or of a dictionary that is not marked
    // updatable, is not looked at.
    let mut i = index("t");
    i.index_url = Some("bad".to_string());
    let s = DictionarySummary::from_checks(
        i,
        true,
        details("1"),
        date,
        false,
        Err(url::ParseError::EmptyHost),
        Err(url::ParseError::EmptyHost),
    )
    .unwrap();
    assert_eq!(s.import_date, date);
    assert!(s.prefix_wildcards_supported);
    assert_eq!(s.index_url, Some("bad".to_string()));
}

fn tag(name: &str) -> DictionaryDataTag {
    DictionaryDataTag { name: name.into(), category: "c".into(), order: 0, notes: "".into(), score: 0 }
}

fn term(expression: &str) -> TermEntryItem {
    TermEntryItem {
        expression: expression.into(),
        reading: "".into(),
        def_tags: None,
        rules: "".into(),
        score: 0,
        structured_content: vec![],
        sequence: 1,
        term_tags: "".into(),
    }
}

#[test]
fn dictionary_files_are_named_by_the_index_title() {
    let kanji = DatabaseKanjiEntry {
        character: "日".into(),
        onyomi: None,
        kunyomi: None,
        tags: None,
        meanings: vec![],
        stats: None,
        dictionary: Some("other".into()),
    };
    let metas = vec![TermMeta {
        expression: "a".into(),
        mode: TermMetaModeType::Freq,
        data: MetaDataMatchType::Pitch(TermMetaPitchData { reading: "a".into(), pitches: vec![] }),
    }];
    let data = prepare_dictionary_files(
        index("T"),
        vec![vec![tag("x"), tag("y")], vec![tag("z")]],
        vec![],
        vec![vec![kanji]],
        vec![metas],
        vec![
            (vec![term("one")], "d/term_bank_1.json".to_string()),
            (vec![term("two"), term("three")], "d/term_bank_2.json".to_string()),
        ],
        "0.1.0".to_string(),
    )
    .unwrap()
    .unwrap();
    let names: Vec<&str> = data.tag_list.iter().map(|t| t.name.as_str()).collect();
    assert_eq!(names, vec!["x", "y", "z"]);
    assert!(data.tag_list.iter().all(|t| t.dictionary == "T"));
    assert_eq!(data.kanji_list[0].dictionary, Some("T".to_string()));
    match &data.term_meta_list[0] {
        DatabaseMetaMatchType::Pitch(p) => assert_eq!(p.dictionary, "T"),
        _ => panic!("expected a pitch row"),
    }
    let terms: Vec<(&str, &str, &str)> =
        data.term_list.iter().map(|t| (t.1.as_str(), t.12.as_str(), t.13.as_str())).collect();
    assert_eq!(
        terms,
        vec![
            ("one", "T", "d/term_bank_1.json"),
            ("two", "T", "d/term_bank_2.json"),
            ("three", "T", "d/term_bank_2.json"),
        ]
    );
    assert_eq!(data.summary.title, "T");
    assert_eq!(data.summary.counts.terms.total, 3);
    assert_eq!(data.summary.counts.tag_meta.total, 3);
    assert_eq!(data.summary.counts.term_meta.meta.pitch, 1);
    assert_eq!(data.summary.styles, "");
    assert!(!data.summary.prefix_wildcards_supported);
}
