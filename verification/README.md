# importer

Reads Yomichan / Yomitan dictionaries into database rows, with the rules of
the format proved in Verus.

## Layout

- `src/` — the verified library (`importer`).
  - `dictionary_data` — the dictionary file format: index, tags, term
    metadata, frequency values; `dictionary_data_util` compares revisions and
    checks URLs.
  - `dictionary_database` — database rows: terms in entry and tuple form,
    tags, metadata rows, kanji, queries.
  - `dictionary_importer` — turning parsed files into rows, recognising the
    files of a dictionary folder, the dictionary summary and its checks.
  - `structured_content` — the element tree of glossaries, which tag or
    `type` selects which variant, and the rendering into plain text;
    `compact_sequence` chooses the fields of elements stored as sequences.
  - `text` — characters and strings: trimming, splitting into words,
    reversing, parsing numbers, lexicographic order.
  - `utils`, `errors` — item counts of collections; module paths in errors.
  - `outside` — the outside types that the library carries.
- `tests/` — tests of the library.
- `app/` — the part that Verus does not see: reading the folder and its JSON
  files (serde forms of the types, with conversions to and from the
  library's), the error types with their messages, and `import_dictionary`.
