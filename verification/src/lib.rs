//! Reading Yomichan / Yomitan dictionaries into database rows.

use vstd::prelude::*;

pub mod dictionary_data;
pub mod dictionary_database;
pub mod dictionary_importer;
pub mod errors;
pub mod outside;
pub mod structured_content;
pub mod text;
pub mod utils;

pub use dictionary_database::DatabaseDictionaryData;
