//! Helpers for the library's error messages.

pub mod error_helpers;
