//! Encoding presets: those built in, and the rules for presets kept in files.

pub mod builtin;

pub use builtin::{builtin_presets, Preset, PresetCategory};

use crate::paths::{extension_of, path_extension};
use crate::text::{push_str, str_eq, string_of};
use vstd::prelude::*;

verus! {

/// What can go wrong with presets kept in files.
#[derive(Debug, Clone)]
pub enum PresetError {
    /// The file could not be read or written; the operating system's message.
    IoError(String),
    ParseError(String),
    NotFound(String),
}

impl PresetError {
    /// The message shown for the error.
    pub open spec fn spec_message(self) -> Seq<char> {
        match self {
            PresetError::IoError(e) => "Failed to read preset file: "@ + e@,
            PresetError::ParseError(e) => "Failed to parse preset: "@ + e@,
            PresetError::NotFound(e) => "Preset not found: "@ + e@,
        }
    }

    /// Returns the message shown for the error.
    pub fn message(&self) -> (res: String)
        ensures
            res@ == self.spec_message(),
    {
        let (head, e) = match self {
            PresetError::IoError(e) => ("Failed to read preset file: ", e),
            PresetError::ParseError(e) => ("Failed to parse preset: ", e),
            PresetError::NotFound(e) => ("Preset not found: ", e),
        };
        let mut s = string_of(head);
        push_str(&mut s, e.as_str());
        s
    }
}

/// Whether a file of a presets directory holds a preset: its extension is `toml`.
pub fn is_preset_file(path: &str) -> (res: bool)
    ensures
        res == (path_extension(path@) == Some("toml"@)),
{
    match extension_of(path) {
        Some(ext) => str_eq(ext.as_str(), "toml"),
        None => false,
    }
}

} // verus!
