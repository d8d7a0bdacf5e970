//! Loading and saving a configuration record. The host reads and writes the
//! files and turns text into documents; the decisions are made here.
use vstd::prelude::*;
use crate::error::ConfigError;
use crate::json::{Json, JsonModel};
use crate::record::ConfigRecord;

verus! {

/// The file that holds the application settings.
pub const SETTINGS_FILE: &'static str = "settings.json";

/// The file that holds the input field configuration.
pub const INPUT_FIELD_FILE: &'static str = "input_field.json";

/// The file that holds the selection configuration.
pub const SELECTION_FILE: &'static str = "selection.json";

/// What the host found where a record is stored.
pub enum StoredFile {
    /// No file exists: a first run.
    Missing,
    /// The file exists but could not be read; the host's description.
    Unreadable(String),
    /// The file's text is not JSON; the host's description.
    Malformed(String),
    /// The file holds this document.
    Document(Json),
}

/// The record that loading gives, from the document stored (if any):
/// the default where nothing is stored, else what the document decodes to.
pub open spec fn load_outcome<T: ConfigRecord>(stored: Option<JsonModel>) -> Option<T::V> {
    match stored {
        None => Some(T::default_model()),
        Some(doc) => T::decode_model(doc),
    }
}

/// Loads a record from what the host found.
pub fn load_record<T: ConfigRecord>(stored: StoredFile) -> (r: Result<T, ConfigError>)
    ensures
        match stored {
            StoredFile::Missing => r is Ok && r->Ok_0@ == load_outcome::<T>(None)->Some_0,
            StoredFile::Unreadable(m) => r == Err::<T, ConfigError>(ConfigError::Io(m)),
            StoredFile::Malformed(m) => r == Err::<T, ConfigError>(ConfigError::Parse(m)),
            StoredFile::Document(doc) => match load_outcome::<T>(Some(doc@)) {
                Some(v) => r is Ok && r->Ok_0@ == v,
                None => r is Err && r->Err_0 is Parse,
            },
        },
{
    match stored {
        StoredFile::Missing => Ok(T::default_record()),
        StoredFile::Unreadable(m) => Err(ConfigError::Io(m)),
        StoredFile::Malformed(m) => Err(ConfigError::Parse(m)),
        StoredFile::Document(doc) => T::decode(&doc),
    }
}

/// The document to store for `value`. Saving replaces the whole file.
pub fn save_record<T: ConfigRecord>(value: &T) -> (r: Json)
    ensures
        r@ == T::encode_model(value@),
{
    value.encode()
}

/// Where nothing is stored, loading gives the record's default.
pub proof fn lemma_load_missing<T: ConfigRecord>()
    ensures
        load_outcome::<T>(None) == Some(T::default_model()),
{
}

/// Loading what saving stored gives the saved record back.
pub proof fn lemma_load_after_save<T: ConfigRecord>(v: T::V)
    ensures
        load_outcome::<T>(Some(T::encode_model(v))) == Some(v),
{
    T::lemma_round_trip(v);
}

} // verus!
