//! Typed persistence of small JSON-shaped configuration records.
//!
//! The library holds the three configuration schemas with their defaults,
//! a model of JSON documents, and the verified mapping between the two:
//! encoding a record into a document and decoding a document back into a
//! record, with per-field defaulting of absent members. The host supplies the
//! file system and the text form of JSON; what it found is handed to
//! [`store::load_record`], and what [`store::save_record`] returns is what it
//! writes.
pub mod document;
pub mod error;
pub mod greeting;
pub mod json;
pub mod laws;
pub mod record;
pub mod schema;
pub mod store;

pub use error::ConfigError;
pub use greeting::greet;
pub use json::Json;
pub use record::ConfigRecord;
pub use schema::{
    InputFieldConfig, InputFieldGeneral, Profile, SelectionConfig, SelectionGeneral,
    SettingsConfig,
};
pub use store::{
    load_record, save_record, StoredFile, INPUT_FIELD_FILE, SELECTION_FILE, SETTINGS_FILE,
};
