//! What a configuration record offers the store: a default value and a
//! mapping to and from JSON documents.
use vstd::prelude::*;
use crate::error::ConfigError;
use crate::json::{Json, JsonModel};

verus! {

/// A record that is persisted as one JSON document.
pub trait ConfigRecord: Sized + View {
    /// The record that a first run starts from.
    spec fn default_model() -> Self::V;

    /// The document that holds `v`.
    spec fn encode_model(v: Self::V) -> JsonModel;

    /// The record that `doc` holds, or nothing where `doc` does not have the
    /// record's shape. Absent members take their defaults.
    spec fn decode_model(doc: JsonModel) -> Option<Self::V>;

    /// The record that a first run starts from.
    fn default_record() -> (r: Self)
        ensures
            r@ == Self::default_model(),
    ;

    /// Encodes the record as a document.
    fn encode(&self) -> (r: Json)
        ensures
            r@ == Self::encode_model(self@),
    ;

    /// Decodes a document into a record.
    fn decode(doc: &Json) -> (r: Result<Self, ConfigError>)
        ensures
            match Self::decode_model(doc@) {
                Some(v) => r is Ok && r->Ok_0@ == v,
                None => r is Err && r->Err_0 is Parse,
            },
    ;

    /// Decoding what encoding produced gives the record back.
    proof fn lemma_round_trip(v: Self::V)
        ensures
            Self::decode_model(Self::encode_model(v)) == Some(v),
    ;
}

} // verus!
