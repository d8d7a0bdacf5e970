//! JSON documents, as values the library can inspect and build.
use vstd::prelude::*;

verus! {

broadcast use vstd::std_specs::vec::group_vec_axioms;

/// The mathematical form of a JSON document.
pub enum JsonModel {
    Null,
    Bool(bool),
    /// A number, held as its textual form.
    Number(Seq<char>),
    Str(Seq<char>),
    Array(Seq<JsonModel>),
    /// The members of an object, in document order.
    Object(Seq<(Seq<char>, JsonModel)>),
}

/// A JSON document.
#[derive(Debug, PartialEq)]
pub enum Json {
    Null,
    Bool(bool),
    /// A number, held as its textual form.
    Number(String),
    Str(String),
    Array(Vec<Json>),
    /// The members of an object, in document order.
    Object(Vec<(String, Json)>),
}

impl View for Json {
    type V = JsonModel;

    open spec fn view(&self) -> JsonModel
        decreases self,
    {
        match self {
            Json::Null => JsonModel::Null,
            Json::Bool(b) => JsonModel::Bool(*b),
            Json::Number(n) => JsonModel::Number(n@),
            Json::Str(s) => JsonModel::Str(s@),
            Json::Array(items) => JsonModel::Array(
                Seq::new(
                    items.len() as nat,
                    |i: int|
                        {
                            if 0 <= i < items.len() {
                                items[i].view()
                            } else {
                                JsonModel::Null
                            }
                        },
                ),
            ),
            Json::Object(members) => JsonModel::Object(
                Seq::new(
                    members.len() as nat,
                    |i: int|
                        {
                            if 0 <= i < members.len() {
                                (members[i].0@, members[i].1.view())
                            } else {
                                (Seq::empty(), JsonModel::Null)
                            }
                        },
                ),
            ),
        }
    }
}

} // verus!
