//! Laws of decoding: members the records do not know are ignored, and a
//! known member of the wrong shape is an error, never a silent default.
use vstd::prelude::*;
use crate::document::{
    holds_non_array, holds_non_bool, holds_non_object, holds_non_str, lemma_lookup_insert, lookup,
};
use crate::json::JsonModel;
use crate::record::ConfigRecord;
use crate::schema::{InputFieldConfig, SelectionConfig, SettingsConfig, profile_of};

verus! {

/// An item of a profile list that does not have a profile's shape: not an
/// object, or one whose `id`, `name` or `prompt` is not a string.
pub open spec fn misshapen_profile(item: JsonModel) -> bool {
    match item {
        JsonModel::Object(m) => holds_non_str(m, "id"@) || holds_non_str(m, "name"@)
            || holds_non_str(m, "prompt"@),
        _ => true,
    }
}

/// A `profiles` member that is not an array, or an array with a misshapen
/// item.
pub open spec fn misshapen_profiles(m: Seq<(Seq<char>, JsonModel)>) -> bool {
    holds_non_array(m, "profiles"@) || match lookup(m, "profiles"@) {
        Some(JsonModel::Array(items)) => exists|i: int|
            0 <= i < items.len() && #[trigger] misshapen_profile(items[i]),
        _ => false,
    }
}

/// A misshapen profile item does not decode.
proof fn lemma_misshapen_profile(item: JsonModel)
    requires
        misshapen_profile(item),
    ensures
        profile_of(item) is None,
{
}

/// A misshapen `profiles` member does not decode.
proof fn lemma_misshapen_profiles(m: Seq<(Seq<char>, JsonModel)>)
    requires
        misshapen_profiles(m),
    ensures
        crate::schema::profiles_field(m) is None,
{
    if !holds_non_array(m, "profiles"@) {
        let items = lookup(m, "profiles"@)->Some_0->Array_0;
        let i = choose|i: int| 0 <= i < items.len() && #[trigger] misshapen_profile(items[i]);
        lemma_misshapen_profile(items[i]);
    }
}

/// Settings decoding ignores a member whose name is neither `autoStart` nor
/// `apiKey`, wherever it stands.
pub proof fn lemma_settings_ignore_unknown_member(
    m: Seq<(Seq<char>, JsonModel)>,
    pos: int,
    name: Seq<char>,
    value: JsonModel,
)
    requires
        0 <= pos <= m.len(),
        name != "autoStart"@,
        name != "apiKey"@,
    ensures
        SettingsConfig::decode_model(JsonModel::Object(m.insert(pos, (name, value))))
            == SettingsConfig::decode_model(JsonModel::Object(m)),
{
    lemma_lookup_insert(m, pos, (name, value), "autoStart"@);
    lemma_lookup_insert(m, pos, (name, value), "apiKey"@);
}

/// Input field decoding ignores a member whose name is neither `profiles`
/// nor `general`, wherever it stands.
pub proof fn lemma_input_field_ignore_unknown_member(
    m: Seq<(Seq<char>, JsonModel)>,
    pos: int,
    name: Seq<char>,
    value: JsonModel,
)
    requires
        0 <= pos <= m.len(),
        name != "profiles"@,
        name != "general"@,
    ensures
        InputFieldConfig::decode_model(JsonModel::Object(m.insert(pos, (name, value))))
            == InputFieldConfig::decode_model(JsonModel::Object(m)),
{
    lemma_lookup_insert(m, pos, (name, value), "profiles"@);
    lemma_lookup_insert(m, pos, (name, value), "general"@);
}

/// Selection decoding ignores a member whose name is neither `profiles` nor
/// `general`, wherever it stands.
pub proof fn lemma_selection_ignore_unknown_member(
    m: Seq<(Seq<char>, JsonModel)>,
    pos: int,
    name: Seq<char>,
    value: JsonModel,
)
    requires
        0 <= pos <= m.len(),
        name != "profiles"@,
        name != "general"@,
    ensures
        SelectionConfig::decode_model(JsonModel::Object(m.insert(pos, (name, value))))
            == SelectionConfig::decode_model(JsonModel::Object(m)),
{
    lemma_lookup_insert(m, pos, (name, value), "profiles"@);
    lemma_lookup_insert(m, pos, (name, value), "general"@);
}

/// Settings do not decode from a document that is not an object, nor from
/// one whose `autoStart` is not a boolean or whose `apiKey` is not a string.
pub proof fn lemma_settings_reject_wrong_shape(doc: JsonModel)
    requires
        match doc {
            JsonModel::Object(m) => holds_non_bool(m, "autoStart"@) || holds_non_str(m, "apiKey"@),
            _ => true,
        },
    ensures
        SettingsConfig::decode_model(doc) is None,
{
}

/// The input field configuration does not decode from a document that is
/// not an object, nor from one with misshapen profiles, a `general` that is
/// not an object, or a `general.hotkey` that is not a string.
pub proof fn lemma_input_field_reject_wrong_shape(doc: JsonModel)
    requires
        match doc {
            JsonModel::Object(m) => misshapen_profiles(m) || holds_non_object(m, "general"@)
                || match lookup(m, "general"@) {
                Some(JsonModel::Object(g)) => holds_non_str(g, "hotkey"@),
                _ => false,
            },
            _ => true,
        },
    ensures
        InputFieldConfig::decode_model(doc) is None,
{
    if let JsonModel::Object(m) = doc {
        if misshapen_profiles(m) {
            lemma_misshapen_profiles(m);
        }
    }
}

/// The selection configuration does not decode from a document that is not
/// an object, nor from one with misshapen profiles, a `general` that is not
/// an object, or a `general.enabled` that is not a boolean.
pub proof fn lemma_selection_reject_wrong_shape(doc: JsonModel)
    requires
        match doc {
            JsonModel::Object(m) => misshapen_profiles(m) || holds_non_object(m, "general"@)
                || match lookup(m, "general"@) {
                Some(JsonModel::Object(g)) => holds_non_bool(g, "enabled"@),
                _ => false,
            },
            _ => true,
        },
    ensures
        SelectionConfig::decode_model(doc) is None,
{
    if let JsonModel::Object(m) = doc {
        if misshapen_profiles(m) {
            lemma_misshapen_profiles(m);
        }
    }
}

} // verus!
