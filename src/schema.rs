//! The three configuration records, their defaults, and how each maps to a
//! JSON document. Member names are lower camel case.
use vstd::prelude::*;
use vstd::string::StringExecFns;
use crate::document::{
    bool_field, bool_member, find_member, lemma_lookup_at, lookup, lemma_array_view, lemma_object_view, members_model, str_field,
    str_member, items_model,
};
use crate::error::ConfigError;
use crate::json::{Json, JsonModel};
use crate::record::ConfigRecord;

verus! {

broadcast use vstd::std_specs::vec::group_vec_axioms;

/// The error for a document without the record's shape.
fn shape_error() -> (r: ConfigError)
    ensures
        r is Parse,
{
    ConfigError::Parse(String::from_str("the document does not have the record's shape"))
}

// ---------------------------------------------------------------- settings

/// Application settings.
#[derive(Debug, Clone, PartialEq, Eq)]
pub struct SettingsConfig {
    pub auto_start: bool,
    pub api_key: String,
}

/// The model of [`SettingsConfig`].
pub struct SettingsModel {
    pub auto_start: bool,
    pub api_key: Seq<char>,
}

impl View for SettingsConfig {
    type V = SettingsModel;

    open spec fn view(&self) -> SettingsModel {
        SettingsModel { auto_start: self.auto_start, api_key: self.api_key@ }
    }
}

impl Default for SettingsConfig {
    fn default() -> (r: Self)
        ensures
            r@ == SettingsConfig::default_model(),
    {
        SettingsConfig { auto_start: false, api_key: String::new() }
    }
}

impl ConfigRecord for SettingsConfig {
    open spec fn default_model() -> SettingsModel {
        SettingsModel { auto_start: false, api_key: Seq::empty() }
    }

    open spec fn encode_model(v: SettingsModel) -> JsonModel {
        JsonModel::Object(
            seq![("autoStart"@, JsonModel::Bool(v.auto_start)), ("apiKey"@, JsonModel::Str(v.api_key))],
        )
    }

    open spec fn decode_model(doc: JsonModel) -> Option<SettingsModel> {
        match doc {
            JsonModel::Object(m) => match (bool_field(m, "autoStart"@, false), str_field(m, "apiKey"@)) {
                (Some(auto_start), Some(api_key)) => Some(SettingsModel { auto_start, api_key }),
                _ => None,
            },
            _ => None,
        }
    }

    fn default_record() -> (r: Self) {
        SettingsConfig::default()
    }

    fn encode(&self) -> (r: Json) {
        let mut members: Vec<(String, Json)> = Vec::new();
        members.push((String::from_str("autoStart"), Json::Bool(self.auto_start)));
        members.push((String::from_str("apiKey"), Json::Str(self.api_key.clone())));
        proof {
            lemma_object_view(members);
            assert(members_model(members) =~= Self::encode_model(self@)->Object_0);
        }
        Json::Object(members)
    }

    fn decode(doc: &Json) -> (r: Result<Self, ConfigError>) {
        match doc {
            Json::Object(members) => {
                proof {
                    lemma_object_view(*members);
                }
                let auto_start = bool_member(members, &String::from_str("autoStart"), false);
                let api_key = str_member(members, &String::from_str("apiKey"));
                match (auto_start, api_key) {
                    (Some(auto_start), Some(api_key)) => Ok(SettingsConfig { auto_start, api_key }),
                    _ => Err(shape_error()),
                }
            },
            _ => Err(shape_error()),
        }
    }

    proof fn lemma_round_trip(v: SettingsModel) {
        reveal_strlit("autoStart");
        reveal_strlit("apiKey");
        assert("autoStart"@.len() != "apiKey"@.len());
        let m = Self::encode_model(v)->Object_0;
        lemma_lookup_at(m, "autoStart"@, 0);
        lemma_lookup_at(m, "apiKey"@, 1);
    }
}

} // verus!

verus! {

// ---------------------------------------------------------------- profiles

/// A named prompt, kept in order inside the two feature configurations.
/// Ids are not required to be unique.
#[derive(Debug, Clone, PartialEq, Eq)]
pub struct Profile {
    pub id: String,
    pub name: String,
    pub prompt: String,
}

/// The model of [`Profile`].
pub struct ProfileModel {
    pub id: Seq<char>,
    pub name: Seq<char>,
    pub prompt: Seq<char>,
}

impl View for Profile {
    type V = ProfileModel;

    open spec fn view(&self) -> ProfileModel {
        ProfileModel { id: self.id@, name: self.name@, prompt: self.prompt@ }
    }
}

impl Default for Profile {
    fn default() -> (r: Self)
        ensures
            r@ == (ProfileModel { id: Seq::empty(), name: Seq::empty(), prompt: Seq::empty() }),
    {
        Profile { id: String::new(), name: String::new(), prompt: String::new() }
    }
}

/// The document that holds profile `p`.
pub open spec fn profile_json(p: ProfileModel) -> JsonModel {
    JsonModel::Object(
        seq![("id"@, JsonModel::Str(p.id)), ("name"@, JsonModel::Str(p.name)), ("prompt"@, JsonModel::Str(p.prompt))],
    )
}

/// The profile that `doc` holds; absent members are empty.
pub open spec fn profile_of(doc: JsonModel) -> Option<ProfileModel> {
    match doc {
        JsonModel::Object(m) => match (str_field(m, "id"@), str_field(m, "name"@), str_field(m, "prompt"@)) {
            (Some(id), Some(name), Some(prompt)) => Some(ProfileModel { id, name, prompt }),
            _ => None,
        },
        _ => None,
    }
}

/// The array that holds `ps`, in order.
pub open spec fn profiles_json(ps: Seq<ProfileModel>) -> JsonModel {
    JsonModel::Array(Seq::new(ps.len(), |i: int| profile_json(ps[i])))
}

/// The profiles that `items` hold, where every item holds one.
pub open spec fn profiles_of(items: Seq<JsonModel>) -> Option<Seq<ProfileModel>> {
    if forall|i: int| 0 <= i < items.len() ==> (#[trigger] profile_of(items[i])) is Some {
        Some(Seq::new(items.len(), |i: int| profile_of(items[i])->Some_0))
    } else {
        None
    }
}

/// The `profiles` member of an object: empty when absent.
pub open spec fn profiles_field(m: Seq<(Seq<char>, JsonModel)>) -> Option<Seq<ProfileModel>> {
    match lookup(m, "profiles"@) {
        None => Some(Seq::empty()),
        Some(JsonModel::Array(items)) => profiles_of(items),
        Some(_) => None,
    }
}

/// A profile read back from its document is the profile itself.
pub proof fn lemma_profile_round_trip(p: ProfileModel)
    ensures
        profile_of(profile_json(p)) == Some(p),
{
    reveal_strlit("id");
    reveal_strlit("name");
    reveal_strlit("prompt");
    assert("id"@.len() != "name"@.len());
    assert("id"@.len() != "prompt"@.len());
    assert("name"@.len() != "prompt"@.len());
    let m = profile_json(p)->Object_0;
    lemma_lookup_at(m, "id"@, 0);
    lemma_lookup_at(m, "name"@, 1);
    lemma_lookup_at(m, "prompt"@, 2);
}

/// A list of profiles read back from its array is the list itself.
pub proof fn lemma_profiles_round_trip(ps: Seq<ProfileModel>)
    ensures
        profiles_of(profiles_json(ps)->Array_0) == Some(ps),
{
    let items = profiles_json(ps)->Array_0;
    assert forall|i: int| 0 <= i < items.len() implies (#[trigger] profile_of(items[i])) == Some(
        ps[i],
    ) by {
        lemma_profile_round_trip(ps[i]);
    }
    assert(Seq::new(items.len(), |i: int| profile_of(items[i])->Some_0) =~= ps);
}

impl Profile {
    /// Encodes the profile as a document.
    pub fn to_json(&self) -> (r: Json)
        ensures
            r@ == profile_json(self@),
    {
        let mut members: Vec<(String, Json)> = Vec::new();
        members.push((String::from_str("id"), Json::Str(self.id.clone())));
        members.push((String::from_str("name"), Json::Str(self.name.clone())));
        members.push((String::from_str("prompt"), Json::Str(self.prompt.clone())));
        proof {
            lemma_object_view(members);
            assert(members_model(members) =~= profile_json(self@)->Object_0);
        }
        Json::Object(members)
    }

    /// Decodes a profile from a document.
    pub fn from_json(doc: &Json) -> (r: Option<Profile>)
        ensures
            match profile_of(doc@) {
                Some(p) => r is Some && r->Some_0@ == p,
                None => r is None,
            },
    {
        match doc {
            Json::Object(members) => {
                proof {
                    lemma_object_view(*members);
                }
                let id = str_member(members, &String::from_str("id"));
                let name = str_member(members, &String::from_str("name"));
                let prompt = str_member(members, &String::from_str("prompt"));
                match (id, name, prompt) {
                    (Some(id), Some(name), Some(prompt)) => Some(Profile { id, name, prompt }),
                    _ => None,
                }
            },
            _ => None,
        }
    }
}

/// The models of a list of profiles.
pub open spec fn profiles_model(ps: Seq<Profile>) -> Seq<ProfileModel> {
    ps.map_values(|p: Profile| p@)
}

/// Encodes a list of profiles as an array, in order.
pub fn profiles_to_json(ps: &Vec<Profile>) -> (r: Json)
    ensures
        r@ == profiles_json(profiles_model(ps@)),
{
    let mut items: Vec<Json> = Vec::new();
    let mut i: usize = 0;
    while i < ps.len()
        invariant
            i <= ps.len(),
            items.len() == i,
            forall|j: int| 0 <= j < i ==> #[trigger] items[j]@ == profile_json(ps[j]@),
        decreases ps.len() - i,
    {
        let item = ps[i].to_json();
        items.push(item);
        i = i + 1;
    }
    proof {
        lemma_array_view(items);
        assert(items_model(items) =~= profiles_json(profiles_model(ps@))->Array_0);
    }
    Json::Array(items)
}

/// Decodes a list of profiles from the items of an array, in order.
pub fn profiles_from_json(items: &Vec<Json>) -> (r: Option<Vec<Profile>>)
    ensures
        match profiles_of(items_model(*items)) {
            Some(ps) => r is Some && profiles_model(r->Some_0@) == ps,
            None => r is None,
        },
{
    let ghost model = items_model(*items);
    let mut out: Vec<Profile> = Vec::new();
    let mut i: usize = 0;
    while i < items.len()
        invariant
            i <= items.len(),
            model == items_model(*items),
            out.len() == i,
            forall|j: int| 0 <= j < i ==> (#[trigger] profile_of(model[j])) is Some,
            forall|j: int|
                0 <= j < i ==> #[trigger] out[j]@ == profile_of(model[j])->Some_0,
        decreases items.len() - i,
    {
        match Profile::from_json(&items[i]) {
            Some(p) => {
                out.push(p);
            },
            None => {
                proof {
                    assert(model[i as int] == items[i as int]@);
                    assert(profile_of(model[i as int]) is None);
                }
                return None;
            },
        }
        i = i + 1;
    }
    proof {
        assert(profiles_model(out@) =~= profiles_of(model)->Some_0);
    }
    Some(out)
}

} // verus!

verus! {

/// Reads the `profiles` member of an object, empty when absent.
fn profiles_member(members: &Vec<(String, Json)>) -> (r: Option<Vec<Profile>>)
    ensures
        match profiles_field(members_model(*members)) {
            Some(ps) => r is Some && profiles_model(r->Some_0@) == ps,
            None => r is None,
        },
{
    match find_member(members, &String::from_str("profiles")) {
        None => {
            let empty: Vec<Profile> = Vec::new();
            proof {
                assert(profiles_model(empty@) =~= Seq::empty());
            }
            Some(empty)
        },
        Some(i) => match &members[i].1 {
            Json::Array(items) => {
                proof {
                    lemma_array_view(*items);
                }
                profiles_from_json(items)
            },
            _ => None,
        },
    }
}

// ------------------------------------------------------- input field feature

/// General options of the input field feature.
#[derive(Debug, Clone, PartialEq, Eq)]
pub struct InputFieldGeneral {
    pub hotkey: String,
}

/// The model of [`InputFieldGeneral`].
pub struct InputFieldGeneralModel {
    pub hotkey: Seq<char>,
}

impl View for InputFieldGeneral {
    type V = InputFieldGeneralModel;

    open spec fn view(&self) -> InputFieldGeneralModel {
        InputFieldGeneralModel { hotkey: self.hotkey@ }
    }
}

impl Default for InputFieldGeneral {
    fn default() -> (r: Self)
        ensures
            r@ == (InputFieldGeneralModel { hotkey: Seq::empty() }),
    {
        InputFieldGeneral { hotkey: String::new() }
    }
}

/// The document that holds `g`.
pub open spec fn input_general_json(g: InputFieldGeneralModel) -> JsonModel {
    JsonModel::Object(seq![("hotkey"@, JsonModel::Str(g.hotkey))])
}

/// The `general` member of an input field document: the default when
/// absent.
pub open spec fn input_general_field(m: Seq<(Seq<char>, JsonModel)>) -> Option<
    InputFieldGeneralModel,
> {
    match lookup(m, "general"@) {
        None => Some(InputFieldGeneralModel { hotkey: Seq::empty() }),
        Some(JsonModel::Object(g)) => match str_field(g, "hotkey"@) {
            Some(hotkey) => Some(InputFieldGeneralModel { hotkey }),
            None => None,
        },
        Some(_) => None,
    }
}

impl InputFieldGeneral {
    /// Encodes the options as a document.
    pub fn to_json(&self) -> (r: Json)
        ensures
            r@ == input_general_json(self@),
    {
        let mut members: Vec<(String, Json)> = Vec::new();
        members.push((String::from_str("hotkey"), Json::Str(self.hotkey.clone())));
        proof {
            lemma_object_view(members);
            assert(members_model(members) =~= input_general_json(self@)->Object_0);
        }
        Json::Object(members)
    }
}

/// Reads the `general` member of an input field document.
fn input_general_member(members: &Vec<(String, Json)>) -> (r: Option<InputFieldGeneral>)
    ensures
        match input_general_field(members_model(*members)) {
            Some(g) => r is Some && r->Some_0@ == g,
            None => r is None,
        },
{
    match find_member(members, &String::from_str("general")) {
        None => Some(InputFieldGeneral::default()),
        Some(i) => match &members[i].1 {
            Json::Object(inner) => {
                proof {
                    lemma_object_view(*inner);
                }
                match str_member(inner, &String::from_str("hotkey")) {
                    Some(hotkey) => Some(InputFieldGeneral { hotkey }),
                    None => None,
                }
            },
            _ => None,
        },
    }
}

/// Configuration of the input field feature.
#[derive(Debug, Clone, PartialEq, Eq)]
pub struct InputFieldConfig {
    pub profiles: Vec<Profile>,
    pub general: InputFieldGeneral,
}

/// The model of [`InputFieldConfig`].
pub struct InputFieldModel {
    pub profiles: Seq<ProfileModel>,
    pub general: InputFieldGeneralModel,
}

impl View for InputFieldConfig {
    type V = InputFieldModel;

    open spec fn view(&self) -> InputFieldModel {
        InputFieldModel { profiles: profiles_model(self.profiles@), general: self.general@ }
    }
}

impl Default for InputFieldConfig {
    fn default() -> (r: Self)
        ensures
            r@ == InputFieldConfig::default_model(),
    {
        let profiles: Vec<Profile> = Vec::new();
        proof {
            assert(profiles_model(profiles@) =~= Seq::empty());
        }
        InputFieldConfig { profiles, general: InputFieldGeneral::default() }
    }
}

impl ConfigRecord for InputFieldConfig {
    open spec fn default_model() -> InputFieldModel {
        InputFieldModel {
            profiles: Seq::empty(),
            general: InputFieldGeneralModel { hotkey: Seq::empty() },
        }
    }

    open spec fn encode_model(v: InputFieldModel) -> JsonModel {
        JsonModel::Object(
            seq![("profiles"@, profiles_json(v.profiles)), ("general"@, input_general_json(v.general))],
        )
    }

    open spec fn decode_model(doc: JsonModel) -> Option<InputFieldModel> {
        match doc {
            JsonModel::Object(m) => match (profiles_field(m), input_general_field(m)) {
                (Some(profiles), Some(general)) => Some(InputFieldModel { profiles, general }),
                _ => None,
            },
            _ => None,
        }
    }

    fn default_record() -> (r: Self) {
        InputFieldConfig::default()
    }

    fn encode(&self) -> (r: Json) {
        let mut members: Vec<(String, Json)> = Vec::new();
        members.push((String::from_str("profiles"), profiles_to_json(&self.profiles)));
        members.push((String::from_str("general"), self.general.to_json()));
        proof {
            lemma_object_view(members);
            assert(members_model(members) =~= Self::encode_model(self@)->Object_0);
        }
        Json::Object(members)
    }

    fn decode(doc: &Json) -> (r: Result<Self, ConfigError>) {
        match doc {
            Json::Object(members) => {
                proof {
                    lemma_object_view(*members);
                }
                match (profiles_member(members), input_general_member(members)) {
                    (Some(profiles), Some(general)) => Ok(InputFieldConfig { profiles, general }),
                    _ => Err(shape_error()),
                }
            },
            _ => Err(shape_error()),
        }
    }

    proof fn lemma_round_trip(v: InputFieldModel) {
        reveal_strlit("profiles");
        reveal_strlit("general");
        reveal_strlit("hotkey");
        assert("profiles"@.len() != "general"@.len());
        let m = Self::encode_model(v)->Object_0;
        lemma_lookup_at(m, "profiles"@, 0);
        lemma_lookup_at(m, "general"@, 1);
        lemma_lookup_at(input_general_json(v.general)->Object_0, "hotkey"@, 0);
        lemma_profiles_round_trip(v.profiles);
    }
}

// --------------------------------------------------------- selection feature

/// General options of the selection feature.
#[derive(Debug, Clone, PartialEq, Eq)]
pub struct SelectionGeneral {
    pub enabled: bool,
}

/// The model of [`SelectionGeneral`].
pub struct SelectionGeneralModel {
    pub enabled: bool,
}

impl View for SelectionGeneral {
    type V = SelectionGeneralModel;

    open spec fn view(&self) -> SelectionGeneralModel {
        SelectionGeneralModel { enabled: self.enabled }
    }
}

impl SelectionGeneral {
    /// Whether the selection feature is on when nothing says otherwise: it is.
    pub fn default_enabled() -> (r: bool)
        ensures
            r,
    {
        true
    }

    /// Encodes the options as a document.
    pub fn to_json(&self) -> (r: Json)
        ensures
            r@ == selection_general_json(self@),
    {
        let mut members: Vec<(String, Json)> = Vec::new();
        members.push((String::from_str("enabled"), Json::Bool(self.enabled)));
        proof {
            lemma_object_view(members);
            assert(members_model(members) =~= selection_general_json(self@)->Object_0);
        }
        Json::Object(members)
    }
}

impl Default for SelectionGeneral {
    fn default() -> (r: Self)
        ensures
            r@ == (SelectionGeneralModel { enabled: true }),
    {
        SelectionGeneral { enabled: Self::default_enabled() }
    }
}

/// The document that holds `g`.
pub open spec fn selection_general_json(g: SelectionGeneralModel) -> JsonModel {
    JsonModel::Object(seq![("enabled"@, JsonModel::Bool(g.enabled))])
}

/// The `general` member of a selection document: the default, which is
/// enabled, when absent.
pub open spec fn selection_general_field(m: Seq<(Seq<char>, JsonModel)>) -> Option<
    SelectionGeneralModel,
> {
    match lookup(m, "general"@) {
        None => Some(SelectionGeneralModel { enabled: true }),
        Some(JsonModel::Object(g)) => match bool_field(g, "enabled"@, true) {
            Some(enabled) => Some(SelectionGeneralModel { enabled }),
            None => None,
        },
        Some(_) => None,
    }
}

/// Reads the `general` member of a selection document.
fn selection_general_member(members: &Vec<(String, Json)>) -> (r: Option<SelectionGeneral>)
    ensures
        match selection_general_field(members_model(*members)) {
            Some(g) => r is Some && r->Some_0@ == g,
            None => r is None,
        },
{
    match find_member(members, &String::from_str("general")) {
        None => Some(SelectionGeneral::default()),
        Some(i) => match &members[i].1 {
            Json::Object(inner) => {
                proof {
                    lemma_object_view(*inner);
                }
                match bool_member(
                    inner,
                    &String::from_str("enabled"),
                    SelectionGeneral::default_enabled(),
                ) {
                    Some(enabled) => Some(SelectionGeneral { enabled }),
                    None => None,
                }
            },
            _ => None,
        },
    }
}

/// Configuration of the selection feature.
#[derive(Debug, Clone, PartialEq, Eq)]
pub struct SelectionConfig {
    pub profiles: Vec<Profile>,
    pub general: SelectionGeneral,
}

/// The model of [`SelectionConfig`].
pub struct SelectionModel {
    pub profiles: Seq<ProfileModel>,
    pub general: SelectionGeneralModel,
}

impl View for SelectionConfig {
    type V = SelectionModel;

    open spec fn view(&self) -> SelectionModel {
        SelectionModel { profiles: profiles_model(self.profiles@), general: self.general@ }
    }
}

impl Default for SelectionConfig {
    fn default() -> (r: Self)
        ensures
            r@ == SelectionConfig::default_model(),
    {
        let profiles: Vec<Profile> = Vec::new();
        proof {
            assert(profiles_model(profiles@) =~= Seq::empty());
        }
        SelectionConfig { profiles, general: SelectionGeneral::default() }
    }
}

impl ConfigRecord for SelectionConfig {
    open spec fn default_model() -> SelectionModel {
        SelectionModel { profiles: Seq::empty(), general: SelectionGeneralModel { enabled: true } }
    }

    open spec fn encode_model(v: SelectionModel) -> JsonModel {
        JsonModel::Object(
            seq![("profiles"@, profiles_json(v.profiles)), ("general"@, selection_general_json(v.general))],
        )
    }

    open spec fn decode_model(doc: JsonModel) -> Option<SelectionModel> {
        match doc {
            JsonModel::Object(m) => match (profiles_field(m), selection_general_field(m)) {
                (Some(profiles), Some(general)) => Some(SelectionModel { profiles, general }),
                _ => None,
            },
            _ => None,
        }
    }

    fn default_record() -> (r: Self) {
        SelectionConfig::default()
    }

    fn encode(&self) -> (r: Json) {
        let mut members: Vec<(String, Json)> = Vec::new();
        members.push((String::from_str("profiles"), profiles_to_json(&self.profiles)));
        members.push((String::from_str("general"), self.general.to_json()));
        proof {
            lemma_object_view(members);
            assert(members_model(members) =~= Self::encode_model(self@)->Object_0);
        }
        Json::Object(members)
    }

    fn decode(doc: &Json) -> (r: Result<Self, ConfigError>) {
        match doc {
            Json::Object(members) => {
                proof {
                    lemma_object_view(*members);
                }
                match (profiles_member(members), selection_general_member(members)) {
                    (Some(profiles), Some(general)) => Ok(SelectionConfig { profiles, general }),
                    _ => Err(shape_error()),
                }
            },
            _ => Err(shape_error()),
        }
    }

    proof fn lemma_round_trip(v: SelectionModel) {
        reveal_strlit("profiles");
        reveal_strlit("general");
        reveal_strlit("enabled");
        assert("profiles"@.len() != "general"@.len());
        let m = Self::encode_model(v)->Object_0;
        lemma_lookup_at(m, "profiles"@, 0);
        lemma_lookup_at(m, "general"@, 1);
        lemma_lookup_at(selection_general_json(v.general)->Object_0, "enabled"@, 0);
        lemma_profiles_round_trip(v.profiles);
    }
}

} // verus!
