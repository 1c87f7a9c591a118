//! The stored preferences: a JSON object in which the user's choices are
//! set, and whose other members are left alone.
//!
//! The object is a `serde_json::Map`. What the library knows of it is stated
//! over `members`: for each member's name, what the member holds. The text
//! to store is what `serde_json` writes for those members.

use vstd::prelude::*;
use vstd::string::*;
use crate::api::opt_text;

verus! {

/// `serde_json::Map`, a JSON object.
#[verifier::external_type_specification]
#[verifier::external_body]
#[verifier::reject_recursive_types(K)]
#[verifier::reject_recursive_types(V)]
pub struct ExJsonMap<K, V>(serde_json::Map<K, V>);

/// `serde_json::Value`, a JSON value.
#[verifier::external_type_specification]
#[verifier::external_body]
pub struct ExJsonValue(serde_json::Value);

/// `serde_json::Error`, why a text is no JSON of the shape asked for.
#[verifier::external_type_specification]
#[verifier::external_body]
pub struct ExJsonError(serde_json::Error);

/// What a member of a JSON object holds: a string, or a value of another
/// kind, which stands here as the JSON text that denotes it.
pub ghost enum Member {
    Text(Seq<char>),
    Other { json: Seq<char> },
}

/// The members of a JSON object: for each name in it, what the member of
/// that name holds.
pub uninterp spec fn members(object: serde_json::Map<String, serde_json::Value>) -> Map<
    Seq<char>,
    Member,
>;

/// The members of the JSON object that `content` is the text of; `None`
/// where `content` is not the text of a JSON object.
pub uninterp spec fn parsed_members(content: Seq<char>) -> Option<Map<Seq<char>, Member>>;

/// The text that `serde_json::to_string_pretty` writes for a JSON object
/// with these members: the members in the order of their names, one to a
/// line, indented by two spaces.
pub uninterp spec fn pretty_text(members: Map<Seq<char>, Member>) -> Seq<char>;

/// `serde_json::Map::new` makes an object without members.
#[verifier::external_body]
fn empty_object() -> (object: serde_json::Map<String, serde_json::Value>)
    ensures
        (members(object) == Map::<Seq<char>, Member>::empty()),
{
    serde_json::Map::new()
}

/// `serde_json::Map::insert`, with a string as the value: the member `name`
/// holds `text` afterwards, whether or not the object had a member of that
/// name, and every other member is as before.
#[verifier::external_body]
fn insert_text(
    object: &mut serde_json::Map<String, serde_json::Value>,
    name: &str,
    text: String,
)
    ensures
        members(*final(object)) == members(*old(object)).insert(name@, Member::Text(text@)),
{
    object.insert(name.to_string(), serde_json::Value::String(text));
}

/// `serde_json::from_str`, asked for an object: it gives the object whose
/// text `content` is, or an error where `content` is no such text.
#[verifier::external_body]
fn parse_object(content: &str) -> (parsed: Result<
    serde_json::Map<String, serde_json::Value>,
    serde_json::Error,
>)
    ensures
        match parsed {
            Ok(object) => parsed_members(content@) == Some(members(object)),
            Err(_) => parsed_members(content@) is None,
        },
{
    serde_json::from_str::<serde_json::Map<String, serde_json::Value>>(content)
}

/// `serde_json::to_string_pretty`, given an object: where it gives a text,
/// that is the text of the object's members. Nothing is said of when it fails.
#[verifier::external_body]
fn pretty_object(object: &serde_json::Map<String, serde_json::Value>) -> (written: Result<
    String,
    serde_json::Error,
>)
    ensures
        written matches Ok(text) ==> text@ == pretty_text(members(*object)),
{
    serde_json::to_string_pretty(object)
}

/// Why the preferences could not be made ready to store.
#[derive(Debug, Clone, Copy, PartialEq, Eq, Structural)]
pub enum PreferencesError {
    /// The object could not be written as JSON text.
    NotWritten,
}

impl PreferencesError {
    pub fn message(&self) -> (text: String)
        ensures
            text@ == "Could not write the preferences as JSON"@,
    {
        String::from_str("Could not write the preferences as JSON")
    }
}

/// The choices that a user can store.
#[allow(non_snake_case)]
#[derive(Debug)]
pub struct UserPreferences {
    pub countryId: Option<String>,
    pub favoriteChannl: Option<String>,
}

#[allow(non_snake_case)]
pub ghost struct UserPreferencesView {
    pub countryId: Option<Seq<char>>,
    pub favoriteChannl: Option<Seq<char>>,
}

impl View for UserPreferences {
    type V = UserPreferencesView;

    open spec fn view(&self) -> UserPreferencesView {
        UserPreferencesView {
            countryId: opt_text(self.countryId),
            favoriteChannl: opt_text(self.favoriteChannl),
        }
    }
}

/// The members that the stored object has to begin with: those of the text
/// that was stored, or none where nothing was stored or what was stored is
/// no JSON object.
pub open spec fn stored_members(content: Option<Seq<char>>) -> Map<Seq<char>, Member> {
    match content {
        Some(text) => match parsed_members(text) {
            Some(found) => found,
            None => Map::empty(),
        },
        None => Map::empty(),
    }
}

/// `before` with each choice that `preferences` makes set under its name,
/// and every other member as it was.
pub open spec fn merged_members(
    before: Map<Seq<char>, Member>,
    preferences: UserPreferencesView,
) -> Map<Seq<char>, Member> {
    let with_country = match preferences.countryId {
        Some(id) => before.insert("countryId"@, Member::Text(id)),
        None => before,
    };
    match preferences.favoriteChannl {
        Some(channel) => with_country.insert("favoriteChannl"@, Member::Text(channel)),
        None => with_country,
    }
}

/// Where the preferences are stored.
#[derive(Debug)]
pub struct PreferencesStorage {
    file_path: String,
}

impl PreferencesStorage {
    /// The path of the file that holds the preferences.
    pub closed spec fn path(&self) -> Seq<char> {
        self.file_path@
    }

    pub fn new(file_path: String) -> (storage: Self)
        ensures
            storage.path() == file_path@,
    {
        Self { file_path }
    }

    pub fn file_path(&self) -> (path: &String)
        ensures
            path@ == self.path(),
    {
        &self.file_path
    }

    /// The object that was stored, given the text of the file where there is one.
    pub fn stored(&self, content: Option<&str>) -> (object: serde_json::Map<
        String,
        serde_json::Value,
    >)
        ensures
            members(object) == stored_members(
                match content {
                    Some(text) => Some(text@),
                    None => None,
                },
            ),
    {
        match content {
            Some(text) => match parse_object(text) {
                Ok(object) => object,
                Err(_) => empty_object(),
            },
            None => empty_object(),
        }
    }

    /// Sets each choice that `preferences` makes in `object`.
    pub fn merge(
        &self,
        object: &mut serde_json::Map<String, serde_json::Value>,
        preferences: UserPreferences,
    )
        ensures
            members(*final(object)) == merged_members(members(*old(object)), preferences@),
    {
        if let Some(country_id) = preferences.countryId {
            insert_text(object, "countryId", country_id);
        }
        if let Some(channel) = preferences.favoriteChannl {
            insert_text(object, "favoriteChannl", channel);
        }
    }

    /// The object to store: what was stored, with the choices of `preferences` set.
    pub fn updated(&self, content: Option<&str>, preferences: UserPreferences) -> (object:
        serde_json::Map<String, serde_json::Value>)
        ensures
            members(object) == merged_members(
                stored_members(
                    match content {
                        Some(text) => Some(text@),
                        None => None,
                    },
                ),
                preferences@,
            ),
    {
        let mut object = self.stored(content);
        self.merge(&mut object, preferences);
        object
    }

    /// What is handed on of the attempt to write an object as text: the text
    /// itself, or that the object was not written.
    pub fn text_or_error<E>(written: Result<String, E>) -> (text: Result<String, PreferencesError>)
        ensures
            match written {
                Ok(written_text) => text matches Ok(handed) && handed@ == written_text@,
                Err(_) => text == Err::<String, PreferencesError>(PreferencesError::NotWritten),
            },
    {
        match written {
            Ok(written_text) => Ok(written_text),
            Err(_) => Err(PreferencesError::NotWritten),
        }
    }

    /// The text to store in place of `content`: the JSON text of what was
    /// stored, with the choices of `preferences` set. Whether the text can
    /// be written is for the serialiser to say.
    pub fn save_preferences(&self, content: Option<&str>, preferences: UserPreferences) -> (text:
        Result<String, PreferencesError>)
        ensures
            text matches Ok(written) ==> written@ == pretty_text(
                merged_members(
                    stored_members(
                        match content {
                            Some(stored) => Some(stored@),
                            None => None,
                        },
                    ),
                    preferences@,
                ),
            ),
    {
        let object = self.updated(content, preferences);
        Self::text_or_error(pretty_object(&object))
    }
}

} // verus!
