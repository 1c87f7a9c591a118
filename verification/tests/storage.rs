use serde_json::Value;
use termadio::preferences::storage::{PreferencesError, PreferencesStorage, UserPreferences};

fn storage() -> PreferencesStorage {
    PreferencesStorage::new("preferences.json".to_string())
}

fn choices(country: Option<&str>, channel: Option<&str>) -> UserPreferences {
    UserPreferences {
        countryId: country.map(|c| c.to_string()),
        favoriteChannl: channel.map(|c| c.to_string()),
    }
}

fn text(value: &str) -> Value {
    Value::String(value.to_string())
}

#[test]
fn the_storage_keeps_its_path() {
    assert_eq!(storage().file_path(), "preferences.json");
    assert_eq!(PreferencesStorage::new(String::new()).file_path(), "");
}

#[test]
fn nothing_stored_gives_an_empty_object() {
    assert!(storage().stored(None).is_empty());
}

#[test]
fn what_is_no_object_counts_as_nothing_stored() {
    assert!(storage().stored(Some("")).is_empty());
    assert!(storage().stored(Some("not json")).is_empty());
    assert!(storage().stored(Some("[1, 2]")).is_empty());
    assert!(storage().stored(Some("{\"a\": ")).is_empty());
}

#[test]
fn a_stored_object_is_read_with_its_members() {
    let object = storage().stored(Some("{\"countryId\": \"no\", \"volume\": 7, \"tags\": [\"a\"]}"));
    assert_eq!(object.len(), 3);
    assert_eq!(object.get("countryId"), Some(&text("no")));
    assert_eq!(object.get("volume"), Some(&Value::from(7)));
    assert_eq!(object.get("tags"), Some(&Value::Array(vec![text("a")])));
}

#[test]
fn a_choice_is_set_under_its_name() {
    let mut object = serde_json::Map::new();
    storage().merge(&mut object, choices(Some("us"), None));
    assert_eq!(object.len(), 1);
    assert_eq!(object.get("countryId"), Some(&text("us")));
    storage().merge(&mut object, choices(None, Some("jazz-fm")));
    assert_eq!(object.len(), 2);
    assert_eq!(object.get("countryId"), Some(&text("us")));
    assert_eq!(object.get("favoriteChannl"), Some(&text("jazz-fm")));
}

#[test]
fn a_choice_replaces_what_was_stored_under_its_name() {
    let mut object = serde_json::Map::new();
    object.insert("countryId".to_string(), Value::from(12));
    object.insert("favoriteChannl".to_string(), text("old"));
    storage().merge(&mut object, choices(Some("jp"), Some("new")));
    assert_eq!(object.len(), 2);
    assert_eq!(object.get("countryId"), Some(&text("jp")));
    assert_eq!(object.get("favoriteChannl"), Some(&text("new")));
}

#[test]
fn no_choice_changes_nothing() {
    let mut object = serde_json::Map::new();
    object.insert("countryId".to_string(), text("no"));
    object.insert("other".to_string(), Value::Bool(true));
    let before = object.clone();
    storage().merge(&mut object, choices(None, None));
    assert_eq!(object, before);
}

fn parsed(text: &str) -> serde_json::Map<String, Value> {
    match serde_json::from_str::<Value>(text) {
        Ok(Value::Object(object)) => object,
        other => panic!("no object: {:?}", other),
    }
}

#[test]
fn updating_keeps_the_other_members() {
    let object = storage().updated(
        Some("{\"countryId\": \"no\", \"theme\": \"dark\", \"volume\": 3}"),
        choices(Some("us"), None),
    );
    assert_eq!(object.len(), 3);
    assert_eq!(object.get("countryId"), Some(&text("us")));
    assert_eq!(object.get("theme"), Some(&text("dark")));
    assert_eq!(object.get("volume"), Some(&Value::from(3)));
    assert_eq!(object.get("favoriteChannl"), None);
}

#[test]
fn updating_over_nothing_stores_the_choices_alone() {
    let object = storage().updated(None, choices(Some("us"), Some("jazz-fm")));
    assert_eq!(object.len(), 2);
    assert_eq!(object.get("countryId"), Some(&text("us")));
    assert_eq!(object.get("favoriteChannl"), Some(&text("jazz-fm")));
    let over_broken = storage().updated(Some("{broken"), choices(None, Some("x")));
    assert_eq!(over_broken.len(), 1);
    assert_eq!(over_broken.get("favoriteChannl"), Some(&text("x")));
}

#[test]
fn saving_gives_the_text_to_store() {
    assert_eq!(
        storage().save_preferences(None, choices(Some("us"), None)),
        Ok("{\n  \"countryId\": \"us\"\n}".to_string())
    );
    assert_eq!(storage().save_preferences(None, choices(None, None)), Ok("{}".to_string()));
    assert_eq!(
        storage().save_preferences(Some("{\"z\": [1], \"countryId\": 5}"), choices(Some("jp"), Some("a\"b"))),
        Ok("{\n  \"countryId\": \"jp\",\n  \"favoriteChannl\": \"a\\\"b\",\n  \"z\": [\n    1\n  ]\n}".to_string())
    );
}

#[test]
fn the_saved_text_reads_back_as_the_updated_object() {
    let stored = "{\"countryId\": \"no\", \"theme\": \"dark\", \"volume\": 3.5, \"nested\": {\"a\": null}}";
    let written = storage().save_preferences(Some(stored), choices(Some("us"), Some("jazz-fm")));
    let expected = storage().updated(Some(stored), choices(Some("us"), Some("jazz-fm")));
    assert_eq!(written.map(|t| parsed(&t)), Ok(expected));
}

#[test]
fn a_written_text_is_handed_on_and_a_failure_is_named() {
    assert_eq!(
        PreferencesStorage::text_or_error::<String>(Ok("{}".to_string())),
        Ok("{}".to_string())
    );
    assert_eq!(
        PreferencesStorage::text_or_error(Err::<String, u8>(3)),
        Err(PreferencesError::NotWritten)
    );
    assert_eq!(PreferencesError::NotWritten.message(), "Could not write the preferences as JSON");
}
