use termadio::commands::favorites::{add_country, add_station, list, remove_country, remove_station, Outcome};
use termadio::favorites::{FavoriteChange, FavoriteCountry, FavoriteEntry, FavoriteStation, Favorites};

fn station(id: &str, title: &str, country: Option<&str>) -> FavoriteStation {
    FavoriteStation { id: id.to_string(), title: title.to_string(), country: country.map(|c| c.to_string()) }
}

fn country(id: &str, title: &str) -> FavoriteCountry {
    FavoriteCountry { id: id.to_string(), title: title.to_string() }
}

fn sample() -> Favorites {
    Favorites {
        stations: vec![station("s1", "One", Some("Norway")), station("s2", "Two", None)],
        countries: vec![country("us", "United States"), country("no", "Norway")],
    }
}

#[test]
fn the_default_favorites_are_empty() {
    let favorites = Favorites::default();
    assert!(favorites.stations.is_empty());
    assert!(favorites.countries.is_empty());
    assert_eq!(favorites.len(), 0);
    assert_eq!(favorites.boundary(), 0);
    assert_eq!(favorites.entry(0), None);
}

#[test]
fn favoriting_us_lists_one_country_and_removing_it_empties_the_list() {
    let mut favorites = Favorites::default();
    assert!(favorites.add_country(country("us", "United States")));
    assert_eq!(favorites.countries, vec![country("us", "United States")]);
    assert_eq!(favorites.len(), 1);
    assert_eq!(favorites.entry(0), Some(FavoriteEntry::Country(country("us", "United States"))));
    assert_eq!(favorites.entry(1), None);
    assert_eq!(
        list(&favorites),
        vec!["⭐ Your Favorites:", "━━━━━━━━━━━━━━━━━━", "\n🌍 Countries:", "  • United States (ID: us)"]
    );
    assert!(favorites.remove_country("us"));
    assert!(favorites.countries.is_empty());
    assert_eq!(favorites.len(), 0);
    assert_eq!(favorites.entry(0), None);
}

#[test]
fn adding_what_is_there_changes_nothing() {
    let mut favorites = sample();
    assert!(!favorites.add_station(station("s1", "Another title", None)));
    assert!(!favorites.add_country(country("no", "Norge")));
    assert_eq!(favorites, sample());
}

#[test]
fn additions_go_to_the_end() {
    let mut favorites = sample();
    assert!(favorites.add_station(station("s3", "Three", None)));
    assert!(favorites.add_country(country("jp", "Japan")));
    assert_eq!(favorites.stations.iter().map(|s| s.id.as_str()).collect::<Vec<_>>(), vec!["s1", "s2", "s3"]);
    assert_eq!(favorites.countries.iter().map(|c| c.id.as_str()).collect::<Vec<_>>(), vec!["us", "no", "jp"]);
}

#[test]
fn removing_what_is_not_there_changes_nothing() {
    let mut favorites = sample();
    assert!(!favorites.remove_station("nope"));
    assert!(!favorites.remove_country("nope"));
    assert!(!favorites.remove_station("us"));
    assert!(!favorites.remove_country("s1"));
    assert_eq!(favorites, sample());
}

#[test]
fn removal_keeps_the_order_of_the_others() {
    let mut favorites = sample();
    favorites.stations.push(station("s3", "Three", None));
    favorites.stations.push(station("s1", "One again", None));
    assert!(favorites.remove_station("s1"));
    assert_eq!(favorites.stations, vec![station("s2", "Two", None), station("s3", "Three", None)]);
    assert!(favorites.remove_country("us"));
    assert_eq!(favorites.countries, vec![country("no", "Norway")]);
}

#[test]
fn membership_goes_by_identifier() {
    let favorites = sample();
    assert!(favorites.has_station("s1"));
    assert!(favorites.has_station("s2"));
    assert!(!favorites.has_station("One"));
    assert!(!favorites.has_station("us"));
    assert!(favorites.has_country("us"));
    assert!(!favorites.has_country("s1"));
    assert!(!favorites.has_country(""));
}

#[test]
fn the_combined_list_has_countries_before_stations() {
    let favorites = sample();
    assert_eq!(favorites.boundary(), 2);
    assert_eq!(favorites.len(), 4);
    assert_eq!(favorites.entry(0), Some(FavoriteEntry::Country(country("us", "United States"))));
    assert_eq!(favorites.entry(1), Some(FavoriteEntry::Country(country("no", "Norway"))));
    assert_eq!(favorites.entry(2), Some(FavoriteEntry::Station(station("s1", "One", Some("Norway")))));
    assert_eq!(favorites.entry(3), Some(FavoriteEntry::Station(station("s2", "Two", None))));
    assert_eq!(favorites.entry(4), None);
    assert_eq!(favorites.entry(usize::MAX), None);
}

#[test]
fn toggling_a_station_twice_restores_whether_it_is_a_favorite() {
    let mut favorites = sample();
    let new = station("s9", "Nine", None);
    let first = favorites.toggle_station(new.clone());
    assert_eq!(first, FavoriteChange::AddStation(new.clone()));
    favorites.apply(first);
    assert!(favorites.has_station("s9"));
    let second = favorites.toggle_station(new.clone());
    assert_eq!(second, FavoriteChange::RemoveStation { id: "s9".to_string(), title: "Nine".to_string() });
    favorites.apply(second);
    assert_eq!(favorites, sample());

    let old = station("s1", "One", Some("Norway"));
    let first = favorites.toggle_station(old.clone());
    assert_eq!(first, FavoriteChange::RemoveStation { id: "s1".to_string(), title: "One".to_string() });
    favorites.apply(first);
    assert!(!favorites.has_station("s1"));
    let second = favorites.toggle_station(old.clone());
    favorites.apply(second);
    assert!(favorites.has_station("s1"));
    assert_eq!(favorites.stations, vec![station("s2", "Two", None), old]);
    assert_eq!(favorites.countries, sample().countries);
}

#[test]
fn toggling_a_country_twice_restores_whether_it_is_a_favorite() {
    let mut favorites = sample();
    let new = country("jp", "Japan");
    let first = favorites.toggle_country(new.clone());
    assert_eq!(first, FavoriteChange::AddCountry(new.clone()));
    assert!(first.is_addition());
    assert_eq!(first.title(), "Japan");
    favorites.apply(first);
    assert!(favorites.has_country("jp"));
    let second = favorites.toggle_country(new);
    assert!(!second.is_addition());
    assert_eq!(second.title(), "Japan");
    favorites.apply(second);
    assert_eq!(favorites, sample());
}

#[test]
fn applying_a_change_says_whether_anything_changed() {
    let mut favorites = sample();
    assert!(!favorites.apply(FavoriteChange::AddCountry(country("us", "USA"))));
    assert!(favorites.apply(FavoriteChange::RemoveCountry { id: "us".to_string(), title: "x".to_string() }));
    assert!(!favorites.apply(FavoriteChange::RemoveStation { id: "zz".to_string(), title: "x".to_string() }));
    assert!(favorites.apply(FavoriteChange::AddStation(station("zz", "Z", None))));
}

#[test]
fn a_copy_of_the_favorites_equals_them() {
    let favorites = sample();
    assert_eq!(favorites.clone(), favorites);
    let change = FavoriteChange::AddStation(station("a", "b", Some("c")));
    assert_eq!(change.clone(), change);
}

fn outcome(write_due: bool, message: &str) -> Outcome {
    Outcome { write_due, message: message.to_string() }
}

#[test]
fn the_commands_change_the_favorites_and_say_so() {
    let mut favorites = Favorites::default();
    assert_eq!(
        add_country(&mut favorites, "us", "United States"),
        outcome(true, "✅ Added 'United States' to favorite countries")
    );
    assert_eq!(
        add_station(&mut favorites, "s1", "One", Some("Norway")),
        outcome(true, "✅ Added 'One' to favorite stations")
    );
    assert_eq!(add_station(&mut favorites, "s2", "Two", None), outcome(true, "✅ Added 'Two' to favorite stations"));
    assert_eq!(favorites.countries, vec![country("us", "United States")]);
    assert_eq!(favorites.stations, vec![station("s1", "One", Some("Norway")), station("s2", "Two", None)]);
    assert_eq!(remove_station(&mut favorites, "s1"), outcome(true, "🗑️  Removed station from favorites"));
    assert_eq!(remove_country(&mut favorites, "us"), outcome(true, "🗑️  Removed country from favorites"));
    assert!(favorites.countries.is_empty());
    assert_eq!(favorites.stations, vec![station("s2", "Two", None)]);
}

#[test]
fn a_command_that_changes_nothing_asks_for_no_write() {
    let mut favorites = sample();
    assert_eq!(
        add_station(&mut favorites, "s2", "Two again", None),
        outcome(false, "✅ Added 'Two again' to favorite stations")
    );
    assert_eq!(
        add_country(&mut favorites, "us", "USA"),
        outcome(false, "✅ Added 'USA' to favorite countries")
    );
    assert_eq!(remove_country(&mut favorites, "zz"), outcome(false, "🗑️  Removed country from favorites"));
    assert_eq!(remove_station(&mut favorites, "zz"), outcome(false, "🗑️  Removed station from favorites"));
    assert_eq!(favorites, sample());
}

#[test]
fn the_listing_shows_countries_then_stations() {
    assert_eq!(
        list(&sample()),
        vec![
            "⭐ Your Favorites:",
            "━━━━━━━━━━━━━━━━━━",
            "\n🌍 Countries:",
            "  • United States (ID: us)",
            "  • Norway (ID: no)",
            "\n📻 Stations:",
            "  • One - Norway (ID: s1)",
            "  • Two (ID: s2)",
        ]
    );
}

#[test]
fn the_listing_of_no_favorites_gives_a_hint() {
    assert_eq!(
        list(&Favorites::default()),
        vec![
            "⭐ Your Favorites:",
            "━━━━━━━━━━━━━━━━━━",
            "No favorites yet. Add some with 'termadio favorites add-country' or 'termadio favorites add-station'",
        ]
    );
}

#[test]
fn the_listing_of_stations_alone_has_no_country_heading() {
    let favorites = Favorites { stations: vec![station("s2", "Two", None)], countries: Vec::new() };
    assert_eq!(
        list(&favorites),
        vec!["⭐ Your Favorites:", "━━━━━━━━━━━━━━━━━━", "\n📻 Stations:", "  • Two (ID: s2)"]
    );
}
