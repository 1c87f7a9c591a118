use termadio::api::{CountryData, CountryPage, ContentItem, Country, Hit, Hits, Page, RadioClient, SearchResult, Source, Station, StationItem, StationPage, BASE_URL};
use termadio::commands::{country, hello, search};
use termadio::config::{Config, ConfigError};
use termadio::favorites::{FavoriteCountry, Favorites};
use termadio::text::{decimal_of, joined, joined3, last_segment_of, same_text};

fn item(title: &str, url: &str) -> StationItem {
    StationItem { page: StationPage { url: url.to_string(), title: title.to_string(), stream: None } }
}

fn page(blocks: Vec<Option<Vec<StationItem>>>) -> CountryPage {
    CountryPage { data: CountryData { content: blocks.into_iter().map(|items| ContentItem { items }).collect() } }
}

fn hit(kind: &str, title: &str, country: Option<(&str, &str)>, page: Option<&str>, url: Option<&str>) -> Hit {
    Hit {
        source: Source {
            result_type: kind.to_string(),
            title: title.to_string(),
            country: country.map(|(id, title)| Country { id: id.to_string(), title: title.to_string() }),
            page: page.map(|p| Page { url: p.to_string() }),
            url: url.map(|u| u.to_string()),
            code: None,
        },
    }
}

#[test]
fn the_base_address_is_the_directory() {
    assert_eq!(BASE_URL, "https://radio.garden/api");
}

#[test]
fn addresses_are_built_from_the_base() {
    let client = RadioClient::new();
    assert_eq!(client.search_url("jazz"), "https://radio.garden/api/search/secure?q=jazz");
    assert_eq!(client.search_url(""), "https://radio.garden/api/search/secure?q=");
    assert_eq!(client.search_url("a b"), "https://radio.garden/api/search/secure?q=a b");
    assert_eq!(client.country_stations_url("no1"), "https://radio.garden/api/ara/content/secure/page/no1");
    assert_eq!(client.get_stream_url("abc123"), "https://radio.garden/api/ara/content/listen/abc123/channel.mp3");
    assert_eq!(client.get_stream_url(""), "https://radio.garden/api/ara/content/listen//channel.mp3");
}

#[test]
fn the_last_segment_follows_the_last_slash() {
    assert_eq!(last_segment_of("/listen/jazz-fm/abc123"), "abc123");
    assert_eq!(last_segment_of("abc123"), "abc123");
    assert_eq!(last_segment_of(""), "");
    assert_eq!(last_segment_of("/"), "");
    assert_eq!(last_segment_of("a/b/"), "");
    assert_eq!(last_segment_of("/x"), "x");
    assert_eq!(last_segment_of("//"), "");
    assert_eq!(last_segment_of("/listen/ñandú/ü9"), "ü9");
}

#[test]
fn a_station_is_known_by_the_last_segment_of_its_page() {
    let station = Station { title: "NRK".to_string(), page: Page { url: "/listen/nrk/nf1".to_string() } };
    assert_eq!(station.id(), "nf1");
    assert_eq!(station.clone(), station);
}

#[test]
fn numbers_are_written_in_decimal() {
    assert_eq!(decimal_of(0), "0");
    assert_eq!(decimal_of(7), "7");
    assert_eq!(decimal_of(10), "10");
    assert_eq!(decimal_of(404), "404");
    assert_eq!(decimal_of(1234567890), "1234567890");
    assert_eq!(decimal_of(usize::MAX), usize::MAX.to_string());
}

#[test]
fn texts_are_joined_in_order() {
    assert_eq!(joined("ab", "cd"), "abcd");
    assert_eq!(joined("", ""), "");
    assert_eq!(joined3("a", "", "c"), "ac");
    assert_eq!(joined3("♪ ", "x", " ⭐"), "♪ x ⭐");
}

#[test]
fn texts_are_the_same_when_their_characters_are() {
    assert!(same_text("country", "country"));
    assert!(!same_text("country", "Country"));
    assert!(!same_text("country", "countr"));
    assert!(same_text("", ""));
}

#[test]
fn a_listing_gives_its_stations_block_after_block() {
    let listing = page(vec![
        Some(vec![item("A", "/listen/a/1"), item("B", "/listen/b/2")]),
        None,
        Some(vec![]),
        Some(vec![item("C", "/listen/c/3")]),
    ]);
    let stations = listing.stations();
    let seen: Vec<(&str, &str)> = stations.iter().map(|s| (s.title.as_str(), s.page.url.as_str())).collect();
    assert_eq!(seen, vec![("A", "/listen/a/1"), ("B", "/listen/b/2"), ("C", "/listen/c/3")]);
    assert!(page(vec![]).stations().is_empty());
    assert!(page(vec![None, None]).stations().is_empty());
}

#[test]
fn the_country_command_shows_each_station_with_its_stream() {
    let listing = page(vec![Some(vec![item("A", "/listen/a/1")]), Some(vec![item("B", "/listen/b/2")])]);
    assert_eq!(
        country::run("no1", false, &listing),
        vec![
            "📻 Radio Stations:",
            "━━━━━━━━━━━━━━━━━━━━",
            "🎵 A",
            "   Stream: https://radio.garden/api/ara/content/listen/1/channel.mp3",
            "",
            "🎵 B",
            "   Stream: https://radio.garden/api/ara/content/listen/2/channel.mp3",
            "",
        ]
    );
    assert_eq!(
        country::run("no1", true, &listing),
        vec![
            "Fetching stations for country ID: no1",
            "📻 Radio Stations:",
            "━━━━━━━━━━━━━━━━━━━━",
            "🎵 A",
            "   Stream: https://radio.garden/api/ara/content/listen/1/channel.mp3",
            "   Station ID: 1",
            "",
            "🎵 B",
            "   Stream: https://radio.garden/api/ara/content/listen/2/channel.mp3",
            "   Station ID: 2",
            "",
        ]
    );
    assert_eq!(country::run("x", false, &page(vec![])), vec!["📻 Radio Stations:", "━━━━━━━━━━━━━━━━━━━━"]);
}

#[test]
fn the_search_command_shows_each_hit_by_its_kind() {
    let results = SearchResult {
        hits: Hits {
            hits: vec![
                hit("country", "Norway", Some(("no", "Norway")), None, Some("/visit/norway/no")),
                hit("country", "Japan", Some(("jp", "Japan")), None, None),
                hit("country", "Nowhere", None, None, Some("/visit/nowhere/xx")),
                hit("channel", "Jazz FM", Some(("uk", "United Kingdom")), Some("/listen/jazz-fm/abc123"), None),
                hit("channel", "Bare", None, None, None),
                hit("place", "Oslo", None, None, None),
            ],
        },
    };
    let favorites = Favorites {
        stations: Vec::new(),
        countries: vec![FavoriteCountry { id: "no".to_string(), title: "Norway".to_string() }],
    };
    assert_eq!(
        search::run("jazz", true, &results, &favorites),
        vec![
            "Searching for: jazz",
            "🔍 Search Results for 'jazz':",
            "━━━━━━━━━━━━━━━━━━━━━━━━━━━━━━━━",
            "⭐ Country: Norway (ID: no)",
            "",
            "🌍 Country: Japan (ID: jp)",
            "",
            "",
            "📻 Station: Jazz FM",
            "   Stream: https://radio.garden/api/ara/content/listen/abc123/channel.mp3",
            "   Country: United Kingdom",
            "",
            "📻 Station: Bare",
            "",
            "❓ place: Oslo",
            "",
        ]
    );
    let none = SearchResult { hits: Hits { hits: Vec::new() } };
    assert_eq!(
        search::run("x", false, &none, &favorites),
        vec!["🔍 Search Results for 'x':", "━━━━━━━━━━━━━━━━━━━━━━━━━━━━━━━━"]
    );
}

#[test]
fn the_hello_command_greets() {
    assert_eq!(hello::run("World", false), vec!["Hello, World! 👋"]);
    assert_eq!(
        hello::run("Ada", true),
        vec![
            "Executing hello command with name: Ada",
            "Hello, Ada! 👋",
            "Hello command completed successfully",
        ]
    );
}

#[test]
fn the_default_configuration_names_the_program() {
    let config = Config::default();
    assert_eq!(config.app_name, "termadio");
    assert_eq!(config.version, "0.1.0");
    assert!(!config.debug);
    let copy = config.clone();
    assert_eq!(copy.app_name, "termadio");
    assert_eq!(copy.version, "0.1.0");
    assert!(!copy.debug);
}

#[test]
fn the_configuration_file_lies_below_the_home_directory() {
    assert_eq!(Config::config_path(Some("/home/ada")), Ok("/home/ada/.config/termadio/config.json".to_string()));
    assert_eq!(Config::config_path(Some("/home/ada/")), Ok("/home/ada/.config/termadio/config.json".to_string()));
    assert_eq!(Config::config_path(Some("/")), Ok("/.config/termadio/config.json".to_string()));
    assert_eq!(Config::config_path(Some("")), Ok(".config/termadio/config.json".to_string()));
}

#[test]
fn without_a_home_directory_there_is_no_configuration_file() {
    assert_eq!(Config::config_path(None), Err(ConfigError::NoHomeDirectory));
    assert_eq!(ConfigError::NoHomeDirectory.message(), "Could not find home directory");
}
