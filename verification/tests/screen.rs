use termadio::api::{Country, CountryData, CountryPage, ContentItem, Hit, Hits, Page, SearchResult, Source, Station, StationItem, StationPage};
use termadio::favorites::{FavoriteCountry, FavoriteStation, Favorites};
use termadio::ui::screen::{label_of_favorite_country, label_of_favorite_station, label_of_hit, label_of_station, Body, Screen, HEADER};
use termadio::ui::{App, Key, CONTROLS};

fn favorites() -> Favorites {
    Favorites {
        stations: vec![
            FavoriteStation { id: "abc123".to_string(), title: "Jazz FM".to_string(), country: Some("United Kingdom".to_string()) },
            FavoriteStation { id: "nj2".to_string(), title: "NRK Jazz".to_string(), country: None },
        ],
        countries: vec![FavoriteCountry { id: "no".to_string(), title: "Norway".to_string() }],
    }
}

fn hit(kind: &str, title: &str, page: Option<&str>, url: Option<&str>) -> Hit {
    Hit {
        source: Source {
            result_type: kind.to_string(),
            title: title.to_string(),
            country: Some(Country { id: "zz".to_string(), title: "Somewhere".to_string() }),
            page: page.map(|p| Page { url: p.to_string() }),
            url: url.map(|u| u.to_string()),
            code: None,
        },
    }
}

fn hits() -> Vec<Hit> {
    vec![
        hit("country", "Norway", None, Some("/visit/norway/no")),
        hit("country", "Sweden", None, Some("/visit/sweden/se")),
        hit("country", "Lost", None, None),
        hit("channel", "Jazz FM", Some("/listen/jazz-fm/abc123"), None),
        hit("channel", "Rock FM", Some("/listen/rock-fm/r1"), None),
        hit("channel", "Pageless", None, None),
        hit("place", "Oslo", None, None),
    ]
}

fn listing() -> CountryPage {
    let items = vec![
        StationItem { page: StationPage { url: "/listen/nrk-folk/nf1".to_string(), title: "NRK Folk".to_string(), stream: None } },
        StationItem { page: StationPage { url: "/listen/nrk-jazz/nj2".to_string(), title: "NRK Jazz".to_string(), stream: Some("x".to_string()) } },
    ];
    CountryPage { data: CountryData { content: vec![ContentItem { items: Some(items) }] } }
}

#[test]
fn the_header_names_the_program() {
    assert_eq!(HEADER, "🎵 Termadio - Terminal Radio");
}

#[test]
fn hits_are_labelled_by_kind_and_starred_when_favorite() {
    let favorites = favorites();
    let labels: Vec<String> = hits().iter().map(|h| label_of_hit(&favorites, h)).collect();
    assert_eq!(
        labels,
        vec!["⭐🌍 Norway", "🌍 Sweden", "🌍 Lost", "⭐📻 Jazz FM", "📻 Rock FM", "📻 Pageless", "❓ Oslo"]
    );
}

#[test]
fn stations_are_starred_when_favorite() {
    let favorites = favorites();
    let folk = Station { title: "NRK Folk".to_string(), page: Page { url: "/listen/nrk-folk/nf1".to_string() } };
    let jazz = Station { title: "NRK Jazz".to_string(), page: Page { url: "/listen/nrk-jazz/nj2".to_string() } };
    assert_eq!(label_of_station(&favorites, &folk), "📻 NRK Folk");
    assert_eq!(label_of_station(&favorites, &jazz), "⭐📻 NRK Jazz");
}

#[test]
fn favorites_are_labelled_with_their_country() {
    let favorites = favorites();
    assert_eq!(label_of_favorite_country(&favorites.countries[0]), "⭐🌍 Norway");
    assert_eq!(label_of_favorite_station(&favorites.stations[0]), "⭐📻 Jazz FM (United Kingdom)");
    assert_eq!(label_of_favorite_station(&favorites.stations[1]), "⭐📻 NRK Jazz (Unknown)");
}

#[test]
fn the_search_view_shows_the_line_of_input() {
    let mut app = App::new(favorites());
    app.handle_key(Key::Char('j'), false, false);
    app.handle_key(Key::Char('a'), false, false);
    assert_eq!(
        app.screen(),
        Screen {
            header: HEADER.to_string(),
            body: Body::Input { title: "Search".to_string(), text: "ja".to_string() },
            status: CONTROLS.to_string(),
        }
    );
    assert!(app.items().is_empty());
}

#[test]
fn the_results_view_shows_the_hits() {
    let mut app = App::new(favorites());
    app.search_finished(Ok(SearchResult { hits: Hits { hits: hits() } }));
    app.handle_key(Key::Down, false, false);
    let expected: Vec<String> =
        vec!["⭐🌍 Norway", "🌍 Sweden", "🌍 Lost", "⭐📻 Jazz FM", "📻 Rock FM", "📻 Pageless", "❓ Oslo"]
            .into_iter()
            .map(|s| s.to_string())
            .collect();
    assert_eq!(
        app.screen(),
        Screen {
            header: HEADER.to_string(),
            body: Body::List { title: "Search Results".to_string(), items: expected, selected: 1 },
            status: CONTROLS.to_string(),
        }
    );
}

#[test]
fn the_stations_view_shows_the_stations() {
    let mut app = App::new(favorites());
    app.stations_loaded("no", Ok(listing()));
    assert_eq!(
        app.screen(),
        Screen {
            header: HEADER.to_string(),
            body: Body::List {
                title: "Radio Stations".to_string(),
                items: vec!["📻 NRK Folk".to_string(), "⭐📻 NRK Jazz".to_string()],
                selected: 0,
            },
            status: "Loaded 2 stations".to_string(),
        }
    );
}

#[test]
fn the_favorites_view_shows_countries_then_stations() {
    let mut app = App::new(favorites());
    app.handle_key(Key::Char('f'), true, false);
    app.handle_key(Key::Up, false, false);
    assert_eq!(
        app.screen().body,
        Body::List {
            title: "All Favorites".to_string(),
            items: vec![
                "⭐🌍 Norway".to_string(),
                "⭐📻 Jazz FM (United Kingdom)".to_string(),
                "⭐📻 NRK Jazz (Unknown)".to_string(),
            ],
            selected: 2,
        }
    );
}

#[test]
fn the_favorite_countries_view_shows_the_countries() {
    let mut app = App::new(favorites());
    app.handle_key(Key::Char('c'), true, false);
    assert_eq!(
        app.screen().body,
        Body::List { title: "Favorite Countries".to_string(), items: vec!["⭐🌍 Norway".to_string()], selected: 0 }
    );
    let mut empty = App::new(Favorites::default());
    empty.handle_key(Key::Char('c'), true, false);
    assert_eq!(
        empty.screen().body,
        Body::List { title: "Favorite Countries".to_string(), items: Vec::new(), selected: 0 }
    );
}
