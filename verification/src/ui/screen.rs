//! What the session shows: a header, the search line or the current list
//! with its selection, and the status line. The screen is computed from the
//! session and changes nothing in it.

use vstd::prelude::*;
use vstd::string::*;
use crate::api::{Hit, SourceView, Station, StationView, hit_views, station_views};
use crate::favorites::{
    FavoriteCountry, FavoriteCountryView, FavoriteStation, FavoriteStationView, Favorites,
    FavoritesView, favorite_country_views, favorite_station_views,
};
use crate::text::{joined, joined3, last_segment, last_segment_of, same_text, text_views};
use crate::ui::{App, AppView, ViewKind};

verus! {

/// The header of every screen.
pub const HEADER: &'static str = "🎵 Termadio - Terminal Radio";

/// The part of the screen between header and status line.
#[derive(Debug, PartialEq, Eq)]
pub enum Body {
    /// A line of input under `title`.
    Input { title: String, text: String },
    /// A list under `title`, with the entry at `selected` highlighted.
    List { title: String, items: Vec<String>, selected: usize },
}

/// One screen of the session.
#[derive(Debug, PartialEq, Eq)]
pub struct Screen {
    pub header: String,
    pub body: Body,
    pub status: String,
}

pub ghost enum BodyView {
    Input { title: Seq<char>, text: Seq<char> },
    List { title: Seq<char>, items: Seq<Seq<char>>, selected: nat },
}

pub ghost struct ScreenView {
    pub header: Seq<char>,
    pub body: BodyView,
    pub status: Seq<char>,
}

impl View for Body {
    type V = BodyView;

    open spec fn view(&self) -> BodyView {
        match self {
            Body::Input { title, text } => BodyView::Input { title: title@, text: text@ },
            Body::List { title, items, selected } => BodyView::List {
                title: title@,
                items: text_views(items@),
                selected: *selected as nat,
            },
        }
    }
}

impl View for Screen {
    type V = ScreenView;

    open spec fn view(&self) -> ScreenView {
        ScreenView { header: self.header@, body: self.body@, status: self.status@ }
    }
}

/// The sign in front of a search hit: a globe for a country, a radio for a
/// channel, each with a star where the entry is a favorite; a question mark
/// for anything else.
pub open spec fn hit_icon(favorites: FavoritesView, hit: SourceView) -> Seq<char> {
    if hit.result_type == "country"@ {
        if hit.url matches Some(url) && favorites.has_country(last_segment(url)) {
            "⭐🌍"@
        } else {
            "🌍"@
        }
    } else if hit.result_type == "channel"@ {
        if hit.page matches Some(url) && favorites.has_station(last_segment(url)) {
            "⭐📻"@
        } else {
            "📻"@
        }
    } else {
        "❓"@
    }
}

/// The line that shows a search hit.
pub open spec fn hit_label(favorites: FavoritesView, hit: SourceView) -> Seq<char> {
    hit_icon(favorites, hit) + " "@ + hit.title
}

/// The line that shows a station of a country's listing.
pub open spec fn station_label(favorites: FavoritesView, station: StationView) -> Seq<char> {
    (if favorites.has_station(last_segment(station.url)) {
        "⭐📻"@
    } else {
        "📻"@
    }) + " "@ + station.title
}

/// The line that shows a favorite country.
pub open spec fn favorite_country_label(country: FavoriteCountryView) -> Seq<char> {
    "⭐🌍 "@ + country.title
}

/// The line that shows a favorite station: its title, and its country or `Unknown` in brackets.
pub open spec fn favorite_station_label(station: FavoriteStationView) -> Seq<char> {
    "⭐📻 "@ + station.title + " ("@ + (match station.country {
        Some(country) => country,
        None => "Unknown"@,
    }) + ")"@
}

impl AppView {
    /// The title over the body of the screen.
    pub open spec fn body_title(self) -> Seq<char> {
        match self.current_view {
            ViewKind::Search => "Search"@,
            ViewKind::Results => "Search Results"@,
            ViewKind::Stations => "Radio Stations"@,
            ViewKind::Favorites => "All Favorites"@,
            ViewKind::FavoriteCountries => "Favorite Countries"@,
        }
    }

    /// The lines of the list that the current view shows, in order.
    pub open spec fn items(self) -> Seq<Seq<char>> {
        match self.current_view {
            ViewKind::Search => Seq::empty(),
            ViewKind::Results => self.search_results.map_values(
                |hit: SourceView| hit_label(self.favorites, hit),
            ),
            ViewKind::Stations => self.stations.map_values(
                |station: StationView| station_label(self.favorites, station),
            ),
            ViewKind::Favorites => self.favorites.countries.map_values(
                |c: FavoriteCountryView| favorite_country_label(c),
            ) + self.favorites.stations.map_values(
                |s: FavoriteStationView| favorite_station_label(s),
            ),
            ViewKind::FavoriteCountries => self.favorites.countries.map_values(
                |c: FavoriteCountryView| favorite_country_label(c),
            ),
        }
    }

    /// The screen that shows the session.
    pub open spec fn screen(self) -> ScreenView {
        ScreenView {
            header: HEADER@,
            body: if self.current_view == ViewKind::Search {
                BodyView::Input { title: self.body_title(), text: self.search_input }
            } else {
                BodyView::List {
                    title: self.body_title(),
                    items: self.items(),
                    selected: self.selected,
                }
            },
            status: self.status_message,
        }
    }
}

/// The line that shows a search hit.
pub fn label_of_hit(favorites: &Favorites, hit: &Hit) -> (label: String)
    ensures
        label@ == hit_label(favorites@, hit@),
{
    let source = &hit.source;
    let icon = if same_text(source.result_type.as_str(), "country") {
        let starred = match &source.url {
            Some(url) => favorites.has_country(last_segment_of(url.as_str()).as_str()),
            None => false,
        };
        if starred {
            "⭐🌍"
        } else {
            "🌍"
        }
    } else if same_text(source.result_type.as_str(), "channel") {
        let starred = match &source.page {
            Some(page) => favorites.has_station(last_segment_of(page.url.as_str()).as_str()),
            None => false,
        };
        if starred {
            "⭐📻"
        } else {
            "📻"
        }
    } else {
        "❓"
    };
    joined3(icon, " ", source.title.as_str())
}

/// The line that shows a station of a country's listing.
pub fn label_of_station(favorites: &Favorites, station: &Station) -> (label: String)
    ensures
        label@ == station_label(favorites@, station@),
{
    let icon = if favorites.has_station(station.id().as_str()) {
        "⭐📻"
    } else {
        "📻"
    };
    joined3(icon, " ", station.title.as_str())
}

/// The line that shows a favorite country.
pub fn label_of_favorite_country(country: &FavoriteCountry) -> (label: String)
    ensures
        label@ == favorite_country_label(country@),
{
    joined("⭐🌍 ", country.title.as_str())
}

/// The line that shows a favorite station.
pub fn label_of_favorite_station(station: &FavoriteStation) -> (label: String)
    ensures
        label@ == favorite_station_label(station@),
{
    let mut label = joined3("⭐📻 ", station.title.as_str(), " (");
    match &station.country {
        Some(country) => label.append(country.as_str()),
        None => label.append("Unknown"),
    }
    label.append(")");
    label
}

fn labels_of_hits(favorites: &Favorites, hits: &Vec<Hit>) -> (labels: Vec<String>)
    ensures
        text_views(labels@) == hit_views(hits@).map_values(
            |hit: SourceView| hit_label(favorites@, hit),
        ),
{
    let mut labels: Vec<String> = Vec::new();
    let mut i: usize = 0;
    while i < hits.len()
        invariant
            i <= hits.len(),
            text_views(labels@) == hit_views(hits@).map_values(
                |hit: SourceView| hit_label(favorites@, hit),
            ).take(i as int),
        decreases hits.len() - i,
    {
        let ghost all = hit_views(hits@).map_values(|hit: SourceView| hit_label(favorites@, hit));
        let ghost earlier = text_views(labels@);
        labels.push(label_of_hit(favorites, &hits[i]));
        assert(text_views(labels@) =~= earlier.push(all[i as int]));
        assert(all.take(i + 1) =~= all.take(i as int).push(all[i as int]));
        i = i + 1;
    }
    assert(text_views(labels@) =~= hit_views(hits@).map_values(
        |hit: SourceView| hit_label(favorites@, hit),
    ));
    labels
}

fn labels_of_stations(favorites: &Favorites, stations: &Vec<Station>) -> (labels: Vec<String>)
    ensures
        text_views(labels@) == station_views(stations@).map_values(
            |station: StationView| station_label(favorites@, station),
        ),
{
    let mut labels: Vec<String> = Vec::new();
    let mut i: usize = 0;
    while i < stations.len()
        invariant
            i <= stations.len(),
            text_views(labels@) == station_views(stations@).map_values(
                |station: StationView| station_label(favorites@, station),
            ).take(i as int),
        decreases stations.len() - i,
    {
        let ghost all = station_views(stations@).map_values(
            |station: StationView| station_label(favorites@, station),
        );
        let ghost earlier = text_views(labels@);
        labels.push(label_of_station(favorites, &stations[i]));
        assert(text_views(labels@) =~= earlier.push(all[i as int]));
        assert(all.take(i + 1) =~= all.take(i as int).push(all[i as int]));
        i = i + 1;
    }
    assert(text_views(labels@) =~= station_views(stations@).map_values(
        |station: StationView| station_label(favorites@, station),
    ));
    labels
}

/// Appends the lines of the favorite countries to `labels`.
fn push_country_labels(labels: &mut Vec<String>, countries: &Vec<FavoriteCountry>)
    ensures
        text_views(final(labels)@) == text_views(old(labels)@) + favorite_country_views(
            countries@,
        ).map_values(|c: FavoriteCountryView| favorite_country_label(c)),
{
    let ghost before = text_views(labels@);
    let ghost all = favorite_country_views(countries@).map_values(
        |c: FavoriteCountryView| favorite_country_label(c),
    );
    let mut i: usize = 0;
    assert(text_views(labels@) =~= before + all.take(0));
    while i < countries.len()
        invariant
            i <= countries.len(),
            all == favorite_country_views(countries@).map_values(
                |c: FavoriteCountryView| favorite_country_label(c),
            ),
            text_views(labels@) == before + all.take(i as int),
        decreases countries.len() - i,
    {
        let ghost earlier = text_views(labels@);
        labels.push(label_of_favorite_country(&countries[i]));
        assert(text_views(labels@) =~= earlier.push(all[i as int]));
        assert(all.take(i + 1) =~= all.take(i as int).push(all[i as int]));
        assert(before + all.take(i + 1) =~= (before + all.take(i as int)).push(all[i as int]));
        i = i + 1;
    }
    assert(all.take(i as int) =~= all);
}

/// Appends the lines of the favorite stations to `labels`.
fn push_station_labels(labels: &mut Vec<String>, stations: &Vec<FavoriteStation>)
    ensures
        text_views(final(labels)@) == text_views(old(labels)@) + favorite_station_views(
            stations@,
        ).map_values(|s: FavoriteStationView| favorite_station_label(s)),
{
    let ghost before = text_views(labels@);
    let ghost all = favorite_station_views(stations@).map_values(
        |s: FavoriteStationView| favorite_station_label(s),
    );
    let mut i: usize = 0;
    assert(text_views(labels@) =~= before + all.take(0));
    while i < stations.len()
        invariant
            i <= stations.len(),
            all == favorite_station_views(stations@).map_values(
                |s: FavoriteStationView| favorite_station_label(s),
            ),
            text_views(labels@) == before + all.take(i as int),
        decreases stations.len() - i,
    {
        let ghost earlier = text_views(labels@);
        labels.push(label_of_favorite_station(&stations[i]));
        assert(text_views(labels@) =~= earlier.push(all[i as int]));
        assert(all.take(i + 1) =~= all.take(i as int).push(all[i as int]));
        assert(before + all.take(i + 1) =~= (before + all.take(i as int)).push(all[i as int]));
        i = i + 1;
    }
    assert(all.take(i as int) =~= all);
}

impl App {
    /// The lines of the list that the current view shows, in order.
    pub fn items(&self) -> (items: Vec<String>)
        ensures
            text_views(items@) == self@.items(),
    {
        let favorites = self.favorites();
        let mut items: Vec<String> = Vec::new();
        assert(text_views(items@) =~= Seq::empty());
        match self.current_view() {
            ViewKind::Search => {},
            ViewKind::Results => {
                items = labels_of_hits(favorites, self.search_results());
            },
            ViewKind::Stations => {
                items = labels_of_stations(favorites, self.stations());
            },
            ViewKind::Favorites => {
                push_country_labels(&mut items, &favorites.countries);
                push_station_labels(&mut items, &favorites.stations);
                assert(text_views(items@) =~= self@.items());
            },
            ViewKind::FavoriteCountries => {
                push_country_labels(&mut items, &favorites.countries);
                assert(text_views(items@) =~= self@.items());
            },
        }
        items
    }

    /// The screen that shows the session.
    pub fn screen(&self) -> (screen: Screen)
        ensures
            screen@ == self@.screen(),
    {
        let title = match self.current_view() {
            ViewKind::Search => "Search",
            ViewKind::Results => "Search Results",
            ViewKind::Stations => "Radio Stations",
            ViewKind::Favorites => "All Favorites",
            ViewKind::FavoriteCountries => "Favorite Countries",
        };
        let body = match self.current_view() {
            ViewKind::Search => Body::Input {
                title: String::from_str(title),
                text: self.search_input().clone(),
            },
            _ => Body::List {
                title: String::from_str(title),
                items: self.items(),
                selected: self.selected(),
            },
        };
        Screen { header: String::from_str(HEADER), body, status: self.status_message().clone() }
    }
}

} // verus!
