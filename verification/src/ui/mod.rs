//! The interactive session: which view is shown, which entry is selected,
//! and what each key does.
//!
//! The session decides and the caller acts. A key yields the next state and a
//! command; the caller carries the command out (a search, a listing, a
//! stream, a change to the stored favorites) and reports how it ended.

use vstd::prelude::*;
use vstd::string::*;
use crate::api::{
    hit_views, station_views, stream_url, CountryPage, Hit, RadioClient, SearchResult,
    SourceView, Station, StationView, listed_stations,
};
use crate::favorites::{
    FavoriteChange, FavoriteChangeView, FavoriteCountry, FavoriteCountryView, FavoriteEntry,
    FavoriteEntryView, FavoriteStation, FavoriteStationView, Favorites, FavoritesView,
};
use crate::player::{
    command_views, AudioPlayer, Fetch, FetchView, PlayerCommand, PlayerCommandView, PlayerView,
};
use crate::text::{decimal, decimal_of, joined, joined3, last_segment, last_segment_of, same_text};

pub mod screen;

verus! {

/// The status line of a session at rest.
pub const CONTROLS: &'static str =
    "Controls: Ctrl+s=search, Ctrl+f=favorites, Ctrl+c=countries, 'a'=favorite, SPACE=pause/play, 'x'=stop, 'q'=quit";

/// The views of the session; exactly one is shown.
#[derive(Debug, Clone, Copy, PartialEq, Eq, Structural)]
pub enum ViewKind {
    /// The search line.
    Search,
    /// The hits of the last search.
    Results,
    /// The stations of the country last opened.
    Stations,
    /// The favorite countries, then the favorite stations.
    Favorites,
    /// The favorite countries alone.
    FavoriteCountries,
}

/// A key as the session tells keys apart.
#[derive(Debug, Clone, Copy, PartialEq, Eq, Structural)]
pub enum Key {
    Char(char),
    Enter,
    Up,
    Down,
    Backspace,
    Esc,
    Other,
}

/// What the caller has to do after a key.
#[derive(Debug, PartialEq, Eq)]
pub enum Command {
    Nothing,
    /// Leave the session.
    Quit,
    /// Ask the directory for `query`, then report with `search_finished`.
    Search { query: String },
    /// Ask the directory for the stations of `country_id`, then report with `stations_loaded`.
    LoadStations { country_id: String },
    /// Carry out `commands`, which end in the request for the stream of the
    /// station `title`, then report with `stream_opened`.
    Play { title: String, commands: Vec<PlayerCommand> },
    /// Carry out `commands`.
    Player { commands: Vec<PlayerCommand> },
    /// Make `change` in the stored favorites, then report with
    /// `favorites_saved` or `favorites_failed`.
    Favorite { change: FavoriteChange },
}

pub ghost enum CommandView {
    Nothing,
    Quit,
    Search { query: Seq<char> },
    LoadStations { country_id: Seq<char> },
    Play { title: Seq<char>, commands: Seq<PlayerCommandView> },
    Player { commands: Seq<PlayerCommandView> },
    Favorite { change: FavoriteChangeView },
}

impl View for Command {
    type V = CommandView;

    open spec fn view(&self) -> CommandView {
        match self {
            Command::Nothing => CommandView::Nothing,
            Command::Quit => CommandView::Quit,
            Command::Search { query } => CommandView::Search { query: query@ },
            Command::LoadStations { country_id } => CommandView::LoadStations {
                country_id: country_id@,
            },
            Command::Play { title, commands } => CommandView::Play {
                title: title@,
                commands: command_views(commands@),
            },
            Command::Player { commands } => CommandView::Player {
                commands: command_views(commands@),
            },
            Command::Favorite { change } => CommandView::Favorite { change: change@ },
        }
    }
}

/// What the selected entry stands for when it is activated.
#[derive(Debug, PartialEq, Eq)]
pub enum Target {
    Nothing,
    /// A search for `query`.
    Search { query: String },
    /// The country `id`, whose stations are to be listed.
    Country { id: String },
    /// The station `id`, which is to be played.
    Station { id: String, title: String },
}

impl View for Target {
    type V = TargetView;

    open spec fn view(&self) -> TargetView {
        match self {
            Target::Nothing => TargetView::Nothing,
            Target::Search { query } => TargetView::Search { query: query@ },
            Target::Country { id } => TargetView::Country { id: id@ },
            Target::Station { id, title } => TargetView::Station { id: id@, title: title@ },
        }
    }
}

pub ghost enum TargetView {
    Nothing,
    /// A search for `query`.
    Search { query: Seq<char> },
    /// The country `id`, whose stations are to be listed.
    Country { id: Seq<char> },
    /// The station `id`, which is to be played.
    Station { id: Seq<char>, title: Seq<char> },
}

/// What a search hit stands for: a country with an address, a channel with a
/// page, or nothing that can be opened.
pub open spec fn hit_target(hit: SourceView) -> TargetView {
    if hit.result_type == "country"@ {
        match hit.url {
            Some(url) => TargetView::Country { id: last_segment(url) },
            None => TargetView::Nothing,
        }
    } else if hit.result_type == "channel"@ {
        match hit.page {
            Some(url) => TargetView::Station { id: last_segment(url), title: hit.title },
            None => TargetView::Nothing,
        }
    } else {
        TargetView::Nothing
    }
}

/// The change that a toggle on a search hit asks for, if the hit can be a favorite.
pub open spec fn hit_toggle(favorites: FavoritesView, hit: SourceView) -> Option<
    FavoriteChangeView,
> {
    if hit.result_type == "country"@ {
        match hit.url {
            Some(url) => Some(
                favorites.toggle_country(
                    FavoriteCountryView { id: last_segment(url), title: hit.title },
                ),
            ),
            None => None,
        }
    } else if hit.result_type == "channel"@ {
        match hit.page {
            Some(url) => Some(
                favorites.toggle_station(
                    FavoriteStationView {
                        id: last_segment(url),
                        title: hit.title,
                        country: match hit.country {
                            Some(country) => Some(country.title),
                            None => None,
                        },
                    },
                ),
            ),
            None => None,
        }
    } else {
        None
    }
}

/// The index after `selected` in a list of `len` entries; behind the last comes the first.
pub open spec fn next_index(selected: nat, len: nat) -> nat {
    if len == 0 {
        selected
    } else {
        (selected + 1) % len
    }
}

/// The index before `selected` in a list of `len` entries; before the first comes the last.
pub open spec fn previous_index(selected: nat, len: nat) -> nat {
    if len == 0 {
        selected
    } else if selected == 0 {
        (len - 1) as nat
    } else {
        (selected - 1) as nat
    }
}

/// `selected` where it is an index of a list of `len` entries, else the last index, or 0 in an empty list.
pub open spec fn clamped(selected: nat, len: nat) -> nat {
    if selected < len {
        selected
    } else if len == 0 {
        0
    } else {
        (len - 1) as nat
    }
}

pub ghost struct AppView {
    pub player: PlayerView,
    pub search_input: Seq<char>,
    pub search_results: Seq<SourceView>,
    pub stations: Seq<StationView>,
    pub current_view: ViewKind,
    pub selected: nat,
    pub current_station: Option<Seq<char>>,
    pub status_message: Seq<char>,
    pub favorites: FavoritesView,
}

impl AppView {
    /// A session that has just begun: the search view with an empty line,
    /// nothing listed and nothing playing.
    pub open spec fn start(favorites: FavoritesView) -> AppView {
        AppView {
            player: PlayerView::start(),
            search_input: Seq::empty(),
            search_results: Seq::empty(),
            stations: Seq::empty(),
            current_view: ViewKind::Search,
            selected: 0,
            current_station: None,
            status_message: CONTROLS@,
            favorites,
        }
    }

    /// Length of the list that the current view shows; the search view shows none.
    pub open spec fn list_len(self) -> nat {
        match self.current_view {
            ViewKind::Search => 0,
            ViewKind::Results => self.search_results.len(),
            ViewKind::Stations => self.stations.len(),
            ViewKind::Favorites => self.favorites.len(),
            ViewKind::FavoriteCountries => self.favorites.countries.len(),
        }
    }

    /// The selection is an index of the current list, or 0 where that is
    /// empty; a station is recorded as playing only while a task feeds the
    /// sink; the combined favorites can be indexed.
    pub open spec fn valid(self) -> bool {
        &&& self.favorites.len() <= usize::MAX
        &&& self.selected == clamped(self.selected, self.list_len())
        &&& self.current_station is Some ==> self.player.is_active()
    }

    /// What the selected entry of the current view stands for.
    pub open spec fn target(self) -> TargetView {
        let i = self.selected as int;
        match self.current_view {
            ViewKind::Search => if self.search_input.len() > 0 {
                TargetView::Search { query: self.search_input }
            } else {
                TargetView::Nothing
            },
            ViewKind::Results => if i < self.search_results.len() {
                hit_target(self.search_results[i])
            } else {
                TargetView::Nothing
            },
            ViewKind::Stations => if i < self.stations.len() {
                TargetView::Station {
                    id: last_segment(self.stations[i].url),
                    title: self.stations[i].title,
                }
            } else {
                TargetView::Nothing
            },
            ViewKind::Favorites => match self.favorites.entry(i) {
                Some(FavoriteEntryView::Country(country)) => TargetView::Country { id: country.id },
                Some(FavoriteEntryView::Station(station)) => TargetView::Station {
                    id: station.id,
                    title: station.title,
                },
                None => TargetView::Nothing,
            },
            ViewKind::FavoriteCountries => if i < self.favorites.countries.len() {
                TargetView::Country { id: self.favorites.countries[i].id }
            } else {
                TargetView::Nothing
            },
        }
    }

    /// The change to the favorites that a toggle on the selected entry asks
    /// for: in the lists of the directory, the entry becomes a favorite or
    /// stops being one; in the lists of favorites, it is removed.
    pub open spec fn toggle(self) -> Option<FavoriteChangeView> {
        let i = self.selected as int;
        match self.current_view {
            ViewKind::Search => None,
            ViewKind::Results => if i < self.search_results.len() {
                hit_toggle(self.favorites, self.search_results[i])
            } else {
                None
            },
            ViewKind::Stations => if i < self.stations.len() {
                Some(
                    self.favorites.toggle_station(
                        FavoriteStationView {
                            id: last_segment(self.stations[i].url),
                            title: self.stations[i].title,
                            country: None,
                        },
                    ),
                )
            } else {
                None
            },
            ViewKind::Favorites => match self.favorites.entry(i) {
                Some(FavoriteEntryView::Country(country)) => Some(
                    FavoriteChangeView::RemoveCountry { id: country.id, title: country.title },
                ),
                Some(FavoriteEntryView::Station(station)) => Some(
                    FavoriteChangeView::RemoveStation { id: station.id, title: station.title },
                ),
                None => None,
            },
            ViewKind::FavoriteCountries => if i < self.favorites.countries.len() {
                Some(
                    FavoriteChangeView::RemoveCountry {
                        id: self.favorites.countries[i].id,
                        title: self.favorites.countries[i].title,
                    },
                )
            } else {
                None
            },
        }
    }

    /// The session showing `view`, with its first entry selected; the search
    /// view opens with an empty line.
    pub open spec fn opened(self, view: ViewKind) -> AppView {
        AppView {
            current_view: view,
            selected: 0,
            search_input: if view == ViewKind::Search {
                Seq::empty()
            } else {
                self.search_input
            },
            ..self
        }
    }

    /// The session after `c` was typed into the search line.
    pub open spec fn typed(self, c: char) -> AppView {
        AppView { search_input: self.search_input.push(c), ..self }
    }

    /// The session after the last character of the search line was erased.
    pub open spec fn erased(self) -> AppView {
        if self.current_view == ViewKind::Search && self.search_input.len() > 0 {
            AppView { search_input: self.search_input.drop_last(), ..self }
        } else {
            self
        }
    }

    /// The session after the selection moved to the next entry.
    pub open spec fn moved_down(self) -> AppView {
        AppView { selected: next_index(self.selected, self.list_len()), ..self }
    }

    /// The session after the selection moved to the previous entry.
    pub open spec fn moved_up(self) -> AppView {
        AppView { selected: previous_index(self.selected, self.list_len()), ..self }
    }

    /// The session one view back: from the stations to the results, from any other list to the search line.
    pub open spec fn backed(self) -> AppView {
        match self.current_view {
            ViewKind::Search => self,
            ViewKind::Stations => AppView {
                current_view: ViewKind::Results,
                selected: clamped(self.selected, self.search_results.len()),
                ..self
            },
            _ => AppView { current_view: ViewKind::Search, selected: 0, ..self },
        }
    }

    /// The session after the selected entry was activated: a search or a
    /// listing is announced in the status line; for a station, the current
    /// stream has ended and the new one is asked for.
    pub open spec fn activated(self) -> AppView {
        match self.target() {
            TargetView::Nothing => self,
            TargetView::Search { query } => AppView {
                status_message: "Searching for '"@ + query + "'..."@,
                ..self
            },
            TargetView::Country { id } => AppView {
                status_message: "Loading stations for ID: "@ + id + "..."@,
                ..self
            },
            TargetView::Station { id, title } => AppView {
                player: self.player.halted(),
                current_station: None,
                ..self
            },
        }
    }

    /// What the caller has to do once the selected entry was activated.
    pub open spec fn activation(self) -> CommandView {
        match self.target() {
            TargetView::Nothing => CommandView::Nothing,
            TargetView::Search { query } => CommandView::Search { query },
            TargetView::Country { id } => CommandView::LoadStations { country_id: id },
            TargetView::Station { id, title } => CommandView::Play {
                title,
                commands: self.player.play_commands(stream_url(id)),
            },
        }
    }

    /// The session after the pause key, where the sink said `paused` of itself.
    pub open spec fn pause_toggled(self, paused: bool) -> AppView {
        AppView {
            status_message: if paused {
                "▶️ Resumed playback"@
            } else {
                "⏸️ Paused playback"@
            },
            ..self
        }
    }

    /// The session after playback was stopped.
    pub open spec fn stopped(self) -> AppView {
        AppView {
            player: self.player.halted(),
            current_station: None,
            status_message: "⏹️ Stopped playback"@,
            ..self
        }
    }

    /// The session after a toggle of the selected entry was asked for: as
    /// before, but the search view, which has no entries, says so.
    pub open spec fn toggled(self) -> AppView {
        if self.current_view == ViewKind::Search {
            AppView { status_message: "Cannot toggle favorites from this view"@, ..self }
        } else {
            self
        }
    }

    /// What the caller has to do for a toggle of the selected entry.
    pub open spec fn toggling(self) -> CommandView {
        match self.toggle() {
            Some(change) => CommandView::Favorite { change },
            None => CommandView::Nothing,
        }
    }

    /// The view that a letter opens.
    pub open spec fn view_of_letter(c: char) -> Option<ViewKind> {
        if c == 's' {
            Some(ViewKind::Search)
        } else if c == 'f' {
            Some(ViewKind::Favorites)
        } else if c == 'c' {
            Some(ViewKind::FavoriteCountries)
        } else {
            None
        }
    }

    /// The session after `key`, pressed with or without the control key,
    /// while the sink said `paused` of itself.
    pub open spec fn after_key(self, key: Key, ctrl: bool, paused: bool) -> AppView {
        let searching = self.current_view == ViewKind::Search;
        match key {
            Key::Char(c) => {
                if c == 'q' {
                    self
                } else if Self::view_of_letter(c) is Some && (ctrl || !searching) {
                    self.opened(Self::view_of_letter(c).unwrap())
                } else if searching {
                    self.typed(c)
                } else if c == ' ' {
                    self.pause_toggled(paused)
                } else if c == 'a' {
                    self.toggled()
                } else if c == 'x' {
                    self.stopped()
                } else {
                    self
                }
            },
            Key::Enter => self.activated(),
            Key::Up => self.moved_up(),
            Key::Down => self.moved_down(),
            Key::Backspace => self.erased(),
            Key::Esc => self.backed(),
            Key::Other => self,
        }
    }

    /// What the caller has to do after `key`.
    pub open spec fn command_for(self, key: Key, ctrl: bool, paused: bool) -> CommandView {
        let searching = self.current_view == ViewKind::Search;
        match key {
            Key::Char(c) => {
                if c == 'q' {
                    CommandView::Quit
                } else if Self::view_of_letter(c) is Some && (ctrl || !searching) {
                    CommandView::Nothing
                } else if searching {
                    CommandView::Nothing
                } else if c == ' ' {
                    CommandView::Player {
                        commands: if paused {
                            seq![PlayerCommandView::PlaySink]
                        } else {
                            seq![PlayerCommandView::PauseSink]
                        },
                    }
                } else if c == 'a' {
                    self.toggling()
                } else if c == 'x' {
                    CommandView::Player { commands: self.player.halt_commands() }
                } else {
                    CommandView::Nothing
                }
            },
            Key::Enter => self.activation(),
            _ => CommandView::Nothing,
        }
    }

    /// The session after the directory answered a search: its hits are
    /// listed with the first one selected, or the failure is in the status line.
    pub open spec fn search_finished(self, outcome: Result<Seq<SourceView>, Seq<char>>) -> AppView {
        match outcome {
            Ok(hits) => AppView {
                search_results: hits,
                current_view: ViewKind::Results,
                selected: 0,
                status_message: CONTROLS@,
                ..self
            },
            Err(reason) => AppView { status_message: "Search failed: "@ + reason, ..self },
        }
    }

    /// The session after the directory answered the request for the stations
    /// of `country_id`: they are listed with the first one selected, or the
    /// failure is in the status line.
    pub open spec fn stations_loaded(
        self,
        country_id: Seq<char>,
        outcome: Result<Seq<StationView>, Seq<char>>,
    ) -> AppView {
        match outcome {
            Ok(stations) => AppView {
                stations,
                current_view: ViewKind::Stations,
                selected: 0,
                status_message: "Loaded "@ + decimal(stations.len()) + " stations"@,
                ..self
            },
            Err(reason) => AppView {
                status_message: "Failed to load stations for "@ + country_id + ": "@ + reason,
                ..self
            },
        }
    }

    /// The session after the request for the stream of the station `title`
    /// was answered: the station plays, or the failure is in the status line
    /// and nothing else has changed.
    pub open spec fn stream_opened(self, title: Seq<char>, fetch: FetchView) -> AppView {
        if fetch.delivers() {
            AppView {
                player: self.player.opened(fetch),
                current_station: Some(title),
                status_message: "♪ Playing: "@ + title + " (Press 'a' to favorite)"@,
                ..self
            }
        } else {
            AppView {
                status_message: "Failed to play "@ + title + ": "@ + fetch.failure(),
                ..self
            }
        }
    }

    /// The session after `change` was made in the stored favorites and they
    /// were read again as `stored`.
    pub open spec fn favorites_saved(self, change: FavoriteChangeView, stored: FavoritesView) -> AppView {
        let shown = AppView { favorites: stored, ..self };
        AppView {
            favorites: stored,
            selected: clamped(self.selected, shown.list_len()),
            status_message: if change.is_addition() {
                "⭐ Added "@ + change.title() + " to favorites"@
            } else {
                "❌ Removed "@ + change.title() + " from favorites"@
            },
            ..self
        }
    }

    /// The session after a change to the stored favorites failed: the
    /// favorites in memory are as before.
    pub open spec fn favorites_failed(self, reason: Seq<char>) -> AppView {
        AppView { status_message: "Failed to update favorites: "@ + reason, ..self }
    }
}

/// The view of an optional change to the favorites.
pub open spec fn opt_change(change: Option<FavoriteChange>) -> Option<FavoriteChangeView> {
    match change {
        Some(c) => Some(c@),
        None => None,
    }
}

/// The view of the outcome of a search.
pub open spec fn search_outcome(outcome: Result<SearchResult, String>) -> Result<
    Seq<SourceView>,
    Seq<char>,
> {
    match outcome {
        Ok(result) => Ok(result@),
        Err(reason) => Err(reason@),
    }
}

/// The view of the outcome of a request for a country's stations: the
/// stations that the listing holds, or the reason why there is none.
pub open spec fn listing_outcome(outcome: Result<CountryPage, String>) -> Result<
    Seq<StationView>,
    Seq<char>,
> {
    match outcome {
        Ok(page) => Ok(listed_stations(page@)),
        Err(reason) => Err(reason@),
    }
}

/// What a search hit stands for when it is activated.
pub fn target_of_hit(hit: &Hit) -> (target: Target)
    ensures
        target@ == hit_target(hit@),
{
    let source = &hit.source;
    if same_text(source.result_type.as_str(), "country") {
        match &source.url {
            Some(url) => Target::Country { id: last_segment_of(url.as_str()) },
            None => Target::Nothing,
        }
    } else if same_text(source.result_type.as_str(), "channel") {
        match &source.page {
            Some(page) => Target::Station {
                id: last_segment_of(page.url.as_str()),
                title: source.title.clone(),
            },
            None => Target::Nothing,
        }
    } else {
        Target::Nothing
    }
}

/// The change to `favorites` that a toggle on a search hit asks for.
pub fn toggle_of_hit(favorites: &Favorites, hit: &Hit) -> (change: Option<FavoriteChange>)
    ensures
        opt_change(change) == hit_toggle(favorites@, hit@),
{
    let source = &hit.source;
    if same_text(source.result_type.as_str(), "country") {
        match &source.url {
            Some(url) => {
                let country = FavoriteCountry {
                    id: last_segment_of(url.as_str()),
                    title: source.title.clone(),
                };
                Some(favorites.toggle_country(country))
            },
            None => None,
        }
    } else if same_text(source.result_type.as_str(), "channel") {
        match &source.page {
            Some(page) => {
                let station = FavoriteStation {
                    id: last_segment_of(page.url.as_str()),
                    title: source.title.clone(),
                    country: match &source.country {
                        Some(country) => Some(country.title.clone()),
                        None => None,
                    },
                };
                Some(favorites.toggle_station(station))
            },
            None => None,
        }
    } else {
        None
    }
}

/// `selected` where it is an index of a list of `len` entries, else the last index, or 0 in an empty list.
pub fn clamp_index(selected: usize, len: usize) -> (index: usize)
    ensures
        index == clamped(selected as nat, len as nat),
{
    if selected < len {
        selected
    } else if len == 0 {
        0
    } else {
        len - 1
    }
}

/// The interactive session.
#[derive(Debug)]
pub struct App {
    client: RadioClient,
    player: AudioPlayer,
    search_input: String,
    search_results: Vec<Hit>,
    stations: Vec<Station>,
    current_view: ViewKind,
    selected: usize,
    current_station: Option<String>,
    status_message: String,
    favorites: Favorites,
}

impl View for App {
    type V = AppView;

    closed spec fn view(&self) -> AppView {
        AppView {
            player: self.player@,
            search_input: self.search_input@,
            search_results: hit_views(self.search_results@),
            stations: station_views(self.stations@),
            current_view: self.current_view,
            selected: self.selected as nat,
            current_station: crate::api::opt_text(self.current_station),
            status_message: self.status_message@,
            favorites: self.favorites@,
        }
    }
}

impl App {
    #[verifier::type_invariant]
    pub open spec fn well_formed(self) -> bool {
        self@.valid()
    }

    /// A session that begins with the given favorites.
    pub fn new(favorites: Favorites) -> (app: Self)
        requires
            favorites.fits(),
        ensures
            app@ == AppView::start(favorites@),
    {
        let app = App {
            client: RadioClient::new(),
            player: AudioPlayer::new(),
            search_input: String::new(),
            search_results: Vec::new(),
            stations: Vec::new(),
            current_view: ViewKind::Search,
            selected: 0,
            current_station: None,
            status_message: String::from_str(CONTROLS),
            favorites,
        };
        assert(app@.search_results =~= Seq::empty());
        assert(app@.stations =~= Seq::empty());
        app
    }

    pub fn current_view(&self) -> (view: ViewKind)
        ensures
            view == self@.current_view,
    {
        self.current_view
    }

    /// The selected index; it is an index of the current list wherever that has entries.
    pub fn selected(&self) -> (selected: usize)
        ensures
            selected == self@.selected,
            self@.valid(),
    {
        proof {
            use_type_invariant(self);
        }
        self.selected
    }

    pub fn search_input(&self) -> (text: &String)
        ensures
            text@ == self@.search_input,
    {
        &self.search_input
    }

    pub fn status_message(&self) -> (text: &String)
        ensures
            text@ == self@.status_message,
    {
        &self.status_message
    }

    /// The title of the station that plays, where one does.
    pub fn current_station(&self) -> (title: &Option<String>)
        ensures
            crate::api::opt_text(*title) == self@.current_station,
    {
        &self.current_station
    }

    pub fn search_results(&self) -> (hits: &Vec<Hit>)
        ensures
            hit_views(hits@) == self@.search_results,
    {
        &self.search_results
    }

    pub fn stations(&self) -> (stations: &Vec<Station>)
        ensures
            station_views(stations@) == self@.stations,
    {
        &self.stations
    }

    pub fn favorites(&self) -> (favorites: &Favorites)
        ensures
            favorites@ == self@.favorites,
    {
        &self.favorites
    }

    pub fn player(&self) -> (player: &AudioPlayer)
        ensures
            player@ == self@.player,
    {
        &self.player
    }

    /// Length of the list that the current view shows.
    pub fn list_len(&self) -> (len: usize)
        ensures
            len == self@.list_len(),
    {
        proof {
            use_type_invariant(self);
        }
        match self.current_view {
            ViewKind::Search => 0,
            ViewKind::Results => self.search_results.len(),
            ViewKind::Stations => self.stations.len(),
            ViewKind::Favorites => self.favorites.len(),
            ViewKind::FavoriteCountries => self.favorites.countries.len(),
        }
    }

    /// What the selected entry of the current view stands for.
    pub fn target(&self) -> (target: Target)
        ensures
            target@ == self@.target(),
    {
        let i = self.selected;
        match self.current_view {
            ViewKind::Search => if self.search_input.as_str().is_empty() {
                Target::Nothing
            } else {
                Target::Search { query: self.search_input.clone() }
            },
            ViewKind::Results => if i < self.search_results.len() {
                target_of_hit(&self.search_results[i])
            } else {
                Target::Nothing
            },
            ViewKind::Stations => if i < self.stations.len() {
                let station = &self.stations[i];
                Target::Station { id: station.id(), title: station.title.clone() }
            } else {
                Target::Nothing
            },
            ViewKind::Favorites => match self.favorites.entry(i) {
                Some(FavoriteEntry::Country(country)) => Target::Country { id: country.id },
                Some(FavoriteEntry::Station(station)) => Target::Station {
                    id: station.id,
                    title: station.title,
                },
                None => Target::Nothing,
            },
            ViewKind::FavoriteCountries => if i < self.favorites.countries.len() {
                Target::Country { id: self.favorites.countries[i].id.clone() }
            } else {
                Target::Nothing
            },
        }
    }

    /// The change to the favorites that a toggle on the selected entry asks for.
    pub fn toggle(&self) -> (change: Option<FavoriteChange>)
        ensures
            opt_change(change) == self@.toggle(),
    {
        let i = self.selected;
        match self.current_view {
            ViewKind::Search => None,
            ViewKind::Results => if i < self.search_results.len() {
                toggle_of_hit(&self.favorites, &self.search_results[i])
            } else {
                None
            },
            ViewKind::Stations => if i < self.stations.len() {
                let station = &self.stations[i];
                let favorite = FavoriteStation {
                    id: station.id(),
                    title: station.title.clone(),
                    country: None,
                };
                Some(self.favorites.toggle_station(favorite))
            } else {
                None
            },
            ViewKind::Favorites => match self.favorites.entry(i) {
                Some(FavoriteEntry::Country(country)) => Some(
                    FavoriteChange::RemoveCountry { id: country.id, title: country.title },
                ),
                Some(FavoriteEntry::Station(station)) => Some(
                    FavoriteChange::RemoveStation { id: station.id, title: station.title },
                ),
                None => None,
            },
            ViewKind::FavoriteCountries => if i < self.favorites.countries.len() {
                let country = &self.favorites.countries[i];
                Some(
                    FavoriteChange::RemoveCountry {
                        id: country.id.clone(),
                        title: country.title.clone(),
                    },
                )
            } else {
                None
            },
        }
    }

    /// Shows `view` with its first entry selected.
    pub fn open(&mut self, view: ViewKind)
        ensures
            final(self)@ == old(self)@.opened(view),
    {
        proof {
            use_type_invariant(&*self);
        }
        self.selected = 0;
        self.current_view = view;
        match view {
            ViewKind::Search => {
                self.search_input = String::new();
            },
            _ => {},
        }
    }

    /// Moves the selection to the next entry; behind the last comes the first.
    pub fn select_next(&mut self)
        ensures
            final(self)@ == old(self)@.moved_down(),
    {
        proof {
            use_type_invariant(&*self);
        }
        let len = self.list_len();
        if len > 0 {
            self.selected = (self.selected + 1) % len;
        }
    }

    /// Moves the selection to the previous entry; before the first comes the last.
    pub fn select_previous(&mut self)
        ensures
            final(self)@ == old(self)@.moved_up(),
    {
        proof {
            use_type_invariant(&*self);
        }
        let len = self.list_len();
        if len > 0 {
            self.selected = if self.selected == 0 {
                len - 1
            } else {
                self.selected - 1
            };
        }
    }

    /// Goes one view back.
    pub fn back(&mut self)
        ensures
            final(self)@ == old(self)@.backed(),
    {
        proof {
            use_type_invariant(&*self);
        }
        match self.current_view {
            ViewKind::Search => {},
            ViewKind::Stations => {
                let selected = clamp_index(self.selected, self.search_results.len());
                self.selected = 0;
                self.current_view = ViewKind::Results;
                self.selected = selected;
            },
            _ => {
                self.selected = 0;
                self.current_view = ViewKind::Search;
            },
        }
    }

    /// Hands out the controller and leaves an idle one in its place, until
    /// the caller has put it back: no field of the session is lent out to be changed.
    fn take_player(&mut self) -> (player: AudioPlayer)
        requires
            old(self)@.current_station is None,
        ensures
            player@ == old(self)@.player,
            final(self)@ == (AppView { player: PlayerView::start(), ..old(self)@ }),
    {
        proof {
            use_type_invariant(&*self);
        }
        let mut player = AudioPlayer::new();
        core::mem::swap(&mut player, &mut self.player);
        player
    }

    /// Hands out the title of the station that plays and leaves none in its
    /// place, until the caller has put one back.
    fn take_station(&mut self) -> (title: Option<String>)
        ensures
            crate::api::opt_text(title) == old(self)@.current_station,
            final(self)@ == (AppView { current_station: None, ..old(self)@ }),
    {
        proof {
            use_type_invariant(&*self);
        }
        let mut title: Option<String> = None;
        core::mem::swap(&mut title, &mut self.current_station);
        title
    }

    /// Hands out the search line and leaves an empty one in its place, until
    /// the caller has put it back.
    fn take_input(&mut self) -> (input: String)
        ensures
            input@ == old(self)@.search_input,
            final(self)@ == (AppView { search_input: Seq::empty(), ..old(self)@ }),
    {
        proof {
            use_type_invariant(&*self);
        }
        let mut input = String::new();
        core::mem::swap(&mut input, &mut self.search_input);
        input
    }

    /// Activates the selected entry.
    pub fn activate(&mut self) -> (command: Command)
        ensures
            final(self)@ == old(self)@.activated(),
            command@ == old(self)@.activation(),
    {
        proof {
            use_type_invariant(&*self);
        }
        match self.target() {
            Target::Nothing => Command::Nothing,
            Target::Search { query } => {
                self.status_message = joined3("Searching for '", query.as_str(), "'...");
                Command::Search { query }
            },
            Target::Country { id } => {
                self.status_message = joined3("Loading stations for ID: ", id.as_str(), "...");
                Command::LoadStations { country_id: id }
            },
            Target::Station { id, title } => {
                let url = self.client.get_stream_url(id.as_str());
                self.current_station = None;
                let mut player = self.take_player();
                let commands = player.play_url(url);
                self.player = player;
                Command::Play { title, commands }
            },
        }
    }

    /// Pauses the output where the sink says that it sounds, resumes it where
    /// the sink says that it is paused.
    pub fn toggle_pause(&mut self, paused: bool) -> (command: Command)
        ensures
            final(self)@ == old(self)@.pause_toggled(paused),
            command@ == (CommandView::Player {
                commands: if paused {
                    seq![PlayerCommandView::PlaySink]
                } else {
                    seq![PlayerCommandView::PauseSink]
                },
            }),
    {
        proof {
            use_type_invariant(&*self);
        }
        if paused {
            self.status_message = String::from_str("▶️ Resumed playback");
            Command::Player { commands: self.player.resume() }
        } else {
            self.status_message = String::from_str("⏸️ Paused playback");
            Command::Player { commands: self.player.pause() }
        }
    }

    /// Stops playback.
    pub fn stop(&mut self) -> (command: Command)
        ensures
            final(self)@ == old(self)@.stopped(),
            command@ == (CommandView::Player { commands: old(self)@.player.halt_commands() }),
    {
        proof {
            use_type_invariant(&*self);
        }
        self.current_station = None;
        let mut player = self.take_player();
        let commands = player.stop();
        self.player = player;
        self.status_message = String::from_str("⏹️ Stopped playback");
        Command::Player { commands }
    }

    /// Asks for the selected entry to become a favorite, or to stop being one.
    pub fn toggle_favorite(&mut self) -> (command: Command)
        ensures
            final(self)@ == old(self)@.toggled(),
            command@ == old(self)@.toggling(),
    {
        proof {
            use_type_invariant(&*self);
        }
        match self.current_view {
            ViewKind::Search => {
                self.status_message = String::from_str("Cannot toggle favorites from this view");
            },
            _ => {},
        }
        match self.toggle() {
            Some(change) => Command::Favorite { change },
            None => Command::Nothing,
        }
    }

    /// Takes a key, pressed with or without the control key, while the sink
    /// says `paused` of itself.
    pub fn handle_key(&mut self, key: Key, ctrl: bool, paused: bool) -> (command: Command)
        ensures
            final(self)@ == old(self)@.after_key(key, ctrl, paused),
            command@ == old(self)@.command_for(key, ctrl, paused),
    {
        proof {
            use_type_invariant(&*self);
        }
        let searching = match self.current_view {
            ViewKind::Search => true,
            _ => false,
        };
        match key {
            Key::Char(c) => {
                let letter = if c == 's' {
                    Some(ViewKind::Search)
                } else if c == 'f' {
                    Some(ViewKind::Favorites)
                } else if c == 'c' {
                    Some(ViewKind::FavoriteCountries)
                } else {
                    None
                };
                if c == 'q' {
                    Command::Quit
                } else if letter.is_some() && (ctrl || !searching) {
                    self.open(letter.unwrap());
                    Command::Nothing
                } else if searching {
                    let mut input = self.take_input();
                    input.push(c);
                    self.search_input = input;
                    Command::Nothing
                } else if c == ' ' {
                    self.toggle_pause(paused)
                } else if c == 'a' {
                    self.toggle_favorite()
                } else if c == 'x' {
                    self.stop()
                } else {
                    Command::Nothing
                }
            },
            Key::Enter => self.activate(),
            Key::Up => {
                self.select_previous();
                Command::Nothing
            },
            Key::Down => {
                self.select_next();
                Command::Nothing
            },
            Key::Backspace => {
                if searching {
                    let mut input = self.take_input();
                    input.pop();
                    self.search_input = input;
                }
                Command::Nothing
            },
            Key::Esc => {
                self.back();
                Command::Nothing
            },
            Key::Other => Command::Nothing,
        }
    }

    /// Takes the directory's answer to a search.
    pub fn search_finished(&mut self, outcome: Result<SearchResult, String>)
        ensures
            final(self)@ == old(self)@.search_finished(search_outcome(outcome)),
    {
        proof {
            use_type_invariant(&*self);
        }
        match outcome {
            Ok(result) => {
                self.selected = 0;
                self.search_results = result.hits.hits;
                self.current_view = ViewKind::Results;
                self.status_message = String::from_str(CONTROLS);
            },
            Err(reason) => {
                self.status_message = joined("Search failed: ", reason.as_str());
            },
        }
    }

    /// Takes the directory's answer to the request for the stations of `country_id`.
    pub fn stations_loaded(&mut self, country_id: &str, outcome: Result<CountryPage, String>)
        ensures
            final(self)@ == old(self)@.stations_loaded(country_id@, listing_outcome(outcome)),
    {
        proof {
            use_type_invariant(&*self);
        }
        match outcome {
            Ok(page) => {
                let stations = page.stations();
                let count = decimal_of(stations.len());
                self.selected = 0;
                self.stations = stations;
                self.current_view = ViewKind::Stations;
                self.status_message = joined3("Loaded ", count.as_str(), " stations");
            },
            Err(reason) => {
                let mut message = joined3("Failed to load stations for ", country_id, ": ");
                message.append(reason.as_str());
                self.status_message = message;
            },
        }
    }

    /// Takes the answer to the request for the stream of the station `title`,
    /// and says what is to be done with the stream.
    pub fn stream_opened(&mut self, title: &str, fetch: &Fetch) -> (commands: Vec<PlayerCommand>)
        ensures
            final(self)@ == old(self)@.stream_opened(title@, fetch@),
            command_views(commands@) == old(self)@.player.opened_commands(fetch@),
    {
        proof {
            use_type_invariant(&*self);
        }
        let playing = self.take_station();
        let mut player = self.take_player();
        let commands = player.stream_opened(fetch);
        self.player = player;
        if fetch.delivers() {
            self.current_station = Some(String::from_str(title));
            self.status_message = joined3("♪ Playing: ", title, " (Press 'a' to favorite)");
        } else {
            self.current_station = playing;
            let reason = fetch.failure();
            let mut message = joined3("Failed to play ", title, ": ");
            message.append(reason.as_str());
            self.status_message = message;
        }
        commands
    }

    /// Takes the favorites as they are stored after `change` was made in the store.
    pub fn favorites_saved(&mut self, change: &FavoriteChange, stored: Favorites)
        requires
            stored.fits(),
        ensures
            final(self)@ == old(self)@.favorites_saved(change@, stored@),
    {
        proof {
            use_type_invariant(&*self);
        }
        let selected = self.selected;
        self.selected = 0;
        self.favorites = stored;
        let len = self.list_len();
        self.selected = clamp_index(selected, len);
        self.status_message = if change.is_addition() {
            joined3("⭐ Added ", change.title().as_str(), " to favorites")
        } else {
            joined3("❌ Removed ", change.title().as_str(), " from favorites")
        };
    }

    /// Takes the failure of a change to the stored favorites.
    pub fn favorites_failed(&mut self, reason: &str)
        ensures
            final(self)@ == old(self)@.favorites_failed(reason@),
    {
        proof {
            use_type_invariant(&*self);
        }
        self.status_message = joined("Failed to update favorites: ", reason);
    }
}


impl AppView {
    /// The session after the selection moved to the next entry `times` times.
    pub open spec fn moved_down_by(self, times: nat) -> AppView
        decreases times,
    {
        if times == 0 {
            self
        } else {
            self.moved_down().moved_down_by((times - 1) as nat)
        }
    }

    /// The session after the selection moved to the previous entry `times` times.
    pub open spec fn moved_up_by(self, times: nat) -> AppView
        decreases times,
    {
        if times == 0 {
            self
        } else {
            self.moved_up().moved_up_by((times - 1) as nat)
        }
    }
}

proof fn lemma_next_index(selected: nat, len: nat)
    requires
        selected < len,
    ensures
        next_index(selected, len) == if selected + 1 == len {
            0
        } else {
            selected + 1
        },
{
    if selected + 1 == len {
        vstd::arithmetic::div_mod::lemma_mod_self_0(len as int);
    } else {
        vstd::arithmetic::div_mod::lemma_small_mod(selected + 1, len);
    }
}

proof fn lemma_moved_down_by(app: AppView, times: nat)
    requires
        app.selected < app.list_len(),
        times <= app.list_len(),
    ensures
        app.moved_down_by(times) == (AppView {
            selected: if app.selected + times < app.list_len() {
                app.selected + times
            } else {
                (app.selected + times - app.list_len()) as nat
            },
            ..app
        }),
    decreases times,
{
    if times > 0 {
        lemma_next_index(app.selected, app.list_len());
        lemma_moved_down_by(app.moved_down(), (times - 1) as nat);
    }
}

proof fn lemma_moved_up_by(app: AppView, times: nat)
    requires
        app.selected < app.list_len(),
        times <= app.list_len(),
    ensures
        app.moved_up_by(times) == (AppView {
            selected: if times <= app.selected {
                (app.selected - times) as nat
            } else {
                (app.selected + app.list_len() - times) as nat
            },
            ..app
        }),
    decreases times,
{
    if times > 0 {
        lemma_moved_up_by(app.moved_up(), (times - 1) as nat);
    }
}

/// In a list with entries, moving to the next entry as many times as the
/// list is long brings the selection back to where it was, and changes
/// nothing else.
pub proof fn law_next_wraps_around(app: AppView)
    requires
        app.valid(),
        app.list_len() > 0,
    ensures
        app.moved_down_by(app.list_len()) == app,
{
    lemma_moved_down_by(app, app.list_len());
}

/// In a list with entries, moving to the previous entry as many times as the
/// list is long brings the selection back to where it was, and changes
/// nothing else.
pub proof fn law_previous_wraps_around(app: AppView)
    requires
        app.valid(),
        app.list_len() > 0,
    ensures
        app.moved_up_by(app.list_len()) == app,
{
    lemma_moved_up_by(app, app.list_len());
}

/// Moving to the next entry and back, or back and to the next, leaves the
/// selection where it was.
pub proof fn law_next_undoes_previous(app: AppView)
    requires
        app.valid(),
    ensures
        app.moved_down().moved_up() == app,
        app.moved_up().moved_down() == app,
{
    if app.list_len() > 0 {
        lemma_next_index(app.selected, app.list_len());
        lemma_next_index(app.moved_up().selected, app.list_len());
    }
}

/// Whatever key is pressed, the selection stays an index of the list that
/// is shown, or 0 where that list is empty.
pub proof fn law_keys_keep_selection(app: AppView, key: Key, ctrl: bool, paused: bool)
    requires
        app.valid(),
    ensures
        app.after_key(key, ctrl, paused).valid(),
{
    if app.list_len() > 0 {
        lemma_next_index(app.selected, app.list_len());
    }
}

/// Whatever the caller reports, the selection stays an index of the list
/// that is shown, or 0 where that list is empty; every list that was just
/// loaded is shown with its first entry selected.
pub proof fn law_reports_keep_selection(
    app: AppView,
    hits: Result<Seq<SourceView>, Seq<char>>,
    country_id: Seq<char>,
    stations: Result<Seq<StationView>, Seq<char>>,
    title: Seq<char>,
    fetch: FetchView,
    change: FavoriteChangeView,
    stored: FavoritesView,
    reason: Seq<char>,
)
    requires
        app.valid(),
        stored.len() <= usize::MAX,
    ensures
        app.search_finished(hits).valid(),
        hits is Ok ==> app.search_finished(hits).selected == 0,
        app.stations_loaded(country_id, stations).valid(),
        stations is Ok ==> app.stations_loaded(country_id, stations).selected == 0,
        app.stream_opened(title, fetch).valid(),
        app.favorites_saved(change, stored).valid(),
        app.favorites_failed(reason).valid(),
{
}

/// Activating a station ends what plays: until the answer to the request
/// for its stream is there, no task runs and no station is recorded as playing.
pub proof fn law_play_request_halts(app: AppView)
    requires
        app.valid(),
        app.target() is Station,
    ensures
        !app.activated().player.is_active(),
        app.activated().current_station is None,
        app.activated().current_view == app.current_view,
        app.activated().selected == app.selected,
        app.activated().valid(),
{
}

/// A stream that is not delivered starts nothing: in an idle session no task
/// is started and none recorded, no station is recorded as playing, before
/// as after, the view and the selection stay, and the status line names the
/// failure.
pub proof fn law_failed_stream_leaves_idle(app: AppView, title: Seq<char>, fetch: FetchView)
    requires
        app.valid(),
        !app.player.is_active(),
        !fetch.delivers(),
    ensures
        ({
            let after = app.stream_opened(title, fetch);
            &&& app.player.opened_commands(fetch) == Seq::<PlayerCommandView>::empty()
            &&& after.player == app.player
            &&& !after.player.is_active()
            &&& after.player.current is None
            &&& after.current_station == app.current_station
            &&& after.current_station is None
            &&& after.current_view == app.current_view
            &&& after.selected == app.selected
            &&& after.status_message == "Failed to play "@ + title + ": "@ + fetch.failure()
            &&& after.valid()
        }),
{
}

/// In the lists of the directory, a toggle on the selected entry, made in
/// the store, turns the entry's standing around, and a second toggle right
/// after it, on the same entry, turns it back: the entry is a favorite after
/// both exactly if it was one before, and the selection has not moved.
pub proof fn law_toggle_twice_restores(app: AppView)
    requires
        app.valid(),
        app.current_view == ViewKind::Results || app.current_view == ViewKind::Stations,
        app.toggle() is Some,
    ensures
        ({
            let first = app.toggle().unwrap();
            let once = app.favorites_saved(first, app.favorites.apply(first));
            let second = once.toggle().unwrap();
            let twice = once.favorites_saved(second, once.favorites.apply(second));
            &&& once.toggle() is Some
            &&& second.id() == first.id()
            &&& second.of_station() == first.of_station()
            &&& second.is_addition() == !first.is_addition()
            &&& first.is_addition() == !app.favorites.holds(first)
            &&& once.favorites.holds(first) == !app.favorites.holds(first)
            &&& twice.favorites.holds(first) == app.favorites.holds(first)
            &&& once.selected == app.selected
            &&& twice.selected == app.selected
            &&& twice.current_view == app.current_view
        }),
{
    let i = app.selected as int;
    if app.current_view == ViewKind::Results {
        let hit = app.search_results[i];
        if hit.result_type == "country"@ {
            crate::favorites::law_toggle_country_twice(
                app.favorites,
                FavoriteCountryView { id: last_segment(hit.url.unwrap()), title: hit.title },
            );
        } else {
            crate::favorites::law_toggle_station_twice(
                app.favorites,
                FavoriteStationView {
                    id: last_segment(hit.page.unwrap()),
                    title: hit.title,
                    country: match hit.country {
                        Some(country) => Some(country.title),
                        None => None,
                    },
                },
            );
        }
    } else {
        crate::favorites::law_toggle_station_twice(
            app.favorites,
            FavoriteStationView {
                id: last_segment(app.stations[i].url),
                title: app.stations[i].title,
                country: None,
            },
        );
    }
}

} // verus!
