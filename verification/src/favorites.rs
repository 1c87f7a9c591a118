//! The user's favorites: countries and stations, each kept once per identifier,
//! in the order in which they were added.

use vstd::prelude::*;
use crate::api::{copy_opt_text, opt_text};
use crate::text::same_text;

verus! {

/// A station that the user pinned.
#[derive(Debug, PartialEq, Eq)]
pub struct FavoriteStation {
    pub id: String,
    pub title: String,
    pub country: Option<String>,
}

pub ghost struct FavoriteStationView {
    pub id: Seq<char>,
    pub title: Seq<char>,
    pub country: Option<Seq<char>>,
}

impl View for FavoriteStation {
    type V = FavoriteStationView;

    open spec fn view(&self) -> FavoriteStationView {
        FavoriteStationView { id: self.id@, title: self.title@, country: opt_text(self.country) }
    }
}

impl Clone for FavoriteStation {
    fn clone(&self) -> (copy: Self)
        ensures
            copy@ == self@,
    {
        FavoriteStation {
            id: self.id.clone(),
            title: self.title.clone(),
            country: copy_opt_text(&self.country),
        }
    }
}

/// A country that the user pinned.
#[derive(Debug, PartialEq, Eq)]
pub struct FavoriteCountry {
    pub id: String,
    pub title: String,
}

pub ghost struct FavoriteCountryView {
    pub id: Seq<char>,
    pub title: Seq<char>,
}

impl View for FavoriteCountry {
    type V = FavoriteCountryView;

    open spec fn view(&self) -> FavoriteCountryView {
        FavoriteCountryView { id: self.id@, title: self.title@ }
    }
}

impl Clone for FavoriteCountry {
    fn clone(&self) -> (copy: Self)
        ensures
            copy@ == self@,
    {
        FavoriteCountry { id: self.id.clone(), title: self.title.clone() }
    }
}

/// The favorites as the session holds them in memory.
#[derive(Debug, PartialEq, Eq)]
pub struct Favorites {
    pub stations: Vec<FavoriteStation>,
    pub countries: Vec<FavoriteCountry>,
}

/// One entry of the combined list of favorites: countries first, then stations.
pub ghost enum FavoriteEntryView {
    Country(FavoriteCountryView),
    Station(FavoriteStationView),
}

/// A change to the favorites that a toggle asks for.
pub ghost enum FavoriteChangeView {
    AddCountry(FavoriteCountryView),
    RemoveCountry { id: Seq<char>, title: Seq<char> },
    AddStation(FavoriteStationView),
    RemoveStation { id: Seq<char>, title: Seq<char> },
}

pub ghost struct FavoritesView {
    pub stations: Seq<FavoriteStationView>,
    pub countries: Seq<FavoriteCountryView>,
}

/// Holds of every station but the one with identifier `id`.
pub open spec fn station_is_not(id: Seq<char>) -> spec_fn(FavoriteStationView) -> bool {
    |s: FavoriteStationView| s.id != id
}

/// Holds of every country but the one with identifier `id`.
pub open spec fn country_is_not(id: Seq<char>) -> spec_fn(FavoriteCountryView) -> bool {
    |c: FavoriteCountryView| c.id != id
}

/// Whether `list` holds a station with identifier `id`.
pub open spec fn station_listed(list: Seq<FavoriteStationView>, id: Seq<char>) -> bool {
    exists|i: int| 0 <= i < list.len() && (#[trigger] list[i]).id == id
}

/// Whether `list` holds a country with identifier `id`.
pub open spec fn country_listed(list: Seq<FavoriteCountryView>, id: Seq<char>) -> bool {
    exists|i: int| 0 <= i < list.len() && (#[trigger] list[i]).id == id
}

impl FavoritesView {
    /// Whether a station with identifier `id` is among the favorites.
    pub open spec fn has_station(self, id: Seq<char>) -> bool {
        station_listed(self.stations, id)
    }

    /// Whether a country with identifier `id` is among the favorites.
    pub open spec fn has_country(self, id: Seq<char>) -> bool {
        country_listed(self.countries, id)
    }

    /// The favorites after `station` was added: it goes to the end of the
    /// stations, unless one with its identifier is there already.
    pub open spec fn with_station(self, station: FavoriteStationView) -> FavoritesView {
        if self.has_station(station.id) {
            self
        } else {
            FavoritesView { stations: self.stations.push(station), countries: self.countries }
        }
    }

    /// The favorites after `country` was added: it goes to the end of the
    /// countries, unless one with its identifier is there already.
    pub open spec fn with_country(self, country: FavoriteCountryView) -> FavoritesView {
        if self.has_country(country.id) {
            self
        } else {
            FavoritesView { stations: self.stations, countries: self.countries.push(country) }
        }
    }

    /// The favorites without any station of identifier `id`; the others keep their order.
    pub open spec fn without_station(self, id: Seq<char>) -> FavoritesView {
        FavoritesView {
            stations: self.stations.filter(station_is_not(id)),
            countries: self.countries,
        }
    }

    /// The favorites without any country of identifier `id`; the others keep their order.
    pub open spec fn without_country(self, id: Seq<char>) -> FavoritesView {
        FavoritesView {
            stations: self.stations,
            countries: self.countries.filter(country_is_not(id)),
        }
    }

    /// Length of the combined list.
    pub open spec fn len(self) -> nat {
        self.countries.len() + self.stations.len()
    }

    /// Index of the first station in the combined list: the number of countries.
    pub open spec fn boundary(self) -> nat {
        self.countries.len()
    }

    /// The entry at `index` of the combined list.
    pub open spec fn entry(self, index: int) -> Option<FavoriteEntryView> {
        if 0 <= index < self.boundary() {
            Some(FavoriteEntryView::Country(self.countries[index]))
        } else if self.boundary() <= index < self.len() {
            Some(FavoriteEntryView::Station(self.stations[index - self.boundary()]))
        } else {
            None
        }
    }

    /// The change that a toggle of `station` asks for: its removal where it
    /// is a favorite, its addition where it is not.
    pub open spec fn toggle_station(self, station: FavoriteStationView) -> FavoriteChangeView {
        if self.has_station(station.id) {
            FavoriteChangeView::RemoveStation { id: station.id, title: station.title }
        } else {
            FavoriteChangeView::AddStation(station)
        }
    }

    /// The change that a toggle of `country` asks for: its removal where it
    /// is a favorite, its addition where it is not.
    pub open spec fn toggle_country(self, country: FavoriteCountryView) -> FavoriteChangeView {
        if self.has_country(country.id) {
            FavoriteChangeView::RemoveCountry { id: country.id, title: country.title }
        } else {
            FavoriteChangeView::AddCountry(country)
        }
    }

    /// Whether the entry that `change` is about is a favorite.
    pub open spec fn holds(self, change: FavoriteChangeView) -> bool {
        if change.of_station() {
            self.has_station(change.id())
        } else {
            self.has_country(change.id())
        }
    }

    /// The favorites after `change` was made.
    pub open spec fn apply(self, change: FavoriteChangeView) -> FavoritesView {
        match change {
            FavoriteChangeView::AddCountry(country) => self.with_country(country),
            FavoriteChangeView::RemoveCountry { id, title } => self.without_country(id),
            FavoriteChangeView::AddStation(station) => self.with_station(station),
            FavoriteChangeView::RemoveStation { id, title } => self.without_station(id),
        }
    }
}

/// The views of a list of favorite stations, in order.
pub open spec fn favorite_station_views(stations: Seq<FavoriteStation>) -> Seq<
    FavoriteStationView,
> {
    stations.map_values(|s: FavoriteStation| s@)
}

/// The views of a list of favorite countries, in order.
pub open spec fn favorite_country_views(countries: Seq<FavoriteCountry>) -> Seq<
    FavoriteCountryView,
> {
    countries.map_values(|c: FavoriteCountry| c@)
}

impl View for Favorites {
    type V = FavoritesView;

    open spec fn view(&self) -> FavoritesView {
        FavoritesView {
            stations: favorite_station_views(self.stations@),
            countries: favorite_country_views(self.countries@),
        }
    }
}

impl Clone for Favorites {
    fn clone(&self) -> (copy: Self)
        ensures
            copy@ == self@,
    {
        let mut stations: Vec<FavoriteStation> = Vec::new();
        let mut i: usize = 0;
        while i < self.stations.len()
            invariant
                i <= self.stations.len(),
                favorite_station_views(stations@) == favorite_station_views(self.stations@).take(
                    i as int,
                ),
            decreases self.stations.len() - i,
        {
            let ghost earlier = stations@;
            let ghost all = favorite_station_views(self.stations@);
            stations.push(self.stations[i].clone());
            assert(favorite_station_views(stations@) =~= favorite_station_views(earlier).push(
                all[i as int],
            ));
            assert(all.take(i + 1) =~= all.take(i as int).push(all[i as int]));
            i = i + 1;
        }
        let mut countries: Vec<FavoriteCountry> = Vec::new();
        let mut j: usize = 0;
        while j < self.countries.len()
            invariant
                j <= self.countries.len(),
                favorite_country_views(countries@) == favorite_country_views(
                    self.countries@,
                ).take(j as int),
            decreases self.countries.len() - j,
        {
            let ghost earlier = countries@;
            let ghost all = favorite_country_views(self.countries@);
            countries.push(self.countries[j].clone());
            assert(favorite_country_views(countries@) =~= favorite_country_views(earlier).push(
                all[j as int],
            ));
            assert(all.take(j + 1) =~= all.take(j as int).push(all[j as int]));
            j = j + 1;
        }
        assert(favorite_station_views(stations@) =~= favorite_station_views(self.stations@));
        assert(favorite_country_views(countries@) =~= favorite_country_views(self.countries@));
        Favorites { stations, countries }
    }
}

impl Default for Favorites {
    fn default() -> (empty: Self)
        ensures
            empty@.stations.len() == 0,
            empty@.countries.len() == 0,
    {
        Favorites { stations: Vec::new(), countries: Vec::new() }
    }
}

/// One entry of the combined list of favorites.
#[derive(Debug, PartialEq, Eq)]
pub enum FavoriteEntry {
    Country(FavoriteCountry),
    Station(FavoriteStation),
}

impl View for FavoriteEntry {
    type V = FavoriteEntryView;

    open spec fn view(&self) -> FavoriteEntryView {
        match self {
            FavoriteEntry::Country(country) => FavoriteEntryView::Country(country@),
            FavoriteEntry::Station(station) => FavoriteEntryView::Station(station@),
        }
    }
}

/// The view of an optional entry.
pub open spec fn opt_entry(entry: Option<FavoriteEntry>) -> Option<FavoriteEntryView> {
    match entry {
        Some(e) => Some(e@),
        None => None,
    }
}

/// A change to the favorites: what a toggle asks the store to do.
#[derive(Debug, PartialEq, Eq)]
pub enum FavoriteChange {
    AddCountry(FavoriteCountry),
    RemoveCountry { id: String, title: String },
    AddStation(FavoriteStation),
    RemoveStation { id: String, title: String },
}

impl View for FavoriteChange {
    type V = FavoriteChangeView;

    open spec fn view(&self) -> FavoriteChangeView {
        match self {
            FavoriteChange::AddCountry(country) => FavoriteChangeView::AddCountry(country@),
            FavoriteChange::RemoveCountry { id, title } => FavoriteChangeView::RemoveCountry {
                id: id@,
                title: title@,
            },
            FavoriteChange::AddStation(station) => FavoriteChangeView::AddStation(station@),
            FavoriteChange::RemoveStation { id, title } => FavoriteChangeView::RemoveStation {
                id: id@,
                title: title@,
            },
        }
    }
}

impl Clone for FavoriteChange {
    fn clone(&self) -> (copy: Self)
        ensures
            copy@ == self@,
    {
        match self {
            FavoriteChange::AddCountry(country) => FavoriteChange::AddCountry(country.clone()),
            FavoriteChange::RemoveCountry { id, title } => FavoriteChange::RemoveCountry {
                id: id.clone(),
                title: title.clone(),
            },
            FavoriteChange::AddStation(station) => FavoriteChange::AddStation(station.clone()),
            FavoriteChange::RemoveStation { id, title } => FavoriteChange::RemoveStation {
                id: id.clone(),
                title: title.clone(),
            },
        }
    }
}

impl FavoriteChange {
    /// The title of the entry that the change adds or removes.
    pub fn title(&self) -> (title: &String)
        ensures
            title@ == self@.title(),
    {
        match self {
            FavoriteChange::AddCountry(country) => &country.title,
            FavoriteChange::RemoveCountry { id, title } => title,
            FavoriteChange::AddStation(station) => &station.title,
            FavoriteChange::RemoveStation { id, title } => title,
        }
    }

    /// Whether the change adds an entry.
    pub fn is_addition(&self) -> (adds: bool)
        ensures
            adds == self@.is_addition(),
    {
        match self {
            FavoriteChange::AddCountry(_) => true,
            FavoriteChange::RemoveCountry { .. } => false,
            FavoriteChange::AddStation(_) => true,
            FavoriteChange::RemoveStation { .. } => false,
        }
    }
}

impl FavoriteChangeView {
    /// The identifier of the entry that the change adds or removes.
    pub open spec fn id(self) -> Seq<char> {
        match self {
            FavoriteChangeView::AddCountry(country) => country.id,
            FavoriteChangeView::RemoveCountry { id, title } => id,
            FavoriteChangeView::AddStation(station) => station.id,
            FavoriteChangeView::RemoveStation { id, title } => id,
        }
    }

    /// Whether the change is about a station; else it is about a country.
    pub open spec fn of_station(self) -> bool {
        self is AddStation || self is RemoveStation
    }

    /// The title of the entry that the change adds or removes.
    pub open spec fn title(self) -> Seq<char> {
        match self {
            FavoriteChangeView::AddCountry(country) => country.title,
            FavoriteChangeView::RemoveCountry { id, title } => title,
            FavoriteChangeView::AddStation(station) => station.title,
            FavoriteChangeView::RemoveStation { id, title } => title,
        }
    }

    /// Whether the change adds an entry.
    pub open spec fn is_addition(self) -> bool {
        self is AddCountry || self is AddStation
    }
}

impl Favorites {
    /// Whether the combined list can be indexed by a `usize`.
    pub open spec fn fits(&self) -> bool {
        self.countries.len() + self.stations.len() <= usize::MAX
    }

    /// Whether a station with identifier `id` is a favorite.
    pub fn has_station(&self, id: &str) -> (found: bool)
        ensures
            found == self@.has_station(id@),
    {
        let mut i: usize = 0;
        while i < self.stations.len()
            invariant
                i <= self.stations.len(),
                forall|k: int| 0 <= k < i ==> (#[trigger] self@.stations[k]).id != id@,
            decreases self.stations.len() - i,
        {
            if same_text(self.stations[i].id.as_str(), id) {
                assert(self@.stations[i as int].id == id@);
                return true;
            }
            i = i + 1;
        }
        false
    }

    /// Whether a country with identifier `id` is a favorite.
    pub fn has_country(&self, id: &str) -> (found: bool)
        ensures
            found == self@.has_country(id@),
    {
        let mut i: usize = 0;
        while i < self.countries.len()
            invariant
                i <= self.countries.len(),
                forall|k: int| 0 <= k < i ==> (#[trigger] self@.countries[k]).id != id@,
            decreases self.countries.len() - i,
        {
            if same_text(self.countries[i].id.as_str(), id) {
                assert(self@.countries[i as int].id == id@);
                return true;
            }
            i = i + 1;
        }
        false
    }

    /// Adds `station` unless one with its identifier is a favorite already.
    /// Says whether the favorites changed, that is, whether a write to the store is due.
    pub fn add_station(&mut self, station: FavoriteStation) -> (added: bool)
        ensures
            final(self)@ == old(self)@.with_station(station@),
            added == !old(self)@.has_station(station@.id),
            added == (final(self)@ != old(self)@),
    {
        if self.has_station(station.id.as_str()) {
            false
        } else {
            self.stations.push(station);
            assert(final(self)@.stations.len() == old(self)@.stations.len() + 1);
            assert(favorite_station_views(self.stations@) =~= old(self)@.stations.push(station@));
            true
        }
    }

    /// Adds `country` unless one with its identifier is a favorite already.
    /// Says whether the favorites changed, that is, whether a write to the store is due.
    pub fn add_country(&mut self, country: FavoriteCountry) -> (added: bool)
        ensures
            final(self)@ == old(self)@.with_country(country@),
            added == !old(self)@.has_country(country@.id),
            added == (final(self)@ != old(self)@),
    {
        if self.has_country(country.id.as_str()) {
            false
        } else {
            self.countries.push(country);
            assert(final(self)@.countries.len() == old(self)@.countries.len() + 1);
            assert(favorite_country_views(self.countries@) =~= old(self)@.countries.push(
                country@,
            ));
            true
        }
    }

    /// Removes every station with identifier `id`; the others keep their order.
    /// Says whether the favorites changed, that is, whether a write to the store is due.
    pub fn remove_station(&mut self, id: &str) -> (removed: bool)
        ensures
            final(self)@ == old(self)@.without_station(id@),
            removed == old(self)@.has_station(id@),
            removed == (final(self)@ != old(self)@),
    {
        let ghost all = self@.stations;
        let ghost keep = station_is_not(id@);
        let mut kept: Vec<FavoriteStation> = Vec::new();
        let mut removed = false;
        let mut i: usize = 0;
        proof {
            reveal(Seq::filter);
        }
        while i < self.stations.len()
            invariant
                i <= self.stations.len(),
                self@.stations == all,
                keep == station_is_not(id@),
                favorite_station_views(kept@) == all.take(i as int).filter(keep),
                removed == exists|k: int| 0 <= k < i && (#[trigger] all[k]).id == id@,
            decreases self.stations.len() - i,
        {
            proof {
                reveal(Seq::filter);
                let next = all.take(i + 1);
                assert(next.drop_last() =~= all.take(i as int));
                assert(next.last() == all[i as int]);
                assert(keep(all[i as int]) == (all[i as int].id != id@));
                assert(next.filter(keep) == if keep(all[i as int]) {
                    all.take(i as int).filter(keep).push(all[i as int])
                } else {
                    all.take(i as int).filter(keep)
                });
            }
            if same_text(self.stations[i].id.as_str(), id) {
                assert(all[i as int].id == id@);
                removed = true;
            } else {
                let ghost earlier = kept@;
                kept.push(self.stations[i].clone());
                assert(favorite_station_views(kept@) =~= favorite_station_views(earlier).push(
                    all[i as int],
                ));
            }
            i = i + 1;
        }
        assert(all.take(i as int) =~= all);
        proof {
            lemma_stations_without(all, id@);
        }
        self.stations = kept;
        removed
    }

    /// Removes every country with identifier `id`; the others keep their order.
    /// Says whether the favorites changed, that is, whether a write to the store is due.
    pub fn remove_country(&mut self, id: &str) -> (removed: bool)
        ensures
            final(self)@ == old(self)@.without_country(id@),
            removed == old(self)@.has_country(id@),
            removed == (final(self)@ != old(self)@),
    {
        let ghost all = self@.countries;
        let ghost keep = country_is_not(id@);
        let mut kept: Vec<FavoriteCountry> = Vec::new();
        let mut removed = false;
        let mut i: usize = 0;
        proof {
            reveal(Seq::filter);
        }
        while i < self.countries.len()
            invariant
                i <= self.countries.len(),
                self@.countries == all,
                keep == country_is_not(id@),
                favorite_country_views(kept@) == all.take(i as int).filter(keep),
                removed == exists|k: int| 0 <= k < i && (#[trigger] all[k]).id == id@,
            decreases self.countries.len() - i,
        {
            proof {
                reveal(Seq::filter);
                let next = all.take(i + 1);
                assert(next.drop_last() =~= all.take(i as int));
                assert(next.last() == all[i as int]);
                assert(keep(all[i as int]) == (all[i as int].id != id@));
                assert(next.filter(keep) == if keep(all[i as int]) {
                    all.take(i as int).filter(keep).push(all[i as int])
                } else {
                    all.take(i as int).filter(keep)
                });
            }
            if same_text(self.countries[i].id.as_str(), id) {
                assert(all[i as int].id == id@);
                removed = true;
            } else {
                let ghost earlier = kept@;
                kept.push(self.countries[i].clone());
                assert(favorite_country_views(kept@) =~= favorite_country_views(earlier).push(
                    all[i as int],
                ));
            }
            i = i + 1;
        }
        assert(all.take(i as int) =~= all);
        proof {
            lemma_countries_without(all, id@);
        }
        self.countries = kept;
        removed
    }

    /// Index of the first station in the combined list: the number of countries.
    pub fn boundary(&self) -> (boundary: usize)
        ensures
            boundary == self@.boundary(),
    {
        self.countries.len()
    }

    /// Length of the combined list: the countries, then the stations.
    pub fn len(&self) -> (len: usize)
        requires
            self.fits(),
        ensures
            len == self@.len(),
    {
        self.countries.len() + self.stations.len()
    }

    /// The entry at `index` of the combined list, where there is one.
    pub fn entry(&self, index: usize) -> (entry: Option<FavoriteEntry>)
        ensures
            opt_entry(entry) == self@.entry(index as int),
    {
        let boundary = self.countries.len();
        if index < boundary {
            Some(FavoriteEntry::Country(self.countries[index].clone()))
        } else if index - boundary < self.stations.len() {
            Some(FavoriteEntry::Station(self.stations[index - boundary].clone()))
        } else {
            None
        }
    }

    /// The change that a toggle of `station` asks for.
    pub fn toggle_station(&self, station: FavoriteStation) -> (change: FavoriteChange)
        ensures
            change@ == self@.toggle_station(station@),
    {
        if self.has_station(station.id.as_str()) {
            FavoriteChange::RemoveStation { id: station.id, title: station.title }
        } else {
            FavoriteChange::AddStation(station)
        }
    }

    /// The change that a toggle of `country` asks for.
    pub fn toggle_country(&self, country: FavoriteCountry) -> (change: FavoriteChange)
        ensures
            change@ == self@.toggle_country(country@),
    {
        if self.has_country(country.id.as_str()) {
            FavoriteChange::RemoveCountry { id: country.id, title: country.title }
        } else {
            FavoriteChange::AddCountry(country)
        }
    }

    /// Makes `change`. Says whether the favorites changed: a write to the
    /// store is due exactly then, so that adding what is there and removing
    /// what is not touch no file.
    pub fn apply(&mut self, change: FavoriteChange) -> (changed: bool)
        ensures
            final(self)@ == old(self)@.apply(change@),
            changed == (final(self)@ != old(self)@),
            changed == (change@.is_addition() != old(self)@.holds(change@)),
    {
        match change {
            FavoriteChange::AddCountry(country) => self.add_country(country),
            FavoriteChange::RemoveCountry { id, title } => self.remove_country(id.as_str()),
            FavoriteChange::AddStation(station) => self.add_station(station),
            FavoriteChange::RemoveStation { id, title } => self.remove_station(id.as_str()),
        }
    }
}

/// What is left of `list` without the stations of identifier `id`: none of
/// that identifier, every other identifier listed as before, and the list
/// itself where it held none.
proof fn lemma_stations_without(list: Seq<FavoriteStationView>, id: Seq<char>)
    ensures
        !station_listed(list.filter(station_is_not(id)), id),
        forall|other: Seq<char>|
            other != id ==> (#[trigger] station_listed(list.filter(station_is_not(id)), other)
                <==> station_listed(list, other)),
        !station_listed(list, id) ==> list.filter(station_is_not(id)) == list,
    decreases list.len(),
{
    reveal(Seq::filter);
    let keep = station_is_not(id);
    let kept = list.filter(keep);
    if list.len() > 0 {
        let front = list.drop_last();
        let last = list.last();
        lemma_stations_without(front, id);
        let front_kept = front.filter(keep);
        assert(keep(last) == (last.id != id));
        assert forall|other: Seq<char>| other != id implies (#[trigger] station_listed(
            kept,
            other,
        ) <==> station_listed(list, other)) by {
            if station_listed(kept, other) {
                let i = choose|i: int| 0 <= i < kept.len() && (#[trigger] kept[i]).id == other;
                if i < front_kept.len() {
                    assert(front_kept[i].id == other);
                    assert(station_listed(front_kept, other));
                    let j = choose|j: int|
                        0 <= j < front.len() && (#[trigger] front[j]).id == other;
                    assert(list[j].id == other);
                } else {
                    assert(list[list.len() - 1].id == other);
                }
            }
            if station_listed(list, other) {
                let j = choose|j: int| 0 <= j < list.len() && (#[trigger] list[j]).id == other;
                if j < front.len() {
                    assert(front[j].id == other);
                    assert(station_listed(front_kept, other));
                    let i = choose|i: int|
                        0 <= i < front_kept.len() && (#[trigger] front_kept[i]).id == other;
                    assert(kept[i].id == other);
                } else {
                    assert(kept[kept.len() - 1].id == other);
                }
            }
        }
        if station_listed(kept, id) {
            let i = choose|i: int| 0 <= i < kept.len() && (#[trigger] kept[i]).id == id;
            if i < front_kept.len() {
                assert(front_kept[i].id == id);
            }
        }
        if !station_listed(list, id) {
            assert(list[list.len() - 1].id != id);
            if station_listed(front, id) {
                let j = choose|j: int| 0 <= j < front.len() && (#[trigger] front[j]).id == id;
                assert(list[j].id == id);
            }
            assert(kept =~= list);
        }
    }
}

/// What is left of `list` without the countries of identifier `id`: none of
/// that identifier, every other identifier listed as before, and the list
/// itself where it held none.
proof fn lemma_countries_without(list: Seq<FavoriteCountryView>, id: Seq<char>)
    ensures
        !country_listed(list.filter(country_is_not(id)), id),
        forall|other: Seq<char>|
            other != id ==> (#[trigger] country_listed(list.filter(country_is_not(id)), other)
                <==> country_listed(list, other)),
        !country_listed(list, id) ==> list.filter(country_is_not(id)) == list,
    decreases list.len(),
{
    reveal(Seq::filter);
    let keep = country_is_not(id);
    let kept = list.filter(keep);
    if list.len() > 0 {
        let front = list.drop_last();
        let last = list.last();
        lemma_countries_without(front, id);
        let front_kept = front.filter(keep);
        assert(keep(last) == (last.id != id));
        assert forall|other: Seq<char>| other != id implies (#[trigger] country_listed(
            kept,
            other,
        ) <==> country_listed(list, other)) by {
            if country_listed(kept, other) {
                let i = choose|i: int| 0 <= i < kept.len() && (#[trigger] kept[i]).id == other;
                if i < front_kept.len() {
                    assert(front_kept[i].id == other);
                    assert(country_listed(front_kept, other));
                    let j = choose|j: int|
                        0 <= j < front.len() && (#[trigger] front[j]).id == other;
                    assert(list[j].id == other);
                } else {
                    assert(list[list.len() - 1].id == other);
                }
            }
            if country_listed(list, other) {
                let j = choose|j: int| 0 <= j < list.len() && (#[trigger] list[j]).id == other;
                if j < front.len() {
                    assert(front[j].id == other);
                    assert(country_listed(front_kept, other));
                    let i = choose|i: int|
                        0 <= i < front_kept.len() && (#[trigger] front_kept[i]).id == other;
                    assert(kept[i].id == other);
                } else {
                    assert(kept[kept.len() - 1].id == other);
                }
            }
        }
        if country_listed(kept, id) {
            let i = choose|i: int| 0 <= i < kept.len() && (#[trigger] kept[i]).id == id;
            if i < front_kept.len() {
                assert(front_kept[i].id == id);
            }
        }
        if !country_listed(list, id) {
            assert(list[list.len() - 1].id != id);
            if country_listed(front, id) {
                let j = choose|j: int| 0 <= j < front.len() && (#[trigger] front[j]).id == id;
                assert(list[j].id == id);
            }
            assert(kept =~= list);
        }
    }
}

/// A toggle turns a station's standing around, and a second toggle right
/// after it turns it back: the station is a favorite after both exactly if
/// it was one before. Where it was none, the favorites are as they were;
/// no other station and no country gains or loses its standing.
pub proof fn law_toggle_station_twice(favorites: FavoritesView, station: FavoriteStationView)
    ensures
        ({
            let once = favorites.apply(favorites.toggle_station(station));
            let twice = once.apply(once.toggle_station(station));
            &&& once.has_station(station.id) == !favorites.has_station(station.id)
            &&& twice.has_station(station.id) == favorites.has_station(station.id)
            &&& !favorites.has_station(station.id) ==> twice == favorites
            &&& twice.countries == favorites.countries
            &&& forall|other: Seq<char>|
                other != station.id ==> (#[trigger] twice.has_station(other)
                    <==> favorites.has_station(other))
        }),
{
    let id = station.id;
    let once = favorites.apply(favorites.toggle_station(station));
    let twice = once.apply(once.toggle_station(station));
    lemma_stations_without(favorites.stations, id);
    lemma_stations_without(once.stations, id);
    if favorites.has_station(id) {
        let added = once.stations.push(station);
        assert(added[added.len() - 1].id == id);
        assert(twice.stations == added);
        assert forall|other: Seq<char>| other != id implies (#[trigger] twice.has_station(other)
            <==> favorites.has_station(other)) by {
            if station_listed(added, other) {
                let i = choose|i: int| 0 <= i < added.len() && (#[trigger] added[i]).id == other;
                assert(once.stations[i].id == other);
            }
            if station_listed(once.stations, other) {
                let i = choose|i: int|
                    0 <= i < once.stations.len() && (#[trigger] once.stations[i]).id == other;
                assert(added[i].id == other);
            }
        }
    } else {
        let added = favorites.stations.push(station);
        assert(added[added.len() - 1].id == id);
        assert(once.stations == added);
        reveal(Seq::filter);
        assert(added.drop_last() =~= favorites.stations);
        assert(station_is_not(id)(added.last()) == false);
        assert(twice.stations == favorites.stations);
    }
}

/// A toggle turns a country's standing around, and a second toggle right
/// after it turns it back: the country is a favorite after both exactly if
/// it was one before. Where it was none, the favorites are as they were;
/// no other country and no station gains or loses its standing.
pub proof fn law_toggle_country_twice(favorites: FavoritesView, country: FavoriteCountryView)
    ensures
        ({
            let once = favorites.apply(favorites.toggle_country(country));
            let twice = once.apply(once.toggle_country(country));
            &&& once.has_country(country.id) == !favorites.has_country(country.id)
            &&& twice.has_country(country.id) == favorites.has_country(country.id)
            &&& !favorites.has_country(country.id) ==> twice == favorites
            &&& twice.stations == favorites.stations
            &&& forall|other: Seq<char>|
                other != country.id ==> (#[trigger] twice.has_country(other)
                    <==> favorites.has_country(other))
        }),
{
    let id = country.id;
    let once = favorites.apply(favorites.toggle_country(country));
    let twice = once.apply(once.toggle_country(country));
    lemma_countries_without(favorites.countries, id);
    lemma_countries_without(once.countries, id);
    if favorites.has_country(id) {
        let added = once.countries.push(country);
        assert(added[added.len() - 1].id == id);
        assert(twice.countries == added);
        assert forall|other: Seq<char>| other != id implies (#[trigger] twice.has_country(other)
            <==> favorites.has_country(other)) by {
            if country_listed(added, other) {
                let i = choose|i: int| 0 <= i < added.len() && (#[trigger] added[i]).id == other;
                assert(once.countries[i].id == other);
            }
            if country_listed(once.countries, other) {
                let i = choose|i: int|
                    0 <= i < once.countries.len() && (#[trigger] once.countries[i]).id == other;
                assert(added[i].id == other);
            }
        }
    } else {
        let added = favorites.countries.push(country);
        assert(added[added.len() - 1].id == id);
        assert(once.countries == added);
        reveal(Seq::filter);
        assert(added.drop_last() =~= favorites.countries);
        assert(country_is_not(id)(added.last()) == false);
        assert(twice.countries == favorites.countries);
    }
}

} // verus!
