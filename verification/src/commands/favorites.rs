use vstd::prelude::*;
use vstd::string::*;
use crate::favorites::{
    FavoriteCountry, FavoriteCountryView, FavoriteStation, FavoriteStationView, Favorites,
    FavoritesView, favorite_country_views, favorite_station_views,
};
use crate::text::{joined, joined3, no_texts, push_text, text_views};

verus! {

/// What a command did to the favorites.
#[derive(Debug, PartialEq, Eq)]
pub struct Outcome {
    /// Whether the favorites changed: a write to the store is due exactly then.
    pub write_due: bool,
    /// What to tell the user.
    pub message: String,
}

/// Adds the country `id`, titled `name`, to `favorites`, and says so;
/// nothing changes where a country of that identifier is a favorite already.
pub fn add_country(favorites: &mut Favorites, id: &str, name: &str) -> (outcome: Outcome)
    ensures
        final(favorites)@ == old(favorites)@.with_country(
            FavoriteCountryView { id: id@, title: name@ },
        ),
        outcome.write_due == (final(favorites)@ != old(favorites)@),
        outcome.write_due == !old(favorites)@.has_country(id@),
        outcome.message@ == "✅ Added '"@ + name@ + "' to favorite countries"@,
{
    let country = FavoriteCountry { id: String::from_str(id), title: String::from_str(name) };
    let write_due = favorites.add_country(country);
    Outcome { write_due, message: joined3("✅ Added '", name, "' to favorite countries") }
}

/// Adds the station `id`, titled `name`, to `favorites`, and says so;
/// nothing changes where a station of that identifier is a favorite already.
pub fn add_station(favorites: &mut Favorites, id: &str, name: &str, country: Option<&str>) -> (outcome:
    Outcome)
    ensures
        final(favorites)@ == old(favorites)@.with_station(
            FavoriteStationView {
                id: id@,
                title: name@,
                country: match country {
                    Some(c) => Some(c@),
                    None => None,
                },
            },
        ),
        outcome.write_due == (final(favorites)@ != old(favorites)@),
        outcome.write_due == !old(favorites)@.has_station(id@),
        outcome.message@ == "✅ Added '"@ + name@ + "' to favorite stations"@,
{
    let station = FavoriteStation {
        id: String::from_str(id),
        title: String::from_str(name),
        country: match country {
            Some(c) => Some(String::from_str(c)),
            None => None,
        },
    };
    let write_due = favorites.add_station(station);
    Outcome { write_due, message: joined3("✅ Added '", name, "' to favorite stations") }
}

/// Removes the country `id` from `favorites`, and says so; nothing changes
/// where no country of that identifier is a favorite.
pub fn remove_country(favorites: &mut Favorites, id: &str) -> (outcome: Outcome)
    ensures
        final(favorites)@ == old(favorites)@.without_country(id@),
        outcome.write_due == (final(favorites)@ != old(favorites)@),
        outcome.write_due == old(favorites)@.has_country(id@),
        outcome.message@ == "🗑️  Removed country from favorites"@,
{
    let write_due = favorites.remove_country(id);
    Outcome { write_due, message: String::from_str("🗑️  Removed country from favorites") }
}

/// Removes the station `id` from `favorites`, and says so; nothing changes
/// where no station of that identifier is a favorite.
pub fn remove_station(favorites: &mut Favorites, id: &str) -> (outcome: Outcome)
    ensures
        final(favorites)@ == old(favorites)@.without_station(id@),
        outcome.write_due == (final(favorites)@ != old(favorites)@),
        outcome.write_due == old(favorites)@.has_station(id@),
        outcome.message@ == "🗑️  Removed station from favorites"@,
{
    let write_due = favorites.remove_station(id);
    Outcome { write_due, message: String::from_str("🗑️  Removed station from favorites") }
}

/// The line that lists a favorite country.
pub open spec fn country_line(country: FavoriteCountryView) -> Seq<char> {
    "  • "@ + country.title + " (ID: "@ + country.id + ")"@
}

/// The line that lists a favorite station, with its country where that is known.
pub open spec fn station_line(station: FavoriteStationView) -> Seq<char> {
    "  • "@ + station.title + (match station.country {
        Some(country) => " - "@ + country,
        None => Seq::empty(),
    }) + " (ID: "@ + station.id + ")"@
}

/// The lines that list the favorites: the countries under their heading,
/// then the stations under theirs, or a hint where there is neither.
pub open spec fn listing(favorites: FavoritesView) -> Seq<Seq<char>> {
    let head = seq!["⭐ Your Favorites:"@, "━━━━━━━━━━━━━━━━━━"@];
    let countries = if favorites.countries.len() > 0 {
        seq!["\n🌍 Countries:"@] + favorites.countries.map_values(
            |c: FavoriteCountryView| country_line(c),
        )
    } else {
        Seq::empty()
    };
    let stations = if favorites.stations.len() > 0 {
        seq!["\n📻 Stations:"@] + favorites.stations.map_values(
            |s: FavoriteStationView| station_line(s),
        )
    } else {
        Seq::empty()
    };
    let hint = if favorites.countries.len() == 0 && favorites.stations.len() == 0 {
        seq![
            "No favorites yet. Add some with 'termadio favorites add-country' or 'termadio favorites add-station'"@,
        ]
    } else {
        Seq::empty()
    };
    head + countries + stations + hint
}

fn line_of_country(country: &FavoriteCountry) -> (line: String)
    ensures
        line@ == country_line(country@),
{
    let mut line = joined3("  • ", country.title.as_str(), " (ID: ");
    line.append(country.id.as_str());
    line.append(")");
    line
}

fn line_of_station(station: &FavoriteStation) -> (line: String)
    ensures
        line@ == station_line(station@),
{
    let mut line = joined("  • ", station.title.as_str());
    match &station.country {
        Some(country) => {
            line.append(" - ");
            line.append(country.as_str());
            assert(line@ =~= "  • "@ + station@.title + (" - "@ + country@));
        },
        None => {
            assert(line@ =~= "  • "@ + station@.title + Seq::<char>::empty());
        },
    }
    line.append(" (ID: ");
    line.append(station.id.as_str());
    line.append(")");
    line
}

/// Lists `favorites`.
pub fn list(favorites: &Favorites) -> (lines: Vec<String>)
    ensures
        text_views(lines@) == listing(favorites@),
{
    let mut lines = no_texts();
    push_text(&mut lines, String::from_str("⭐ Your Favorites:"));
    push_text(&mut lines, String::from_str("━━━━━━━━━━━━━━━━━━"));
    let ghost head = text_views(lines@);
    assert(head =~= seq!["⭐ Your Favorites:"@, "━━━━━━━━━━━━━━━━━━"@]);
    let ghost country_lines = favorites@.countries.map_values(
        |c: FavoriteCountryView| country_line(c),
    );
    let ghost station_lines = favorites@.stations.map_values(
        |s: FavoriteStationView| station_line(s),
    );
    if favorites.countries.len() > 0 {
        push_text(&mut lines, String::from_str("\n🌍 Countries:"));
        let ghost begun = text_views(lines@);
        let mut i: usize = 0;
        while i < favorites.countries.len()
            invariant
                i <= favorites.countries.len(),
                country_lines == favorites@.countries.map_values(
                    |c: FavoriteCountryView| country_line(c),
                ),
                text_views(lines@) == begun + country_lines.take(i as int),
            decreases favorites.countries.len() - i,
        {
            let ghost earlier = text_views(lines@);
            push_text(&mut lines, line_of_country(&favorites.countries[i]));
            assert(country_lines.take(i + 1) =~= country_lines.take(i as int).push(
                country_lines[i as int],
            ));
            assert(text_views(lines@) =~= begun + country_lines.take(i + 1));
            i = i + 1;
        }
        assert(country_lines.take(i as int) =~= country_lines);
    }
    let ghost with_countries = text_views(lines@);
    if favorites.stations.len() > 0 {
        push_text(&mut lines, String::from_str("\n📻 Stations:"));
        let ghost begun = text_views(lines@);
        let mut i: usize = 0;
        while i < favorites.stations.len()
            invariant
                i <= favorites.stations.len(),
                station_lines == favorites@.stations.map_values(
                    |s: FavoriteStationView| station_line(s),
                ),
                text_views(lines@) == begun + station_lines.take(i as int),
            decreases favorites.stations.len() - i,
        {
            let ghost earlier = text_views(lines@);
            push_text(&mut lines, line_of_station(&favorites.stations[i]));
            assert(station_lines.take(i + 1) =~= station_lines.take(i as int).push(
                station_lines[i as int],
            ));
            assert(text_views(lines@) =~= begun + station_lines.take(i + 1));
            i = i + 1;
        }
        assert(station_lines.take(i as int) =~= station_lines);
    }
    if favorites.countries.len() == 0 && favorites.stations.len() == 0 {
        push_text(
            &mut lines,
            String::from_str(
                "No favorites yet. Add some with 'termadio favorites add-country' or 'termadio favorites add-station'",
            ),
        );
    }
    assert(text_views(lines@) =~= listing(favorites@));
    lines
}

} // verus!
