use vstd::prelude::*;
use vstd::string::*;
use crate::api::{CountryPage, RadioClient, Station, StationView, listed_stations, station_views, stream_url};
use crate::text::{joined, last_segment, no_texts, push_text, text_views};

verus! {

/// The lines that show one station: its title, the address of its stream,
/// its identifier where `verbose` asks for it, and an empty line.
pub open spec fn station_lines(station: StationView, verbose: bool) -> Seq<Seq<char>> {
    let id = last_segment(station.url);
    let head = seq!["🎵 "@ + station.title, "   Stream: "@ + stream_url(id)];
    if verbose {
        head.push("   Station ID: "@ + id).push(Seq::empty())
    } else {
        head.push(Seq::empty())
    }
}

/// The lines of all `stations`, one station after the other.
pub open spec fn all_station_lines(stations: Seq<StationView>, verbose: bool) -> Seq<Seq<char>>
    decreases stations.len(),
{
    if stations.len() == 0 {
        Seq::empty()
    } else {
        all_station_lines(stations.drop_last(), verbose) + station_lines(stations.last(), verbose)
    }
}

/// The lines that show the stations of a country.
pub open spec fn report(country_id: Seq<char>, verbose: bool, stations: Seq<StationView>) -> Seq<
    Seq<char>,
> {
    (if verbose {
        seq!["Fetching stations for country ID: "@ + country_id]
    } else {
        Seq::empty()
    }) + seq!["📻 Radio Stations:"@, "━━━━━━━━━━━━━━━━━━━━"@] + all_station_lines(
        stations,
        verbose,
    )
}

/// Shows the stations that the listing `page` of the country `country_id` holds.
pub fn run(country_id: &str, verbose: bool, page: &CountryPage) -> (lines: Vec<String>)
    ensures
        text_views(lines@) == report(country_id@, verbose, listed_stations(page@)),
{
    let client = RadioClient::new();
    let stations = page.stations();
    let mut lines = no_texts();
    if verbose {
        push_text(&mut lines, joined("Fetching stations for country ID: ", country_id));
    }
    push_text(&mut lines, String::from_str("📻 Radio Stations:"));
    push_text(&mut lines, String::from_str("━━━━━━━━━━━━━━━━━━━━"));
    let ghost head = text_views(lines@);
    let ghost all = station_views(stations@);
    assert(all.take(0) =~= Seq::<StationView>::empty());
    let mut i: usize = 0;
    while i < stations.len()
        invariant
            i <= stations.len(),
            all == station_views(stations@),
            text_views(lines@) == head + all_station_lines(all.take(i as int), verbose),
        decreases stations.len() - i,
    {
        let station = &stations[i];
        let id = station.id();
        let ghost earlier = text_views(lines@);
        push_text(&mut lines, joined("🎵 ", station.title.as_str()));
        push_text(
            &mut lines,
            joined("   Stream: ", client.get_stream_url(id.as_str()).as_str()),
        );
        if verbose {
            push_text(&mut lines, joined("   Station ID: ", id.as_str()));
        }
        push_text(&mut lines, String::new());
        proof {
            assert(all.take(i + 1).drop_last() =~= all.take(i as int));
            assert(all.take(i + 1).last() == all[i as int]);
            assert(text_views(lines@) =~= earlier + station_lines(all[i as int], verbose));
        }
        i = i + 1;
    }
    assert(all.take(i as int) =~= all);
    assert(head =~= (if verbose {
        seq!["Fetching stations for country ID: "@ + country_id@]
    } else {
        Seq::<Seq<char>>::empty()
    }) + seq!["📻 Radio Stations:"@, "━━━━━━━━━━━━━━━━━━━━"@]);
    lines
}

} // verus!
