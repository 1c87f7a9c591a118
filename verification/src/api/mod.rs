//! The radio directory: the shapes of its answers, the addresses of its
//! endpoints, and how an entry's identifier is read off its page address.

use vstd::prelude::*;
use vstd::string::*;
use crate::text::{joined, joined3, last_segment, last_segment_of};

verus! {

/// Root of every address of the directory service.
pub const BASE_URL: &'static str = "https://radio.garden/api";

/// The view of an optional string: its characters, where it is there.
pub open spec fn opt_text(s: Option<String>) -> Option<Seq<char>> {
    match s {
        Some(t) => Some(t@),
        None => None,
    }
}

/// A copy of an optional string.
pub fn copy_opt_text(s: &Option<String>) -> (copy: Option<String>)
    ensures
        opt_text(copy) == opt_text(*s),
{
    match s {
        Some(t) => Some(t.clone()),
        None => None,
    }
}

/// A country as the directory names it inside a search hit.
#[derive(Debug)]
pub struct Country {
    pub id: String,
    pub title: String,
}

pub ghost struct CountryView {
    pub id: Seq<char>,
    pub title: Seq<char>,
}

impl View for Country {
    type V = CountryView;

    open spec fn view(&self) -> CountryView {
        CountryView { id: self.id@, title: self.title@ }
    }
}

impl Clone for Country {
    fn clone(&self) -> (copy: Self)
        ensures
            copy@ == self@,
    {
        Country { id: self.id.clone(), title: self.title.clone() }
    }
}

/// The address of an entry's page; its last segment is the entry's identifier.
#[derive(Debug, PartialEq, Eq)]
pub struct Page {
    pub url: String,
}

impl View for Page {
    type V = Seq<char>;

    open spec fn view(&self) -> Seq<char> {
        self.url@
    }
}

impl Clone for Page {
    fn clone(&self) -> (copy: Self)
        ensures
            copy@ == self@,
    {
        Page { url: self.url.clone() }
    }
}

/// The view of an optional country.
pub open spec fn opt_country(c: Option<Country>) -> Option<CountryView> {
    match c {
        Some(country) => Some(country@),
        None => None,
    }
}

/// The view of an optional page: its address.
pub open spec fn opt_page(p: Option<Page>) -> Option<Seq<char>> {
    match p {
        Some(page) => Some(page@),
        None => None,
    }
}

/// What a search hit says of the entry it found.
#[derive(Debug)]
pub struct Source {
    /// `"country"` or `"channel"`; anything else is listed but cannot be opened.
    pub result_type: String,
    pub title: String,
    pub country: Option<Country>,
    pub page: Option<Page>,
    pub url: Option<String>,
    pub code: Option<String>,
}

pub ghost struct SourceView {
    pub result_type: Seq<char>,
    pub title: Seq<char>,
    pub country: Option<CountryView>,
    pub page: Option<Seq<char>>,
    pub url: Option<Seq<char>>,
    pub code: Option<Seq<char>>,
}

impl View for Source {
    type V = SourceView;

    open spec fn view(&self) -> SourceView {
        SourceView {
            result_type: self.result_type@,
            title: self.title@,
            country: opt_country(self.country),
            page: opt_page(self.page),
            url: opt_text(self.url),
            code: opt_text(self.code),
        }
    }
}

impl Clone for Source {
    fn clone(&self) -> (copy: Self)
        ensures
            copy@ == self@,
    {
        let country = match &self.country {
            Some(c) => Some(c.clone()),
            None => None,
        };
        let page = match &self.page {
            Some(p) => Some(p.clone()),
            None => None,
        };
        Source {
            result_type: self.result_type.clone(),
            title: self.title.clone(),
            country,
            page,
            url: copy_opt_text(&self.url),
            code: copy_opt_text(&self.code),
        }
    }
}

/// One entry of a search answer.
#[derive(Debug)]
pub struct Hit {
    pub source: Source,
}

impl View for Hit {
    type V = SourceView;

    open spec fn view(&self) -> SourceView {
        self.source@
    }
}

impl Clone for Hit {
    fn clone(&self) -> (copy: Self)
        ensures
            copy@ == self@,
    {
        Hit { source: self.source.clone() }
    }
}

/// The views of a list of hits, in order.
pub open spec fn hit_views(hits: Seq<Hit>) -> Seq<SourceView> {
    hits.map_values(|h: Hit| h@)
}

/// The list of hits inside a search answer.
#[derive(Debug, Clone)]
pub struct Hits {
    pub hits: Vec<Hit>,
}

impl View for Hits {
    type V = Seq<SourceView>;

    open spec fn view(&self) -> Seq<SourceView> {
        hit_views(self.hits@)
    }
}

/// The directory's answer to a search.
#[derive(Debug, Clone)]
pub struct SearchResult {
    pub hits: Hits,
}

impl View for SearchResult {
    type V = Seq<SourceView>;

    open spec fn view(&self) -> Seq<SourceView> {
        self.hits@
    }
}

/// A station's page as a country's listing gives it.
#[derive(Debug, Clone)]
pub struct StationPage {
    pub url: String,
    pub title: String,
    pub stream: Option<String>,
}

pub ghost struct StationPageView {
    pub url: Seq<char>,
    pub title: Seq<char>,
    pub stream: Option<Seq<char>>,
}

impl View for StationPage {
    type V = StationPageView;

    open spec fn view(&self) -> StationPageView {
        StationPageView { url: self.url@, title: self.title@, stream: opt_text(self.stream) }
    }
}

/// One station of a country's listing.
#[derive(Debug, Clone)]
pub struct StationItem {
    pub page: StationPage,
}

impl View for StationItem {
    type V = StationPageView;

    open spec fn view(&self) -> StationPageView {
        self.page@
    }
}

/// The views of a list of station items, in order.
pub open spec fn item_views(items: Seq<StationItem>) -> Seq<StationPageView> {
    items.map_values(|i: StationItem| i@)
}

/// One block of a country's listing; only some blocks hold stations.
#[derive(Debug, Clone)]
pub struct ContentItem {
    pub items: Option<Vec<StationItem>>,
}

impl View for ContentItem {
    type V = Option<Seq<StationPageView>>;

    open spec fn view(&self) -> Option<Seq<StationPageView>> {
        match self.items {
            Some(items) => Some(item_views(items@)),
            None => None,
        }
    }
}

/// The blocks of a country's listing.
#[derive(Debug, Clone)]
pub struct CountryData {
    pub content: Vec<ContentItem>,
}

impl View for CountryData {
    type V = Seq<Option<Seq<StationPageView>>>;

    open spec fn view(&self) -> Seq<Option<Seq<StationPageView>>> {
        self.content@.map_values(|c: ContentItem| c@)
    }
}

/// The directory's answer to the request for a country's stations.
#[derive(Debug, Clone)]
pub struct CountryPage {
    pub data: CountryData,
}

impl View for CountryPage {
    type V = Seq<Option<Seq<StationPageView>>>;

    open spec fn view(&self) -> Seq<Option<Seq<StationPageView>>> {
        self.data@
    }
}

/// A station as the session lists it: its title and its page.
#[derive(Debug, PartialEq, Eq)]
pub struct Station {
    pub title: String,
    pub page: Page,
}

pub ghost struct StationView {
    pub title: Seq<char>,
    pub url: Seq<char>,
}

impl View for Station {
    type V = StationView;

    open spec fn view(&self) -> StationView {
        StationView { title: self.title@, url: self.page@ }
    }
}

impl Clone for Station {
    fn clone(&self) -> (copy: Self)
        ensures
            copy@ == self@,
    {
        Station { title: self.title.clone(), page: self.page.clone() }
    }
}

/// The views of a list of stations, in order.
pub open spec fn station_views(stations: Seq<Station>) -> Seq<StationView> {
    stations.map_values(|s: Station| s@)
}

/// The station that a listed page stands for.
pub open spec fn station_of(page: StationPageView) -> StationView {
    StationView { title: page.title, url: page.url }
}

/// The stations of one block, in order; none where the block holds no items.
pub open spec fn block_stations(block: Option<Seq<StationPageView>>) -> Seq<StationView> {
    match block {
        Some(items) => items.map_values(|p: StationPageView| station_of(p)),
        None => Seq::empty(),
    }
}

/// All stations of a listing: those of each block, block after block.
pub open spec fn listed_stations(content: Seq<Option<Seq<StationPageView>>>) -> Seq<StationView>
    decreases content.len(),
{
    if content.len() == 0 {
        Seq::empty()
    } else {
        listed_stations(content.drop_last()) + block_stations(content.last())
    }
}

impl CountryPage {
    /// The stations that the listing holds, in the order in which it holds them.
    pub fn stations(&self) -> (stations: Vec<Station>)
        ensures
            station_views(stations@) == listed_stations(self@),
    {
        let mut stations: Vec<Station> = Vec::new();
        let blocks = &self.data.content;
        let mut b: usize = 0;
        while b < blocks.len()
            invariant
                b <= blocks.len(),
                blocks@.map_values(|c: ContentItem| c@) == self@,
                station_views(stations@) == listed_stations(self@.take(b as int)),
            decreases blocks.len() - b,
        {
            let ghost before = station_views(stations@);
            if let Some(items) = &blocks[b].items {
                let mut i: usize = 0;
                while i < items.len()
                    invariant
                        i <= items.len(),
                        station_views(stations@) == before + block_stations(
                            Some(item_views(items@).take(i as int)),
                        ),
                    decreases items.len() - i,
                {
                    let page = &items[i].page;
                    let station = Station {
                        title: page.title.clone(),
                        page: Page { url: page.url.clone() },
                    };
                    let ghost pages = item_views(items@);
                    assert(station@ == station_of(pages[i as int]));
                    assert(pages.take(i + 1) =~= pages.take(i as int).push(pages[i as int]));
                    let ghost earlier = stations@;
                    stations.push(station);
                    assert(station_views(stations@) =~= station_views(earlier).push(
                        station_of(pages[i as int]),
                    ));
                    assert(block_stations(Some(pages.take(i + 1))) =~= block_stations(
                        Some(pages.take(i as int)),
                    ).push(station_of(pages[i as int])));
                    i = i + 1;
                }
                assert(item_views(items@).take(i as int) =~= item_views(items@));
            } else {
                assert(station_views(stations@) =~= before + block_stations(None));
            }
            assert(self@.take(b + 1).drop_last() =~= self@.take(b as int));
            b = b + 1;
        }
        assert(self@.take(b as int) =~= self@);
        stations
    }
}

/// Builds the addresses of the directory's endpoints.
#[derive(Debug, Clone, Copy)]
pub struct RadioClient {}

impl RadioClient {
    pub fn new() -> (client: Self) {
        RadioClient {  }
    }

    /// The address that answers a search for `query`.
    pub fn search_url(&self, query: &str) -> (url: String)
        ensures
            url@ == BASE_URL@ + "/search/secure?q="@ + query@,
    {
        joined3(BASE_URL, "/search/secure?q=", query)
    }

    /// The address that lists the stations of the country `country_id`.
    pub fn country_stations_url(&self, country_id: &str) -> (url: String)
        ensures
            url@ == BASE_URL@ + "/ara/content/secure/page/"@ + country_id@,
    {
        joined3(BASE_URL, "/ara/content/secure/page/", country_id)
    }

    /// The address of the live stream of the station `station_id`.
    pub fn get_stream_url(&self, station_id: &str) -> (url: String)
        ensures
            url@ == stream_url(station_id@),
    {
        let mut url = joined3(BASE_URL, "/ara/content/listen/", station_id);
        url.append("/channel.mp3");
        url
    }
}

/// The address of the live stream of the station with identifier `id`.
pub open spec fn stream_url(id: Seq<char>) -> Seq<char> {
    BASE_URL@ + "/ara/content/listen/"@ + id + "/channel.mp3"@
}

impl Station {
    /// The station's identifier: the last segment of its page address.
    pub fn id(&self) -> (id: String)
        ensures
            id@ == last_segment(self@.url),
    {
        last_segment_of(self.page.url.as_str())
    }
}

} // verus!
