use vstd::prelude::*;
use vstd::string::*;
use crate::api::{Hit, RadioClient, SearchResult, SourceView, hit_views, stream_url};
use crate::favorites::{Favorites, FavoritesView};
use crate::text::{joined, joined3, last_segment, last_segment_of, no_texts, push_text, same_text, text_views};

verus! {

/// The lines that show one hit, ending in an empty line: a country with its
/// identifier, starred where it is a favorite; a station with the address
/// of its stream and its country, as far as the hit names them; anything
/// else by its kind and title.
pub open spec fn hit_lines(favorites: FavoritesView, hit: SourceView) -> Seq<Seq<char>> {
    let lines = if hit.result_type == "country"@ {
        match hit.country {
            Some(country) => seq![
                (if favorites.has_country(country.id) {
                    "⭐"@
                } else {
                    "🌍"@
                }) + " Country: "@ + country.title + " (ID: "@ + country.id + ")"@,
            ],
            None => Seq::empty(),
        }
    } else if hit.result_type == "channel"@ {
        seq!["📻 Station: "@ + hit.title] + (match hit.page {
            Some(url) => seq!["   Stream: "@ + stream_url(last_segment(url))],
            None => Seq::empty(),
        }) + (match hit.country {
            Some(country) => seq!["   Country: "@ + country.title],
            None => Seq::empty(),
        })
    } else {
        seq!["❓ "@ + hit.result_type + ": "@ + hit.title]
    };
    lines.push(Seq::empty())
}

/// The lines of all `hits`, one hit after the other.
pub open spec fn all_hit_lines(favorites: FavoritesView, hits: Seq<SourceView>) -> Seq<Seq<char>>
    decreases hits.len(),
{
    if hits.len() == 0 {
        Seq::empty()
    } else {
        all_hit_lines(favorites, hits.drop_last()) + hit_lines(favorites, hits.last())
    }
}

/// The lines that show the answer to a search for `query`.
pub open spec fn report(
    query: Seq<char>,
    verbose: bool,
    hits: Seq<SourceView>,
    favorites: FavoritesView,
) -> Seq<Seq<char>> {
    (if verbose {
        seq!["Searching for: "@ + query]
    } else {
        Seq::empty()
    }) + seq![
        "🔍 Search Results for '"@ + query + "':"@,
        "━━━━━━━━━━━━━━━━━━━━━━━━━━━━━━━━"@,
    ] + all_hit_lines(favorites, hits)
}

/// Appends the lines that show `hit` to `lines`.
fn push_hit_lines(lines: &mut Vec<String>, favorites: &Favorites, hit: &Hit)
    ensures
        text_views(final(lines)@) == text_views(old(lines)@) + hit_lines(favorites@, hit@),
{
    let client = RadioClient::new();
    let source = &hit.source;
    let ghost before = text_views(lines@);
    if same_text(source.result_type.as_str(), "country") {
        if let Some(country) = &source.country {
            let star = if favorites.has_country(country.id.as_str()) {
                "⭐"
            } else {
                "🌍"
            };
            let mut line = joined3(star, " Country: ", country.title.as_str());
            line.append(" (ID: ");
            line.append(country.id.as_str());
            line.append(")");
            push_text(lines, line);
        }
    } else if same_text(source.result_type.as_str(), "channel") {
        push_text(lines, joined("📻 Station: ", source.title.as_str()));
        if let Some(page) = &source.page {
            let id = last_segment_of(page.url.as_str());
            push_text(lines, joined("   Stream: ", client.get_stream_url(id.as_str()).as_str()));
        }
        if let Some(country) = &source.country {
            push_text(lines, joined("   Country: ", country.title.as_str()));
        }
    } else {
        let mut line = joined3("❓ ", source.result_type.as_str(), ": ");
        line.append(source.title.as_str());
        push_text(lines, line);
    }
    push_text(lines, String::new());
    assert(text_views(lines@) =~= before + hit_lines(favorites@, hit@));
}

/// Shows the answer `results` to a search for `query`.
pub fn run(query: &str, verbose: bool, results: &SearchResult, favorites: &Favorites) -> (lines:
    Vec<String>)
    ensures
        text_views(lines@) == report(query@, verbose, results@, favorites@),
{
    let hits = &results.hits.hits;
    let mut lines = no_texts();
    if verbose {
        push_text(&mut lines, joined("Searching for: ", query));
    }
    push_text(&mut lines, joined3("🔍 Search Results for '", query, "':"));
    push_text(&mut lines, String::from_str("━━━━━━━━━━━━━━━━━━━━━━━━━━━━━━━━"));
    let ghost head = text_views(lines@);
    let ghost all = hit_views(hits@);
    assert(all.take(0) =~= Seq::<SourceView>::empty());
    let mut i: usize = 0;
    while i < hits.len()
        invariant
            i <= hits.len(),
            all == hit_views(hits@),
            text_views(lines@) == head + all_hit_lines(favorites@, all.take(i as int)),
        decreases hits.len() - i,
    {
        let ghost earlier = text_views(lines@);
        push_hit_lines(&mut lines, favorites, &hits[i]);
        proof {
            assert(all.take(i + 1).drop_last() =~= all.take(i as int));
            assert(all.take(i + 1).last() == all[i as int]);
            assert(text_views(lines@) =~= head + all_hit_lines(favorites@, all.take(i + 1)));
        }
        i = i + 1;
    }
    assert(all.take(i as int) =~= all);
    assert(head =~= (if verbose {
        seq!["Searching for: "@ + query@]
    } else {
        Seq::<Seq<char>>::empty()
    }) + seq![
        "🔍 Search Results for '"@ + query@ + "':"@,
        "━━━━━━━━━━━━━━━━━━━━━━━━━━━━━━━━"@,
    ]);
    lines
}

} // verus!
