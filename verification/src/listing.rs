//! Listings: one record for each node that a selector finds in a document.

use crate::dom::{
    attr_of_first, document_matches, find_all, first_attr, first_text, opt_trimmed,
    opt_trimmed_string, parse_selector, parsed_selector, query, query_document, select_in_document,
    text_of_first,
};
use crate::fields::{
    listed_id_of, opt_listed_id, opt_path_id, opt_trailing_count, opt_u32, path_id_of,
    trailing_count_of, u32_of,
};
use crate::types::{Anime, Episodes, MostPopularAnime, TrendingAnime};
use crate::utils::HiAnimeUtils;
use scraper::{ElementRef, Html, Selector};
use vstd::prelude::*;

verus! {

pub const FILM_TITLE: &'static str = ".film-detail .film-name .dynamic-name";

pub const FILM_POSTER: &'static str = ".film-poster .film-poster-img";

pub const FILM_DURATION: &'static str = ".film-detail .fd-infor .fdi-item.fdi-duration";

pub const FILM_TYPE: &'static str = ".film-detail .fd-infor .fdi-item:nth-of-type(1)";

pub const FILM_RATING: &'static str = ".film-poster .tick-rate";

pub const FILM_SUB: &'static str = ".film-poster .tick-sub";

pub const FILM_DUB: &'static str = ".film-poster .tick-dub";

pub const SIDE_TYPE: &'static str = ".fd-infor .tick .fdi-item";

pub const SIDE_SUB: &'static str = ".fd-infor .tick .tick-sub";

pub const SIDE_DUB: &'static str = ".fd-infor .tick .tick-dub";

pub const TREND_LINK: &'static str = ".item .film-poster";

pub const TREND_TITLE: &'static str = ".item .number .film-title.dynamic-name";

pub const TREND_POSTER: &'static str = ".item .film-poster .film-poster-img";

pub const TREND_RANK: &'static str = ".item .number span";

/// Whether `anime` is the record of the listing entry `item`.
pub open spec fn anime_from(anime: Anime, item: ElementRef<'static>) -> bool {
    &&& anime.id.deep_view() == opt_listed_id(first_attr(query(item, FILM_TITLE@), "href"@))
    &&& anime.name.deep_view() == opt_trimmed(first_text(query(item, FILM_TITLE@)))
    &&& anime.jname.deep_view() == opt_trimmed(first_attr(query(item, FILM_TITLE@), "data-jname"@))
    &&& anime.poster.deep_view() == opt_trimmed(first_attr(query(item, FILM_POSTER@), "data-src"@))
    &&& anime.duration.deep_view() == opt_trimmed(first_text(query(item, FILM_DURATION@)))
    &&& anime.anime_type.deep_view() == opt_trimmed(first_text(query(item, FILM_TYPE@)))
    &&& anime.rating.deep_view() == opt_trimmed(first_text(query(item, FILM_RATING@)))
    &&& anime.episodes.sub == opt_trailing_count(first_text(query(item, FILM_SUB@)))
    &&& anime.episodes.dub == opt_trailing_count(first_text(query(item, FILM_DUB@)))
}

/// Whether `animes` holds the records of `items`, one for each, in order.
pub open spec fn animes_from(animes: Seq<Anime>, items: Seq<ElementRef<'static>>) -> bool {
    &&& animes.len() == items.len()
    &&& forall|i: int| 0 <= i < animes.len() ==> anime_from(#[trigger] animes[i], items[i])
}

/// Whether `anime` is the record of the sidebar entry `item`.
pub open spec fn most_popular_from(anime: MostPopularAnime, item: ElementRef<'static>) -> bool {
    &&& anime.id.deep_view() == opt_path_id(first_attr(query(item, FILM_TITLE@), "href"@))
    &&& anime.name.deep_view() == opt_trimmed(first_text(query(item, FILM_TITLE@)))
    &&& anime.jname.deep_view() == opt_trimmed(first_attr(query(item, FILM_TITLE@), "data-jname"@))
    &&& anime.poster.deep_view() == opt_trimmed(first_attr(query(item, FILM_POSTER@), "data-src"@))
    &&& anime.anime_type.deep_view() == opt_trimmed(first_text(query(item, SIDE_TYPE@)))
    &&& anime.episodes.sub == opt_trailing_count(first_text(query(item, SIDE_SUB@)))
    &&& anime.episodes.dub == opt_trailing_count(first_text(query(item, SIDE_DUB@)))
}

pub open spec fn most_populars_from(
    animes: Seq<MostPopularAnime>,
    items: Seq<ElementRef<'static>>,
) -> bool {
    &&& animes.len() == items.len()
    &&& forall|i: int| 0 <= i < animes.len() ==> most_popular_from(#[trigger] animes[i], items[i])
}

/// Whether `anime` is the record of the trending entry `item`.
pub open spec fn trending_from(anime: TrendingAnime, item: ElementRef<'static>) -> bool {
    &&& anime.id.deep_view() == opt_path_id(first_attr(query(item, TREND_LINK@), "href"@))
    &&& anime.name.deep_view() == opt_trimmed(first_text(query(item, TREND_TITLE@)))
    &&& anime.jname.deep_view() == opt_trimmed(
        first_attr(query(item, TREND_TITLE@), "data-jname"@),
    )
    &&& anime.rank == opt_u32(first_text(query(item, TREND_RANK@)))
    &&& anime.poster.deep_view() == opt_trimmed(
        first_attr(query(item, TREND_POSTER@), "data-src"@),
    )
}

pub open spec fn trendings_from(animes: Seq<TrendingAnime>, items: Seq<ElementRef<'static>>) -> bool {
    &&& animes.len() == items.len()
    &&& forall|i: int| 0 <= i < animes.len() ==> trending_from(#[trigger] animes[i], items[i])
}

impl HiAnimeUtils {
    /// The records of the listing entries that `selector` finds in
    /// `document`, in the order in which it finds them.
    pub fn extract_animes(document: &Html, selector: &Selector) -> (animes: Vec<Anime>)
        ensures
            animes_from(animes@, document_matches(*document, *selector)),
    {
        let items = select_in_document(document, selector);
        let title = parse_selector(FILM_TITLE);
        let poster = parse_selector(FILM_POSTER);
        let duration = parse_selector(FILM_DURATION);
        let anime_type = parse_selector(FILM_TYPE);
        let rating = parse_selector(FILM_RATING);
        let sub = parse_selector(FILM_SUB);
        let dub = parse_selector(FILM_DUB);

        let mut animes: Vec<Anime> = Vec::new();
        let mut i: usize = 0;
        while i < items.len()
            invariant
                i <= items.len(),
                items@ == document_matches(*document, *selector),
                title == parsed_selector(FILM_TITLE@),
                poster == parsed_selector(FILM_POSTER@),
                duration == parsed_selector(FILM_DURATION@),
                anime_type == parsed_selector(FILM_TYPE@),
                rating == parsed_selector(FILM_RATING@),
                sub == parsed_selector(FILM_SUB@),
                dub == parsed_selector(FILM_DUB@),
                animes_from(animes@, items@.take(i as int)),
            decreases items.len() - i,
        {
            let item = items[i];
            let titles = find_all(item, &title);
            let anime = Anime {
                id: listed_id_of(&attr_of_first(&titles, "href")),
                name: opt_trimmed_string(&text_of_first(&titles)),
                jname: opt_trimmed_string(&attr_of_first(&titles, "data-jname")),
                poster: opt_trimmed_string(&attr_of_first(&find_all(item, &poster), "data-src")),
                duration: opt_trimmed_string(&text_of_first(&find_all(item, &duration))),
                anime_type: opt_trimmed_string(&text_of_first(&find_all(item, &anime_type))),
                rating: opt_trimmed_string(&text_of_first(&find_all(item, &rating))),
                episodes: Episodes {
                    sub: trailing_count_of(&text_of_first(&find_all(item, &sub))),
                    dub: trailing_count_of(&text_of_first(&find_all(item, &dub))),
                },
            };
            assert(anime_from(anime, items@[i as int]));
            animes.push(anime);
            i += 1;
        }
        assert(items@.take(items.len() as int) == items@);
        animes
    }

    /// The records of the sidebar entries that `selector` finds in
    /// `document`, in the order in which it finds them.
    pub fn extract_most_popular_anime(document: &Html, selector: &Selector) -> (animes: Vec<
        MostPopularAnime,
    >)
        ensures
            most_populars_from(animes@, document_matches(*document, *selector)),
    {
        let items = select_in_document(document, selector);
        let title = parse_selector(FILM_TITLE);
        let poster = parse_selector(FILM_POSTER);
        let anime_type = parse_selector(SIDE_TYPE);
        let sub = parse_selector(SIDE_SUB);
        let dub = parse_selector(SIDE_DUB);

        let mut animes: Vec<MostPopularAnime> = Vec::new();
        let mut i: usize = 0;
        while i < items.len()
            invariant
                i <= items.len(),
                items@ == document_matches(*document, *selector),
                title == parsed_selector(FILM_TITLE@),
                poster == parsed_selector(FILM_POSTER@),
                anime_type == parsed_selector(SIDE_TYPE@),
                sub == parsed_selector(SIDE_SUB@),
                dub == parsed_selector(SIDE_DUB@),
                most_populars_from(animes@, items@.take(i as int)),
            decreases items.len() - i,
        {
            let item = items[i];
            let titles = find_all(item, &title);
            let anime = MostPopularAnime {
                id: path_id_of(&attr_of_first(&titles, "href")),
                name: opt_trimmed_string(&text_of_first(&titles)),
                jname: opt_trimmed_string(&attr_of_first(&titles, "data-jname")),
                poster: opt_trimmed_string(&attr_of_first(&find_all(item, &poster), "data-src")),
                anime_type: opt_trimmed_string(&text_of_first(&find_all(item, &anime_type))),
                episodes: Episodes {
                    sub: trailing_count_of(&text_of_first(&find_all(item, &sub))),
                    dub: trailing_count_of(&text_of_first(&find_all(item, &dub))),
                },
            };
            assert(most_popular_from(anime, items@[i as int]));
            animes.push(anime);
            i += 1;
        }
        assert(items@.take(items.len() as int) == items@);
        animes
    }

    /// The records of the trending entries that `selector` finds in
    /// `document`, in the order in which it finds them.
    pub fn extract_trending_anime(document: &Html, selector: &Selector) -> (animes: Vec<
        TrendingAnime,
    >)
        ensures
            trendings_from(animes@, document_matches(*document, *selector)),
    {
        let items = select_in_document(document, selector);
        let link = parse_selector(TREND_LINK);
        let title = parse_selector(TREND_TITLE);
        let poster = parse_selector(TREND_POSTER);
        let rank = parse_selector(TREND_RANK);

        let mut animes: Vec<TrendingAnime> = Vec::new();
        let mut i: usize = 0;
        while i < items.len()
            invariant
                i <= items.len(),
                items@ == document_matches(*document, *selector),
                link == parsed_selector(TREND_LINK@),
                title == parsed_selector(TREND_TITLE@),
                poster == parsed_selector(TREND_POSTER@),
                rank == parsed_selector(TREND_RANK@),
                trendings_from(animes@, items@.take(i as int)),
            decreases items.len() - i,
        {
            let item = items[i];
            let titles = find_all(item, &title);
            let anime = TrendingAnime {
                id: path_id_of(&attr_of_first(&find_all(item, &link), "href")),
                name: opt_trimmed_string(&text_of_first(&titles)),
                jname: opt_trimmed_string(&attr_of_first(&titles, "data-jname")),
                rank: u32_of(&text_of_first(&find_all(item, &rank))),
                poster: opt_trimmed_string(&attr_of_first(&find_all(item, &poster), "data-src")),
            };
            assert(trending_from(anime, items@[i as int]));
            animes.push(anime);
            i += 1;
        }
        assert(items@.take(items.len() as int) == items@);
        animes
    }
}

/// The records of the listing entries that the selector written as
/// `pattern` finds in `document`.
pub fn animes_at(document: &Html, pattern: &str) -> (animes: Vec<Anime>)
    ensures
        animes_from(animes@, query_document(*document, pattern@)),
{
    match parse_selector(pattern) {
        Some(selector) => HiAnimeUtils::extract_animes(document, &selector),
        None => Vec::new(),
    }
}

/// The records of the sidebar entries that the selector written as
/// `pattern` finds in `document`.
pub fn most_popular_at(document: &Html, pattern: &str) -> (animes: Vec<MostPopularAnime>)
    ensures
        most_populars_from(animes@, query_document(*document, pattern@)),
{
    match parse_selector(pattern) {
        Some(selector) => HiAnimeUtils::extract_most_popular_anime(document, &selector),
        None => Vec::new(),
    }
}

/// The records of the trending entries that the selector written as
/// `pattern` finds in `document`.
pub fn trending_at(document: &Html, pattern: &str) -> (animes: Vec<TrendingAnime>)
    ensures
        trendings_from(animes@, query_document(*document, pattern@)),
{
    match parse_selector(pattern) {
        Some(selector) => HiAnimeUtils::extract_trending_anime(document, &selector),
        None => Vec::new(),
    }
}

} // verus!
