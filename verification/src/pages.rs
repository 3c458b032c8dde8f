//! The listing pages: the home page, and the pages of a category, a genre,
//! a producer and the alphabetical list.

use crate::dom::{first_text, parse_document, parsed_document, query_document, text_in_document};
use crate::error::{invalid_data_message, misc_message, EnmaError, BAD_REQUEST};
use crate::listing::{
    animes_at, animes_from, most_popular_at, most_populars_from, trending_at, trendings_from,
};
use crate::pagination::{
    current_page, first_texts, genres_at, next_page_exists, page_asked, total_pages,
};
use crate::request::{listing_address, listing_url, plain_request, Request};
use crate::tables::{anime_category, az_list_sort_option, is_anime_category, is_az_list_sort_option};
use crate::text::{chars_of, is_text, slice_of, string_of, trim, trimmed};
use crate::top10::{rankings_at, rankings_from, spotlights_at, spotlights_from};
use crate::types::{Anime, MostPopularAnime, SpotlightAnime, Top10AnimesWithPeriod, TrendingAnime};
use crate::utils::HiAnimeUtils;
use scraper::Html;
use vstd::prelude::*;

verus! {

pub const HOME_TRENDING: &'static str = "#trending-home .swiper-wrapper .swiper-slide";

pub const HOME_SPOTLIGHT: &'static str = "#slider .swiper-wrapper .swiper-slide";

pub const HOME_LATEST_EPISODES: &'static str =
    "#main-content .block_area_home:nth-of-type(1) .tab-content .film_list-wrap .flw-item";

pub const HOME_TOP_UPCOMING: &'static str =
    "#main-content .block_area_home:nth-of-type(3) .tab-content .film_list-wrap .flw-item";

pub const SIDEBAR_GENRES: &'static str =
    "#main-sidebar .block_area.block_area_sidebar.block_area-genres .sb-genre-list li";

pub const SIDEBAR_RANKINGS: &'static str =
    "#main-sidebar .block_area-realtime [id^=\"top-viewed-\"]";

pub const HOME_TOP_AIRING: &'static str =
    "#anime-featured .row div:nth-of-type(1) .anif-block-ul ul li";

pub const HOME_MOST_POPULAR: &'static str =
    "#anime-featured .row div:nth-of-type(2) .anif-block-ul ul li";

pub const HOME_MOST_FAVORITE: &'static str =
    "#anime-featured .row div:nth-of-type(3) .anif-block-ul ul li";

pub const HOME_LATEST_COMPLETED: &'static str =
    "#anime-featured .row div:nth-of-type(4) .anif-block-ul ul li";

pub const PAGE_HEADING: &'static str =
    "#main-content .block_area .block_area-header .cat-heading";

pub const PAGE_LIST: &'static str = "#main-content .tab-content .film_list-wrap .flw-item";

pub const SIDEBAR_TOP_AIRING: &'static str =
    "#main-sidebar .block_area_sidebar:nth-child(2) .block_area-content .anif-block-ul ul li";

pub const AZ_LIST: &'static str = "#main-wrapper .tab-content .film_list-wrap .flw-item";

pub const GET_HOME_PAGE: &'static str = "hianime:get_home_page";

pub const GET_CATEGORY_ANIME: &'static str = "hianime:get_category_anime";

pub const GET_GENRE_ANIME: &'static str = "hianime:get_genre_anime";

pub const GET_PRODUCER_ANIME: &'static str = "hianime:get_producer_anime";

pub const GET_AZ_LIST: &'static str = "hianime:get_az_list";

#[derive(Debug, PartialEq, Eq)]
pub struct ScrapedHomePage {
    pub genres: Vec<String>,
    pub top10_animes: Top10AnimesWithPeriod,
    pub spotlight_animes: Vec<SpotlightAnime>,
    pub trending_animes: Vec<TrendingAnime>,
    pub latest_episode_animes: Vec<Anime>,
    pub top_upcoming_animes: Vec<Anime>,
    pub top_airing_animes: Vec<MostPopularAnime>,
    pub most_popular_animes: Vec<MostPopularAnime>,
    pub most_favorite_animes: Vec<MostPopularAnime>,
    pub latest_completed_animes: Vec<MostPopularAnime>,
}

#[derive(Debug, PartialEq, Eq)]
pub struct ScrapedAZList {
    pub animes: Vec<Anime>,
    pub sort_option: String,
    pub total_pages: u16,
    pub current_page: u16,
    pub has_next_page: bool,
}

#[derive(Debug, PartialEq, Eq)]
pub struct ScrapedCategoryAnime {
    pub category_name: String,
    pub animes: Vec<Anime>,
    pub total_pages: u16,
    pub current_page: u16,
    pub has_next_page: bool,
    pub genres: Vec<String>,
    pub top10_animes: Top10AnimesWithPeriod,
}

#[derive(Debug, PartialEq, Eq)]
pub struct ScrapedProducerAnime {
    pub producer_name: String,
    pub animes: Vec<Anime>,
    pub total_pages: u16,
    pub current_page: u16,
    pub has_next_page: bool,
    pub top_airing_animes: Vec<MostPopularAnime>,
    pub top10_animes: Top10AnimesWithPeriod,
}

#[derive(Debug, PartialEq, Eq)]
pub struct ScrapedGenreAnime {
    pub genre_name: String,
    pub animes: Vec<Anime>,
    pub genres: Vec<String>,
    pub total_pages: u16,
    pub current_page: u16,
    pub has_next_page: bool,
    pub top_airing_animes: Vec<MostPopularAnime>,
}

/// The heading of a listing page: its first text, or the name that the
/// caller asked for where the page shows none.
pub open spec fn heading(document: Html, asked: Seq<char>) -> Seq<char> {
    match first_text(query_document(document, PAGE_HEADING@)) {
        Some(t) => t,
        None => trimmed(asked),
    }
}

/// Whether `r` is what the home page `document` shows.
pub open spec fn home_page_from(r: ScrapedHomePage, document: Html) -> bool {
    &&& spotlights_from(r.spotlight_animes@, query_document(document, HOME_SPOTLIGHT@))
    &&& trendings_from(r.trending_animes@, query_document(document, HOME_TRENDING@))
    &&& animes_from(r.latest_episode_animes@, query_document(document, HOME_LATEST_EPISODES@))
    &&& animes_from(r.top_upcoming_animes@, query_document(document, HOME_TOP_UPCOMING@))
    &&& r.genres.deep_view() == first_texts(query_document(document, SIDEBAR_GENRES@))
    &&& rankings_from(r.top10_animes, document, SIDEBAR_RANKINGS@)
    &&& most_populars_from(r.top_airing_animes@, query_document(document, HOME_TOP_AIRING@))
    &&& most_populars_from(r.most_popular_animes@, query_document(document, HOME_MOST_POPULAR@))
    &&& most_populars_from(
        r.most_favorite_animes@,
        query_document(document, HOME_MOST_FAVORITE@),
    )
    &&& most_populars_from(
        r.latest_completed_animes@,
        query_document(document, HOME_LATEST_COMPLETED@),
    )
}

/// Whether `r` is what the page `document` of a category shows.
pub open spec fn category_page_from(
    r: ScrapedCategoryAnime,
    document: Html,
    asked: Seq<char>,
    page_number: Option<u16>,
) -> bool {
    &&& r.category_name@ == heading(document, asked)
    &&& r.current_page == page_asked(page_number)
    &&& r.total_pages == total_pages(document)
    &&& r.has_next_page == next_page_exists(document)
    &&& animes_from(r.animes@, query_document(document, PAGE_LIST@))
    &&& rankings_from(r.top10_animes, document, SIDEBAR_RANKINGS@)
    &&& r.genres.deep_view() == first_texts(query_document(document, SIDEBAR_GENRES@))
}

/// Whether `r` is what the page `document` of a genre shows.
pub open spec fn genre_page_from(
    r: ScrapedGenreAnime,
    document: Html,
    asked: Seq<char>,
    page_number: Option<u16>,
) -> bool {
    &&& r.genre_name@ == heading(document, asked)
    &&& r.current_page == page_asked(page_number)
    &&& r.total_pages == total_pages(document)
    &&& r.has_next_page == next_page_exists(document)
    &&& r.genres.deep_view() == first_texts(query_document(document, SIDEBAR_GENRES@))
    &&& animes_from(r.animes@, query_document(document, PAGE_LIST@))
    &&& most_populars_from(r.top_airing_animes@, query_document(document, SIDEBAR_TOP_AIRING@))
}

/// Whether `r` is what the page `document` of a producer shows.
pub open spec fn producer_page_from(
    r: ScrapedProducerAnime,
    document: Html,
    asked: Seq<char>,
    page_number: Option<u16>,
) -> bool {
    &&& r.producer_name@ == heading(document, asked)
    &&& r.current_page == page_asked(page_number)
    &&& r.total_pages == total_pages(document)
    &&& r.has_next_page == next_page_exists(document)
    &&& animes_from(r.animes@, query_document(document, PAGE_LIST@))
    &&& rankings_from(r.top10_animes, document, SIDEBAR_RANKINGS@)
    &&& most_populars_from(r.top_airing_animes@, query_document(document, SIDEBAR_TOP_AIRING@))
}

/// Whether `r` is what the page `document` of the alphabetical list shows.
pub open spec fn az_list_from(
    r: ScrapedAZList,
    document: Html,
    asked: Seq<char>,
    page_number: Option<u16>,
) -> bool {
    &&& r.sort_option@ == trimmed(asked)
    &&& r.current_page == page_asked(page_number)
    &&& r.total_pages == total_pages(document)
    &&& r.has_next_page == next_page_exists(document)
    &&& animes_from(r.animes@, query_document(document, AZ_LIST@))
}

/// A letter of ASCII in upper case; any other character as it is.
pub open spec fn upper(c: char) -> char {
    if 'a' <= c <= 'z' {
        ((c as u8) - 32) as char
    } else {
        c
    }
}

/// The part of the address that names a sort option of the alphabetical
/// list: nothing for `all`, `other` as it is, any other option in upper
/// case.
pub open spec fn az_list_segment(option: Seq<char>) -> Seq<char> {
    if option == "all"@ {
        Seq::empty()
    } else if option == "other"@ {
        option
    } else {
        option.map_values(|c: char| upper(c))
    }
}

fn heading_of(document: &Html, asked: &str) -> (r: String)
    ensures
        r@ == heading(*document, asked@),
{
    match text_in_document(document, PAGE_HEADING) {
        Some(t) => string_of(&t),
        None => string_of(&trim(&chars_of(asked))),
    }
}

fn az_segment(option: &Vec<char>) -> (r: Vec<char>)
    ensures
        r@ == az_list_segment(option@),
{
    if is_text(option, "all") {
        Vec::new()
    } else if is_text(option, "other") {
        slice_of(option, 0, option.len())
    } else {
        let mut r: Vec<char> = Vec::new();
        let mut i: usize = 0;
        while i < option.len()
            invariant
                i <= option.len(),
                r@ == option@.take(i as int).map_values(|c: char| upper(c)),
            decreases option.len() - i,
        {
            let c = option[i];
            let u = if 'a' <= c && c <= 'z' {
                ((c as u8) - 32) as char
            } else {
                c
            };
            r.push(u);
            assert(r@ =~= option@.take(i + 1).map_values(|c: char| upper(c)));
            i += 1;
        }
        assert(option@.take(option.len() as int) == option@);
        r
    }
}

/// The request for the home page.
pub fn home_page_request() -> (r: Request)
    ensures
        r.url@ == HiAnimeUtils::HomeUrl.address(),
        r.headers.deep_view() == Seq::<(Seq<char>, Seq<char>)>::empty(),
{
    plain_request(string_of(&chars_of(HiAnimeUtils::HomeUrl.value())))
}

/// Reads the home page.
pub fn parse_home_page(page: &str) -> (r: ScrapedHomePage)
    ensures
        home_page_from(r, parsed_document(page@)),
{
    let document = parse_document(page);
    ScrapedHomePage {
        spotlight_animes: spotlights_at(&document, HOME_SPOTLIGHT),
        trending_animes: trending_at(&document, HOME_TRENDING),
        latest_episode_animes: animes_at(&document, HOME_LATEST_EPISODES),
        top_upcoming_animes: animes_at(&document, HOME_TOP_UPCOMING),
        genres: genres_at(&document, SIDEBAR_GENRES),
        top10_animes: rankings_at(&document, SIDEBAR_RANKINGS),
        top_airing_animes: most_popular_at(&document, HOME_TOP_AIRING),
        most_popular_animes: most_popular_at(&document, HOME_MOST_POPULAR),
        most_favorite_animes: most_popular_at(&document, HOME_MOST_FAVORITE),
        latest_completed_animes: most_popular_at(&document, HOME_LATEST_COMPLETED),
    }
}

/// The request for a page of a category. A name that is no category is
/// refused.
pub fn category_request(category_name: &str, page_number: Option<u16>) -> (r: Result<
    Request,
    EnmaError,
>)
    ensures
        match r {
            Ok(request) => {
                &&& is_anime_category(trimmed(category_name@))
                &&& request.url@ == listing_url(
                    HiAnimeUtils::BaseUrl.address(),
                    trimmed(category_name@),
                    page_asked(page_number),
                )
                &&& request.headers.deep_view() == Seq::<(Seq<char>, Seq<char>)>::empty()
            },
            Err(e) => {
                &&& !is_anime_category(trimmed(category_name@))
                &&& e is InvalidDataError
                &&& e.carries(
                    GET_CATEGORY_ANIME@,
                    invalid_data_message("invalid anime category"@),
                    BAD_REQUEST,
                )
            },
        },
{
    let name = trim(&chars_of(category_name));
    if !anime_category(string_of(&name).as_str()) {
        return Err(EnmaError::invalid_input(GET_CATEGORY_ANIME, "invalid anime category"));
    }
    let url = listing_address(HiAnimeUtils::BaseUrl.value(), &name, current_page(page_number));
    Ok(plain_request(url))
}

/// Reads a page of a category.
pub fn parse_category_page(page: &str, category_name: &str, page_number: Option<u16>) -> (r:
    ScrapedCategoryAnime)
    ensures
        category_page_from(r, parsed_document(page@), category_name@, page_number),
{
    let document = parse_document(page);
    ScrapedCategoryAnime {
        category_name: heading_of(&document, category_name),
        current_page: current_page(page_number),
        total_pages: HiAnimeUtils::get_total_pages(&document),
        has_next_page: HiAnimeUtils::has_next_page(&document),
        animes: animes_at(&document, PAGE_LIST),
        top10_animes: rankings_at(&document, SIDEBAR_RANKINGS),
        genres: genres_at(&document, SIDEBAR_GENRES),
    }
}

/// The request for a page of a genre. An empty name is refused.
pub fn genre_request(genre_name: &str, page_number: Option<u16>) -> (r: Result<Request, EnmaError>)
    ensures
        match r {
            Ok(request) => {
                &&& trimmed(genre_name@).len() > 0
                &&& request.url@ == listing_url(
                    HiAnimeUtils::GenreUrl.address(),
                    trimmed(genre_name@),
                    page_asked(page_number),
                )
                &&& request.headers.deep_view() == Seq::<(Seq<char>, Seq<char>)>::empty()
            },
            Err(e) => {
                &&& trimmed(genre_name@).len() == 0
                &&& e is InvalidDataError
                &&& e.carries(
                    GET_GENRE_ANIME@,
                    invalid_data_message("invalid genre name"@),
                    BAD_REQUEST,
                )
            },
        },
{
    let name = trim(&chars_of(genre_name));
    if name.len() == 0 {
        return Err(EnmaError::invalid_input(GET_GENRE_ANIME, "invalid genre name"));
    }
    let url = listing_address(HiAnimeUtils::GenreUrl.value(), &name, current_page(page_number));
    Ok(plain_request(url))
}

/// Reads a page of a genre.
pub fn parse_genre_page(page: &str, genre_name: &str, page_number: Option<u16>) -> (r:
    ScrapedGenreAnime)
    ensures
        genre_page_from(r, parsed_document(page@), genre_name@, page_number),
{
    let document = parse_document(page);
    ScrapedGenreAnime {
        genre_name: heading_of(&document, genre_name),
        current_page: current_page(page_number),
        total_pages: HiAnimeUtils::get_total_pages(&document),
        has_next_page: HiAnimeUtils::has_next_page(&document),
        genres: genres_at(&document, SIDEBAR_GENRES),
        animes: animes_at(&document, PAGE_LIST),
        top_airing_animes: most_popular_at(&document, SIDEBAR_TOP_AIRING),
    }
}

/// The request for a page of a producer. An empty name is refused.
pub fn producer_request(producer_name: &str, page_number: Option<u16>) -> (r: Result<
    Request,
    EnmaError,
>)
    ensures
        match r {
            Ok(request) => {
                &&& trimmed(producer_name@).len() > 0
                &&& request.url@ == listing_url(
                    HiAnimeUtils::ProducerUrl.address(),
                    trimmed(producer_name@),
                    page_asked(page_number),
                )
                &&& request.headers.deep_view() == Seq::<(Seq<char>, Seq<char>)>::empty()
            },
            Err(e) => {
                &&& trimmed(producer_name@).len() == 0
                &&& e is InvalidDataError
                &&& e.carries(
                    GET_PRODUCER_ANIME@,
                    invalid_data_message("invalid producer name"@),
                    BAD_REQUEST,
                )
            },
        },
{
    let name = trim(&chars_of(producer_name));
    if name.len() == 0 {
        return Err(EnmaError::invalid_input(GET_PRODUCER_ANIME, "invalid producer name"));
    }
    let url = listing_address(HiAnimeUtils::ProducerUrl.value(), &name, current_page(page_number));
    Ok(plain_request(url))
}

/// Reads a page of a producer.
pub fn parse_producer_page(page: &str, producer_name: &str, page_number: Option<u16>) -> (r:
    ScrapedProducerAnime)
    ensures
        producer_page_from(r, parsed_document(page@), producer_name@, page_number),
{
    let document = parse_document(page);
    ScrapedProducerAnime {
        producer_name: heading_of(&document, producer_name),
        current_page: current_page(page_number),
        total_pages: HiAnimeUtils::get_total_pages(&document),
        has_next_page: HiAnimeUtils::has_next_page(&document),
        animes: animes_at(&document, PAGE_LIST),
        top10_animes: rankings_at(&document, SIDEBAR_RANKINGS),
        top_airing_animes: most_popular_at(&document, SIDEBAR_TOP_AIRING),
    }
}

/// The request for a page of the alphabetical list. A sort option that the
/// list does not have is refused.
pub fn az_list_request(sort_option: &str, page_number: Option<u16>) -> (r: Result<
    Request,
    EnmaError,
>)
    ensures
        match r {
            Ok(request) => {
                &&& is_az_list_sort_option(trimmed(sort_option@))
                &&& request.url@ == listing_url(
                    HiAnimeUtils::AZListUrl.address(),
                    az_list_segment(trimmed(sort_option@)),
                    page_asked(page_number),
                )
                &&& request.headers.deep_view() == Seq::<(Seq<char>, Seq<char>)>::empty()
            },
            Err(e) => {
                &&& !is_az_list_sort_option(trimmed(sort_option@))
                &&& e is MiscError
                &&& e.carries(GET_AZ_LIST@, misc_message("invalid az list option"@), BAD_REQUEST)
            },
        },
{
    let option = trim(&chars_of(sort_option));
    if !az_list_sort_option(string_of(&option).as_str()) {
        return Err(EnmaError::refused_input(GET_AZ_LIST, "invalid az list option"));
    }
    let segment = az_segment(&option);
    let url = listing_address(HiAnimeUtils::AZListUrl.value(), &segment, current_page(page_number));
    Ok(plain_request(url))
}

/// Reads a page of the alphabetical list.
pub fn parse_az_list_page(page: &str, sort_option: &str, page_number: Option<u16>) -> (r:
    ScrapedAZList)
    ensures
        az_list_from(r, parsed_document(page@), sort_option@, page_number),
{
    let document = parse_document(page);
    ScrapedAZList {
        sort_option: string_of(&trim(&chars_of(sort_option))),
        current_page: current_page(page_number),
        has_next_page: HiAnimeUtils::has_next_page(&document),
        total_pages: HiAnimeUtils::get_total_pages(&document),
        animes: animes_at(&document, AZ_LIST),
    }
}

} // verus!
