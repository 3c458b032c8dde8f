//! The search page and the search suggestions.

use crate::dom::{
    attr_of_first, attribute_of, element_attr, find_all, find_all_in_document, first_attr, first_of,
    first_text, opt_trimmed, opt_trimmed_string, parse_fragment, parse_selector, parsed_fragment,
    parsed_selector, query, query_document, slices, text_of_first, texts, texts_of,
};
use crate::error::{invalid_data_message, parsing_message, EnmaError, BAD_REQUEST};
use crate::fields::{listed_id_of, opt_listed_id};
use crate::filter_set::SearchFilters;
use crate::filters::{query_params, FILTER_KINDS};
use crate::listing::{animes_at, animes_from, most_popular_at, most_populars_from, FILM_POSTER};
use crate::number::{decimal, push_decimal};
use crate::pages::PAGE_LIST;
use crate::pagination::{current_page, next_page_exists, page_asked, total_pages};
use crate::request::{
    header, home_referer, request_with, requested_with, Request, ACCEPT, ACCEPT_ANYTHING, NO_CACHE,
    PRAGMA, REFERER, X_REQUESTED_WITH,
};
use crate::text::{append_str, chars_of, string_of, trim, trimmed};
use crate::types::{Anime, AnimeSearchSuggestion, MostPopularAnime};
use crate::uri::{percent_decoded, percent_encoded, EnmaUtils};
use crate::utils::HiAnimeUtils;
use scraper::{ElementRef, Html};
use vstd::prelude::*;

verus! {

pub const GET_SEARCH_RESULTS: &'static str = "hianime:get_search_results";

pub const GET_SEARCH_SUGGESTIONS: &'static str = "hianime:get_search_suggestions";

pub const SEARCH_MOST_POPULAR: &'static str =
    "#main-sidebar .block_area.block_area_sidebar.block_area-realtime .anif-block-ul ul li";

pub const SUGGESTION: &'static str = ".nav-item:has(.film-poster)";

pub const SUGGESTION_TITLE: &'static str = ".srp-detail .film-name";

pub const SUGGESTION_INFO: &'static str = ".film-infor";

#[derive(Debug)]
pub struct ScrapedSearchResult {
    pub search_query: String,
    pub search_filter: SearchFilters,
    pub animes: Vec<Anime>,
    pub most_popular_animes: Vec<MostPopularAnime>,
    pub total_pages: u16,
    pub current_page: u16,
    pub has_next_page: bool,
}

#[derive(Debug, PartialEq, Eq)]
pub struct ScrapedSearchSuggestion {
    pub suggestions: Vec<AnimeSearchSuggestion>,
}

/// Whether a set of filters holds no filter.
pub open spec fn no_filters(slots: Seq<Option<Seq<char>>>) -> bool {
    forall|i: int| 0 <= i < FILTER_KINDS ==> slots[i] is None
}

/// The address of a page of search results: the keyword, the page, and the
/// query parameters of the filters where there are filters.
pub open spec fn search_url(keyword: Seq<char>, page: u16, slots: Seq<Option<Seq<char>>>) -> Seq<
    char,
> {
    let plain = HiAnimeUtils::SearchUrl.address() + "?keyword="@ + keyword + "&page="@ + decimal(
        page as nat,
    );
    if no_filters(slots) {
        plain
    } else {
        plain + "&"@ + query_params(slots)
    }
}

/// The address of the suggestions for a keyword.
pub open spec fn suggestions_url(keyword: Seq<char>) -> Seq<char> {
    HiAnimeUtils::SearchSuggestionUrl.address() + "?keyword="@ + keyword
}

/// The headers of a request for suggestions.
pub open spec fn suggestions_headers() -> Seq<(Seq<char>, Seq<char>)> {
    seq![(ACCEPT@, ACCEPT_ANYTHING@), (PRAGMA@, NO_CACHE@), home_referer(), requested_with()]
}

/// The texts among `all` that are more than white space, in order.
pub open spec fn nonblank(all: Seq<Seq<char>>) -> Seq<Seq<char>>
    decreases all.len(),
{
    if all.len() == 0 {
        Seq::empty()
    } else if trimmed(all.last()).len() == 0 {
        nonblank(all.drop_last())
    } else {
        nonblank(all.drop_last()).push(all.last())
    }
}

/// What a suggestion says besides its names: the text nodes of its first
/// information block that are more than white space.
pub open spec fn suggestion_info(item: ElementRef<'static>) -> Seq<Seq<char>> {
    match first_of(query(item, SUGGESTION_INFO@)) {
        Some(block) => nonblank(texts_of(block)),
        None => Seq::empty(),
    }
}

/// Whether `s` is the record of the suggestion `item`.
pub open spec fn suggestion_from(s: AnimeSearchSuggestion, item: ElementRef<'static>) -> bool {
    &&& s.id.deep_view() == opt_listed_id(attribute_of(item, "href"@))
    &&& s.name.deep_view() == opt_trimmed(first_text(query(item, SUGGESTION_TITLE@)))
    &&& s.jname.deep_view() == opt_trimmed(
        first_attr(query(item, SUGGESTION_TITLE@), "data-jname"@),
    )
    &&& s.poster.deep_view() == opt_trimmed(first_attr(query(item, FILM_POSTER@), "data-src"@))
    &&& s.other_info.deep_view() == suggestion_info(item)
}

pub open spec fn suggestions_from(
    all: Seq<AnimeSearchSuggestion>,
    items: Seq<ElementRef<'static>>,
) -> bool {
    &&& all.len() == items.len()
    &&& forall|i: int| 0 <= i < all.len() ==> suggestion_from(#[trigger] all[i], items[i])
}

/// Whether `r` is what the page `document` of search results shows.
pub open spec fn search_page_from(
    r: ScrapedSearchResult,
    document: Html,
    query: Seq<char>,
    page_number: Option<u16>,
    slots: Seq<Option<Seq<char>>>,
) -> bool {
    &&& r.search_query@ == trimmed(query)
    &&& r.current_page == page_asked(page_number)
    &&& r.search_filter@ == slots
    &&& r.total_pages == total_pages(document)
    &&& r.has_next_page == next_page_exists(document)
    &&& animes_from(r.animes@, query_document(document, PAGE_LIST@))
    &&& most_populars_from(r.most_popular_animes@, query_document(document, SEARCH_MOST_POPULAR@))
}

/// The request for a page of search results for a keyword that is ready to
/// stand in an address.
pub fn search_request_for(keyword: &str, page_number: Option<u16>, filters: &SearchFilters) -> (r:
    Request)
    ensures
        r.url@ == search_url(keyword@, page_asked(page_number), filters@),
        r.headers.deep_view() == seq![home_referer()],
{
    let mut url = chars_of(HiAnimeUtils::SearchUrl.value());
    append_str(&mut url, "?keyword=");
    append_str(&mut url, keyword);
    append_str(&mut url, "&page=");
    push_decimal(&mut url, current_page(page_number) as u64);
    if !filters.is_empty() {
        append_str(&mut url, "&");
        append_str(&mut url, filters.to_query_params().as_str());
    }
    let mut headers: Vec<(String, String)> = Vec::new();
    headers.push(header(REFERER, HiAnimeUtils::HomeUrl.value()));
    assert(headers.deep_view() =~= seq![home_referer()]);
    request_with(string_of(&url), headers)
}

/// The request for a page of search results. The keyword is the query,
/// trimmed and with its percent-encoding undone. An empty query is
/// refused, and so is one that does not decode or decodes to nothing.
pub fn search_request(query: &str, page_number: Option<u16>, filters: &SearchFilters) -> (r:
    Result<Request, EnmaError>)
    ensures
        match r {
            Ok(request) => {
                &&& trimmed(query@).len() > 0
                &&& percent_decoded(trimmed(query@)) is Some
                &&& percent_decoded(trimmed(query@))->0.len() > 0
                &&& request.url@ == search_url(
                    percent_decoded(trimmed(query@))->0,
                    page_asked(page_number),
                    filters@,
                )
                &&& request.headers.deep_view() == seq![home_referer()]
            },
            Err(e) => if trimmed(query@).len() == 0 {
                &&& e is InvalidDataError
                &&& e.carries(
                    GET_SEARCH_RESULTS@,
                    invalid_data_message("invalid search query"@),
                    BAD_REQUEST,
                )
            } else {
                &&& e is ParsingError
                &&& match percent_decoded(trimmed(query@)) {
                    Some(s) => s.len() == 0 && e.carries(
                        GET_SEARCH_RESULTS@,
                        parsing_message("decoded string is empty"@),
                        BAD_REQUEST,
                    ),
                    None => e.carries(
                        GET_SEARCH_RESULTS@,
                        parsing_message("failed to parse raw string"@),
                        BAD_REQUEST,
                    ),
                }
            },
        },
{
    let clean = trim(&chars_of(query));
    if clean.len() == 0 {
        return Err(EnmaError::invalid_input(GET_SEARCH_RESULTS, "invalid search query"));
    }
    let raw = string_of(&chars_of(query));
    match EnmaUtils::decode_uri_component(GET_SEARCH_RESULTS, raw) {
        Ok(keyword) => Ok(search_request_for(keyword.as_str(), page_number, filters)),
        Err(e) => Err(e),
    }
}

/// Reads a page of search results.
pub fn parse_search_page(
    page: &str,
    query: &str,
    page_number: Option<u16>,
    filters: SearchFilters,
) -> (r: ScrapedSearchResult)
    ensures
        search_page_from(r, parsed_fragment(page@), query@, page_number, filters@),
{
    let document = parse_fragment(page);
    ScrapedSearchResult {
        search_query: string_of(&trim(&chars_of(query))),
        current_page: current_page(page_number),
        search_filter: filters,
        total_pages: HiAnimeUtils::get_total_pages(&document),
        has_next_page: HiAnimeUtils::has_next_page(&document),
        animes: animes_at(&document, PAGE_LIST),
        most_popular_animes: most_popular_at(&document, SEARCH_MOST_POPULAR),
    }
}

/// The request for the suggestions for a keyword that is ready to stand in
/// an address.
pub fn suggestions_request_for(keyword: &str) -> (r: Request)
    ensures
        r.url@ == suggestions_url(keyword@),
        r.headers.deep_view() == suggestions_headers(),
{
    let mut url = chars_of(HiAnimeUtils::SearchSuggestionUrl.value());
    append_str(&mut url, "?keyword=");
    append_str(&mut url, keyword);
    let mut headers: Vec<(String, String)> = Vec::new();
    headers.push(header(ACCEPT, ACCEPT_ANYTHING));
    headers.push(header(PRAGMA, NO_CACHE));
    headers.push(header(REFERER, HiAnimeUtils::HomeUrl.value()));
    headers.push(header(X_REQUESTED_WITH, EnmaUtils::XRequestedWithHeader.value()));
    assert(headers.deep_view() =~= suggestions_headers());
    request_with(string_of(&url), headers)
}

/// The request for the suggestions for a query. The keyword is the query,
/// trimmed and percent-encoded. A query that is empty once trimmed is
/// refused.
pub fn suggestions_request(q: &str) -> (r: Result<Request, EnmaError>)
    ensures
        match r {
            Ok(request) => {
                &&& trimmed(q@).len() > 0
                &&& request.url@ == suggestions_url(percent_encoded(trimmed(q@)))
                &&& request.headers.deep_view() == suggestions_headers()
            },
            Err(e) => {
                &&& trimmed(q@).len() == 0
                &&& e is ParsingError
                &&& e.carries(
                    GET_SEARCH_SUGGESTIONS@,
                    parsing_message("encoded string is empty"@),
                    BAD_REQUEST,
                )
            },
        },
{
    let raw = string_of(&chars_of(q));
    match EnmaUtils::encode_uri_component(GET_SEARCH_SUGGESTIONS, raw) {
        Ok(keyword) => Ok(suggestions_request_for(keyword.as_str())),
        Err(e) => Err(e),
    }
}

/// The texts among `all` that are more than white space.
pub fn nonblank_texts(all: &Vec<&str>) -> (r: Vec<String>)
    ensures
        r.deep_view() == nonblank(slices(all@)),
{
    let mut r: Vec<String> = Vec::new();
    let mut i: usize = 0;
    assert(r.deep_view() =~= nonblank(slices(all@).take(0)));
    while i < all.len()
        invariant
            i <= all.len(),
            r.deep_view() == nonblank(slices(all@).take(i as int)),
        decreases all.len() - i,
    {
        assert(slices(all@).take(i + 1).drop_last() == slices(all@).take(i as int));
        assert(slices(all@).take(i + 1).last() == all@[i as int]@);
        let text = chars_of(all[i]);
        if trim(&text).len() > 0 {
            let ghost before = r.deep_view();
            r.push(string_of(&text));
            assert(r.deep_view() =~= before.push(text@));
        }
        i += 1;
    }
    assert(slices(all@).take(all.len() as int) == slices(all@));
    r
}

/// Reads the suggestions from the fragment that the site returned.
pub fn parse_search_suggestions(html: &str) -> (r: ScrapedSearchSuggestion)
    ensures
        suggestions_from(r.suggestions@, query_document(parsed_fragment(html@), SUGGESTION@)),
{
    let document = parse_fragment(html);
    let items = find_all_in_document(&document, &parse_selector(SUGGESTION));
    let title = parse_selector(SUGGESTION_TITLE);
    let poster = parse_selector(FILM_POSTER);
    let info = parse_selector(SUGGESTION_INFO);

    let mut suggestions: Vec<AnimeSearchSuggestion> = Vec::new();
    let mut i: usize = 0;
    while i < items.len()
        invariant
            i <= items.len(),
            items@ == query_document(parsed_fragment(html@), SUGGESTION@),
            title == parsed_selector(SUGGESTION_TITLE@),
            poster == parsed_selector(FILM_POSTER@),
            info == parsed_selector(SUGGESTION_INFO@),
            suggestions_from(suggestions@, items@.take(i as int)),
        decreases items.len() - i,
    {
        let item = items[i];
        let titles = find_all(item, &title);
        let blocks = find_all(item, &info);
        let other_info = if blocks.len() > 0 {
            nonblank_texts(&texts(blocks[0]))
        } else {
            let none: Vec<String> = Vec::new();
            assert(none.deep_view() =~= Seq::<Seq<char>>::empty());
            none
        };
        let suggestion = AnimeSearchSuggestion {
            id: listed_id_of(&element_attr(item, "href")),
            name: opt_trimmed_string(&text_of_first(&titles)),
            jname: opt_trimmed_string(&attr_of_first(&titles, "data-jname")),
            poster: opt_trimmed_string(&attr_of_first(&find_all(item, &poster), "data-src")),
            other_info,
        };
        assert(suggestion_from(suggestion, items@[i as int]));
        suggestions.push(suggestion);
        i += 1;
    }
    assert(items@.take(items.len() as int) == items@);
    ScrapedSearchSuggestion { suggestions }
}

} // verus!
