use enma::error::EnmaError;
use enma::filter_set::SearchFilters;
use enma::filters::SearchFilter;
use enma::search::{
    parse_search_page, parse_search_suggestions, search_request, search_request_for,
    suggestions_request, suggestions_request_for,
};
use enma::types::AnimeSearchSuggestion;

fn some(s: &str) -> Option<String> {
    Some(s.to_string())
}

fn pair(name: &str, value: &str) -> (String, String) {
    (name.to_string(), value.to_string())
}

fn filters() -> SearchFilters {
    SearchFilters::new(vec![
        SearchFilter::Language(String::from("sub")),
        SearchFilter::Sort(String::from("recently-added")),
        SearchFilter::Genres(String::from("drama,comedy")),
    ])
}

#[test]
fn search_request_carries_keyword_page_and_filters() {
    let request = search_request(" monster ", Some(1), &filters()).unwrap();
    assert_eq!(
        request.url,
        "https://hianime.to/search?keyword=monster&page=1&language=1&sort=recently_added&genres=8,4"
    );
    assert_eq!(request.headers, vec![pair("referer", "https://hianime.to/home")]);
    let request = search_request("one%20piece", None, &SearchFilters::default()).unwrap();
    assert_eq!(request.url, "https://hianime.to/search?keyword=one piece&page=1");
    let request = search_request_for("x", Some(0), &SearchFilters::new(vec![SearchFilter::Invalid]));
    assert_eq!(request.url, "https://hianime.to/search?keyword=x&page=1&");
}

#[test]
fn a_search_query_that_is_empty_or_does_not_decode_is_refused() {
    for query in ["", "   "] {
        let e = search_request(query, None, &filters()).unwrap_err();
        assert!(matches!(e, EnmaError::InvalidDataError { .. }));
        assert_eq!(e.details().provider_parser, "hianime:get_search_results");
        assert_eq!(e.details().message, "InvalidDataError: invalid search query");
        assert_eq!(e.details().status, 400);
    }
    let e = search_request("%ff", None, &filters()).unwrap_err();
    assert!(matches!(e, EnmaError::ParsingError { .. }));
    assert_eq!(e.details().provider_parser, "hianime:get_search_results");
    assert_eq!(e.details().message, "ParsingError: failed to parse raw string");
}

#[test]
fn search_page_is_read() {
    let html = "<div id=\"main-content\"><div class=\"tab-content\"><div class=\"film_list-wrap\">\
        <div class=\"flw-item\"><div class=\"film-detail\"><h3 class=\"film-name\"><a class=\"dynamic-name\" href=\"/monster-37?ref=search\">Monster</a></h3></div></div>\
        </div></div>\
        <ul class=\"pagination\"><li class=\"page-item active\"><a href=\"?page=1\">1</a></li><li class=\"page-item\"><a title=\"Next\" href=\"?keyword=monster&page=2\">&rsaquo;</a></li></ul>\
        </div>\
        <div id=\"main-sidebar\"><div class=\"block_area block_area_sidebar block_area-realtime\"><div class=\"anif-block-ul\"><ul>\
        <li><div class=\"film-detail\"><h3 class=\"film-name\"><a class=\"dynamic-name\" href=\"/popular-1\">Popular</a></h3></div></li>\
        </ul></div></div></div>";
    let page = parse_search_page(html, " monster ", Some(1), filters());
    assert_eq!(page.search_query, "monster");
    assert_eq!(page.current_page, 1);
    assert_eq!(page.search_filter.to_query_params(), filters().to_query_params());
    assert_eq!(page.total_pages, 2);
    assert_eq!(page.has_next_page, true);
    assert_eq!(page.animes.len(), 1);
    assert_eq!(page.animes[0].id, some("monster-37"));
    assert_eq!(page.most_popular_animes.len(), 1);
    assert_eq!(page.most_popular_animes[0].id, some("popular-1"));
}

#[test]
fn suggestions_request_encodes_the_query() {
    let request = suggestions_request(" one piece ").unwrap();
    assert_eq!(request.url, "https://hianime.to/ajax/search/suggest?keyword=one%20piece");
    assert_eq!(
        request.headers,
        vec![
            pair("accept", "*/*"),
            pair("pragma", "no-cache"),
            pair("referer", "https://hianime.to/home"),
            pair("x-requested-with", "XMLHttpRequest"),
        ]
    );
    assert_eq!(suggestions_request_for("a").url, "https://hianime.to/ajax/search/suggest?keyword=a");
    let e = suggestions_request("  ").unwrap_err();
    assert!(matches!(e, EnmaError::ParsingError { .. }));
    assert_eq!(e.details().provider_parser, "hianime:get_search_suggestions");
    assert_eq!(e.details().message, "ParsingError: encoded string is empty");
}

#[test]
fn suggestions_are_read() {
    let html = "<a href=\"/monster-37?ref=search\" class=\"nav-item\">\
          <div class=\"film-poster\"><img data-src=\" https://img.example/m.jpg \" class=\"film-poster-img\"></div>\
          <div class=\"srp-detail\">\
            <h3 class=\"film-name\" data-jname=\"Monsuta\"> Monster </h3>\
            <div class=\"film-infor\"><span>Apr 7, 2004</span> <i class=\"dot\"></i>TV<i class=\"dot\"></i><span> 24m</span></div>\
          </div>\
        </a>\
        <a href=\"/search?keyword=monster\" class=\"nav-item nav-bottom\">View all results</a>\
        <a href=\"bare\" class=\"nav-item\"><div class=\"film-poster\"></div></a>";
    let page = parse_search_suggestions(html);
    assert_eq!(
        page.suggestions,
        vec![
            AnimeSearchSuggestion {
                id: some("monster-37"),
                name: some("Monster"),
                poster: some("https://img.example/m.jpg"),
                jname: some("Monsuta"),
                other_info: vec!["Apr 7, 2004".to_string(), "TV".to_string(), " 24m".to_string()],
            },
            AnimeSearchSuggestion {
                id: some("are"),
                name: None,
                poster: None,
                jname: None,
                other_info: vec![],
            },
        ]
    );
    assert!(parse_search_suggestions("").suggestions.is_empty());
}
