use enma::filter_set::SearchFilters;
use enma::filters::{FilterKind, SearchFilter};
use enma::tables::{anime_category, anime_server, az_list_sort_option, SearchPageFilters};
use enma::utils::HiAnimeUtils;

fn filter(key: &'static str, value: &str) -> SearchFilter {
    SearchFilter::from_raw(key, value.to_string())
}

fn params(filters: Vec<SearchFilter>) -> String {
    SearchFilters::new(filters).to_query_params()
}

#[test]
fn start_date_expands_to_three_components() {
    let filters = SearchFilters::new(vec![SearchFilter::StartDate(String::from("2024-3-5"))]);
    assert_eq!(filters.to_query_params(), "sy=2024&sm=3&sd=5");
}

#[test]
fn end_date_expands_to_three_components() {
    assert_eq!(params(vec![filter("end_date", "1999-12-31")]), "ey=1999&em=12&ed=31");
    assert_eq!(params(vec![filter("end_date", "0042-1-1")]), "ey=42&em=1&ed=1");
}

#[test]
fn unknown_genre_names_are_dropped() {
    let filters = SearchFilters::new(vec![SearchFilter::Genres(String::from("drama,unknown-genre"))]);
    assert_eq!(filters.to_query_params(), "genres=8");
    assert_eq!(params(vec![filter("genres", "nope,drama,zzz,comedy")]), "genres=8,4");
    assert_eq!(params(vec![filter("genres", "nope,zzz")]), "");
    assert_eq!(params(vec![filter("genres", "")]), "");
    assert_eq!(params(vec![filter("genres", "drama, comedy")]), "genres=8");
}

#[test]
fn unknown_season_resolves_to_default() {
    assert_eq!(SearchFilter::Season(String::from("bogus")).mapped_value(), "default");
    let filters = SearchFilters::new(vec![SearchFilter::Season(String::from("bogus"))]);
    assert_eq!(filters.to_query_params(), "season=default");
    assert_eq!(params(vec![filter("season", "fall")]), "season=3");
}

#[test]
fn unknown_values_of_other_kinds_are_dropped() {
    for key in ["type", "status", "rated", "score", "language", "sort"] {
        assert_eq!(filter(key, "bogus").mapped_value(), "", "{}", key);
        assert_eq!(params(vec![filter(key, "bogus")]), "", "{}", key);
    }
}

#[test]
fn encoding_the_same_set_twice_gives_the_same_text() {
    let filters = SearchFilters::new(vec![
        filter("language", "sub"),
        filter("sort", "recently-added"),
        filter("genres", "drama,comedy"),
    ]);
    let first = filters.to_query_params();
    let second = filters.to_query_params();
    assert_eq!(first, second);
    assert_eq!(first, "language=1&sort=recently_added&genres=8,4");
    assert_eq!(filters.clone().to_query_params(), first);
}

#[test]
fn the_order_of_the_filters_given_does_not_matter() {
    let one = params(vec![
        filter("genres", "drama,comedy"),
        filter("sort", "score"),
        filter("type", "tv"),
        filter("start_date", "2020-1-2"),
    ]);
    let other = params(vec![
        filter("start_date", "2020-1-2"),
        filter("type", "tv"),
        filter("sort", "score"),
        filter("genres", "drama,comedy"),
    ]);
    assert_eq!(one, other);
    assert_eq!(one, "type=2&sy=2020&sm=1&sd=2&sort=score&genres=8,4");
}

#[test]
fn all_ten_kinds_encode_in_the_fixed_order() {
    let text = params(vec![
        filter("genres", "action"),
        filter("sort", "most-watched"),
        filter("end_date", "2021-2-3"),
        filter("start_date", "2020-1-2"),
        filter("language", "sub-&-dub"),
        filter("season", "winter"),
        filter("score", "masterpiece"),
        filter("rated", "r+"),
        filter("status", "not-yet-aired"),
        filter("type", "special"),
    ]);
    assert_eq!(
        text,
        "type=5&status=3&rated=5&score=10&season=4&language=3&sy=2020&sm=1&sd=2&ey=2021&em=2&ed=3&sort=most_watched&genres=1"
    );
}

#[test]
fn a_later_filter_of_a_kind_overwrites_an_earlier_one() {
    assert_eq!(params(vec![filter("type", "tv"), filter("type", "movie")]), "type=1");
    assert_eq!(params(vec![filter("type", "movie"), filter("type", "bogus")]), "");
    let filters = SearchFilters::new(vec![filter("sort", "score"), filter("sort", "default")]);
    assert_eq!(filters.get(FilterKind::Sort), Some("default".to_string()));
    assert_eq!(filters.get(FilterKind::Type), None);
}

#[test]
fn dates_that_do_not_match_contribute_nothing() {
    for value in [
        "", "2024", "2024-3", "2024-3-5-1", "24-3-5", "20245-3-5", "2024-13-5", "2024-3-32",
        "2024-0-5", "2024-3-0", "2024-03-5", "2024-3-05", "2024-3-5 ", " 2024-3-5", "2024/3/5",
        "abcd-3-5", "2024-a-5", "2024-3-b", "+024-3-5", "2024-+3-5", "2024-3-+5", "2024--5",
        "2024-3-", "2024-123-5", "2024-3-5\n",
    ] {
        assert_eq!(filter("start_date", value).mapped_value(), "", "{:?}", value);
    }
    for value in ["2024-1-1", "2024-12-31", "2024-9-9", "2024-10-10", "0000-1-1", "9999-12-31"] {
        assert_ne!(filter("start_date", value).mapped_value(), "", "{:?}", value);
    }
    assert_eq!(
        SearchFilter::get_date_filter_value(&"2024-12-31".to_string(), &"start_date".to_string()),
        "sy=2024&sm=12&sd=31"
    );
    assert_eq!(
        SearchFilter::get_date_filter_value(&"2024-12-31".to_string(), &"end_date".to_string()),
        "ey=2024&em=12&ed=31"
    );
    assert_eq!(
        SearchFilter::get_date_filter_value(&"2024-12-31".to_string(), &"other".to_string()),
        "ey=2024&em=12&ed=31"
    );
}

#[test]
fn keys_name_kinds() {
    for key in [
        "type", "status", "rated", "score", "season", "language", "start_date", "end_date", "sort",
        "genres",
    ] {
        assert!(SearchFilter::is_valid(key), "{}", key);
        let made = SearchFilter::from_raw(key, "x".to_string());
        assert_eq!(made.to_string(), key);
        assert_eq!(made.value(), "x");
        assert_eq!(FilterKind::parse(key).name(), key);
        assert_eq!(FilterKind::at_position(FilterKind::parse(key).position()), FilterKind::parse(key));
    }
    for key in ["", "Type", "genre", "type ", "_invalid_", "startdate"] {
        assert!(!SearchFilter::is_valid(key), "{:?}", key);
        let made = SearchFilter::from_raw(key, "x".to_string());
        assert!(matches!(made, SearchFilter::Invalid));
        assert_eq!(made.to_string(), "_invalid_");
        assert_eq!(made.value(), "_invalid_value_");
        assert_eq!(made.mapped_value(), "");
    }
}

#[test]
fn an_invalid_filter_makes_a_set_that_is_not_empty_and_encodes_to_nothing() {
    let filters = SearchFilters::new(vec![SearchFilter::Invalid]);
    assert!(!filters.is_empty());
    assert_eq!(filters.to_query_params(), "");
    assert!(SearchFilters::new(vec![]).is_empty());
    assert!(SearchFilters::default().is_empty());
    assert_eq!(SearchFilters::default().to_query_params(), "");
    assert!(!SearchFilters::new(vec![filter("type", "tv")]).is_empty());
}

#[test]
fn genres_filter_value_joins_the_ids_of_known_genres() {
    let names = |all: &[&str]| all.iter().map(|n| n.to_string()).collect::<Vec<String>>();
    assert_eq!(SearchFilter::get_genres_filter_value(vec![]), None);
    assert_eq!(HiAnimeUtils::get_genres_filter_value(vec![]), None);
    assert_eq!(
        SearchFilter::get_genres_filter_value(names(&["drama", "comedy"])),
        Some("8,4".to_string())
    );
    assert_eq!(
        HiAnimeUtils::get_genres_filter_value(names(&["vampire", "x", "isekai", "mystery"])),
        Some("32,44,7".to_string())
    );
    assert_eq!(SearchFilter::get_genres_filter_value(names(&["x"])), Some(String::new()));
}

#[test]
fn the_tables_hold_the_ids_of_the_site() {
    assert_eq!(SearchPageFilters::genre("action"), Some(1));
    assert_eq!(SearchPageFilters::genre("mystery"), Some(7));
    assert_eq!(SearchPageFilters::genre("harem"), Some(35));
    assert_eq!(SearchPageFilters::genre("vampire"), Some(32));
    assert_eq!(SearchPageFilters::genre("Action"), None);
    assert_eq!(SearchPageFilters::anime_type("music"), Some(6));
    assert_eq!(SearchPageFilters::status("currently-airing"), Some(2));
    assert_eq!(SearchPageFilters::rated("pg-13"), Some(3));
    assert_eq!(SearchPageFilters::score("all"), Some(0));
    assert_eq!(SearchPageFilters::season("spring"), Some(1));
    assert_eq!(SearchPageFilters::language("dub"), Some(2));
    assert_eq!(SearchPageFilters::sort("name-a-z"), Some("name_az"));
    assert_eq!(SearchPageFilters::sort("released-date"), Some("released_date"));
    assert_eq!(SearchPageFilters::sort("name_az"), None);
    assert_eq!(params(vec![filter("type", "all")]), "type=0");
}

#[test]
fn the_closed_vocabularies_hold_their_names_only() {
    for name in ["all", "other", "0-9", "a", "m", "z"] {
        assert!(az_list_sort_option(name), "{}", name);
    }
    for name in ["", "A", "aa", "1", "0-8", "All"] {
        assert!(!az_list_sort_option(name), "{:?}", name);
    }
    for name in ["most-favorite", "most-popular", "tv", "completed", "top-airing"] {
        assert!(anime_category(name), "{}", name);
    }
    assert!(!anime_category("favorite"));
    assert!(!anime_category(""));
    assert!(anime_server("hd-1"));
    assert!(anime_server("streamtape"));
    assert!(!anime_server("hd-3"));
}

#[test]
fn filters_are_equal_where_they_are_of_one_kind() {
    assert!(filter("type", "tv") == filter("type", "movie"));
    assert!(filter("type", "tv") != filter("status", "tv"));
    assert!(SearchFilter::Invalid == filter("nothing", "x"));
    assert!(SearchFilter::Invalid != filter("genres", "x"));
}
