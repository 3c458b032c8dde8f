use enma::pagination::{current_page, genres_at};
use enma::utils::HiAnimeUtils;
use scraper::{Html, Selector};

fn doc(html: &str) -> Html {
    Html::parse_document(html)
}

fn pagination(entries: &str) -> Html {
    Html::parse_fragment(&format!("<ul class=\"pagination\">{}</ul>", entries))
}

#[test]
fn a_document_without_pagination_has_one_page_and_no_next_page() {
    for html in ["", "<p>nothing here</p>", "<ul><li class=\"active\"><a href=\"?page=9\">9</a></li></ul>"] {
        let document = doc(html);
        assert_eq!(HiAnimeUtils::has_next_page(&document), false);
        assert_eq!(HiAnimeUtils::get_total_pages(&document), 1);
    }
}

#[test]
fn an_active_last_entry_means_no_next_page() {
    let document = pagination(
        "<li class=\"page-item\"><a title=\"First\" href=\"?page=1\">1</a></li>\
         <li class=\"page-item\"><a title=\"Previous\" href=\"?page=2\">2</a></li>\
         <li class=\"page-item active\"><a title=\"Page 3\" href=\"?page=3\">3</a></li>",
    );
    assert_eq!(HiAnimeUtils::has_next_page(&document), false);
    assert_eq!(HiAnimeUtils::get_total_pages(&document), 3);
}

#[test]
fn last_link_gives_the_total_and_an_active_page_before_it_a_next_page() {
    let document = pagination(
        "<li class=\"page-item\"><a title=\"First\" href=\"/most-favorite?page=1\">First</a></li>\
         <li class=\"page-item active\"><a title=\"Page 2\" href=\"/most-favorite?page=2\">2</a></li>\
         <li class=\"page-item\"><a title=\"Next\" href=\"/most-favorite?page=3\">Next</a></li>\
         <li class=\"page-item\"><a title=\"Last\" href=\"/most-favorite?page=187\">Last</a></li>",
    );
    assert_eq!(HiAnimeUtils::get_total_pages(&document), 187);
    assert_eq!(HiAnimeUtils::has_next_page(&document), true);
}

#[test]
fn without_an_active_entry_there_is_no_next_page() {
    let document = pagination(
        "<li class=\"page-item\"><a title=\"Next\" href=\"?page=3\">Next</a></li>\
         <li class=\"page-item\"><a title=\"Last\" href=\"?page=7\">Last</a></li>",
    );
    assert_eq!(HiAnimeUtils::has_next_page(&document), false);
    assert_eq!(HiAnimeUtils::get_total_pages(&document), 7);
}

#[test]
fn the_total_falls_back_from_last_to_next_to_active() {
    let next_only = pagination(
        "<li class=\"page-item active\"><a href=\"?page=1\">1</a></li>\
         <li class=\"page-item\"><a title=\"Next\" href=\"?sort=x&page=2\">Next</a></li>",
    );
    assert_eq!(HiAnimeUtils::get_total_pages(&next_only), 2);

    let active_only = pagination("<li class=\"page-item active\"><a href=\"?page=5\">5</a></li>");
    assert_eq!(HiAnimeUtils::get_total_pages(&active_only), 5);

    let unreadable_last = pagination(
        "<li class=\"page-item active\"><a href=\"?page=1\">4</a></li>\
         <li class=\"page-item\"><a title=\"Next\" href=\"?page=6\">Next</a></li>\
         <li class=\"page-item\"><a title=\"Last\" href=\"?page=many\">Last</a></li>",
    );
    assert_eq!(HiAnimeUtils::get_total_pages(&unreadable_last), 6);

    let nothing_readable = pagination(
        "<li class=\"page-item active\"><a href=\"?page=1\"> 4 </a></li>\
         <li class=\"page-item\"><a title=\"Last\">Last</a></li>",
    );
    assert_eq!(HiAnimeUtils::get_total_pages(&nothing_readable), 1);

    let too_large = pagination(
        "<li class=\"page-item active\"><a href=\"?page=1\">3</a></li>\
         <li class=\"page-item\"><a title=\"Last\" href=\"?page=65536\">Last</a></li>",
    );
    assert_eq!(HiAnimeUtils::get_total_pages(&too_large), 3);

    let first_link_without_target = pagination(
        "<li class=\"page-item\"><a title=\"Last\">Last</a></li>\
         <li class=\"page-item\"><a title=\"Last\" href=\"?page=12\">Last</a></li>",
    );
    assert_eq!(HiAnimeUtils::get_total_pages(&first_link_without_target), 12);
}

#[test]
fn genres_are_the_first_texts_of_the_nodes_found() {
    let document = doc(
        "<div id=\"main-sidebar\"><ul class=\"sb-genre-list\">\
         <li><a href=\"/genre/action\">Action</a></li>\
         <li></li>\
         <li><a href=\"/genre/slice-of-life\"> Slice of Life </a>!</li>\
         </ul></div>",
    );
    let selector = Selector::parse(".sb-genre-list li").unwrap();
    let mut names = vec!["Kept".to_string()];
    HiAnimeUtils::extract_genres(&document, &selector, &mut names);
    assert_eq!(names, vec!["Kept", "Action", " Slice of Life "]);
    assert_eq!(genres_at(&document, ".sb-genre-list li"), vec!["Action", " Slice of Life "]);
    assert_eq!(genres_at(&document, ".none li"), Vec::<String>::new());
    assert_eq!(genres_at(&document, "li["), Vec::<String>::new());
}

#[test]
fn the_page_asked_for_is_at_least_the_first() {
    assert_eq!(current_page(None), 1);
    assert_eq!(current_page(Some(0)), 1);
    assert_eq!(current_page(Some(1)), 1);
    assert_eq!(current_page(Some(65535)), 65535);
}
