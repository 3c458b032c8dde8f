use enma::listing::{animes_at, most_popular_at, trending_at};
use enma::top10::{rankings_at, spotlights_at};
use enma::types::{Anime, Episodes, Server, Top10AnimePeriod};
use enma::utils::HiAnimeUtils;
use scraper::{Html, Selector};

fn some(s: &str) -> Option<String> {
    Some(s.to_string())
}

const LISTING: &str = "<div id=\"main-content\"><div class=\"tab-content\"><div class=\"film_list-wrap\">\
<div class=\"flw-item\">\
  <div class=\"film-poster\">\
    <div class=\"tick ltr\"><div class=\"tick-item tick-sub\">12</div><div class=\"tick-item tick-dub\"> Ep 10 </div></div>\
    <div class=\"tick tick-rate\">18+</div>\
    <img class=\"film-poster-img\" data-src=\" https://img.example/one.jpg \">\
  </div>\
  <div class=\"film-detail\">\
    <h3 class=\"film-name\"><a class=\"dynamic-name\" href=\"/one-piece-100?ref=search\" data-jname=\" Wan Pisu \"> One Piece </a></h3>\
    <div class=\"fd-infor\"><span class=\"fdi-item\">TV</span><span class=\"dot\"></span><span class=\"fdi-item fdi-duration\"> 24m </span></div>\
  </div>\
</div>\
<div class=\"flw-item\">\
  <div class=\"film-poster\"><div class=\"tick-item tick-sub\">many</div></div>\
  <div class=\"film-detail\"><h3 class=\"film-name\"><a class=\"dynamic-name\" href=\"/naruto-20?w=latest\">Naruto</a></h3></div>\
</div>\
<div class=\"flw-item\"></div>\
</div></div></div>";

#[test]
fn listing_entries_become_records() {
    let document = Html::parse_document(LISTING);
    let selector = Selector::parse("#main-content .tab-content .film_list-wrap .flw-item").unwrap();
    let animes = HiAnimeUtils::extract_animes(&document, &selector);
    assert_eq!(animes.len(), 3);
    assert_eq!(
        animes[0],
        Anime {
            id: some("one-piece-100"),
            name: some("One Piece"),
            poster: some("https://img.example/one.jpg"),
            jname: some("Wan Pisu"),
            duration: some("24m"),
            rating: some("18+"),
            anime_type: some("TV"),
            episodes: Episodes { sub: Some(12), dub: Some(10) },
        }
    );
    assert_eq!(
        animes[1],
        Anime {
            id: some("naruto-20?w=latest"),
            name: some("Naruto"),
            poster: None,
            jname: None,
            duration: None,
            rating: None,
            anime_type: None,
            episodes: Episodes { sub: None, dub: None },
        }
    );
    assert_eq!(
        animes[2],
        Anime {
            id: None,
            name: None,
            poster: None,
            jname: None,
            duration: None,
            rating: None,
            anime_type: None,
            episodes: Episodes { sub: None, dub: None },
        }
    );
    assert_eq!(animes_at(&document, "#main-content .flw-item"), animes);
    assert_eq!(animes_at(&document, ".nothing"), vec![]);
    assert_eq!(animes_at(&document, "not a [selector"), vec![]);
}

const SIDEBAR: &str = "<div class=\"anif-block-ul\"><ul>\
<li>\
  <div class=\"film-poster\"><img class=\"film-poster-img\" data-src=\"https://img.example/aot.jpg\"></div>\
  <div class=\"film-detail\">\
    <h3 class=\"film-name\"><a class=\"dynamic-name\" href=\"/attack-on-titan-112 \" data-jname=\"Shingeki no Kyojin\">Attack on Titan</a></h3>\
    <div class=\"fd-infor\"><div class=\"tick\"><div class=\"tick-item tick-sub\">25</div><div class=\"tick-item tick-dub\">25</div><span class=\"fdi-item\"> TV </span></div></div>\
  </div>\
</li>\
<li><div class=\"film-detail\"><h3 class=\"film-name\"><a class=\"dynamic-name\" href=\"\">Empty</a></h3></div></li>\
</ul></div>";

#[test]
fn sidebar_entries_become_records() {
    let document = Html::parse_document(SIDEBAR);
    let selector = Selector::parse(".anif-block-ul ul li").unwrap();
    let animes = HiAnimeUtils::extract_most_popular_anime(&document, &selector);
    assert_eq!(animes.len(), 2);
    assert_eq!(animes[0].id, some("attack-on-titan-112"));
    assert_eq!(animes[0].name, some("Attack on Titan"));
    assert_eq!(animes[0].jname, some("Shingeki no Kyojin"));
    assert_eq!(animes[0].poster, some("https://img.example/aot.jpg"));
    assert_eq!(animes[0].anime_type, some("TV"));
    assert_eq!(animes[0].episodes, Episodes { sub: Some(25), dub: Some(25) });
    assert_eq!(animes[1].id, some(""));
    assert_eq!(animes[1].name, some("Empty"));
    assert_eq!(animes[1].episodes, Episodes { sub: None, dub: None });
    assert_eq!(most_popular_at(&document, ".anif-block-ul ul li"), animes);
}

const TRENDING: &str = "<div id=\"trending-home\"><div class=\"swiper-wrapper\">\
<div class=\"swiper-slide\"><div class=\"item\">\
  <div class=\"number\"><span> 01 </span><div class=\"film-title dynamic-name\" data-jname=\"Wan Pisu\">One Piece</div></div>\
  <a href=\"/one-piece-100\" class=\"film-poster\"><img data-src=\"https://img.example/op.jpg\" class=\"film-poster-img\"></a>\
</div></div>\
<div class=\"swiper-slide\"><div class=\"item\">\
  <div class=\"number\"><span>second</span><div class=\"film-title dynamic-name\">Bleach</div></div>\
</div></div>\
</div></div>";

#[test]
fn trending_entries_become_records() {
    let document = Html::parse_document(TRENDING);
    let selector = Selector::parse("#trending-home .swiper-wrapper .swiper-slide").unwrap();
    let animes = HiAnimeUtils::extract_trending_anime(&document, &selector);
    assert_eq!(animes.len(), 2);
    assert_eq!(animes[0].id, some("one-piece-100"));
    assert_eq!(animes[0].name, some("One Piece"));
    assert_eq!(animes[0].jname, some("Wan Pisu"));
    assert_eq!(animes[0].rank, Some(1));
    assert_eq!(animes[0].poster, some("https://img.example/op.jpg"));
    assert_eq!(animes[1].id, None);
    assert_eq!(animes[1].name, some("Bleach"));
    assert_eq!(animes[1].rank, None);
    assert_eq!(trending_at(&document, "#trending-home .swiper-slide"), animes);
}

fn ranking_entry(rank: &str, id: &str, name: &str) -> String {
    format!(
        "<li>\
           <div class=\"film-number\"><span>{}</span></div>\
           <div class=\"film-poster\"><img class=\"film-poster-img\" data-src=\"https://img.example/{}.jpg\"></div>\
           <div class=\"film-detail\">\
             <h3 class=\"film-name\"><a class=\"dynamic-name\" href=\"/{}\" data-jname=\"{} (jp)\">{}</a></h3>\
             <div class=\"fd-infor\"><div class=\"tick\"><div class=\"tick-item tick-sub\"> 7 </div><div class=\"tick-item tick-dub\">Ep 7</div></div></div>\
           </div>\
         </li>",
        rank, id, id, name, name
    )
}

fn rankings(sections: &[(&str, Vec<String>)]) -> Html {
    let mut html = String::from("<div id=\"main-sidebar\"><div class=\"block_area-realtime\">");
    for (id, entries) in sections {
        html.push_str(&format!("<div id=\"{}\"><ul>{}</ul></div>", id, entries.concat()));
    }
    html.push_str("</div></div>");
    Html::parse_document(&html)
}

#[test]
fn a_week_section_fills_the_week_only() {
    let document = rankings(&[(
        "top-viewed-week",
        vec![ranking_entry("01", "one-piece-100", "One Piece"), ranking_entry("02", "bleach-806", "Bleach")],
    )]);
    let selector = Selector::parse("#main-sidebar .block_area-realtime [id^=\"top-viewed-\"]").unwrap();
    let top = HiAnimeUtils::extract_top10_animes(&document, &selector);
    assert_eq!(top.today.len(), 0);
    assert_eq!(top.month.len(), 0);
    assert_eq!(top.week.len(), 2);
    assert_eq!(top.week[0].id, some("one-piece-100"));
    assert_eq!(top.week[0].name, some("One Piece"));
    assert_eq!(top.week[0].jname, some("One Piece (jp)"));
    assert_eq!(top.week[0].poster, some("https://img.example/one-piece-100.jpg"));
    assert_eq!(top.week[0].rank, Some(1));
    assert_eq!(top.week[0].episodes, Episodes { sub: Some(7), dub: None });
    assert_eq!(top.week[1].id, some("bleach-806"));
    assert_eq!(top.week[1].rank, Some(2));
}

#[test]
fn each_section_fills_its_period_and_other_sections_are_passed_over() {
    let document = rankings(&[
        ("top-viewed-day", vec![ranking_entry("1", "a-1", "A")]),
        ("top-viewed-year", vec![ranking_entry("1", "y-1", "Y"), ranking_entry("2", "y-2", "Y2")]),
        ("top-viewed-month", vec![ranking_entry("1", "m-1", "M"), ranking_entry("2", "m-2", "M2"), ranking_entry("3", "m-3", "M3")]),
        ("top-viewed-", vec![ranking_entry("1", "n-1", "N")]),
    ]);
    let top = rankings_at(&document, "#main-sidebar .block_area-realtime [id^=\"top-viewed-\"]");
    assert_eq!(top.today.len(), 1);
    assert_eq!(top.today[0].id, some("a-1"));
    assert_eq!(top.week.len(), 0);
    assert_eq!(top.month.len(), 3);
    assert_eq!(top.month[2].id, some("m-3"));
    let none = rankings_at(&document, "#nothing");
    assert_eq!((none.today.len(), none.week.len(), none.month.len()), (0, 0, 0));
}

#[test]
fn one_ranking_is_read_by_the_name_of_its_section() {
    let document = rankings(&[
        ("top-viewed-day", vec![ranking_entry("1", "a-1", "A")]),
        ("top-viewed-week", vec![ranking_entry("1", "w-1", "W"), ranking_entry("x", "w-2", "W2")]),
    ]);
    let week = HiAnimeUtils::extract_top10_anime(&document, &"week".to_string());
    assert_eq!(week.len(), 2);
    assert_eq!(week[1].id, some("w-2"));
    assert_eq!(week[1].rank, None);
    assert_eq!(HiAnimeUtils::extract_top10_anime(&document, &"month".to_string()).len(), 0);
    assert_eq!(HiAnimeUtils::extract_top10_anime(&document, &"we ek[".to_string()).len(), 0);
}

const SPOTLIGHT: &str = "<div id=\"slider\"><div class=\"swiper-wrapper\">\
<div class=\"swiper-slide\">\
  <div class=\"deslide-item\">\
    <div class=\"deslide-cover\"><div class=\"deslide-cover-img\"><img class=\"film-poster-img\" data-src=\"https://img.example/spot.jpg\"></div></div>\
    <div class=\"deslide-item-content\">\
      <div class=\"desi-sub-text\">#3 Spotlight</div>\
      <div class=\"desi-head-title dynamic-name\" data-jname=\"Sousou no Frieren\"> Frieren </div>\
      <div class=\"sc-detail\">\
        <div class=\"scd-item\"> TV </div>\
        <div class=\"scd-item\">24m</div>\
        <div class=\"scd-item m-hide\">Sep 29, 2023</div>\
        <div class=\"scd-item\"><div class=\"tick\"><div class=\"tick-item tick-sub\">28</div><div class=\"tick-item tick-dub\">x</div></div></div>\
      </div>\
      <div class=\"desi-description\"> An elf mage. </div>\
      <div class=\"desi-buttons\"><a href=\"/watch/frieren-18542\">Watch</a><a href=\"/frieren-18542\">Detail</a></div>\
    </div>\
  </div>\
</div>\
<div class=\"swiper-slide\"><div class=\"deslide-item-content\"><div class=\"desi-sub-text\">Spotlight</div></div></div>\
</div></div>";

#[test]
fn spotlight_entries_become_records() {
    let document = Html::parse_document(SPOTLIGHT);
    let selector = Selector::parse("#slider .swiper-wrapper .swiper-slide").unwrap();
    let animes = HiAnimeUtils::extract_spotlight_animes(&document, &selector);
    assert_eq!(animes.len(), 2);
    let first = &animes[0];
    assert_eq!(first.id, some("frieren-18542"));
    assert_eq!(first.name, some("Frieren"));
    assert_eq!(first.jname, some("Sousou no Frieren"));
    assert_eq!(first.poster, some("https://img.example/spot.jpg"));
    assert_eq!(first.description, some("An elf mage."));
    assert_eq!(first.rank, Some(3));
    assert_eq!(first.episodes, Episodes { sub: Some(28), dub: None });
    assert_eq!(first.other_info, vec!["TV", "24m", "Sep 29, 2023"]);
    assert_eq!(first.anime_type, some("TV"));
    let second = &animes[1];
    assert_eq!(second.id, None);
    assert_eq!(second.rank, None);
    assert_eq!(second.other_info, Vec::<String>::new());
    assert_eq!(second.anime_type, None);
    assert_eq!(spotlights_at(&document, "#slider .swiper-slide"), animes);
}

#[test]
fn periods_and_servers_have_their_names() {
    assert_eq!(Top10AnimePeriod::from(&"day".to_string()), Top10AnimePeriod::Day);
    assert_eq!(Top10AnimePeriod::from(&"week".to_string()), Top10AnimePeriod::Week);
    assert_eq!(Top10AnimePeriod::from(&"month".to_string()), Top10AnimePeriod::Month);
    assert_eq!(Top10AnimePeriod::from(&"year".to_string()), Top10AnimePeriod::Day);
    assert_eq!(Top10AnimePeriod::parse("year"), None);
    assert_eq!(Top10AnimePeriod::parse("Week"), None);
    assert_eq!(Top10AnimePeriod::parse("month"), Some(Top10AnimePeriod::Month));
    assert_eq!(Server::VidStreaming.value(), "hd-1");
    assert_eq!(Server::VidCloud.value(), "hd-2");
    assert_eq!(Server::MegaCloud.value(), "megacloud");
    assert_eq!(Server::FileMoon.value(), "filemoon");
    assert_eq!(HiAnimeUtils::BaseUrl.value(), "https://hianime.to");
    assert_eq!(HiAnimeUtils::SearchSuggestionUrl.value(), "https://hianime.to/ajax/search/suggest");
    assert_eq!(HiAnimeUtils::QtipUrl.value(), "https://hianime.to/ajax/movie/qtip");
}
