use enma::error::EnmaError;
use enma::info::{info_request, parse_info};
use enma::types::{AnimeCharacter, Episodes, OtherInfoValue, Season};
use enma::utils::HiAnimeUtils;
use scraper::Html;

fn some(s: &str) -> Option<String> {
    Some(s.to_string())
}

#[test]
fn info_request_takes_the_whole_id() {
    let request = info_request(" one-piece-100 ").unwrap();
    assert_eq!(request.url, "https://hianime.to/one-piece-100");
    assert!(request.headers.is_empty());
    for id in ["", "  ", "onepiece", "100"] {
        let e = info_request(id).unwrap_err();
        assert!(matches!(e, EnmaError::MiscError { .. }));
        assert_eq!(e.details().provider_parser, "hianime:get_info");
        assert_eq!(e.details().message, "MiscError: invalid anime id");
        assert_eq!(e.details().status, 400);
    }
}

const INFO: &str = "<html><head></head><body>\
<div id=\"ani_detail\"><div class=\"anis-content\">\
  <div class=\"anisc-poster\"><div class=\"film-poster\"><img src=\" https://img.example/op.jpg \" class=\"film-poster-img\"></div></div>\
  <div class=\"anisc-detail\">\
    <h2 class=\"film-name dynamic-name\" data-jname=\"Wan Pisu\"> One Piece </h2>\
    <div class=\"film-stats\"><div class=\"tick\">\
      <div class=\"tick-item tick-pg\">PG-13</div>\
      <div class=\"tick-item tick-quality\"> HD </div>\
      <div class=\"tick-item tick-sub\">1122</div>\
      <div class=\"tick-item tick-dub\"> 1096 </div>\
      <span class=\"dot\"></span>\n      <span class=\"item\">TV</span>\n <span class=\"dot\"></span>\n   <span class=\"item\">24m</span>\
    </div></div>\
    <div class=\"film-buttons\"><a href=\"/watch/one-piece-100\" class=\"btn btn-play\">Watch now</a></div>\
    <div class=\"film-description m-hide\"><div class=\"text\"> Gold Roger was known as the Pirate King. </div></div>\
  </div>\
  <div class=\"anisc-info-wrap\"><div class=\"anisc-info\">\
    <div class=\"item item-title w-hide\"><span class=\"item-head\">Overview:</span><div class=\"text\">hidden</div></div>\
    <div class=\"item item-title\"><span class=\"item-head\">Japanese:</span> <span class=\"name\">ONE PIECE</span></div>\
    <div class=\"item item-title\"><span class=\"item-head\">MAL Score:</span><span class=\"name\">8.62</span></div>\
    <div class=\"item item-list\"><span class=\"item-head\">Genres:</span><a>Action</a><a>Adventure</a><a>Fantasy</a></div>\
    <div class=\"item item-title\"><span class=\"item-head\">Studios:</span><a class=\"name\">Toei Animation</a></div>\
    <div class=\"item item-title\"><span class=\"item-head\">Producers:</span><a class=\"name\">Fuji TV</a></div>\
    <div class=\"item item-title\"><span class=\"item-head\">Studios:</span><a class=\"name\">Toei</a><a class=\"name\">Other</a></div>\
    <div class=\"item item-title\"><span class=\"name\">no heading</span></div>\
  </div></div>\
</div></div>\
<div id=\"main-content\">\
  <div class=\"os-list\">\
    <a href=\"/one-piece-100 \" class=\"os-item active\" title=\" One Piece \"><div class=\"title\"> Season 1 </div><div class=\"season-poster\" style=\"background-image: url(https://img.example/s1.jpg);\"></div></a>\
    <a href=\"/one-piece-film-red-1\" class=\"os-item\" title=\"Film Red\"><div class=\"title\">Movie</div></a>\
  </div>\
  <section class=\"block_area block_area-promotions\"><div class=\"block_area-promotions-list\"><div class=\"screen-items\">\
    <div class=\"item\" data-title=\" PV 1 \" data-src=\" https://video.example/pv1 \"><img src=\" https://img.example/pv1.jpg \"></div>\
    <div class=\"item\"></div>\
  </div></div></section>\
  <section class=\"block_area block_area-actors\"><div class=\"block-actors-content\"><div class=\"bac-list-wrap\">\
    <div class=\"bac-item\">\
      <div class=\"per-info ltr\"><a href=\" /character/monkey-d-luffy-1 \" class=\"pi-avatar\"><img data-src=\"https://img.example/luffy.jpg\"></a><div class=\"pi-detail\"><h4 class=\"pi-name\"><a href=\"/character/monkey-d-luffy-1\"> Monkey D. Luffy </a></h4><span class=\"pi-cast\"> Main </span></div></div>\
      <div class=\"per-info rtl\"><a href=\"/people/mayumi-tanaka-2\" class=\"pi-avatar\"><img data-src=\"https://img.example/tanaka.jpg\"></a><div class=\"pi-detail\"><h4 class=\"pi-name\"><a href=\"/people/mayumi-tanaka-2\">Tanaka, Mayumi</a></h4><span class=\"pi-cast\">Japanese</span></div></div>\
    </div>\
    <div class=\"bac-item\"><div class=\"per-info ltr\"><a href=\"/character\" class=\"pi-avatar\"></a></div></div>\
  </div></div></section>\
  <section class=\"block_area block_area_category\"><div class=\"tab-content\"><div class=\"flw-item\"><div class=\"film-detail\"><h3 class=\"film-name\"><a class=\"dynamic-name\" href=\"/naruto-20\">Naruto</a></h3></div></div></div></section>\
</div>\
<div id=\"main-sidebar\">\
  <section class=\"block_area block_area_sidebar block_area-realtime\"><div class=\"anif-block-ul\"><ul><li><div class=\"film-detail\"><h3 class=\"film-name\"><a class=\"dynamic-name\" href=\"/related-1\">Related</a></h3></div></li></ul></div></section>\
  <section class=\"block_area block_area_sidebar block_area-realtime\"><div class=\"anif-block-ul\"><ul><li><div class=\"film-detail\"><h3 class=\"film-name\"><a class=\"dynamic-name\" href=\"/popular-1\">Popular</a></h3></div></li><li><div class=\"film-detail\"><h3 class=\"film-name\"><a class=\"dynamic-name\" href=\"/popular-2\">Popular 2</a></h3></div></li></ul></div></section>\
</div>\
<script id=\"syncData\" type=\"application/json\">{\"page\":\"anime\",\"name\":\"One Piece\",\"anime_id\":\"100\",\"mal_id\":\"21\",\"anilist_id\":\"20021\",\"series_url\":\"https://hianime.to/watch/one-piece-100\"}</script>\
</body></html>";

#[test]
fn the_detail_page_is_read() {
    let page = parse_info(INFO);
    let anime = &page.anime;
    assert_eq!(anime.id, some("one-piece-100"));
    assert_eq!(anime.name, some("One Piece"));
    assert_eq!(anime.jname, some("Wan Pisu"));
    assert_eq!(anime.poster, some("https://img.example/op.jpg"));
    assert_eq!(anime.description, some("Gold Roger was known as the Pirate King."));
    assert_eq!(anime.mal_id, Some(21));
    assert_eq!(anime.anilist_id, Some(20021));

    assert_eq!(
        anime.seasons,
        vec![
            Season {
                id: some("one-piece-100"),
                name: some("One Piece"),
                poster: some("https://img.example/s1.jpg"),
                title: some("Season 1"),
                is_current: true,
            },
            Season {
                id: some("one-piece-film-red-1"),
                name: some("Film Red"),
                poster: None,
                title: some("Movie"),
                is_current: false,
            },
        ]
    );

    assert_eq!(anime.stats.rating, some("PG-13"));
    assert_eq!(anime.stats.quality, some("HD"));
    assert_eq!(anime.stats.episodes, Episodes { sub: Some(1122), dub: Some(1096) });
    assert_eq!(anime.stats.anime_type, some("TV"));
    assert_eq!(anime.stats.duration, some("24m"));

    let single = |s: &str| OtherInfoValue::Single(s.to_string());
    let multiple = |all: &[&str]| OtherInfoValue::Multiple(all.iter().map(|s| s.to_string()).collect());
    assert_eq!(
        anime.other_info,
        vec![
            ("japanese".to_string(), single("ONE PIECE")),
            ("malscore".to_string(), single("8.62")),
            ("genres".to_string(), multiple(&["Action", "Adventure", "Fantasy"])),
            ("studios".to_string(), single("Toei, Other")),
            ("producers".to_string(), multiple(&["Fuji TV"])),
            ("".to_string(), single("no heading")),
        ]
    );

    assert_eq!(anime.promotional_videos.len(), 2);
    assert_eq!(anime.promotional_videos[0].title, some("PV 1"));
    assert_eq!(anime.promotional_videos[0].source, some("https://video.example/pv1"));
    assert_eq!(anime.promotional_videos[0].thumbnail, some("https://img.example/pv1.jpg"));
    assert_eq!(anime.promotional_videos[1].title, None);
    assert_eq!(anime.promotional_videos[1].thumbnail, None);

    assert_eq!(anime.characters_voice_actors.len(), 2);
    assert_eq!(
        anime.characters_voice_actors[0].character,
        AnimeCharacter {
            id: some("monkey-d-luffy-1"),
            name: some("Monkey D. Luffy"),
            poster: some("https://img.example/luffy.jpg"),
            cast: some("Main"),
        }
    );
    assert_eq!(
        anime.characters_voice_actors[0].voice_actor,
        AnimeCharacter {
            id: some("mayumi-tanaka-2"),
            name: some("Tanaka, Mayumi"),
            poster: some("https://img.example/tanaka.jpg"),
            cast: some("Japanese"),
        }
    );
    assert_eq!(
        anime.characters_voice_actors[1].character,
        AnimeCharacter { id: None, name: None, poster: None, cast: None }
    );
    assert_eq!(
        anime.characters_voice_actors[1].voice_actor,
        AnimeCharacter { id: None, name: None, poster: None, cast: None }
    );

    assert_eq!(page.related_animes.len(), 1);
    assert_eq!(page.related_animes[0].id, some("related-1"));
    assert_eq!(page.most_popular_animes.len(), 2);
    assert_eq!(page.most_popular_animes[1].id, some("popular-2"));
    assert_eq!(page.recommended_animes.len(), 1);
    assert_eq!(page.recommended_animes[0].id, some("naruto-20"));
}

#[test]
fn an_empty_detail_page_gives_an_empty_record() {
    let page = parse_info("");
    assert_eq!(page.anime.id, None);
    assert_eq!(page.anime.mal_id, None);
    assert_eq!(page.anime.anilist_id, None);
    assert!(page.anime.seasons.is_empty());
    assert!(page.anime.other_info.is_empty());
    assert_eq!(page.anime.stats.duration, None);
    assert_eq!(page.anime.stats.anime_type, None);
    assert!(page.related_animes.is_empty());
}

#[test]
fn a_statistics_line_of_one_word_has_a_duration_only() {
    let page = parse_info("<div class=\"anis-content\"><div class=\"film-stats\"><div class=\"tick\"> 24m </div></div></div>");
    assert_eq!(page.anime.stats.duration, some("24m"));
    assert_eq!(page.anime.stats.anime_type, None);
    let page = parse_info("<div class=\"anis-content\"><div class=\"film-stats\"><div class=\"tick\"></div></div></div>");
    assert_eq!(page.anime.stats.duration, some(""));
    assert_eq!(page.anime.stats.anime_type, None);
}

#[test]
fn ids_of_other_catalogs_are_read_from_the_sync_data() {
    let ids = |data: &str| {
        HiAnimeUtils::get_mal_anilist_id(&Html::parse_document(&format!(
            "<script id=\"syncData\">{}</script>",
            data
        )))
    };
    assert_eq!(ids("{\"mal_id\":\"21\",\"anilist_id\":\"20021\"}"), (Some(21), Some(20021)));
    assert_eq!(ids("{\"anilist_id\":\"7\"}"), (None, Some(7)));
    assert_eq!(ids("{\"mal_id\":\"\",\"anilist_id\":\"x\"}"), (None, None));
    assert_eq!(ids("{\"mal_id\":\"4294967296\"}"), (None, None));
    assert_eq!(ids("{\"mal_id\":\"12"), (Some(12), None));
    assert_eq!(ids(""), (None, None));
    assert_eq!(HiAnimeUtils::get_mal_anilist_id(&Html::parse_document("<p>x</p>")), (None, None));
}
