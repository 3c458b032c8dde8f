use enma::error::EnmaError;
use enma::qtip::{parse_qtip_info, qtip_request, split_trimmed};
use enma::text::chars_of;
use enma::types::Episodes;

fn some(s: &str) -> Option<String> {
    Some(s.to_string())
}

fn pair(name: &str, value: &str) -> (String, String) {
    (name.to_string(), value.to_string())
}

#[test]
fn qtip_request_uses_the_number_of_the_anime() {
    let request = qtip_request(" attack-on-titan-112 ").unwrap();
    assert_eq!(request.url, "https://hianime.to/ajax/movie/qtip/112");
    assert_eq!(
        request.headers,
        vec![pair("referer", "https://hianime.to/home"), pair("x-requested-with", "XMLHttpRequest")]
    );
    for id in ["", " ", "attack-on-titan-"] {
        let e = qtip_request(id).unwrap_err();
        assert!(matches!(e, EnmaError::InvalidDataError { .. }));
        assert_eq!(e.details().provider_parser, "hianime:get_qtip_info");
        assert_eq!(e.details().message, "InvalidDataError: invalid anime id");
        assert_eq!(e.details().status, 400);
    }
}

const QTIP: &str = "<div class=\"pre-qtip-content\">\
    <div class=\"pre-qtip-title\"> Attack on Titan </div>\
    <div class=\"pre-qtip-detail\">\
      <span class=\"pqd-li mr-3\"> 8.54 </span>\
      <div class=\"pqd-li\"><div class=\"tick\"><div class=\"tick-item tick-quality\">HD</div><div class=\"tick-item tick-sub\">25</div><div class=\"tick-item tick-dub\"> 24 </div></div></div>\
      <span class=\"badge badge-quality float-right\">TV</span>\
    </div>\
    <div class=\"pre-qtip-description\"> Humans against titans. </div>\
    <div class=\"pre-qtip-line\"><span class=\"stick\">Japanese:</span> <span class=\"stick-text\">Shingeki no Kyojin</span></div>\
    <div class=\"pre-qtip-line\"><span class=\"stick\"> Synonyms: </span><span class=\"stick-text\">AoT, SnK</span></div>\
    <div class=\"pre-qtip-line\"><span class=\"stick\">Aired:</span><span class=\"stick-text\">Apr 7, 2013 to Sep 29, 2013</span></div>\
    <div class=\"pre-qtip-line\"><span class=\"stick\">Status:</span><span class=\"stick-text\">Airing</span></div>\
    <div class=\"pre-qtip-line\"><span class=\"stick\">Status:</span><span class=\"stick-text\">Finished Airing</span></div>\
    <div class=\"pre-qtip-line\"><span class=\"stick\">Studio:</span><span class=\"stick-text\">Wit</span></div>\
    <div class=\"pre-qtip-line\">Genres: <a>Action</a>, <a> Drama </a>,<a>Super Power</a></div>\
    <div class=\"pre-qtip-button\"><a href=\"/watch/attack-on-titan-112\" class=\"btn btn-play\">Watch</a></div>\
    </div>";

#[test]
fn the_summary_is_read() {
    let anime = parse_qtip_info(QTIP).anime;
    assert_eq!(anime.id, some("attack-on-titan-112"));
    assert_eq!(anime.name, some("Attack on Titan"));
    assert_eq!(anime.mal_score, some("8.54"));
    assert_eq!(anime.quality, some("HD"));
    assert_eq!(anime.anime_type, some("TV"));
    assert_eq!(anime.description, some("Humans against titans."));
    assert_eq!(anime.episodes, Episodes { sub: Some(25), dub: Some(24) });
    assert_eq!(anime.jname, some("Shingeki no Kyojin"));
    assert_eq!(anime.synonyms, some("AoT, SnK"));
    assert_eq!(anime.aired, some("Apr 7, 2013 to Sep 29, 2013"));
    assert_eq!(anime.status, some("Finished Airing"));
    assert_eq!(anime.genres, Vec::<String>::new());
}

#[test]
fn the_genres_are_read_from_the_line_that_its_label_names() {
    let html = "<div class=\"pre-qtip-content\">\
        <div class=\"pre-qtip-line\"><span class=\"stick\">Status:</span></div>\
        <div class=\"pre-qtip-line\"> <span class=\"stick\">Genres:</span> <a>Action</a>, <a> Drama </a>,<a>Super Power</a> </div>\
        </div>";
    let anime = parse_qtip_info(html).anime;
    assert_eq!(anime.genres, vec!["Action", "Drama", "Super Power"]);
    assert_eq!(anime.status, some(""));
    assert_eq!(anime.jname, None);
    assert_eq!(anime.id, None);
    assert_eq!(anime.episodes, Episodes { sub: None, dub: None });
    let short = parse_qtip_info("<div class=\"pre-qtip-content\"><div class=\"pre-qtip-line\"><span class=\"stick\">Genres</span></div></div>").anime;
    assert_eq!(short.genres, vec![""]);
}

#[test]
fn pieces_are_trimmed() {
    assert_eq!(split_trimmed(&chars_of(" a , b,c ,"), ','), vec!["a", "b", "c", ""]);
    assert_eq!(split_trimmed(&chars_of(""), ','), vec![""]);
}
