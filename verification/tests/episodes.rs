use enma::episodes::{
    episode_servers_request, episodes_request, parse_anime_episodes, parse_episode_servers,
    servers_of_kind,
};
use enma::error::EnmaError;
use enma::types::{AnimeEpisode, EpisodeInfo};
use scraper::Html;

fn some(s: &str) -> Option<String> {
    Some(s.to_string())
}

fn pair(name: &str, value: &str) -> (String, String) {
    (name.to_string(), value.to_string())
}

#[test]
fn episodes_request_uses_the_number_of_the_anime() {
    let request = episodes_request(" steinsgate-3 ").unwrap();
    assert_eq!(request.url, "https://hianime.to/ajax/v2/episode/list/3");
    assert_eq!(
        request.headers,
        vec![
            pair("referer", "https://hianime.to/watch/3"),
            pair("x-requested-with", "XMLHttpRequest"),
        ]
    );
    assert_eq!(episodes_request("42").unwrap().url, "https://hianime.to/ajax/v2/episode/list/42");
}

#[test]
fn an_anime_id_without_a_number_is_refused() {
    for id in ["", "  ", "steinsgate-", "-"] {
        let e = episodes_request(id).unwrap_err();
        assert!(matches!(e, EnmaError::MiscError { .. }));
        assert_eq!(e.details().provider_parser, "hianime:get_anime_episodes");
        assert_eq!(e.details().message, "MiscError: invalid anime id");
        assert_eq!(e.details().status, 400);
    }
}

#[test]
fn episodes_are_read() {
    let html = "<div class=\"detail-infor-content\"><div class=\"ss-list\">\
        <a title=\" Turning Point \" class=\"ssl-item ep-item\" data-number=\" 1 \" href=\"/watch/steinsgate-3?ep=213\">1</a>\
        <a title=\"Filler\" class=\"ssl-item ssl-item-filler ep-item\" data-number=\"two\" href=\"/watch/steinsgate-3?ep=214\">2</a>\
        <a class=\"ssl-item\">3</a>\
        </div></div>";
    let page = parse_anime_episodes(html);
    assert_eq!(page.total_episodes, Some(3));
    assert_eq!(
        page.episodes,
        vec![
            AnimeEpisode {
                title: some("Turning Point"),
                number: Some(1),
                episode_id: some("steinsgate-3?ep=213"),
                is_filler: false,
            },
            AnimeEpisode {
                title: some("Filler"),
                number: None,
                episode_id: some("steinsgate-3?ep=214"),
                is_filler: true,
            },
            AnimeEpisode { title: None, number: None, episode_id: None, is_filler: false },
        ]
    );
    let none = parse_anime_episodes("");
    assert_eq!(none.total_episodes, Some(0));
    assert!(none.episodes.is_empty());
}

#[test]
fn servers_request_uses_the_number_of_the_episode() {
    let request = episode_servers_request("steinsgate-0-92?ep=2055").unwrap();
    assert_eq!(request.url, "https://hianime.to/ajax/v2/episode/servers?episodeId=2055");
    assert_eq!(
        request.headers,
        vec![
            pair("referer", "https://hianime.to/watch/steinsgate-0-92?ep=2055"),
            pair("x-requested-with", "XMLHttpRequest"),
        ]
    );
    assert_eq!(
        episode_servers_request("a?ep=1?ep=2 ").unwrap().url,
        "https://hianime.to/ajax/v2/episode/servers?episodeId=2"
    );
    assert_eq!(
        episode_servers_request("2055").unwrap().url,
        "https://hianime.to/ajax/v2/episode/servers?episodeId=2055"
    );
}

#[test]
fn an_episode_id_without_a_number_is_refused() {
    for id in ["", " ", "steinsgate-0-92?ep=", "x?ep= "] {
        let e = episode_servers_request(id).unwrap_err();
        assert!(matches!(e, EnmaError::MiscError { .. }));
        assert_eq!(e.details().provider_parser, "hianime:get_episode_servers");
        assert_eq!(e.details().message, "MiscError: invalid anime episode id");
        assert_eq!(e.details().status, 400);
    }
}

const SERVERS: &str = "<div class=\"server-notice\"><strong>You are watching <b>Episode 12</b></strong></div>\
    <div class=\"ps_-block ps_-block-sub servers-sub\"><div class=\"ps__-list\">\
      <div class=\"item server-item\" data-server-id=\" 4 \"><a class=\"btn\"> HD-1 </a></div>\
      <div class=\"item server-item\" data-server-id=\"one\"><a class=\"btn\">MegaCloud</a></div>\
    </div></div>\
    <div class=\"ps_-block ps_-block-sub servers-dub\"><div class=\"ps__-list\">\
      <div class=\"item server-item\" data-server-id=\"1\"><a class=\"btn\">HD-2</a></div>\
    </div></div>\
    <div class=\"ps_-block ps_-block-sub servers-raw\"><div class=\"ps__-list\">\
      <div class=\"item server-item\"></div>\
    </div></div>";

#[test]
fn servers_are_read_by_kind() {
    let page = parse_episode_servers(SERVERS, "steinsgate-0-92?ep=2055");
    assert_eq!(page.anime_episode_id, "steinsgate-0-92?ep=2055");
    assert_eq!(page.episode_number, Some(12));
    assert_eq!(
        page.sub,
        vec![
            EpisodeInfo { server_name: some("hd-1"), server_id: Some(4) },
            EpisodeInfo { server_name: some("megacloud"), server_id: None },
        ]
    );
    assert_eq!(page.dub, vec![EpisodeInfo { server_name: some("hd-2"), server_id: Some(1) }]);
    assert_eq!(page.raw, vec![EpisodeInfo { server_name: None, server_id: None }]);
    let document = Html::parse_document(SERVERS);
    assert_eq!(servers_of_kind(&document, "dub"), page.dub);
    assert_eq!(servers_of_kind(&document, "other"), vec![]);
    let none = parse_episode_servers("", "x");
    assert_eq!(none.episode_number, None);
    assert!(none.sub.is_empty() && none.dub.is_empty() && none.raw.is_empty());
}
