//! The episodes of an anime and the servers of an episode.

use crate::dom::{
    attribute_of, element_attr, element_has_class, find_all, find_all_in_document, first_text,
    has_class, opt_trimmed, parse_document, parse_selector, parsed_document, parsed_selector, query,
    query_document, text_in_document, text_of_first, trimmed_element_attr,
};
use crate::error::{misc_message, EnmaError, BAD_REQUEST};
use crate::fields::{last_piece_of, last_u16_of, opt_last_piece, opt_last_u16, opt_u16, u16_of};
use crate::request::{header, request_with, requested_with, Request, REFERER, X_REQUESTED_WITH};
use crate::split::{after_last, last_piece};
use crate::text::{
    append_str, append_text, chars_of, lowercase, lowercased, opt_view, single, string_of, trim,
    trimmed,
};
use crate::types::{AnimeEpisode, EpisodeInfo};
use crate::uri::EnmaUtils;
use crate::utils::HiAnimeUtils;
use scraper::{ElementRef, Html};
use vstd::prelude::*;

verus! {

pub const GET_ANIME_EPISODES: &'static str = "hianime:get_anime_episodes";

pub const GET_EPISODE_SERVERS: &'static str = "hianime:get_episode_servers";

pub const EPISODE_LINKS: &'static str = ".detail-infor-content .ss-list a";

pub const FILLER: &'static str = "ssl-item-filler";

pub const EPISODE_NOTICE: &'static str = ".server-notice strong b";

pub const SERVER_LINK: &'static str = "a";

/// The mark in an episode's identifier behind which its number stands.
pub const EPISODE_MARK: &'static str = "?ep=";

#[derive(Debug, PartialEq, Eq)]
pub struct ScrapedAnimeEpisodes {
    pub total_episodes: Option<u16>,
    pub episodes: Vec<AnimeEpisode>,
}

#[derive(Debug, PartialEq, Eq)]
pub struct ScrapedEpisodeServers {
    pub anime_episode_id: String,
    pub episode_number: Option<u16>,
    pub sub: Vec<EpisodeInfo>,
    pub dub: Vec<EpisodeInfo>,
    pub raw: Vec<EpisodeInfo>,
}

/// The number at the end of an identifier: what stands behind its last
/// hyphen, once it is trimmed.
pub open spec fn id_tail(id: Seq<char>) -> Seq<char> {
    last_piece(trimmed(id), seq!['-'])
}

/// The number of an episode: what stands behind the last `?ep=` of its
/// identifier, once it is trimmed.
pub open spec fn episode_number_of(id: Seq<char>) -> Seq<char> {
    last_piece(trimmed(id), EPISODE_MARK@)
}

/// The header that names the page on which `id` is watched as the
/// referring page.
pub open spec fn watch_referer(id: Seq<char>) -> (Seq<char>, Seq<char>) {
    (REFERER@, HiAnimeUtils::BaseUrl.address() + "/watch/"@ + id)
}

/// The selector for the servers of one kind.
pub open spec fn servers_pattern(kind: Seq<char>) -> Seq<char> {
    ".ps_-block.ps_-block-sub.servers-"@ + kind + " .ps__-list .server-item"@
}

/// The name of a server: its text in lower case, trimmed.
pub open spec fn opt_server_name(o: Option<Seq<char>>) -> Option<Seq<char>> {
    match o {
        Some(t) => Some(trimmed(lowercased(t))),
        None => None,
    }
}

/// Whether `e` is the record of the episode link `item`.
pub open spec fn episode_from(e: AnimeEpisode, item: ElementRef<'static>) -> bool {
    &&& e.title.deep_view() == opt_trimmed(attribute_of(item, "title"@))
    &&& e.number == opt_u16(attribute_of(item, "data-number"@))
    &&& e.is_filler == has_class(item, FILLER@)
    &&& e.episode_id.deep_view() == opt_last_piece(attribute_of(item, "href"@), seq!['/'])
}

pub open spec fn episodes_from(all: Seq<AnimeEpisode>, items: Seq<ElementRef<'static>>) -> bool {
    &&& all.len() == items.len()
    &&& forall|i: int| 0 <= i < all.len() ==> episode_from(#[trigger] all[i], items[i])
}

/// Whether `s` is the record of the server entry `item`.
pub open spec fn server_from(s: EpisodeInfo, item: ElementRef<'static>) -> bool {
    &&& s.server_id == opt_u16(attribute_of(item, "data-server-id"@))
    &&& s.server_name.deep_view() == opt_server_name(first_text(query(item, SERVER_LINK@)))
}

pub open spec fn servers_from(all: Seq<EpisodeInfo>, items: Seq<ElementRef<'static>>) -> bool {
    &&& all.len() == items.len()
    &&& forall|i: int| 0 <= i < all.len() ==> server_from(#[trigger] all[i], items[i])
}

/// The number of entries, where it fits in 16 bits.
pub open spec fn count_of(n: nat) -> Option<u16> {
    if n <= 0xFFFF {
        Some(n as u16)
    } else {
        None
    }
}

/// Whether `r` is what the list of episodes in `document` shows.
pub open spec fn episodes_page_from(r: ScrapedAnimeEpisodes, document: Html) -> bool {
    &&& r.total_episodes == count_of(query_document(document, EPISODE_LINKS@).len())
    &&& episodes_from(r.episodes@, query_document(document, EPISODE_LINKS@))
}

/// Whether `r` is what the list of servers in `document` shows.
pub open spec fn servers_page_from(r: ScrapedEpisodeServers, document: Html, id: Seq<char>) -> bool {
    &&& r.anime_episode_id@ == id
    &&& servers_from(r.sub@, query_document(document, servers_pattern("sub"@)))
    &&& servers_from(r.dub@, query_document(document, servers_pattern("dub"@)))
    &&& servers_from(r.raw@, query_document(document, servers_pattern("raw"@)))
    &&& r.episode_number == opt_last_u16(
        first_text(query_document(document, EPISODE_NOTICE@)),
        seq![' '],
    )
}

/// The request for the episodes of an anime. An identifier that ends in a
/// hyphen, or is empty, is refused.
pub fn episodes_request(anime_id: &str) -> (r: Result<Request, EnmaError>)
    ensures
        match r {
            Ok(request) => {
                &&& id_tail(anime_id@).len() > 0
                &&& request.url@ == HiAnimeUtils::EpisodeListUrl.address() + "/"@ + id_tail(
                    anime_id@,
                )
                &&& request.headers.deep_view() == seq![
                    watch_referer(id_tail(anime_id@)),
                    requested_with(),
                ]
            },
            Err(e) => {
                &&& id_tail(anime_id@).len() == 0
                &&& e is MiscError
                &&& e.carries(GET_ANIME_EPISODES@, misc_message("invalid anime id"@), BAD_REQUEST)
            },
        },
{
    let tail = after_last(&trim(&chars_of(anime_id)), &single('-'));
    if tail.len() == 0 {
        return Err(EnmaError::refused_input(GET_ANIME_EPISODES, "invalid anime id"));
    }
    let mut referer = chars_of(HiAnimeUtils::BaseUrl.value());
    append_str(&mut referer, "/watch/");
    append_text(&mut referer, &tail);
    let mut url = chars_of(HiAnimeUtils::EpisodeListUrl.value());
    append_str(&mut url, "/");
    append_text(&mut url, &tail);
    let mut headers: Vec<(String, String)> = Vec::new();
    headers.push(header(REFERER, string_of(&referer).as_str()));
    headers.push(header(X_REQUESTED_WITH, EnmaUtils::XRequestedWithHeader.value()));
    assert(headers.deep_view() =~= seq![watch_referer(id_tail(anime_id@)), requested_with()]);
    Ok(request_with(string_of(&url), headers))
}

/// Reads the list of episodes from the markup that the site returned.
pub fn parse_anime_episodes(html: &str) -> (r: ScrapedAnimeEpisodes)
    ensures
        episodes_page_from(r, parsed_document(html@)),
{
    let document = parse_document(html);
    let items = find_all_in_document(&document, &parse_selector(EPISODE_LINKS));
    let total_episodes = if items.len() <= 0xFFFF {
        Some(items.len() as u16)
    } else {
        None
    };
    let mut episodes: Vec<AnimeEpisode> = Vec::new();
    let mut i: usize = 0;
    while i < items.len()
        invariant
            i <= items.len(),
            episodes_from(episodes@, items@.take(i as int)),
        decreases items.len() - i,
    {
        let item = items[i];
        let episode = AnimeEpisode {
            title: trimmed_element_attr(item, "title"),
            number: u16_of(&element_attr(item, "data-number")),
            is_filler: element_has_class(item, FILLER),
            episode_id: last_piece_of(&element_attr(item, "href"), '/'),
        };
        assert(episode_from(episode, items@[i as int]));
        episodes.push(episode);
        i += 1;
    }
    assert(items@.take(items.len() as int) == items@);
    ScrapedAnimeEpisodes { total_episodes, episodes }
}

/// The request for the servers of an episode. An identifier with nothing
/// behind its last `?ep=`, or an empty one, is refused.
pub fn episode_servers_request(anime_episode_id: &str) -> (r: Result<Request, EnmaError>)
    ensures
        match r {
            Ok(request) => {
                &&& episode_number_of(anime_episode_id@).len() > 0
                &&& request.url@ == HiAnimeUtils::EpisodeServersUrl.address() + "?episodeId="@
                    + episode_number_of(anime_episode_id@)
                &&& request.headers.deep_view() == seq![
                    watch_referer(anime_episode_id@),
                    requested_with(),
                ]
            },
            Err(e) => {
                &&& episode_number_of(anime_episode_id@).len() == 0
                &&& e is MiscError
                &&& e.carries(
                    GET_EPISODE_SERVERS@,
                    misc_message("invalid anime episode id"@),
                    BAD_REQUEST,
                )
            },
        },
{
    let mark = chars_of(EPISODE_MARK);
    let number = after_last(&trim(&chars_of(anime_episode_id)), &mark);
    if number.len() == 0 {
        return Err(EnmaError::refused_input(GET_EPISODE_SERVERS, "invalid anime episode id"));
    }
    let mut referer = chars_of(HiAnimeUtils::BaseUrl.value());
    append_str(&mut referer, "/watch/");
    append_str(&mut referer, anime_episode_id);
    let mut url = chars_of(HiAnimeUtils::EpisodeServersUrl.value());
    append_str(&mut url, "?episodeId=");
    append_text(&mut url, &number);
    let mut headers: Vec<(String, String)> = Vec::new();
    headers.push(header(REFERER, string_of(&referer).as_str()));
    headers.push(header(X_REQUESTED_WITH, EnmaUtils::XRequestedWithHeader.value()));
    assert(headers.deep_view() =~= seq![watch_referer(anime_episode_id@), requested_with()]);
    Ok(request_with(string_of(&url), headers))
}

/// The name of a server: its text in lower case, trimmed.
fn server_name_of(text: &Option<Vec<char>>) -> (r: Option<String>)
    ensures
        r.deep_view() == opt_server_name(opt_view(*text)),
{
    match text {
        Some(t) => {
            let lower = lowercase(string_of(t).as_str());
            Some(string_of(&trim(&chars_of(lower.as_str()))))
        },
        None => None,
    }
}

/// The servers of one kind: `sub`, `dub` or `raw`.
pub fn servers_of_kind(document: &Html, kind: &str) -> (r: Vec<EpisodeInfo>)
    ensures
        servers_from(r@, query_document(*document, servers_pattern(kind@))),
{
    let mut pattern = chars_of(".ps_-block.ps_-block-sub.servers-");
    append_str(&mut pattern, kind);
    append_str(&mut pattern, " .ps__-list .server-item");
    let items = find_all_in_document(document, &parse_selector(string_of(&pattern).as_str()));
    let link = parse_selector(SERVER_LINK);
    let mut servers: Vec<EpisodeInfo> = Vec::new();
    let mut i: usize = 0;
    while i < items.len()
        invariant
            i <= items.len(),
            link == parsed_selector(SERVER_LINK@),
            servers_from(servers@, items@.take(i as int)),
        decreases items.len() - i,
    {
        let item = items[i];
        let server = EpisodeInfo {
            server_id: u16_of(&element_attr(item, "data-server-id")),
            server_name: server_name_of(&text_of_first(&find_all(item, &link))),
        };
        assert(server_from(server, items@[i as int]));
        servers.push(server);
        i += 1;
    }
    assert(items@.take(items.len() as int) == items@);
    servers
}

/// Reads the servers of an episode from the markup that the site returned.
pub fn parse_episode_servers(html: &str, anime_episode_id: &str) -> (r: ScrapedEpisodeServers)
    ensures
        servers_page_from(r, parsed_document(html@), anime_episode_id@),
{
    let document = parse_document(html);
    ScrapedEpisodeServers {
        anime_episode_id: string_of(&chars_of(anime_episode_id)),
        sub: servers_of_kind(&document, "sub"),
        dub: servers_of_kind(&document, "dub"),
        raw: servers_of_kind(&document, "raw"),
        episode_number: last_u16_of(&text_in_document(&document, EPISODE_NOTICE), ' '),
    }
}

} // verus!
