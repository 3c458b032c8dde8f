//! The detail page of an anime.

use crate::dom::{
    attr_in_document, attr_of_first, attribute_of, element_attr, element_has_class,
    element_whole_text, find_all, find_all_in_document, first_attr, first_of, first_text, has_class,
    opt_trimmed, opt_trimmed_string, parse_document, parse_selector, parsed_document,
    parsed_selector, query, query_document, text_in_document, text_of_first, trimmed_element_attr,
    whole_text,
};
use crate::error::{misc_message, EnmaError, BAD_REQUEST};
use crate::fields::{last_piece_of, opt_last_piece, opt_path_id, opt_u16, path_id_of, u16_of};
use crate::listing::{animes_at, animes_from, most_popular_at, most_populars_from, FILM_POSTER};
use crate::number::{parse_u32, parsed_u32};
use crate::request::{item_address, item_url, plain_request, Request};
use crate::split::{
    after_last, before_first, collapse_spaces, collapsed, contains, find, find_in, first_piece,
    includes, join, joined, last_piece, lemma_find_from, occurs_at, pieces, remove_char, split,
    without_char,
};
use crate::text::{
    chars_of, is_text, lowercase, lowercased, opt_view, rows, same_text, single, slice_of,
    string_of, trim, trimmed,
};
use crate::types::{
    Anime, AnimeCharacter, AnimeCharactersVoiceActors, AnimeDetailedStats, AnimePromotionalVideo,
    Episodes, MostPopularAnime, OtherInfoValue, Season,
};
use crate::utils::HiAnimeUtils;
use scraper::{ElementRef, Html};
use vstd::prelude::*;

verus! {

pub const GET_INFO: &'static str = "hianime:get_info";

pub const INFO_LINK: &'static str = ".anisc-detail .film-buttons a.btn-play";

pub const INFO_TITLE: &'static str = ".anisc-detail .film-name.dynamic-name";

pub const INFO_DESCRIPTION: &'static str = ".anisc-detail .film-description .text";

pub const INFO_SEASONS: &'static str = "#main-content .os-list a.os-item";

pub const SEASON_TITLE: &'static str = ".title";

pub const SEASON_POSTER: &'static str = ".season-poster";

pub const INFO_RATING: &'static str = ".anis-content .film-stats .tick .tick-pg";

pub const INFO_QUALITY: &'static str = ".anis-content .film-stats .tick .tick-quality";

pub const INFO_SUB: &'static str = ".anis-content .film-stats .tick .tick-sub";

pub const INFO_DUB: &'static str = ".anis-content .film-stats .tick .tick-dub";

pub const INFO_STATS: &'static str = ".anis-content .film-stats .tick";

pub const INFO_ITEMS: &'static str = ".anisc-info-wrap .anisc-info .item:not(.w-hide)";

pub const INFO_ITEM_HEAD: &'static str = ".item-head";

pub const INFO_ITEM_VALUE: &'static str = "*:not(.item-head)";

pub const INFO_VIDEOS: &'static str =
    ".block_area.block_area-promotions .block_area-promotions-list .screen-items .item";

pub const VIDEO_THUMBNAIL: &'static str = "img";

pub const INFO_CAST: &'static str =
    ".block_area.block_area-actors .block-actors-content .bac-list-wrap .bac-item";

pub const CHARACTER_LINK: &'static str = ".per-info.ltr .pi-avatar";

pub const CHARACTER_POSTER: &'static str = ".per-info.ltr .pi-avatar img";

pub const CHARACTER_NAME: &'static str = ".per-info.ltr .pi-detail a";

pub const CHARACTER_CAST: &'static str = ".per-info.ltr .pi-detail .pi-cast";

pub const ACTOR_LINK: &'static str = ".per-info.rtl .pi-avatar";

pub const ACTOR_POSTER: &'static str = ".per-info.rtl .pi-avatar img";

pub const ACTOR_NAME: &'static str = ".per-info.rtl .pi-detail a";

pub const ACTOR_CAST: &'static str = ".per-info.rtl .pi-detail .pi-cast";

pub const INFO_RELATED: &'static str =
    "#main-sidebar .block_area.block_area_sidebar.block_area-realtime:nth-of-type(1) .anif-block-ul ul li";

pub const INFO_MOST_POPULAR: &'static str =
    "#main-sidebar .block_area.block_area_sidebar.block_area-realtime:nth-of-type(2) .anif-block-ul ul li";

pub const INFO_RECOMMENDED: &'static str =
    "#main-content .block_area.block_area_category .tab-content .flw-item";

/// The block in which the page carries the ids under which other catalogs
/// know the anime.
pub const SYNC_DATA: &'static str = "#syncData";

pub const MAL_ID_KEY: &'static str = "\"mal_id\":\"";

pub const ANILIST_ID_KEY: &'static str = "\"anilist_id\":\"";

pub const ACTIVE_SEASON: &'static str = "active";

/// What a detail page says under one heading, as texts.
pub ghost enum InfoView {
    Single(Seq<char>),
    Multiple(Seq<Seq<char>>),
}

impl OtherInfoValue {
    pub open spec fn shape(self) -> InfoView {
        match self {
            OtherInfoValue::Single(s) => InfoView::Single(s@),
            OtherInfoValue::Multiple(v) => InfoView::Multiple(v.deep_view()),
        }
    }
}

/// The detail of an anime. `other_info` holds what the page says under its
/// headings, each heading once.
#[derive(Debug, PartialEq, Eq)]
pub struct AnimeDetailedInfo {
    pub id: Option<String>,
    pub name: Option<String>,
    pub jname: Option<String>,
    pub poster: Option<String>,
    pub description: Option<String>,
    pub anilist_id: Option<u32>,
    pub mal_id: Option<u32>,
    pub seasons: Vec<Season>,
    pub other_info: Vec<(String, OtherInfoValue)>,
    pub stats: AnimeDetailedStats,
    pub promotional_videos: Vec<AnimePromotionalVideo>,
    pub characters_voice_actors: Vec<AnimeCharactersVoiceActors>,
}

#[derive(Debug, PartialEq, Eq)]
pub struct ScrapedAnimeInfo {
    pub anime: AnimeDetailedInfo,
    pub related_animes: Vec<MostPopularAnime>,
    pub recommended_animes: Vec<Anime>,
    pub most_popular_animes: Vec<MostPopularAnime>,
}

// ---------------------------------------------------------------------------
// Seasons, videos, cast
// ---------------------------------------------------------------------------

/// The address of a poster in a style: what stands between the last `(`
/// and the next `)` of the last word of the style.
pub open spec fn style_address(style: Seq<char>) -> Seq<char> {
    first_piece(last_piece(last_piece(style, seq![' ']), seq!['(']), seq![')'])
}

pub open spec fn opt_style_address(o: Option<Seq<char>>) -> Option<Seq<char>> {
    match o {
        Some(s) => Some(style_address(s)),
        None => None,
    }
}

/// The identifier of a person in a link target: the third of the pieces
/// between the slashes of the trimmed target.
pub open spec fn opt_person_id(o: Option<Seq<char>>) -> Option<Seq<char>> {
    match o {
        Some(h) => {
            let parts = pieces(trimmed(h), seq!['/']);
            if parts.len() >= 3 {
                Some(parts[2])
            } else {
                None
            }
        },
        None => None,
    }
}

/// Whether `season` is the record of the season link `item`.
pub open spec fn season_from(season: Season, item: ElementRef<'static>) -> bool {
    &&& season.id.deep_view() == opt_path_id(attribute_of(item, "href"@))
    &&& season.name.deep_view() == opt_trimmed(attribute_of(item, "title"@))
    &&& season.title.deep_view() == opt_trimmed(first_text(query(item, SEASON_TITLE@)))
    &&& season.poster.deep_view() == opt_style_address(
        first_attr(query(item, SEASON_POSTER@), "style"@),
    )
    &&& season.is_current == has_class(item, ACTIVE_SEASON@)
}

pub open spec fn seasons_from(all: Seq<Season>, items: Seq<ElementRef<'static>>) -> bool {
    &&& all.len() == items.len()
    &&& forall|i: int| 0 <= i < all.len() ==> season_from(#[trigger] all[i], items[i])
}

/// Whether `video` is the record of the video entry `item`.
pub open spec fn video_from(video: AnimePromotionalVideo, item: ElementRef<'static>) -> bool {
    &&& video.title.deep_view() == opt_trimmed(attribute_of(item, "data-title"@))
    &&& video.source.deep_view() == opt_trimmed(attribute_of(item, "data-src"@))
    &&& video.thumbnail.deep_view() == opt_trimmed(
        first_attr(query(item, VIDEO_THUMBNAIL@), "src"@),
    )
}

pub open spec fn videos_from(
    all: Seq<AnimePromotionalVideo>,
    items: Seq<ElementRef<'static>>,
) -> bool {
    &&& all.len() == items.len()
    &&& forall|i: int| 0 <= i < all.len() ==> video_from(#[trigger] all[i], items[i])
}

/// Whether `person` is the record that the four selectors give for `item`.
pub open spec fn person_from(
    person: AnimeCharacter,
    item: ElementRef<'static>,
    link: Seq<char>,
    name: Seq<char>,
    cast: Seq<char>,
    poster: Seq<char>,
) -> bool {
    &&& person.id.deep_view() == opt_person_id(first_attr(query(item, link), "href"@))
    &&& person.name.deep_view() == opt_trimmed(first_text(query(item, name)))
    &&& person.cast.deep_view() == opt_trimmed(first_text(query(item, cast)))
    &&& person.poster.deep_view() == opt_trimmed(first_attr(query(item, poster), "data-src"@))
}

/// Whether `pair` is the record of the cast entry `item`.
pub open spec fn cast_from(pair: AnimeCharactersVoiceActors, item: ElementRef<'static>) -> bool {
    &&& person_from(
        pair.character,
        item,
        CHARACTER_LINK@,
        CHARACTER_NAME@,
        CHARACTER_CAST@,
        CHARACTER_POSTER@,
    )
    &&& person_from(pair.voice_actor, item, ACTOR_LINK@, ACTOR_NAME@, ACTOR_CAST@, ACTOR_POSTER@)
}

pub open spec fn casts_from(
    all: Seq<AnimeCharactersVoiceActors>,
    items: Seq<ElementRef<'static>>,
) -> bool {
    &&& all.len() == items.len()
    &&& forall|i: int| 0 <= i < all.len() ==> cast_from(#[trigger] all[i], items[i])
}

// ---------------------------------------------------------------------------
// Statistics
// ---------------------------------------------------------------------------

/// The words of the statistics line: all its text, trimmed, its runs of
/// white space collapsed, cut at the spaces.
pub open spec fn stats_words(line: ElementRef<'static>) -> Seq<Seq<char>> {
    pieces(collapsed(trimmed(whole_text(line))), seq![' '])
}

/// The duration: the last word of the first statistics line.
pub open spec fn stats_duration(lines: Seq<ElementRef<'static>>) -> Option<Seq<char>> {
    match first_of(lines) {
        Some(line) => Some(stats_words(line).last()),
        None => None,
    }
}

/// The type: the word before the last of the first statistics line.
pub open spec fn stats_type(lines: Seq<ElementRef<'static>>) -> Option<Seq<char>> {
    match first_of(lines) {
        Some(line) => {
            let words = stats_words(line);
            if words.len() >= 2 {
                Some(words[words.len() - 2])
            } else {
                None
            }
        },
        None => None,
    }
}

/// Whether `stats` is what the page `document` shows of statistics.
pub open spec fn stats_from(stats: AnimeDetailedStats, document: Html) -> bool {
    &&& stats.rating.deep_view() == opt_trimmed(first_text(query_document(document, INFO_RATING@)))
    &&& stats.quality.deep_view() == opt_trimmed(
        first_text(query_document(document, INFO_QUALITY@)),
    )
    &&& stats.episodes.sub == opt_u16(first_text(query_document(document, INFO_SUB@)))
    &&& stats.episodes.dub == opt_u16(first_text(query_document(document, INFO_DUB@)))
    &&& stats.duration.deep_view() == stats_duration(query_document(document, INFO_STATS@))
    &&& stats.anime_type.deep_view() == stats_type(query_document(document, INFO_STATS@))
}

// ---------------------------------------------------------------------------
// What the page says under its headings
// ---------------------------------------------------------------------------

/// The name of a heading: its first text in lower case, without colons and
/// spaces; nothing for an item without a heading.
pub open spec fn info_name(item: ElementRef<'static>) -> Seq<char> {
    match first_text(query(item, INFO_ITEM_HEAD@)) {
        Some(t) => without_char(without_char(lowercased(t), ':'), ' '),
        None => Seq::empty(),
    }
}

/// All the text of each of `found`, in order.
pub open spec fn whole_texts(found: Seq<ElementRef<'static>>) -> Seq<Seq<char>> {
    Seq::new(found.len(), |i: int| whole_text(found[i]))
}

/// The text under a heading: all the text of each node below the item
/// that is no heading, with `, ` between them.
pub open spec fn info_text(item: ElementRef<'static>) -> Seq<char> {
    joined(whole_texts(query(item, INFO_ITEM_VALUE@)), ", "@)
}

/// Whether a heading names a list.
pub open spec fn names_list(name: Seq<char>) -> bool {
    name == "genres"@ || name == "producers"@
}

/// What an item says: a list of the pieces between `, ` under the headings
/// of genres and producers, one text under any other.
pub open spec fn info_value(item: ElementRef<'static>) -> InfoView {
    if names_list(info_name(item)) {
        InfoView::Multiple(pieces(info_text(item), ", "@))
    } else {
        InfoView::Single(info_text(item))
    }
}

/// What the last of `items` with the heading `name` says.
pub open spec fn said_under(items: Seq<ElementRef<'static>>, name: Seq<char>) -> Option<InfoView>
    decreases items.len(),
{
    if items.len() == 0 {
        None
    } else if info_name(items.last()) == name {
        Some(info_value(items.last()))
    } else {
        said_under(items.drop_last(), name)
    }
}

/// What the last of `entries` with the name `name` holds.
pub open spec fn held_under(entries: Seq<(String, OtherInfoValue)>, name: Seq<char>) -> Option<
    InfoView,
>
    decreases entries.len(),
{
    if entries.len() == 0 {
        None
    } else if entries.last().0@ == name {
        Some(entries.last().1.shape())
    } else {
        held_under(entries.drop_last(), name)
    }
}

/// Whether no two of `entries` have the same name.
pub open spec fn distinct_names(entries: Seq<(String, OtherInfoValue)>) -> bool {
    forall|i: int, j: int|
        0 <= i < j < entries.len() ==> (#[trigger] entries[i]).0@ != (#[trigger] entries[j]).0@
}

/// Whether `entries` holds what `items` say: each heading once, with what
/// the last item of that heading says.
pub open spec fn other_info_from(
    entries: Seq<(String, OtherInfoValue)>,
    items: Seq<ElementRef<'static>>,
) -> bool {
    &&& distinct_names(entries)
    &&& forall|name: Seq<char>| #[trigger] held_under(entries, name) == said_under(items, name)
}

/// Replacing the value of one of several entries with distinct names
/// changes what is held under its name and under no other.
pub proof fn lemma_held_after_update(
    entries: Seq<(String, OtherInfoValue)>,
    at: int,
    entry: (String, OtherInfoValue),
    name: Seq<char>,
)
    requires
        0 <= at < entries.len(),
        distinct_names(entries),
        entry.0@ == entries[at].0@,
    ensures
        distinct_names(entries.update(at, entry)),
        held_under(entries.update(at, entry), name) == if name == entry.0@ {
            Some(entry.1.shape())
        } else {
            held_under(entries, name)
        },
    decreases entries.len(),
{
    let after = entries.update(at, entry);
    assert(distinct_names(after)) by {
        assert forall|i: int, j: int| 0 <= i < j < after.len() implies (#[trigger] after[i]).0@ != (
        #[trigger] after[j]).0@ by {
            assert(after[i].0@ == entries[i].0@);
            assert(after[j].0@ == entries[j].0@);
        }
    }
    let n = entries.len() - 1;
    if at == n {
        assert(after.drop_last() == entries.drop_last());
        if name == entry.0@ {
        } else {
        }
    } else {
        let shorter = entries.drop_last();
        assert(distinct_names(shorter)) by {
            assert forall|i: int, j: int| 0 <= i < j < shorter.len() implies (
            #[trigger] shorter[i]).0@ != (#[trigger] shorter[j]).0@ by {
                assert(shorter[i] == entries[i]);
                assert(shorter[j] == entries[j]);
            }
        }
        lemma_held_after_update(shorter, at, entry, name);
        assert(after.drop_last() == shorter.update(at, entry));
        assert(after.last() == entries.last());
        assert(entries[at].0@ != entries[n].0@);
    }
}

// ---------------------------------------------------------------------------
// Ids of other catalogs
// ---------------------------------------------------------------------------

/// The number that a block of sync data gives under a key: the digits
/// between the key and the next quotation mark.
pub open spec fn sync_number(data: Seq<char>, key: Seq<char>) -> Option<u32> {
    match find(data, key) {
        Some(i) => if 0 <= i && i + key.len() <= data.len() {
            parsed_u32(first_piece(data.subrange(i + key.len(), data.len() as int), seq!['"']))
        } else {
            None
        },
        None => None,
    }
}

pub open spec fn opt_sync_number(o: Option<Seq<char>>, key: Seq<char>) -> Option<u32> {
    match o {
        Some(data) => sync_number(data, key),
        None => None,
    }
}

// ---------------------------------------------------------------------------
// The page
// ---------------------------------------------------------------------------

/// Whether `anime` is what the detail page `document` shows of the anime.
pub open spec fn detail_from(anime: AnimeDetailedInfo, document: Html) -> bool {
    &&& anime.id.deep_view() == opt_last_piece(
        first_attr(query_document(document, INFO_LINK@), "href"@),
        seq!['/'],
    )
    &&& anime.name.deep_view() == opt_trimmed(first_text(query_document(document, INFO_TITLE@)))
    &&& anime.jname.deep_view() == opt_trimmed(
        first_attr(query_document(document, INFO_TITLE@), "data-jname"@),
    )
    &&& anime.description.deep_view() == opt_trimmed(
        first_text(query_document(document, INFO_DESCRIPTION@)),
    )
    &&& anime.poster.deep_view() == opt_trimmed(
        first_attr(query_document(document, FILM_POSTER@), "src"@),
    )
    &&& seasons_from(anime.seasons@, query_document(document, INFO_SEASONS@))
    &&& stats_from(anime.stats, document)
    &&& other_info_from(anime.other_info@, query_document(document, INFO_ITEMS@))
    &&& videos_from(anime.promotional_videos@, query_document(document, INFO_VIDEOS@))
    &&& casts_from(anime.characters_voice_actors@, query_document(document, INFO_CAST@))
    &&& anime.mal_id == opt_sync_number(
        first_text(query_document(document, SYNC_DATA@)),
        MAL_ID_KEY@,
    )
    &&& anime.anilist_id == opt_sync_number(
        first_text(query_document(document, SYNC_DATA@)),
        ANILIST_ID_KEY@,
    )
}

/// Whether `r` is what the detail page `document` shows.
pub open spec fn info_page_from(r: ScrapedAnimeInfo, document: Html) -> bool {
    &&& detail_from(r.anime, document)
    &&& most_populars_from(r.related_animes@, query_document(document, INFO_RELATED@))
    &&& most_populars_from(r.most_popular_animes@, query_document(document, INFO_MOST_POPULAR@))
    &&& animes_from(r.recommended_animes@, query_document(document, INFO_RECOMMENDED@))
}

/// The request for the detail page of an anime. An identifier that is
/// empty once trimmed, or has no hyphen, is refused.
pub fn info_request(anime_id: &str) -> (r: Result<Request, EnmaError>)
    ensures
        match r {
            Ok(request) => {
                &&& trimmed(anime_id@).len() > 0
                &&& includes(trimmed(anime_id@), seq!['-'])
                &&& request.url@ == item_url(HiAnimeUtils::BaseUrl.address(), trimmed(anime_id@))
                &&& request.headers.deep_view() == Seq::<(Seq<char>, Seq<char>)>::empty()
            },
            Err(e) => {
                &&& trimmed(anime_id@).len() == 0 || !includes(trimmed(anime_id@), seq!['-'])
                &&& e is MiscError
                &&& e.carries(GET_INFO@, misc_message("invalid anime id"@), BAD_REQUEST)
            },
        },
{
    let id = trim(&chars_of(anime_id));
    if id.len() == 0 || !contains(&id, &single('-')) {
        return Err(EnmaError::refused_input(GET_INFO, "invalid anime id"));
    }
    Ok(plain_request(item_address(HiAnimeUtils::BaseUrl.value(), &id)))
}

fn style_address_of(style: &Option<Vec<char>>) -> (r: Option<String>)
    ensures
        r.deep_view() == opt_style_address(opt_view(*style)),
{
    match style {
        Some(s) => {
            let word = after_last(s, &single(' '));
            let inner = after_last(&word, &single('('));
            Some(string_of(&before_first(&inner, &single(')'))))
        },
        None => None,
    }
}

fn person_id_of(href: &Option<Vec<char>>) -> (r: Option<String>)
    ensures
        r.deep_view() == opt_person_id(opt_view(*href)),
{
    match href {
        Some(h) => {
            let parts = split(&trim(h), &single('/'));
            if parts.len() >= 3 {
                assert(rows(parts@)[2] == parts@[2]@);
                Some(string_of(&parts[2]))
            } else {
                None
            }
        },
        None => None,
    }
}

/// The seasons that the page lists.
pub fn seasons_of(document: &Html) -> (seasons: Vec<Season>)
    ensures
        seasons_from(seasons@, query_document(*document, INFO_SEASONS@)),
{
    let items = find_all_in_document(document, &parse_selector(INFO_SEASONS));
    let title = parse_selector(SEASON_TITLE);
    let poster = parse_selector(SEASON_POSTER);
    let mut seasons: Vec<Season> = Vec::new();
    let mut i: usize = 0;
    while i < items.len()
        invariant
            i <= items.len(),
            title == parsed_selector(SEASON_TITLE@),
            poster == parsed_selector(SEASON_POSTER@),
            seasons_from(seasons@, items@.take(i as int)),
        decreases items.len() - i,
    {
        let item = items[i];
        let season = Season {
            id: path_id_of(&element_attr(item, "href")),
            name: trimmed_element_attr(item, "title"),
            title: opt_trimmed_string(&text_of_first(&find_all(item, &title))),
            poster: style_address_of(&attr_of_first(&find_all(item, &poster), "style")),
            is_current: element_has_class(item, ACTIVE_SEASON),
        };
        assert(season_from(season, items@[i as int]));
        seasons.push(season);
        i += 1;
    }
    assert(items@.take(items.len() as int) == items@);
    seasons
}

/// The promotional videos that the page lists.
pub fn videos_of(document: &Html) -> (videos: Vec<AnimePromotionalVideo>)
    ensures
        videos_from(videos@, query_document(*document, INFO_VIDEOS@)),
{
    let items = find_all_in_document(document, &parse_selector(INFO_VIDEOS));
    let thumbnail = parse_selector(VIDEO_THUMBNAIL);
    let mut videos: Vec<AnimePromotionalVideo> = Vec::new();
    let mut i: usize = 0;
    while i < items.len()
        invariant
            i <= items.len(),
            thumbnail == parsed_selector(VIDEO_THUMBNAIL@),
            videos_from(videos@, items@.take(i as int)),
        decreases items.len() - i,
    {
        let item = items[i];
        let video = AnimePromotionalVideo {
            title: trimmed_element_attr(item, "data-title"),
            source: trimmed_element_attr(item, "data-src"),
            thumbnail: opt_trimmed_string(&attr_of_first(&find_all(item, &thumbnail), "src")),
        };
        assert(video_from(video, items@[i as int]));
        videos.push(video);
        i += 1;
    }
    assert(items@.take(items.len() as int) == items@);
    videos
}

/// The person that four selectors find below a cast entry.
pub fn person_of<'a>(
    item: ElementRef<'a>,
    link: &str,
    name: &str,
    cast: &str,
    poster: &str,
) -> (person: AnimeCharacter)
    ensures
        person_from(person, item, link@, name@, cast@, poster@),
{
    AnimeCharacter {
        id: person_id_of(&attr_of_first(&find_all(item, &parse_selector(link)), "href")),
        name: opt_trimmed_string(&text_of_first(&find_all(item, &parse_selector(name)))),
        cast: opt_trimmed_string(&text_of_first(&find_all(item, &parse_selector(cast)))),
        poster: opt_trimmed_string(
            &attr_of_first(&find_all(item, &parse_selector(poster)), "data-src"),
        ),
    }
}

/// The characters and their voice actors that the page lists.
pub fn cast_of(document: &Html) -> (cast: Vec<AnimeCharactersVoiceActors>)
    ensures
        casts_from(cast@, query_document(*document, INFO_CAST@)),
{
    let items = find_all_in_document(document, &parse_selector(INFO_CAST));
    let mut cast: Vec<AnimeCharactersVoiceActors> = Vec::new();
    let mut i: usize = 0;
    while i < items.len()
        invariant
            i <= items.len(),
            casts_from(cast@, items@.take(i as int)),
        decreases items.len() - i,
    {
        let item = items[i];
        let pair = AnimeCharactersVoiceActors {
            character: person_of(
                item,
                CHARACTER_LINK,
                CHARACTER_NAME,
                CHARACTER_CAST,
                CHARACTER_POSTER,
            ),
            voice_actor: person_of(item, ACTOR_LINK, ACTOR_NAME, ACTOR_CAST, ACTOR_POSTER),
        };
        assert(cast_from(pair, items@[i as int]));
        cast.push(pair);
        i += 1;
    }
    assert(items@.take(items.len() as int) == items@);
    cast
}

/// The statistics that the page shows.
pub fn stats_of(document: &Html) -> (stats: AnimeDetailedStats)
    ensures
        stats_from(stats, *document),
{
    let lines = find_all_in_document(document, &parse_selector(INFO_STATS));
    let mut duration: Option<String> = None;
    let mut anime_type: Option<String> = None;
    if lines.len() > 0 {
        let text = collapse_spaces(&trim(&element_whole_text(lines[0])));
        let words = split(&text, &single(' '));
        assert(rows(words@) == stats_words(lines@[0]));
        assert(rows(words@)[words.len() - 1] == words@[words.len() - 1]@);
        duration = Some(string_of(&words[words.len() - 1]));
        if words.len() >= 2 {
            assert(rows(words@)[words.len() - 2] == words@[words.len() - 2]@);
            anime_type = Some(string_of(&words[words.len() - 2]));
        }
    }
    AnimeDetailedStats {
        rating: opt_trimmed_string(&text_in_document(document, INFO_RATING)),
        quality: opt_trimmed_string(&text_in_document(document, INFO_QUALITY)),
        episodes: Episodes {
            sub: u16_of(&text_in_document(document, INFO_SUB)),
            dub: u16_of(&text_in_document(document, INFO_DUB)),
        },
        duration,
        anime_type,
    }
}

/// The name of the heading of an item.
fn info_name_of<'a>(item: ElementRef<'a>, head: &Option<scraper::Selector>) -> (r: Vec<char>)
    requires
        *head == parsed_selector(INFO_ITEM_HEAD@),
    ensures
        r@ == info_name(item),
{
    match text_of_first(&find_all(item, head)) {
        Some(t) => {
            let lower = chars_of(lowercase(string_of(&t).as_str()).as_str());
            remove_char(&remove_char(&lower, ':'), ' ')
        },
        None => Vec::new(),
    }
}

/// The text under the heading of an item.
fn info_text_of<'a>(item: ElementRef<'a>, value: &Option<scraper::Selector>) -> (r: Vec<char>)
    requires
        *value == parsed_selector(INFO_ITEM_VALUE@),
    ensures
        r@ == info_text(item),
{
    let found = find_all(item, value);
    let mut parts: Vec<Vec<char>> = Vec::new();
    let mut i: usize = 0;
    while i < found.len()
        invariant
            i <= found.len(),
            parts.len() == i,
            forall|j: int| 0 <= j < i ==> parts@[j]@ == whole_text(found@[j]),
        decreases found.len() - i,
    {
        parts.push(element_whole_text(found[i]));
        i += 1;
    }
    assert(rows(parts@) =~= whole_texts(found@));
    join(&parts, &chars_of(", "))
}

/// What an item says under the heading `name`, given the text `text`
/// under it.
pub fn info_value_of(name: &Vec<char>, text: &Vec<char>) -> (r: OtherInfoValue)
    ensures
        r.shape() == if names_list(name@) {
            InfoView::Multiple(pieces(text@, ", "@))
        } else {
            InfoView::Single(text@)
        },
{
    if is_text(name, "genres") || is_text(name, "producers") {
        let sep = chars_of(", ");
        let parts = split(text, &sep);
        let mut values: Vec<String> = Vec::new();
        let mut i: usize = 0;
        while i < parts.len()
            invariant
                i <= parts.len(),
                values.len() == i,
                forall|j: int| 0 <= j < i ==> values@[j]@ == parts@[j]@,
            decreases parts.len() - i,
        {
            values.push(string_of(&parts[i]));
            i += 1;
        }
        assert(values.deep_view() =~= rows(parts@));
        OtherInfoValue::Multiple(values)
    } else {
        OtherInfoValue::Single(string_of(text))
    }
}

/// The place of the entry with the name `name`, if there is one.
pub fn place_of(entries: &Vec<(String, OtherInfoValue)>, name: &Vec<char>) -> (r: Option<usize>)
    ensures
        match r {
            Some(at) => at < entries.len() && entries@[at as int].0@ == name@,
            None => forall|i: int| 0 <= i < entries.len() ==> (#[trigger] entries@[i]).0@ != name@,
        },
{
    let mut i: usize = 0;
    while i < entries.len()
        invariant
            i <= entries.len(),
            forall|j: int| 0 <= j < i ==> (#[trigger] entries@[j]).0@ != name@,
        decreases entries.len() - i,
    {
        if same_text(&chars_of(entries[i].0.as_str()), name) {
            return Some(i);
        }
        i += 1;
    }
    None
}

/// What the page says under its headings.
pub fn other_info_of(document: &Html) -> (entries: Vec<(String, OtherInfoValue)>)
    ensures
        other_info_from(entries@, query_document(*document, INFO_ITEMS@)),
{
    let items = find_all_in_document(document, &parse_selector(INFO_ITEMS));
    let head = parse_selector(INFO_ITEM_HEAD);
    let value = parse_selector(INFO_ITEM_VALUE);
    let mut entries: Vec<(String, OtherInfoValue)> = Vec::new();
    let mut i: usize = 0;
    while i < items.len()
        invariant
            i <= items.len(),
            head == parsed_selector(INFO_ITEM_HEAD@),
            value == parsed_selector(INFO_ITEM_VALUE@),
            other_info_from(entries@, items@.take(i as int)),
        decreases items.len() - i,
    {
        assert(items@.take(i + 1).drop_last() == items@.take(i as int));
        assert(items@.take(i + 1).last() == items@[i as int]);
        let name = info_name_of(items[i], &head);
        let text = info_text_of(items[i], &value);
        let said = info_value_of(&name, &text);
        assert(said.shape() == info_value(items@[i as int]));
        let entry = (string_of(&name), said);
        let ghost before = entries@;
        match place_of(&entries, &name) {
            Some(at) => {
                entries[at] = entry;
                assert(entries@ == before.update(at as int, entry));
                assert forall|n: Seq<char>| #[trigger]
                    held_under(entries@, n) == said_under(items@.take(i + 1), n) by {
                    lemma_held_after_update(before, at as int, entry, n);
                    assert(held_under(before, n) == said_under(items@.take(i as int), n));
                }
                proof {
                    lemma_held_after_update(before, at as int, entry, name@);
                }
            },
            None => {
                entries.push(entry);
                assert(entries@ == before.push(entry));
                assert(entries@.drop_last() == before);
                assert(distinct_names(entries@));
                assert forall|n: Seq<char>| #[trigger]
                    held_under(entries@, n) == said_under(items@.take(i + 1), n) by {
                    assert(held_under(before, n) == said_under(items@.take(i as int), n));
                }
            },
        }
        i += 1;
    }
    assert(items@.take(items.len() as int) == items@);
    entries
}

/// The number that a block of sync data gives under a key.
pub fn sync_number_of(data: &Option<Vec<char>>, key: &str) -> (r: Option<u32>)
    ensures
        r == opt_sync_number(opt_view(*data), key@),
{
    match data {
        Some(d) => {
            let k = chars_of(key);
            proof {
                lemma_find_from(d@, k@, 0);
            }
            match find_in(d, &k, 0) {
                Some(i) => {
                    assert(occurs_at(d@, k@, i as int));
                    let end = d.len();
                    let rest = slice_of(d, i + k.len(), end);
                    parse_u32(&before_first(&rest, &single('"')))
                },
                None => None,
            }
        },
        None => None,
    }
}

impl HiAnimeUtils {
    /// The ids under which MyAnimeList and AniList know the anime of a
    /// detail page, in this order.
    pub fn get_mal_anilist_id(document: &Html) -> (r: (Option<u32>, Option<u32>))
        ensures
            r.0 == opt_sync_number(
                first_text(query_document(*document, SYNC_DATA@)),
                MAL_ID_KEY@,
            ),
            r.1 == opt_sync_number(
                first_text(query_document(*document, SYNC_DATA@)),
                ANILIST_ID_KEY@,
            ),
    {
        let data = text_in_document(document, SYNC_DATA);
        (sync_number_of(&data, MAL_ID_KEY), sync_number_of(&data, ANILIST_ID_KEY))
    }
}

/// Reads the detail page of an anime.
pub fn parse_info(page: &str) -> (r: ScrapedAnimeInfo)
    ensures
        info_page_from(r, parsed_document(page@)),
{
    let document = parse_document(page);
    let (mal_id, anilist_id) = HiAnimeUtils::get_mal_anilist_id(&document);
    let anime = AnimeDetailedInfo {
        id: last_piece_of(&attr_in_document(&document, INFO_LINK, "href"), '/'),
        name: opt_trimmed_string(&text_in_document(&document, INFO_TITLE)),
        jname: opt_trimmed_string(&attr_in_document(&document, INFO_TITLE, "data-jname")),
        description: opt_trimmed_string(&text_in_document(&document, INFO_DESCRIPTION)),
        poster: opt_trimmed_string(&attr_in_document(&document, FILM_POSTER, "src")),
        anilist_id,
        mal_id,
        seasons: seasons_of(&document),
        other_info: other_info_of(&document),
        stats: stats_of(&document),
        promotional_videos: videos_of(&document),
        characters_voice_actors: cast_of(&document),
    };
    ScrapedAnimeInfo {
        anime,
        related_animes: most_popular_at(&document, INFO_RELATED),
        most_popular_animes: most_popular_at(&document, INFO_MOST_POPULAR),
        recommended_animes: animes_at(&document, INFO_RECOMMENDED),
    }
}

} // verus!
