//! Rankings for the three periods, and the spotlight slider.

use crate::dom::{
    attr_of_first, attr_of_last, attribute_of, document_matches, element_attr, element_text,
    find_all, find_all_in_document, first_attr, first_of, first_text, last_attr, opt_trimmed,
    opt_trimmed_string, parse_selector, parsed_selector, query, query_document, select_in_document,
    text_of_first, texts_of,
};
use crate::fields::{
    opt_path_id, opt_spotlight_rank, opt_u16, opt_u32, path_id_of, spotlight_rank_of, u16_of,
    u32_of,
};
use crate::listing::{FILM_POSTER, FILM_TITLE, SIDE_DUB, SIDE_SUB};
use crate::split::{after_last, last_piece};
use crate::text::{append_str, chars_of, single, string_of, trim, trimmed};
use crate::types::{Episodes, SpotlightAnime, Top10Anime, Top10AnimePeriod, Top10AnimesWithPeriod};
use crate::utils::HiAnimeUtils;
use scraper::{ElementRef, Html, Selector};
use vstd::prelude::*;

verus! {

pub const TOP_RANK: &'static str = ".film-number span";

pub const SPOT_LINK: &'static str = ".deslide-item-content .desi-buttons a";

pub const SPOT_TITLE: &'static str = ".deslide-item-content .desi-head-title.dynamic-name";

pub const SPOT_POSTER: &'static str = ".deslide-cover .deslide-cover-img .film-poster-img";

pub const SPOT_RANK: &'static str = ".deslide-item-content .desi-sub-text";

pub const SPOT_DESCRIPTION: &'static str = ".deslide-item-content .desi-description";

pub const SPOT_SUB: &'static str =
    ".deslide-item-content .sc-detail .scd-item .tick-item.tick-sub";

pub const SPOT_DUB: &'static str =
    ".deslide-item-content .sc-detail .scd-item .tick-item.tick-dub";

pub const SPOT_TAGS: &'static str = ".deslide-item-content .sc-detail .scd-item";

/// The selector for the entries of the ranking whose section is named by
/// `token`.
pub open spec fn ranking_pattern(token: Seq<char>) -> Seq<char> {
    "#top-viewed-"@ + token + " ul li"@
}

/// Whether `anime` is the record of the ranking entry `item`.
pub open spec fn top10_from(anime: Top10Anime, item: ElementRef<'static>) -> bool {
    &&& anime.id.deep_view() == opt_path_id(first_attr(query(item, FILM_TITLE@), "href"@))
    &&& anime.name.deep_view() == opt_trimmed(first_text(query(item, FILM_TITLE@)))
    &&& anime.jname.deep_view() == opt_trimmed(first_attr(query(item, FILM_TITLE@), "data-jname"@))
    &&& anime.rank == opt_u32(first_text(query(item, TOP_RANK@)))
    &&& anime.poster.deep_view() == opt_trimmed(first_attr(query(item, FILM_POSTER@), "data-src"@))
    &&& anime.episodes.sub == opt_u16(first_text(query(item, SIDE_SUB@)))
    &&& anime.episodes.dub == opt_u16(first_text(query(item, SIDE_DUB@)))
}

pub open spec fn top10s_from(animes: Seq<Top10Anime>, items: Seq<ElementRef<'static>>) -> bool {
    &&& animes.len() == items.len()
    &&& forall|i: int| 0 <= i < animes.len() ==> top10_from(#[trigger] animes[i], items[i])
}

/// The token that names a period in the id of its section.
pub open spec fn period_token(period: Top10AnimePeriod) -> Seq<char> {
    match period {
        Top10AnimePeriod::Day => "day"@,
        Top10AnimePeriod::Week => "week"@,
        Top10AnimePeriod::Month => "month"@,
    }
}

/// The period of a section: the one that the part of its id behind the last
/// hyphen names. A section without an id, or with another suffix, has none.
pub open spec fn section_period(section: ElementRef<'static>) -> Option<Top10AnimePeriod> {
    match attribute_of(section, "id"@) {
        Some(id) => Top10AnimePeriod::named(last_piece(id, seq!['-'])),
        None => None,
    }
}

/// Whether one of `sections` is the section of `period`.
pub open spec fn has_section(sections: Seq<ElementRef<'static>>, period: Top10AnimePeriod) -> bool
    decreases sections.len(),
{
    sections.len() > 0 && (section_period(sections.last()) == Some(period) || has_section(
        sections.drop_last(),
        period,
    ))
}

/// The entries of the ranking of `period`: those of its section where
/// `sections` holds it, none otherwise.
pub open spec fn period_items(
    document: Html,
    sections: Seq<ElementRef<'static>>,
    period: Top10AnimePeriod,
) -> Seq<ElementRef<'static>> {
    if has_section(sections, period) {
        query_document(document, ranking_pattern(period_token(period)))
    } else {
        Seq::empty()
    }
}

/// The trimmed first texts of those of `found` that have a text, in order.
pub open spec fn tags(found: Seq<ElementRef<'static>>) -> Seq<Seq<char>>
    decreases found.len(),
{
    if found.len() == 0 {
        Seq::empty()
    } else {
        match first_of(texts_of(found.last())) {
            Some(t) => tags(found.drop_last()).push(trimmed(t)),
            None => tags(found.drop_last()),
        }
    }
}

/// The tags of a spotlight entry: all that it shows but the last, which is
/// decoration.
pub open spec fn spotlight_tags(found: Seq<ElementRef<'static>>) -> Seq<Seq<char>> {
    if tags(found).len() == 0 {
        Seq::empty()
    } else {
        tags(found).drop_last()
    }
}

/// Whether `anime` is the record of the spotlight entry `item`.
pub open spec fn spotlight_from(anime: SpotlightAnime, item: ElementRef<'static>) -> bool {
    &&& anime.id.deep_view() == opt_path_id(last_attr(query(item, SPOT_LINK@), "href"@))
    &&& anime.name.deep_view() == opt_trimmed(first_text(query(item, SPOT_TITLE@)))
    &&& anime.jname.deep_view() == opt_trimmed(first_attr(query(item, SPOT_TITLE@), "data-jname"@))
    &&& anime.poster.deep_view() == opt_trimmed(first_attr(query(item, SPOT_POSTER@), "data-src"@))
    &&& anime.description.deep_view() == opt_trimmed(first_text(query(item, SPOT_DESCRIPTION@)))
    &&& anime.rank == opt_spotlight_rank(first_text(query(item, SPOT_RANK@)))
    &&& anime.episodes.sub == opt_u16(first_text(query(item, SPOT_SUB@)))
    &&& anime.episodes.dub == opt_u16(first_text(query(item, SPOT_DUB@)))
    &&& anime.other_info.deep_view() == spotlight_tags(query(item, SPOT_TAGS@))
    &&& anime.anime_type.deep_view() == first_of(spotlight_tags(query(item, SPOT_TAGS@)))
}

pub open spec fn spotlights_from(animes: Seq<SpotlightAnime>, items: Seq<ElementRef<'static>>) -> bool {
    &&& animes.len() == items.len()
    &&& forall|i: int| 0 <= i < animes.len() ==> spotlight_from(#[trigger] animes[i], items[i])
}

/// The trimmed first texts of those of `found` that have a text.
pub fn tags_of<'a>(found: &Vec<ElementRef<'a>>) -> (r: Vec<String>)
    ensures
        r.deep_view() == tags(found@),
{
    let mut r: Vec<String> = Vec::new();
    let mut i: usize = 0;
    assert(r.deep_view() =~= tags(found@.take(0)));
    while i < found.len()
        invariant
            i <= found.len(),
            r.deep_view() == tags(found@.take(i as int)),
        decreases found.len() - i,
    {
        assert(found@.take(i + 1).drop_last() == found@.take(i as int));
        assert(found@.take(i + 1).last() == found@[i as int]);
        match element_text(found[i]) {
            Some(t) => {
                let ghost before = r.deep_view();
                let t = trim(&t);
                r.push(string_of(&t));
                assert(r.deep_view() =~= before.push(t@));
            },
            None => {},
        }
        i += 1;
    }
    assert(found@.take(found.len() as int) == found@);
    r
}

impl HiAnimeUtils {
    /// The records of the ranking whose section is named by `period`, in
    /// the order in which the selector yields its entries.
    pub fn extract_top10_anime(document: &Html, period: &String) -> (animes: Vec<Top10Anime>)
        ensures
            top10s_from(animes@, query_document(*document, ranking_pattern(period@))),
    {
        let mut pattern = chars_of("#top-viewed-");
        append_str(&mut pattern, period.as_str());
        append_str(&mut pattern, " ul li");
        let pattern = string_of(&pattern);
        let entries = parse_selector(pattern.as_str());
        let items = find_all_in_document(document, &entries);
        let title = parse_selector(FILM_TITLE);
        let rank = parse_selector(TOP_RANK);
        let poster = parse_selector(FILM_POSTER);
        let sub = parse_selector(SIDE_SUB);
        let dub = parse_selector(SIDE_DUB);

        let mut animes: Vec<Top10Anime> = Vec::new();
        let mut i: usize = 0;
        while i < items.len()
            invariant
                i <= items.len(),
                items@ == query_document(*document, ranking_pattern(period@)),
                title == parsed_selector(FILM_TITLE@),
                rank == parsed_selector(TOP_RANK@),
                poster == parsed_selector(FILM_POSTER@),
                sub == parsed_selector(SIDE_SUB@),
                dub == parsed_selector(SIDE_DUB@),
                top10s_from(animes@, items@.take(i as int)),
            decreases items.len() - i,
        {
            let item = items[i];
            let titles = find_all(item, &title);
            let anime = Top10Anime {
                id: path_id_of(&attr_of_first(&titles, "href")),
                name: opt_trimmed_string(&text_of_first(&titles)),
                jname: opt_trimmed_string(&attr_of_first(&titles, "data-jname")),
                rank: u32_of(&text_of_first(&find_all(item, &rank))),
                poster: opt_trimmed_string(&attr_of_first(&find_all(item, &poster), "data-src")),
                episodes: Episodes {
                    sub: u16_of(&text_of_first(&find_all(item, &sub))),
                    dub: u16_of(&text_of_first(&find_all(item, &dub))),
                },
            };
            assert(top10_from(anime, items@[i as int]));
            animes.push(anime);
            i += 1;
        }
        assert(items@.take(items.len() as int) == items@);
        animes
    }

    /// The rankings of the three periods. `selector` finds the sections; a
    /// section whose id ends in `-day`, `-week` or `-month` gives the
    /// ranking of that period, and any other section is passed over.
    pub fn extract_top10_animes(document: &Html, selector: &Selector) -> (r:
        Top10AnimesWithPeriod)
        ensures
            top10s_from(
                r.today@,
                period_items(
                    *document,
                    document_matches(*document, *selector),
                    Top10AnimePeriod::Day,
                ),
            ),
            top10s_from(
                r.week@,
                period_items(
                    *document,
                    document_matches(*document, *selector),
                    Top10AnimePeriod::Week,
                ),
            ),
            top10s_from(
                r.month@,
                period_items(
                    *document,
                    document_matches(*document, *selector),
                    Top10AnimePeriod::Month,
                ),
            ),
    {
        let sections = select_in_document(document, selector);
        let mut today: Vec<Top10Anime> = Vec::new();
        let mut week: Vec<Top10Anime> = Vec::new();
        let mut month: Vec<Top10Anime> = Vec::new();
        let hyphen = single('-');
        let mut i: usize = 0;
        while i < sections.len()
            invariant
                i <= sections.len(),
                sections@ == document_matches(*document, *selector),
                hyphen@ == seq!['-'],
                top10s_from(
                    today@,
                    period_items(*document, sections@.take(i as int), Top10AnimePeriod::Day),
                ),
                top10s_from(
                    week@,
                    period_items(*document, sections@.take(i as int), Top10AnimePeriod::Week),
                ),
                top10s_from(
                    month@,
                    period_items(*document, sections@.take(i as int), Top10AnimePeriod::Month),
                ),
            decreases sections.len() - i,
        {
            assert(sections@.take(i + 1).drop_last() == sections@.take(i as int));
            assert(sections@.take(i + 1).last() == sections@[i as int]);
            match element_attr(sections[i], "id") {
                Some(id) => {
                    let token = string_of(&after_last(&id, &hyphen));
                    match Top10AnimePeriod::parse(token.as_str()) {
                        Some(Top10AnimePeriod::Day) => {
                            today = Self::extract_top10_anime(document, &token);
                        },
                        Some(Top10AnimePeriod::Week) => {
                            week = Self::extract_top10_anime(document, &token);
                        },
                        Some(Top10AnimePeriod::Month) => {
                            month = Self::extract_top10_anime(document, &token);
                        },
                        None => {},
                    }
                },
                None => {},
            }
            i += 1;
        }
        assert(sections@.take(sections.len() as int) == sections@);
        Top10AnimesWithPeriod { today, week, month }
    }

    /// The records of the spotlight entries that `selector` finds in
    /// `document`, in the order in which it finds them.
    pub fn extract_spotlight_animes(document: &Html, selector: &Selector) -> (animes: Vec<
        SpotlightAnime,
    >)
        ensures
            spotlights_from(animes@, document_matches(*document, *selector)),
    {
        let items = select_in_document(document, selector);
        let link = parse_selector(SPOT_LINK);
        let title = parse_selector(SPOT_TITLE);
        let poster = parse_selector(SPOT_POSTER);
        let rank = parse_selector(SPOT_RANK);
        let description = parse_selector(SPOT_DESCRIPTION);
        let sub = parse_selector(SPOT_SUB);
        let dub = parse_selector(SPOT_DUB);
        let tag = parse_selector(SPOT_TAGS);

        let mut animes: Vec<SpotlightAnime> = Vec::new();
        let mut i: usize = 0;
        while i < items.len()
            invariant
                i <= items.len(),
                items@ == document_matches(*document, *selector),
                link == parsed_selector(SPOT_LINK@),
                title == parsed_selector(SPOT_TITLE@),
                poster == parsed_selector(SPOT_POSTER@),
                rank == parsed_selector(SPOT_RANK@),
                description == parsed_selector(SPOT_DESCRIPTION@),
                sub == parsed_selector(SPOT_SUB@),
                dub == parsed_selector(SPOT_DUB@),
                tag == parsed_selector(SPOT_TAGS@),
                spotlights_from(animes@, items@.take(i as int)),
            decreases items.len() - i,
        {
            let item = items[i];
            let titles = find_all(item, &title);
            let mut other_info = tags_of(&find_all(item, &tag));
            let ghost all = other_info.deep_view();
            if other_info.len() > 0 {
                other_info.pop();
                assert(other_info.deep_view() =~= all.drop_last());
            } else {
                assert(other_info.deep_view() =~= Seq::<Seq<char>>::empty());
            }
            assert(other_info.deep_view() == spotlight_tags(query(item, SPOT_TAGS@)));
            let anime_type = if other_info.len() > 0 {
                assert(other_info.deep_view()[0] == other_info@[0]@);
                Some(other_info[0].clone())
            } else {
                None
            };
            assert(anime_type.deep_view() == first_of(other_info.deep_view()));
            let anime = SpotlightAnime {
                id: path_id_of(&attr_of_last(&find_all(item, &link), "href")),
                name: opt_trimmed_string(&text_of_first(&titles)),
                jname: opt_trimmed_string(&attr_of_first(&titles, "data-jname")),
                poster: opt_trimmed_string(&attr_of_first(&find_all(item, &poster), "data-src")),
                description: opt_trimmed_string(&text_of_first(&find_all(item, &description))),
                rank: spotlight_rank_of(&text_of_first(&find_all(item, &rank))),
                episodes: Episodes {
                    sub: u16_of(&text_of_first(&find_all(item, &sub))),
                    dub: u16_of(&text_of_first(&find_all(item, &dub))),
                },
                anime_type,
                other_info,
            };
            assert(spotlight_from(anime, items@[i as int]));
            animes.push(anime);
            i += 1;
        }
        assert(items@.take(items.len() as int) == items@);
        animes
    }
}

/// Whether `r` holds the rankings of the sections that the selector
/// written as `pattern` finds in `document`.
pub open spec fn rankings_from(r: Top10AnimesWithPeriod, document: Html, pattern: Seq<char>) -> bool {
    let sections = query_document(document, pattern);
    &&& top10s_from(r.today@, period_items(document, sections, Top10AnimePeriod::Day))
    &&& top10s_from(r.week@, period_items(document, sections, Top10AnimePeriod::Week))
    &&& top10s_from(r.month@, period_items(document, sections, Top10AnimePeriod::Month))
}

/// The rankings of the sections that the selector written as `pattern`
/// finds in `document`.
pub fn rankings_at(document: &Html, pattern: &str) -> (r: Top10AnimesWithPeriod)
    ensures
        rankings_from(r, *document, pattern@),
{
    match parse_selector(pattern) {
        Some(selector) => HiAnimeUtils::extract_top10_animes(document, &selector),
        None => Top10AnimesWithPeriod { today: Vec::new(), week: Vec::new(), month: Vec::new() },
    }
}

/// The records of the spotlight entries that the selector written as
/// `pattern` finds in `document`.
pub fn spotlights_at(document: &Html, pattern: &str) -> (animes: Vec<SpotlightAnime>)
    ensures
        spotlights_from(animes@, query_document(*document, pattern@)),
{
    match parse_selector(pattern) {
        Some(selector) => HiAnimeUtils::extract_spotlight_animes(document, &selector),
        None => Vec::new(),
    }
}

} // verus!
