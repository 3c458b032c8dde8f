//! The summary that the site shows when the pointer rests on an anime.

use crate::dom::{
    attr_in_document, element_whole_text, find_all, find_all_in_document, first_attr, first_text,
    opt_string, opt_trimmed, opt_trimmed_string, parse_document, parse_selector, parsed_document,
    parsed_selector, query, query_document, text_in_document, text_of_first, whole_text,
};
use crate::episodes::id_tail;
use crate::error::{invalid_data_message, EnmaError, BAD_REQUEST};
use crate::fields::{last_piece_of, opt_last_piece, opt_u16, u16_of};
use crate::request::{
    header, home_referer, item_address, item_url, request_with, requested_with, Request, REFERER,
    X_REQUESTED_WITH,
};
use crate::split::{after_last, pieces, split, strip_trailing, without_trailing};
use crate::text::{
    chars_of, is_text, lowercase, lowercased, opt_view, rows, single, slice_of, string_of, trim,
    trimmed,
};
use crate::types::Episodes;
use crate::uri::EnmaUtils;
use crate::utils::HiAnimeUtils;
use scraper::{ElementRef, Html};
use vstd::prelude::*;

verus! {

pub const GET_QTIP_INFO: &'static str = "hianime:get_qtip_info";

pub const QTIP_LINK: &'static str = ".pre-qtip-button a.btn-play";

pub const QTIP_TITLE: &'static str = ".pre-qtip-title";

pub const QTIP_SCORE: &'static str = ".pre-qtip-detail .pqd-li";

pub const QTIP_QUALITY: &'static str = ".tick .tick-quality";

pub const QTIP_TYPE: &'static str = ".badge.badge-quality";

pub const QTIP_DESCRIPTION: &'static str = ".pre-qtip-description";

pub const QTIP_SUB: &'static str = ".tick .tick-sub";

pub const QTIP_DUB: &'static str = ".tick .tick-dub";

pub const QTIP_LINE: &'static str = ".pre-qtip-content .pre-qtip-line";

pub const QTIP_LABEL: &'static str = ".stick";

pub const QTIP_VALUE: &'static str = ".stick-text";

/// The label of the line that lists the genres.
pub const GENRES_LABEL: &'static str = "genres";

/// The summary of an anime. The score is kept as the site writes it.
#[derive(Debug, PartialEq, Eq)]
pub struct QtipAnime {
    pub id: Option<String>,
    pub name: Option<String>,
    pub mal_score: Option<String>,
    pub quality: Option<String>,
    pub episodes: Episodes,
    pub anime_type: Option<String>,
    pub description: Option<String>,
    pub jname: Option<String>,
    pub synonyms: Option<String>,
    pub aired: Option<String>,
    pub status: Option<String>,
    pub genres: Vec<String>,
}

#[derive(Debug, PartialEq, Eq)]
pub struct ScrapedQtipInfo {
    pub anime: QtipAnime,
}

/// The label of a line: its first label text, trimmed, without the colons
/// at its end, in lower case; nothing for a line without a label.
pub open spec fn line_label(line: ElementRef<'static>) -> Seq<char> {
    match first_text(query(line, QTIP_LABEL@)) {
        Some(t) => lowercased(without_trailing(trimmed(t), ':')),
        None => Seq::empty(),
    }
}

/// How many characters the label of the genres and its colon take.
pub const GENRES_LABEL_LEN: usize = 7;

/// A text without the label of the genres at its start.
pub open spec fn behind_label(text: Seq<char>) -> Seq<char> {
    if text.len() >= GENRES_LABEL_LEN {
        text.subrange(GENRES_LABEL_LEN as int, text.len() as int)
    } else {
        Seq::empty()
    }
}

/// The value of a line. The line of the genres gives all its text behind
/// the label, trimmed; any other line the first text of its value, and
/// nothing where it has none.
pub open spec fn line_value(line: ElementRef<'static>) -> Seq<char> {
    if line_label(line) == GENRES_LABEL@ {
        trimmed(behind_label(trimmed(whole_text(line))))
    } else {
        match first_text(query(line, QTIP_VALUE@)) {
            Some(t) => t,
            None => Seq::empty(),
        }
    }
}

/// The value of the last of `lines` whose label is `label`.
pub open spec fn labelled(lines: Seq<ElementRef<'static>>, label: Seq<char>) -> Option<Seq<char>>
    decreases lines.len(),
{
    if lines.len() == 0 {
        None
    } else if line_label(lines.last()) == label {
        Some(line_value(lines.last()))
    } else {
        labelled(lines.drop_last(), label)
    }
}

/// The pieces into which `sep` cuts a text, each of them trimmed.
pub open spec fn trimmed_pieces(text: Seq<char>, sep: Seq<char>) -> Seq<Seq<char>> {
    pieces(text, sep).map_values(|p: Seq<char>| trimmed(p))
}

/// The genres that the lines list: the trimmed pieces between the commas
/// of the value of the line of the genres; none without such a line.
pub open spec fn listed_genres(lines: Seq<ElementRef<'static>>) -> Seq<Seq<char>> {
    match labelled(lines, GENRES_LABEL@) {
        Some(v) => trimmed_pieces(v, seq![',']),
        None => Seq::empty(),
    }
}

/// Whether `anime` is what the summary `document` shows.
pub open spec fn qtip_from(anime: QtipAnime, document: Html) -> bool {
    let lines = query_document(document, QTIP_LINE@);
    &&& anime.id.deep_view() == opt_last_piece(
        first_attr(query_document(document, QTIP_LINK@), "href"@),
        seq!['/'],
    )
    &&& anime.name.deep_view() == opt_trimmed(first_text(query_document(document, QTIP_TITLE@)))
    &&& anime.anime_type.deep_view() == opt_trimmed(
        first_text(query_document(document, QTIP_TYPE@)),
    )
    &&& anime.mal_score.deep_view() == opt_trimmed(
        first_text(query_document(document, QTIP_SCORE@)),
    )
    &&& anime.description.deep_view() == opt_trimmed(
        first_text(query_document(document, QTIP_DESCRIPTION@)),
    )
    &&& anime.quality.deep_view() == opt_trimmed(
        first_text(query_document(document, QTIP_QUALITY@)),
    )
    &&& anime.episodes.sub == opt_u16(first_text(query_document(document, QTIP_SUB@)))
    &&& anime.episodes.dub == opt_u16(first_text(query_document(document, QTIP_DUB@)))
    &&& anime.jname.deep_view() == labelled(lines, "japanese"@)
    &&& anime.synonyms.deep_view() == labelled(lines, "synonyms"@)
    &&& anime.aired.deep_view() == labelled(lines, "aired"@)
    &&& anime.status.deep_view() == labelled(lines, "status"@)
    &&& anime.genres.deep_view() == listed_genres(lines)
}

/// The request for the summary of an anime. An identifier that ends in a
/// hyphen, or is empty, is refused.
pub fn qtip_request(anime_id: &str) -> (r: Result<Request, EnmaError>)
    ensures
        match r {
            Ok(request) => {
                &&& id_tail(anime_id@).len() > 0
                &&& request.url@ == item_url(HiAnimeUtils::QtipUrl.address(), id_tail(anime_id@))
                &&& request.headers.deep_view() == seq![home_referer(), requested_with()]
            },
            Err(e) => {
                &&& id_tail(anime_id@).len() == 0
                &&& e is InvalidDataError
                &&& e.carries(
                    GET_QTIP_INFO@,
                    invalid_data_message("invalid anime id"@),
                    BAD_REQUEST,
                )
            },
        },
{
    let tail = after_last(&trim(&chars_of(anime_id)), &single('-'));
    if tail.len() == 0 {
        return Err(EnmaError::invalid_input(GET_QTIP_INFO, "invalid anime id"));
    }
    let url = item_address(HiAnimeUtils::QtipUrl.value(), &tail);
    let mut headers: Vec<(String, String)> = Vec::new();
    headers.push(header(REFERER, HiAnimeUtils::HomeUrl.value()));
    headers.push(header(X_REQUESTED_WITH, EnmaUtils::XRequestedWithHeader.value()));
    assert(headers.deep_view() =~= seq![home_referer(), requested_with()]);
    Ok(request_with(url, headers))
}

/// The label of a line.
fn label_of<'a>(line: ElementRef<'a>, label: &Option<scraper::Selector>) -> (r: Vec<char>)
    requires
        *label == parsed_selector(QTIP_LABEL@),
    ensures
        r@ == line_label(line),
{
    match text_of_first(&find_all(line, label)) {
        Some(t) => {
            let bare = strip_trailing(&trim(&t), ':');
            chars_of(lowercase(string_of(&bare).as_str()).as_str())
        },
        None => Vec::new(),
    }
}

/// The value of a line whose label is `label`.
fn value_of<'a>(
    line: ElementRef<'a>,
    label: &Vec<char>,
    value: &Option<scraper::Selector>,
) -> (r: Vec<char>)
    requires
        label@ == line_label(line),
        *value == parsed_selector(QTIP_VALUE@),
    ensures
        r@ == line_value(line),
{
    if is_text(label, GENRES_LABEL) {
        let all = trim(&element_whole_text(line));
        if all.len() >= GENRES_LABEL_LEN {
            trim(&slice_of(&all, GENRES_LABEL_LEN, all.len()))
        } else {
            let none: Vec<char> = Vec::new();
            let r = trim(&none);
            assert(none@ == Seq::<char>::empty());
            r
        }
    } else {
        match text_of_first(&find_all(line, value)) {
            Some(t) => t,
            None => Vec::new(),
        }
    }
}

/// The pieces into which `sep` cuts a text, each of them trimmed.
pub fn split_trimmed(text: &Vec<char>, sep: char) -> (r: Vec<String>)
    ensures
        r.deep_view() == trimmed_pieces(text@, seq![sep]),
{
    let parts = split(text, &single(sep));
    let mut r: Vec<String> = Vec::new();
    let mut i: usize = 0;
    while i < parts.len()
        invariant
            i <= parts.len(),
            r.len() == i,
            forall|j: int| 0 <= j < i ==> r@[j]@ == trimmed(parts@[j]@),
        decreases parts.len() - i,
    {
        r.push(string_of(&trim(&parts[i])));
        i += 1;
    }
    assert(r.deep_view() =~= rows(parts@).map_values(|p: Seq<char>| trimmed(p)));
    r
}

/// Reads the summary of an anime.
pub fn parse_qtip_info(page: &str) -> (r: ScrapedQtipInfo)
    ensures
        qtip_from(r.anime, parsed_document(page@)),
{
    let document = parse_document(page);
    let lines = find_all_in_document(&document, &parse_selector(QTIP_LINE));
    let label = parse_selector(QTIP_LABEL);
    let value = parse_selector(QTIP_VALUE);

    let mut jname: Option<Vec<char>> = None;
    let mut synonyms: Option<Vec<char>> = None;
    let mut aired: Option<Vec<char>> = None;
    let mut status: Option<Vec<char>> = None;
    let mut genres: Option<Vec<char>> = None;
    let mut i: usize = 0;
    while i < lines.len()
        invariant
            i <= lines.len(),
            label == parsed_selector(QTIP_LABEL@),
            value == parsed_selector(QTIP_VALUE@),
            opt_view(jname) == labelled(lines@.take(i as int), "japanese"@),
            opt_view(synonyms) == labelled(lines@.take(i as int), "synonyms"@),
            opt_view(aired) == labelled(lines@.take(i as int), "aired"@),
            opt_view(status) == labelled(lines@.take(i as int), "status"@),
            opt_view(genres) == labelled(lines@.take(i as int), GENRES_LABEL@),
        decreases lines.len() - i,
    {
        assert(lines@.take(i + 1).drop_last() == lines@.take(i as int));
        assert(lines@.take(i + 1).last() == lines@[i as int]);
        let key = label_of(lines[i], &label);
        let text = value_of(lines[i], &key, &value);
        if is_text(&key, "japanese") {
            jname = Some(slice_of(&text, 0, text.len()));
            assert(jname->0@ == text@);
        }
        if is_text(&key, "synonyms") {
            synonyms = Some(slice_of(&text, 0, text.len()));
            assert(synonyms->0@ == text@);
        }
        if is_text(&key, "aired") {
            aired = Some(slice_of(&text, 0, text.len()));
            assert(aired->0@ == text@);
        }
        if is_text(&key, "status") {
            status = Some(slice_of(&text, 0, text.len()));
            assert(status->0@ == text@);
        }
        if is_text(&key, GENRES_LABEL) {
            genres = Some(text);
        }
        i += 1;
    }
    assert(lines@.take(lines.len() as int) == lines@);
    let genres = match genres {
        Some(v) => split_trimmed(&v, ','),
        None => {
            let none: Vec<String> = Vec::new();
            assert(none.deep_view() =~= Seq::<Seq<char>>::empty());
            none
        },
    };
    let anime = QtipAnime {
        id: last_piece_of(&attr_in_document(&document, QTIP_LINK, "href"), '/'),
        name: opt_trimmed_string(&text_in_document(&document, QTIP_TITLE)),
        anime_type: opt_trimmed_string(&text_in_document(&document, QTIP_TYPE)),
        mal_score: opt_trimmed_string(&text_in_document(&document, QTIP_SCORE)),
        description: opt_trimmed_string(&text_in_document(&document, QTIP_DESCRIPTION)),
        quality: opt_trimmed_string(&text_in_document(&document, QTIP_QUALITY)),
        episodes: Episodes {
            sub: u16_of(&text_in_document(&document, QTIP_SUB)),
            dub: u16_of(&text_in_document(&document, QTIP_DUB)),
        },
        jname: opt_string(&jname),
        synonyms: opt_string(&synonyms),
        aired: opt_string(&aired),
        status: opt_string(&status),
        genres,
    };
    ScrapedQtipInfo { anime }
}

} // verus!
