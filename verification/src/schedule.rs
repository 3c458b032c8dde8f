//! The schedule of a day. Reading a time of day as an instant is the work
//! of the `chrono` crate, and so is telling the time.

use crate::dom::{
    attr_of_first, find_all, find_all_in_document, first_attr, first_text, opt_trimmed,
    opt_trimmed_string, parse_fragment, parse_selector, parsed_fragment, parsed_selector, query,
    query_document, text_of_first,
};
use crate::number::{decimal, decimal_two, parse_u16, parsed_u16, push_decimal, push_decimal_two};
use crate::request::{
    header, home_referer, request_with, requested_with, Request, ACCEPT, ACCEPT_ANYTHING, REFERER,
    X_REQUESTED_WITH,
};
use crate::split::{after_last, contains, includes, last_piece};
use crate::text::{
    append_str, append_text, chars_of, drop_first_char, opt_view, single, slice_of, string_of, trim,
    trimmed, without_first,
};
use crate::uri::EnmaUtils;
use crate::utils::HiAnimeUtils;
use chrono::{DateTime, Utc};
use scraper::{ElementRef, Html};
use vstd::prelude::*;

verus! {

pub const GET_SCHEDULE: &'static str = "hianime:get_schedule";

/// What the site writes in place of a schedule on a day without one.
pub const NO_DATA_INDICATOR: &'static str = "No data to display";

pub const SCHEDULE_ENTRY: &'static str = "li";

pub const SCHEDULE_LINK: &'static str = "li a.tsl-link";

pub const SCHEDULE_TITLE: &'static str = "li a .film-name.dynamic-name";

pub const SCHEDULE_EPISODE: &'static str = "li a .fd-play button.btn-play";

pub const SCHEDULE_TIME: &'static str = "li a.tsl-link .time";

/// The instant, in milliseconds since the epoch, that
/// `DateTime::parse_from_rfc3339` reads from `text`, where it reads one.
pub uninterp spec fn rfc3339_millis(text: Seq<char>) -> Option<i64>;

/// Calls `DateTime::parse_from_rfc3339` and `DateTime::timestamp_millis`.
/// The contract only names the result.
#[verifier::external_body]
pub(crate) fn parse_rfc3339_millis(text: &str) -> (r: Option<i64>)
    ensures
        r == rfc3339_millis(text@),
{
    match DateTime::parse_from_rfc3339(text) {
        Ok(instant) => Some(instant.timestamp_millis()),
        Err(_) => None,
    }
}

/// Calls `Utc::now` and `DateTime::timestamp_millis`. Nothing is known of
/// the result: it is the time of the call.
#[verifier::external_body]
pub(crate) fn now_millis() -> i64 {
    Utc::now().timestamp_millis()
}

/// An entry of the schedule. Whether it has aired follows from the seconds
/// until it airs and cannot be set apart from them.
#[derive(Debug, PartialEq, Eq)]
pub struct ScheduledAnime {
    pub(crate) id: Option<String>,
    pub(crate) name: Option<String>,
    pub(crate) jname: Option<String>,
    pub(crate) time: Option<String>,
    pub(crate) episode_number: Option<u16>,
    pub(crate) airing_timestamp: i64,
    pub(crate) already_aired: bool,
    pub(crate) seconds_until_airing: i32,
}

#[derive(Debug, PartialEq, Eq)]
pub struct ScrapedSchedule {
    pub animes: Vec<ScheduledAnime>,
}

/// The quotient of `n` by 1000, rounded towards zero.
pub open spec fn thousandth(n: int) -> int {
    if n >= 0 {
        n / 1000
    } else {
        -((-n) / 1000)
    }
}

/// The number in 32 bits that `q` wraps to.
pub open spec fn wrapped(q: int) -> i32 {
    (((q + 0x8000_0000) % 0x1_0000_0000) - 0x8000_0000) as i32
}

/// The whole seconds from `now` until `airing`, both in milliseconds,
/// wrapped to 32 bits.
pub open spec fn seconds_until(airing: i64, now: i64) -> i32 {
    wrapped(thousandth(airing - now))
}

/// The date as the site reads it: the year, and month and day in two
/// digits at least, with hyphens between them.
pub open spec fn date_text(year: u16, month: u8, day: u8) -> Seq<char> {
    decimal(year as nat) + "-"@ + decimal_two(month as nat) + "-"@ + decimal_two(day as nat)
}

/// The instant at which an entry airs: the date and the time of day read
/// as an instant of UTC, and the epoch where they do not read as one.
pub open spec fn airing_instant(date: Seq<char>, time: Seq<char>) -> i64 {
    match rfc3339_millis(date + "T"@ + time + ":00+00:00"@) {
        Some(t) => t,
        None => 0,
    }
}

/// The identifier in the link target of an entry: the target, trimmed and
/// without its first character.
pub open spec fn opt_schedule_id(o: Option<Seq<char>>) -> Option<Seq<char>> {
    match o {
        Some(h) => Some(without_first(trimmed(h))),
        None => None,
    }
}

/// The number at the end of the label of the play button.
pub open spec fn opt_episode_number(o: Option<Seq<char>>) -> Option<u16> {
    match o {
        Some(t) => parsed_u16(trimmed(last_piece(trimmed(t), seq![' ']))),
        None => None,
    }
}

/// The time of day that an entry shows, trimmed; nothing where it shows
/// none.
pub open spec fn airing_time(item: ElementRef<'static>) -> Seq<char> {
    match first_text(query(item, SCHEDULE_TIME@)) {
        Some(t) => trimmed(t),
        None => Seq::empty(),
    }
}

/// Whether the schedule says that the day has no entries.
pub open spec fn says_no_data(document: Html) -> bool {
    match first_text(query_document(document, SCHEDULE_ENTRY@)) {
        Some(t) => includes(trimmed(t), NO_DATA_INDICATOR@),
        None => false,
    }
}

impl ScheduledAnime {
    #[verifier::type_invariant]
    spec fn derived(&self) -> bool {
        self.already_aired == (self.seconds_until_airing <= 0)
    }

    pub closed spec fn spec_id(&self) -> Option<Seq<char>> {
        self.id.deep_view()
    }

    pub closed spec fn spec_name(&self) -> Option<Seq<char>> {
        self.name.deep_view()
    }

    pub closed spec fn spec_jname(&self) -> Option<Seq<char>> {
        self.jname.deep_view()
    }

    pub closed spec fn spec_time(&self) -> Option<Seq<char>> {
        self.time.deep_view()
    }

    pub closed spec fn spec_episode_number(&self) -> Option<u16> {
        self.episode_number
    }

    pub closed spec fn spec_airing_timestamp(&self) -> i64 {
        self.airing_timestamp
    }

    pub closed spec fn spec_seconds_until_airing(&self) -> i32 {
        self.seconds_until_airing
    }

    pub closed spec fn spec_already_aired(&self) -> bool {
        self.already_aired
    }

    /// An entry that airs at `airing_timestamp`, seen at `now`, both in
    /// milliseconds since the epoch.
    pub fn new(
        id: Option<String>,
        name: Option<String>,
        jname: Option<String>,
        time: Option<String>,
        episode_number: Option<u16>,
        airing_timestamp: i64,
        now: i64,
    ) -> (r: ScheduledAnime)
        ensures
            r.spec_id() == id.deep_view(),
            r.spec_name() == name.deep_view(),
            r.spec_jname() == jname.deep_view(),
            r.spec_time() == time.deep_view(),
            r.spec_episode_number() == episode_number,
            r.spec_airing_timestamp() == airing_timestamp,
            r.spec_seconds_until_airing() == seconds_until(airing_timestamp, now),
            r.spec_already_aired() == (seconds_until(airing_timestamp, now) <= 0),
    {
        let seconds_until_airing = seconds_between(airing_timestamp, now);
        ScheduledAnime {
            id,
            name,
            jname,
            time,
            episode_number,
            airing_timestamp,
            already_aired: seconds_until_airing <= 0,
            seconds_until_airing,
        }
    }

    pub fn id(&self) -> (r: &Option<String>)
        ensures
            r.deep_view() == self.spec_id(),
    {
        &self.id
    }

    pub fn name(&self) -> (r: &Option<String>)
        ensures
            r.deep_view() == self.spec_name(),
    {
        &self.name
    }

    pub fn jname(&self) -> (r: &Option<String>)
        ensures
            r.deep_view() == self.spec_jname(),
    {
        &self.jname
    }

    pub fn time(&self) -> (r: &Option<String>)
        ensures
            r.deep_view() == self.spec_time(),
    {
        &self.time
    }

    pub fn episode_number(&self) -> (r: Option<u16>)
        ensures
            r == self.spec_episode_number(),
    {
        self.episode_number
    }

    pub fn airing_timestamp(&self) -> (r: i64)
        ensures
            r == self.spec_airing_timestamp(),
    {
        self.airing_timestamp
    }

    pub fn seconds_until_airing(&self) -> (r: i32)
        ensures
            r == self.spec_seconds_until_airing(),
    {
        self.seconds_until_airing
    }

    /// Whether the entry has aired: whether no second is left until it
    /// airs. This holds of every entry.
    pub fn already_aired(&self) -> (r: bool)
        ensures
            r == self.spec_already_aired(),
            r == (self.spec_seconds_until_airing() <= 0),
    {
        proof {
            use_type_invariant(self);
        }
        self.already_aired
    }
}

/// The whole seconds from `now` until `airing`, wrapped to 32 bits.
pub fn seconds_between(airing: i64, now: i64) -> (r: i32)
    ensures
        r == seconds_until(airing, now),
{
    let d: i128 = airing as i128 - now as i128;
    let q: i128 = if d >= 0 {
        d / 1000
    } else {
        -((-d) / 1000)
    };
    let x: i128 = q + 0x8000_0000;
    let m: i128 = if x >= 0 {
        x % 0x1_0000_0000
    } else {
        let y: i128 = (-x) % 0x1_0000_0000;
        if y == 0 {
            0
        } else {
            0x1_0000_0000 - y
        }
    };
    assert(m == (q + 0x8000_0000) % 0x1_0000_0000) by (nonlinear_arith)
        requires
            x == q + 0x8000_0000,
            x >= 0 ==> m == x % 0x1_0000_0000,
            x < 0 ==> ((-x) % 0x1_0000_0000 == 0 ==> m == 0) && ((-x) % 0x1_0000_0000 != 0 ==> m
                == 0x1_0000_0000 - (-x) % 0x1_0000_0000),
    ;
    (m - 0x8000_0000) as i32
}

/// Whether `anime` is the record of the schedule entry `item`, for the day
/// written as `date`, seen at `now`. Every field comes from the entry's
/// own node.
pub open spec fn scheduled_from(
    anime: ScheduledAnime,
    item: ElementRef<'static>,
    date: Seq<char>,
    now: i64,
) -> bool {
    &&& anime.spec_id() == opt_schedule_id(first_attr(query(item, SCHEDULE_LINK@), "href"@))
    &&& anime.spec_name() == opt_trimmed(first_text(query(item, SCHEDULE_TITLE@)))
    &&& anime.spec_jname() == opt_trimmed(
        first_attr(query(item, SCHEDULE_TITLE@), "data-jname"@),
    )
    &&& anime.spec_episode_number() == opt_episode_number(
        first_text(query(item, SCHEDULE_EPISODE@)),
    )
    &&& anime.spec_time() == Some(airing_time(item))
    &&& anime.spec_airing_timestamp() == airing_instant(date, airing_time(item))
    &&& anime.spec_seconds_until_airing() == seconds_until(
        airing_instant(date, airing_time(item)),
        now,
    )
    &&& anime.spec_already_aired() == (anime.spec_seconds_until_airing() <= 0)
}

/// Whether `r` is the schedule that `document` shows for the day written
/// as `date`, seen at `now`: no entries where the document says that it
/// has none, and one for each list item otherwise.
pub open spec fn schedule_from(r: ScrapedSchedule, document: Html, date: Seq<char>, now: i64) -> bool {
    let items = query_document(document, SCHEDULE_ENTRY@);
    if says_no_data(document) {
        r.animes@.len() == 0
    } else {
        &&& r.animes@.len() == items.len()
        &&& forall|i: int|
            0 <= i < items.len() ==> scheduled_from(#[trigger] r.animes@[i], items[i], date, now)
    }
}

/// The headers of a request for a schedule.
pub open spec fn schedule_headers() -> Seq<(Seq<char>, Seq<char>)> {
    seq![(ACCEPT@, ACCEPT_ANYTHING@), home_referer(), requested_with()]
}

fn date_of(year: u16, month: u8, day: u8) -> (r: Vec<char>)
    ensures
        r@ == date_text(year, month, day),
{
    let mut out: Vec<char> = Vec::new();
    push_decimal(&mut out, year as u64);
    append_str(&mut out, "-");
    push_decimal_two(&mut out, month as u64);
    append_str(&mut out, "-");
    push_decimal_two(&mut out, day as u64);
    assert(out@ =~= date_text(year, month, day));
    out
}

/// The request for the schedule of a day.
pub fn schedule_request(year: u16, month: u8, day: u8) -> (r: Request)
    ensures
        r.url@ == HiAnimeUtils::ScheduleUrl.address() + "?tzOffset=-330&date="@ + date_text(
            year,
            month,
            day,
        ),
        r.headers.deep_view() == schedule_headers(),
{
    let mut url = chars_of(HiAnimeUtils::ScheduleUrl.value());
    append_str(&mut url, "?tzOffset=-330&date=");
    append_text(&mut url, &date_of(year, month, day));
    let mut headers: Vec<(String, String)> = Vec::new();
    headers.push(header(ACCEPT, ACCEPT_ANYTHING));
    headers.push(header(REFERER, HiAnimeUtils::HomeUrl.value()));
    headers.push(header(X_REQUESTED_WITH, EnmaUtils::XRequestedWithHeader.value()));
    assert(headers.deep_view() =~= schedule_headers());
    request_with(string_of(&url), headers)
}

fn schedule_id_of(href: &Option<Vec<char>>) -> (r: Option<String>)
    ensures
        r.deep_view() == opt_schedule_id(opt_view(*href)),
{
    match href {
        Some(h) => Some(string_of(&drop_first_char(&trim(h)))),
        None => None,
    }
}

fn episode_number_in(label: &Option<Vec<char>>) -> (r: Option<u16>)
    ensures
        r == opt_episode_number(opt_view(*label)),
{
    match label {
        Some(t) => {
            parse_u16(&trim(&after_last(&trim(t), &single(' '))))
        },
        None => None,
    }
}

/// Reads the schedule of a day from the fragment that the site returned,
/// as it is seen at `now`, in milliseconds since the epoch.
pub fn schedule_at(html: &str, year: u16, month: u8, day: u8, now: i64) -> (r: ScrapedSchedule)
    ensures
        schedule_from(r, parsed_fragment(html@), date_text(year, month, day), now),
{
    let document = parse_fragment(html);
    let items = find_all_in_document(&document, &parse_selector(SCHEDULE_ENTRY));
    let mut animes: Vec<ScheduledAnime> = Vec::new();
    match text_of_first(&items) {
        Some(t) => {
            if contains(&trim(&t), &chars_of(NO_DATA_INDICATOR)) {
                return ScrapedSchedule { animes };
            }
        },
        None => {},
    }
    let date = date_of(year, month, day);
    let link = parse_selector(SCHEDULE_LINK);
    let title = parse_selector(SCHEDULE_TITLE);
    let time = parse_selector(SCHEDULE_TIME);
    let episode = parse_selector(SCHEDULE_EPISODE);
    let mut i: usize = 0;
    while i < items.len()
        invariant
            i <= items.len(),
            date@ == date_text(year, month, day),
            link == parsed_selector(SCHEDULE_LINK@),
            title == parsed_selector(SCHEDULE_TITLE@),
            time == parsed_selector(SCHEDULE_TIME@),
            episode == parsed_selector(SCHEDULE_EPISODE@),
            animes@.len() == i,
            forall|j: int|
                0 <= j < i ==> scheduled_from(#[trigger] animes@[j], items@[j], date@, now),
        decreases items.len() - i,
    {
        let item = items[i];
        let titles = find_all(item, &title);
        let airing_time = match text_of_first(&find_all(item, &time)) {
            Some(t) => trim(&t),
            None => Vec::new(),
        };
        let mut instant = slice_of(&date, 0, date.len());
        assert(instant@ == date@);
        append_str(&mut instant, "T");
        append_text(&mut instant, &airing_time);
        append_str(&mut instant, ":00+00:00");
        let airing_timestamp = match parse_rfc3339_millis(string_of(&instant).as_str()) {
            Some(t) => t,
            None => 0,
        };
        let anime = ScheduledAnime::new(
            schedule_id_of(&attr_of_first(&find_all(item, &link), "href")),
            opt_trimmed_string(&text_of_first(&titles)),
            opt_trimmed_string(&attr_of_first(&titles, "data-jname")),
            Some(string_of(&airing_time)),
            episode_number_in(&text_of_first(&find_all(item, &episode))),
            airing_timestamp,
            now,
        );
        assert(scheduled_from(anime, items@[i as int], date@, now));
        animes.push(anime);
        i += 1;
    }
    ScrapedSchedule { animes }
}

/// Reads the schedule of a day from the fragment that the site returned,
/// as it is seen at the time of the call.
pub fn parse_schedule(html: &str, year: u16, month: u8, day: u8) -> (r: ScrapedSchedule)
    ensures
        exists|now: i64|
            schedule_from(r, parsed_fragment(html@), date_text(year, month, day), now),
{
    let now = now_millis();
    schedule_at(html, year, month, day, now)
}

} // verus!
