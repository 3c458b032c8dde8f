//! Search filters and their encoding as query parameters.
//!
//! A set of filters holds at most one value for each kind of filter. Its
//! query parameters list the kinds in one fixed order, that of `FilterKind`.

use crate::number::{
    all_digits, decimal, digits_value, is_all_digits, is_digit, parse_number, push_decimal,
    unsigned_digits,
};
use crate::split::{begins_with, join, joined, pieces, split, starts_with};
use crate::tables::SearchPageFilters;
use crate::text::{chars_of, is_text, opt_view, rows, single, string_of};
use vstd::prelude::*;

verus! {

/// The kinds of filter: the ten that the search page knows, and one for
/// every key that it does not know.
#[derive(Debug, Clone, Copy, PartialEq, Eq, Structural)]
pub enum FilterKind {
    Type,
    Status,
    Rated,
    Score,
    Season,
    Language,
    StartDate,
    EndDate,
    Sort,
    Genres,
    Invalid,
}

/// A search filter: a kind and the value that the caller wrote for it.
/// Two filters are equal where they are of one kind.
#[derive(Debug, Clone)]
pub enum SearchFilter {
    Type(String),
    Status(String),
    Rated(String),
    Score(String),
    Season(String),
    Language(String),
    StartDate(String),
    EndDate(String),
    Sort(String),
    Genres(String),
    /// a filter of no known kind; it contributes nothing to a query
    Invalid,
}

/// How many kinds of filter there are.
pub const FILTER_KINDS: usize = 11;

impl FilterKind {
    /// The place of the kind in the fixed order.
    pub open spec fn index(self) -> int {
        match self {
            FilterKind::Type => 0,
            FilterKind::Status => 1,
            FilterKind::Rated => 2,
            FilterKind::Score => 3,
            FilterKind::Season => 4,
            FilterKind::Language => 5,
            FilterKind::StartDate => 6,
            FilterKind::EndDate => 7,
            FilterKind::Sort => 8,
            FilterKind::Genres => 9,
            FilterKind::Invalid => 10,
        }
    }

    /// The kind at a place of the fixed order.
    pub open spec fn at(i: int) -> FilterKind {
        if i == 0 {
            FilterKind::Type
        } else if i == 1 {
            FilterKind::Status
        } else if i == 2 {
            FilterKind::Rated
        } else if i == 3 {
            FilterKind::Score
        } else if i == 4 {
            FilterKind::Season
        } else if i == 5 {
            FilterKind::Language
        } else if i == 6 {
            FilterKind::StartDate
        } else if i == 7 {
            FilterKind::EndDate
        } else if i == 8 {
            FilterKind::Sort
        } else if i == 9 {
            FilterKind::Genres
        } else {
            FilterKind::Invalid
        }
    }

    /// The key under which the kind stands in a query.
    pub open spec fn key(self) -> Seq<char> {
        match self {
            FilterKind::Type => "type"@,
            FilterKind::Status => "status"@,
            FilterKind::Rated => "rated"@,
            FilterKind::Score => "score"@,
            FilterKind::Season => "season"@,
            FilterKind::Language => "language"@,
            FilterKind::StartDate => "start_date"@,
            FilterKind::EndDate => "end_date"@,
            FilterKind::Sort => "sort"@,
            FilterKind::Genres => "genres"@,
            FilterKind::Invalid => "_invalid_"@,
        }
    }

    /// The kind that a key names; `Invalid` for a key that names none.
    pub open spec fn named(key: Seq<char>) -> FilterKind {
        if key == "type"@ {
            FilterKind::Type
        } else if key == "status"@ {
            FilterKind::Status
        } else if key == "rated"@ {
            FilterKind::Rated
        } else if key == "score"@ {
            FilterKind::Score
        } else if key == "season"@ {
            FilterKind::Season
        } else if key == "language"@ {
            FilterKind::Language
        } else if key == "start_date"@ {
            FilterKind::StartDate
        } else if key == "end_date"@ {
            FilterKind::EndDate
        } else if key == "sort"@ {
            FilterKind::Sort
        } else if key == "genres"@ {
            FilterKind::Genres
        } else {
            FilterKind::Invalid
        }
    }

    /// Whether the kind expands to the three components of a date.
    pub open spec fn is_date(self) -> bool {
        self is StartDate || self is EndDate
    }

    pub fn position(self) -> (r: usize)
        ensures
            r == self.index(),
            r < FILTER_KINDS,
    {
        match self {
            FilterKind::Type => 0,
            FilterKind::Status => 1,
            FilterKind::Rated => 2,
            FilterKind::Score => 3,
            FilterKind::Season => 4,
            FilterKind::Language => 5,
            FilterKind::StartDate => 6,
            FilterKind::EndDate => 7,
            FilterKind::Sort => 8,
            FilterKind::Genres => 9,
            FilterKind::Invalid => 10,
        }
    }

    pub fn at_position(i: usize) -> (r: FilterKind)
        ensures
            r == Self::at(i as int),
    {
        if i == 0 {
            FilterKind::Type
        } else if i == 1 {
            FilterKind::Status
        } else if i == 2 {
            FilterKind::Rated
        } else if i == 3 {
            FilterKind::Score
        } else if i == 4 {
            FilterKind::Season
        } else if i == 5 {
            FilterKind::Language
        } else if i == 6 {
            FilterKind::StartDate
        } else if i == 7 {
            FilterKind::EndDate
        } else if i == 8 {
            FilterKind::Sort
        } else if i == 9 {
            FilterKind::Genres
        } else {
            FilterKind::Invalid
        }
    }

    pub fn name(self) -> (r: &'static str)
        ensures
            r@ == self.key(),
    {
        match self {
            FilterKind::Type => "type",
            FilterKind::Status => "status",
            FilterKind::Rated => "rated",
            FilterKind::Score => "score",
            FilterKind::Season => "season",
            FilterKind::Language => "language",
            FilterKind::StartDate => "start_date",
            FilterKind::EndDate => "end_date",
            FilterKind::Sort => "sort",
            FilterKind::Genres => "genres",
            FilterKind::Invalid => "_invalid_",
        }
    }

    /// Reads the kind that a key names.
    pub fn parse(key: &str) -> (r: FilterKind)
        ensures
            r == Self::named(key@),
    {
        let t = chars_of(key);
        if is_text(&t, "type") {
            FilterKind::Type
        } else if is_text(&t, "status") {
            FilterKind::Status
        } else if is_text(&t, "rated") {
            FilterKind::Rated
        } else if is_text(&t, "score") {
            FilterKind::Score
        } else if is_text(&t, "season") {
            FilterKind::Season
        } else if is_text(&t, "language") {
            FilterKind::Language
        } else if is_text(&t, "start_date") {
            FilterKind::StartDate
        } else if is_text(&t, "end_date") {
            FilterKind::EndDate
        } else if is_text(&t, "sort") {
            FilterKind::Sort
        } else if is_text(&t, "genres") {
            FilterKind::Genres
        } else {
            FilterKind::Invalid
        }
    }
}

impl PartialEq for SearchFilter {
    fn eq(&self, other: &Self) -> (r: bool) {
        self.kind() == other.kind()
    }
}

impl vstd::std_specs::cmp::PartialEqSpecImpl for SearchFilter {
    open spec fn obeys_eq_spec() -> bool {
        true
    }

    open spec fn eq_spec(&self, other: &Self) -> bool {
        self.kind_of() == other.kind_of()
    }
}

impl Eq for SearchFilter {

}

// ---------------------------------------------------------------------------
// Values
// ---------------------------------------------------------------------------

/// The text of an id; nothing for a name that has no id.
pub open spec fn id_text(id: Option<u8>) -> Seq<char> {
    match id {
        Some(n) => decimal(n as nat),
        None => Seq::empty(),
    }
}

/// A month or a day as a date filter writes it: one or two decimal digits,
/// the first of them not zero.
pub open spec fn is_numeral(s: Seq<char>) -> bool {
    &&& 1 <= s.len() <= 2
    &&& all_digits(s)
    &&& s[0] != '0'
}

/// The year, month and day of a date written as `YYYY-M-D`: four digits, a
/// month from 1 to 12 and a day from 1 to 31.
pub open spec fn date_parts(value: Seq<char>) -> Option<(nat, nat, nat)> {
    let p = pieces(value, seq!['-']);
    if p.len() == 3 && p[0].len() == 4 && all_digits(p[0]) && is_numeral(p[1]) && digits_value(
        p[1],
    ) <= 12 && is_numeral(p[2]) && digits_value(p[2]) <= 31 {
        Some((digits_value(p[0]), digits_value(p[1]), digits_value(p[2])))
    } else {
        None
    }
}

/// The three components of a date filter, their keys beginning with
/// `initial`; nothing for a value that is no date.
pub open spec fn date_components(value: Seq<char>, initial: char) -> Seq<char> {
    match date_parts(value) {
        Some((y, m, d)) => seq![initial, 'y', '='] + decimal(y) + seq!['&', initial, 'm', '=']
            + decimal(m) + seq!['&', initial, 'd', '='] + decimal(d),
        None => Seq::empty(),
    }
}

/// The ids of the genres among `names` that have one, in the order of `names`.
pub open spec fn genre_ids(names: Seq<Seq<char>>) -> Seq<Seq<char>>
    decreases names.len(),
{
    if names.len() == 0 {
        Seq::empty()
    } else {
        match SearchPageFilters::genre_id(names.last()) {
            Some(id) => genre_ids(names.drop_last()).push(decimal(id as nat)),
            None => genre_ids(names.drop_last()),
        }
    }
}

/// The value of a genres filter for the given names: the ids of those that
/// are genres, with commas between them.
pub open spec fn genres_value(names: Seq<Seq<char>>) -> Option<Seq<char>> {
    if names.len() == 0 {
        None
    } else {
        Some(joined(genre_ids(names), seq![',']))
    }
}

/// What a filter of the given kind and value contributes as the value of
/// its query parameter. An empty text contributes nothing.
pub open spec fn mapped(kind: FilterKind, value: Seq<char>) -> Seq<char> {
    match kind {
        FilterKind::Type => id_text(SearchPageFilters::type_id(value)),
        FilterKind::Status => id_text(SearchPageFilters::status_id(value)),
        FilterKind::Rated => id_text(SearchPageFilters::rated_id(value)),
        FilterKind::Score => id_text(SearchPageFilters::score_id(value)),
        FilterKind::Season => match SearchPageFilters::season_id(value) {
            Some(n) => decimal(n as nat),
            None => "default"@,
        },
        FilterKind::Language => id_text(SearchPageFilters::language_id(value)),
        FilterKind::StartDate => date_components(value, 's'),
        FilterKind::EndDate => date_components(value, 'e'),
        FilterKind::Sort => match SearchPageFilters::sort_id(value) {
            Some(s) => s,
            None => Seq::empty(),
        },
        FilterKind::Genres => match genres_value(pieces(value, seq![','])) {
            Some(v) => v,
            None => Seq::empty(),
        },
        FilterKind::Invalid => Seq::empty(),
    }
}

/// The component of a query that a filter contributes, if it contributes
/// one: `key=value`, or the three components of a date.
pub open spec fn component(kind: FilterKind, value: Seq<char>) -> Option<Seq<char>> {
    let m = mapped(kind, value);
    if m.len() == 0 {
        None
    } else if kind.is_date() {
        Some(m)
    } else {
        Some(kind.key() + seq!['='] + m)
    }
}

/// The components that the first `n` kinds contribute, in order.
pub open spec fn components(slots: Seq<Option<Seq<char>>>, n: int) -> Seq<Seq<char>>
    decreases n,
{
    if n <= 0 {
        Seq::empty()
    } else {
        let before = components(slots, n - 1);
        match slots[n - 1] {
            Some(v) => match component(FilterKind::at(n - 1), v) {
                Some(c) => before.push(c),
                None => before,
            },
            None => before,
        }
    }
}

/// The query parameters of a set of filters: the components of its filters
/// in the fixed order of the kinds, with `&` between them.
pub open spec fn query_params(slots: Seq<Option<Seq<char>>>) -> Seq<char> {
    joined(components(slots, FILTER_KINDS as int), seq!['&'])
}

fn id_string(id: Option<u8>) -> (r: Vec<char>)
    ensures
        r@ == id_text(id),
{
    let mut out: Vec<char> = Vec::new();
    match id {
        Some(n) => {
            push_decimal(&mut out, n as u64);
            assert(out@ == decimal(n as nat));
        },
        None => {},
    }
    out
}

/// The three components of a date filter.
fn date_text(value: &Vec<char>, initial: char) -> (r: Vec<char>)
    ensures
        r@ == date_components(value@, initial),
{
    let dash = single('-');
    let p = split(value, &dash);
    assert(rows(p@) == pieces(value@, seq!['-']));
    if p.len() != 3 {
        return Vec::new();
    }
    assert(rows(p@)[0] == p@[0]@ && rows(p@)[1] == p@[1]@ && rows(p@)[2] == p@[2]@);
    let year = &p[0];
    let month = &p[1];
    let day = &p[2];
    if year.len() != 4 || !is_all_digits(year) {
        return Vec::new();
    }
    if month.len() < 1 || month.len() > 2 || !is_all_digits(month) || month[0] == '0' {
        return Vec::new();
    }
    if day.len() < 1 || day.len() > 2 || !is_all_digits(day) || day[0] == '0' {
        return Vec::new();
    }
    assert(unsigned_digits(year@) == year@ && unsigned_digits(month@) == month@ && unsigned_digits(
        day@,
    ) == day@) by {
        assert(is_digit(year@[0]));
        assert(is_digit(month@[0]));
        assert(is_digit(day@[0]));
    }
    proof {
        lemma_four_digits(year@);
    }
    let y = parse_number(year, 9999);
    let m = parse_number(month, 12);
    let d = parse_number(day, 31);
    match (y, m, d) {
        (Some(y), Some(m), Some(d)) => {
            let mut out: Vec<char> = Vec::new();
            out.push(initial);
            out.push('y');
            out.push('=');
            push_decimal(&mut out, y);
            out.push('&');
            out.push(initial);
            out.push('m');
            out.push('=');
            push_decimal(&mut out, m);
            out.push('&');
            out.push(initial);
            out.push('d');
            out.push('=');
            push_decimal(&mut out, d);
            assert(out@ == date_components(value@, initial));
            out
        },
        _ => Vec::new(),
    }
}

/// Four decimal digits stand for a number below ten thousand.
pub proof fn lemma_four_digits(s: Seq<char>)
    requires
        s.len() == 4,
        all_digits(s),
    ensures
        digits_value(s) <= 9999,
{
    let s3 = s.drop_last();
    let s2 = s3.drop_last();
    let s1 = s2.drop_last();
    let s0 = s1.drop_last();
    assert(is_digit(s[3]) && is_digit(s[2])
        && is_digit(s[1]) && is_digit(s[0]));
    assert(s3.last() == s[2] && s2.last() == s[1] && s1.last() == s[0]);
    assert(digits_value(s0) == 0);
    assert(digits_value(s1) <= 9);
    assert(digits_value(s2) <= 99);
    assert(digits_value(s3) <= 999);
}

impl SearchFilter {
    /// The kind of the filter.
    pub open spec fn kind_of(self) -> FilterKind {
        match self {
            SearchFilter::Type(_) => FilterKind::Type,
            SearchFilter::Status(_) => FilterKind::Status,
            SearchFilter::Rated(_) => FilterKind::Rated,
            SearchFilter::Score(_) => FilterKind::Score,
            SearchFilter::Season(_) => FilterKind::Season,
            SearchFilter::Language(_) => FilterKind::Language,
            SearchFilter::StartDate(_) => FilterKind::StartDate,
            SearchFilter::EndDate(_) => FilterKind::EndDate,
            SearchFilter::Sort(_) => FilterKind::Sort,
            SearchFilter::Genres(_) => FilterKind::Genres,
            SearchFilter::Invalid => FilterKind::Invalid,
        }
    }

    /// The value that the caller wrote; a fixed text for a filter of no kind.
    pub open spec fn value_of(self) -> Seq<char> {
        match self {
            SearchFilter::Type(v) => v@,
            SearchFilter::Status(v) => v@,
            SearchFilter::Rated(v) => v@,
            SearchFilter::Score(v) => v@,
            SearchFilter::Season(v) => v@,
            SearchFilter::Language(v) => v@,
            SearchFilter::StartDate(v) => v@,
            SearchFilter::EndDate(v) => v@,
            SearchFilter::Sort(v) => v@,
            SearchFilter::Genres(v) => v@,
            SearchFilter::Invalid => "_invalid_value_"@,
        }
    }

    pub fn kind(&self) -> (r: FilterKind)
        ensures
            r == self.kind_of(),
    {
        match self {
            SearchFilter::Type(_) => FilterKind::Type,
            SearchFilter::Status(_) => FilterKind::Status,
            SearchFilter::Rated(_) => FilterKind::Rated,
            SearchFilter::Score(_) => FilterKind::Score,
            SearchFilter::Season(_) => FilterKind::Season,
            SearchFilter::Language(_) => FilterKind::Language,
            SearchFilter::StartDate(_) => FilterKind::StartDate,
            SearchFilter::EndDate(_) => FilterKind::EndDate,
            SearchFilter::Sort(_) => FilterKind::Sort,
            SearchFilter::Genres(_) => FilterKind::Genres,
            SearchFilter::Invalid => FilterKind::Invalid,
        }
    }

    /// Whether a key names one of the ten kinds of filter.
    pub fn is_valid(filter_key: &'static str) -> (r: bool)
        ensures
            r == !(FilterKind::named(filter_key@) is Invalid),
    {
        match FilterKind::parse(filter_key) {
            FilterKind::Invalid => false,
            _ => true,
        }
    }

    /// The filter of the kind that a key names, with the given value.
    pub fn from_raw(filter_key: &'static str, filter_value: String) -> (r: Self)
        ensures
            r.kind_of() == FilterKind::named(filter_key@),
            !(r is Invalid) ==> r.value_of() == filter_value@,
    {
        match FilterKind::parse(filter_key) {
            FilterKind::Type => SearchFilter::Type(filter_value),
            FilterKind::Status => SearchFilter::Status(filter_value),
            FilterKind::Rated => SearchFilter::Rated(filter_value),
            FilterKind::Score => SearchFilter::Score(filter_value),
            FilterKind::Season => SearchFilter::Season(filter_value),
            FilterKind::Language => SearchFilter::Language(filter_value),
            FilterKind::StartDate => SearchFilter::StartDate(filter_value),
            FilterKind::EndDate => SearchFilter::EndDate(filter_value),
            FilterKind::Sort => SearchFilter::Sort(filter_value),
            FilterKind::Genres => SearchFilter::Genres(filter_value),
            FilterKind::Invalid => SearchFilter::Invalid,
        }
    }

    /// The key under which the filter stands in a query.
    pub fn to_string(&self) -> (r: String)
        ensures
            r@ == self.kind_of().key(),
    {
        string_of(&chars_of(self.kind().name()))
    }

    /// The value that the caller wrote.
    pub fn value(&self) -> (r: String)
        ensures
            r@ == self.value_of(),
    {
        match self {
            SearchFilter::Type(v) => v.clone(),
            SearchFilter::Status(v) => v.clone(),
            SearchFilter::Rated(v) => v.clone(),
            SearchFilter::Score(v) => v.clone(),
            SearchFilter::Season(v) => v.clone(),
            SearchFilter::Language(v) => v.clone(),
            SearchFilter::StartDate(v) => v.clone(),
            SearchFilter::EndDate(v) => v.clone(),
            SearchFilter::Sort(v) => v.clone(),
            SearchFilter::Genres(v) => v.clone(),
            SearchFilter::Invalid => string_of(&chars_of("_invalid_value_")),
        }
    }

    /// The value that the caller wrote, taken out of the filter.
    pub fn into_value(self) -> (r: String)
        ensures
            r@ == self.value_of(),
    {
        match self {
            SearchFilter::Type(v) => v,
            SearchFilter::Status(v) => v,
            SearchFilter::Rated(v) => v,
            SearchFilter::Score(v) => v,
            SearchFilter::Season(v) => v,
            SearchFilter::Language(v) => v,
            SearchFilter::StartDate(v) => v,
            SearchFilter::EndDate(v) => v,
            SearchFilter::Sort(v) => v,
            SearchFilter::Genres(v) => v,
            SearchFilter::Invalid => string_of(&chars_of("_invalid_value_")),
        }
    }

    /// What a filter of the given kind and value contributes as the value
    /// of its query parameter.
    pub fn mapped_for(kind: FilterKind, value: &str) -> (r: Vec<char>)
        ensures
            r@ == mapped(kind, value@),
    {
        match kind {
            FilterKind::Type => id_string(SearchPageFilters::anime_type(value)),
            FilterKind::Status => id_string(SearchPageFilters::status(value)),
            FilterKind::Rated => id_string(SearchPageFilters::rated(value)),
            FilterKind::Score => id_string(SearchPageFilters::score(value)),
            FilterKind::Season => match SearchPageFilters::season(value) {
                Some(n) => {
                    let mut out: Vec<char> = Vec::new();
                    push_decimal(&mut out, n as u64);
                    assert(out@ == decimal(n as nat));
                    out
                },
                None => chars_of("default"),
            },
            FilterKind::Language => id_string(SearchPageFilters::language(value)),
            FilterKind::StartDate => date_text(&chars_of(value), 's'),
            FilterKind::EndDate => date_text(&chars_of(value), 'e'),
            FilterKind::Sort => match SearchPageFilters::sort(value) {
                Some(s) => chars_of(s),
                None => Vec::new(),
            },
            FilterKind::Genres => {
                let comma = single(',');
                let names = split(&chars_of(value), &comma);
                match genres_text(&names) {
                    Some(v) => v,
                    None => Vec::new(),
                }
            },
            FilterKind::Invalid => Vec::new(),
        }
    }

    /// What the filter contributes as the value of its query parameter.
    pub fn mapped_value(&self) -> (r: String)
        ensures
            r@ == mapped(self.kind_of(), self.value_of()),
    {
        let value = self.value();
        let m = Self::mapped_for(self.kind(), value.as_str());
        string_of(&m)
    }

    /// The three components of a date filter. The category tells the start
    /// date from the end date: it begins with `start` for the first.
    pub fn get_date_filter_value(raw_value: &String, category: &String) -> (r: String)
        ensures
            r@ == date_components(
                raw_value@,
                if begins_with(category@, "start"@) {
                    's'
                } else {
                    'e'
                },
            ),
    {
        let initial = if starts_with(&chars_of(category.as_str()), &chars_of("start")) {
            's'
        } else {
            'e'
        };
        let out = date_text(&chars_of(raw_value.as_str()), initial);
        string_of(&out)
    }

    /// The value of a genres filter for the given names of genres: the ids
    /// of those that are genres, with commas between them. There is no
    /// value for no names.
    pub fn get_genres_filter_value(genre_names: Vec<String>) -> (r: Option<String>)
        ensures
            r.deep_view() == genres_value(genre_names.deep_view()),
    {
        let mut names: Vec<Vec<char>> = Vec::new();
        let mut i: usize = 0;
        while i < genre_names.len()
            invariant
                i <= genre_names.len(),
                rows(names@) == genre_names.deep_view().take(i as int),
            decreases genre_names.len() - i,
        {
            let name = chars_of(genre_names[i].as_str());
            let ghost before = rows(names@);
            names.push(name);
            assert(rows(names@) =~= before.push(name@));
            assert(genre_names.deep_view()[i as int] == genre_names@[i as int]@);
            assert(genre_names.deep_view().take(i + 1) =~= genre_names.deep_view().take(
                i as int,
            ).push(name@));
            i += 1;
        }
        assert(genre_names.deep_view().take(genre_names.len() as int)
            == genre_names.deep_view());
        match genres_text(&names) {
            Some(v) => Some(string_of(&v)),
            None => None,
        }
    }
}

/// The value of a genres filter for the given names.
pub fn genres_text(names: &Vec<Vec<char>>) -> (r: Option<Vec<char>>)
    ensures
        opt_view(r) == genres_value(rows(names@)),
{
    if names.len() == 0 {
        return None;
    }
    let mut ids: Vec<Vec<char>> = Vec::new();
    let mut i: usize = 0;
    while i < names.len()
        invariant
            i <= names.len(),
            rows(ids@) == genre_ids(rows(names@).take(i as int)),
        decreases names.len() - i,
    {
        assert(rows(names@).take(i + 1).drop_last() == rows(names@).take(i as int));
        assert(rows(names@).take(i + 1).last() == names@[i as int]@);
        let name = string_of(&names[i]);
        match SearchPageFilters::genre(name.as_str()) {
            Some(id) => {
                let ghost before = rows(ids@);
                let text = id_string(Some(id));
                ids.push(text);
                assert(rows(ids@) == before.push(decimal(id as nat)));
            },
            None => {},
        }
        i += 1;
    }
    assert(rows(names@).take(names.len() as int) == rows(names@));
    let comma = single(',');
    Some(join(&ids, &comma))
}

} // verus!
