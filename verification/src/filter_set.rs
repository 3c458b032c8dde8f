//! Sets of search filters.

use crate::filters::{
    component, components, date_components, date_parts, genre_ids, query_params, FilterKind,
    SearchFilter, FILTER_KINDS,
};
use crate::number::decimal;
use crate::split::join;
use crate::tables::SearchPageFilters;
use crate::text::{append_text, chars_of, opt_view, rows, single, string_of};
use vstd::prelude::*;

verus! {

/// A set of search filters: at most one value for each kind of filter.
#[derive(Debug)]
pub struct SearchFilters {
    slots: Vec<Option<String>>,
}

/// The value of the last filter of the given kind among `filters`.
pub open spec fn last_of_kind(filters: Seq<SearchFilter>, kind: FilterKind) -> Option<Seq<char>>
    decreases filters.len(),
{
    if filters.len() == 0 {
        None
    } else if filters.last().kind_of() == kind {
        Some(filters.last().value_of())
    } else {
        last_of_kind(filters.drop_last(), kind)
    }
}

/// The set that a list of filters makes: for each kind, in the fixed order
/// of the kinds, the value of the last filter of that kind.
pub open spec fn chosen(filters: Seq<SearchFilter>) -> Seq<Option<Seq<char>>> {
    Seq::new(FILTER_KINDS as nat, |i: int| last_of_kind(filters, FilterKind::at(i)))
}

impl View for SearchFilters {
    type V = Seq<Option<Seq<char>>>;

    /// For each kind, in the fixed order of the kinds, the value that the
    /// set holds for it.
    closed spec fn view(&self) -> Seq<Option<Seq<char>>> {
        self.slots.deep_view()
    }
}

/// The component that a filter contributes to a query, if any.
pub fn component_text(kind: FilterKind, value: &str) -> (r: Option<Vec<char>>)
    ensures
        opt_view(r) == component(kind, value@),
{
    let m = SearchFilter::mapped_for(kind, value);
    if m.len() == 0 {
        return None;
    }
    match kind {
        FilterKind::StartDate => Some(m),
        FilterKind::EndDate => Some(m),
        _ => {
            let mut out = chars_of(kind.name());
            out.push('=');
            append_text(&mut out, &m);
            assert(out@ == kind.key() + seq!['='] + m@);
            Some(out)
        },
    }
}

impl SearchFilters {
    #[verifier::type_invariant]
    spec fn well_formed(&self) -> bool {
        self.slots.len() == FILTER_KINDS
    }

    /// The set that the given filters make. Of two filters of one kind the
    /// later one stays.
    pub fn new(filters: Vec<SearchFilter>) -> (r: SearchFilters)
        ensures
            r@ == chosen(filters@),
    {
        let ghost all = filters@;
        let mut filters = filters;
        let mut slots: Vec<Option<String>> = Vec::new();
        while slots.len() < FILTER_KINDS
            invariant
                slots.len() <= FILTER_KINDS,
                forall|i: int| 0 <= i < slots.len() ==> slots@[i] is None,
            decreases FILTER_KINDS - slots.len(),
        {
            slots.push(None);
        }
        while filters.len() > 0
            invariant
                slots.len() == FILTER_KINDS,
                forall|i: int|
                    0 <= i < FILTER_KINDS ==> match #[trigger] slots@[i] {
                        Some(v) => last_of_kind(all, FilterKind::at(i)) == Some(v@),
                        None => last_of_kind(all, FilterKind::at(i)) == last_of_kind(
                            filters@,
                            FilterKind::at(i),
                        ),
                    },
            decreases filters.len(),
        {
            let ghost before = filters@;
            let filter = filters.pop().unwrap();
            assert(before.drop_last() == filters@ && before.last() == filter);
            let at = filter.kind().position();
            assert(FilterKind::at(at as int) == filter.kind_of());
            assert(forall|i: int|
                0 <= i < FILTER_KINDS && i != at ==> FilterKind::at(i) != filter.kind_of());
            if slots[at].is_none() {
                slots[at] = Some(filter.into_value());
            }
        }
        let r = SearchFilters { slots };
        assert(r@ =~= chosen(all)) by {
            assert forall|i: int| 0 <= i < FILTER_KINDS implies r@[i] == chosen(all)[i] by {
                assert(r@[i] == slots@[i].deep_view());
            }
        }
        r
    }

    /// Whether the set holds no filter at all.
    pub fn is_empty(&self) -> (r: bool)
        ensures
            r == (forall|i: int| 0 <= i < FILTER_KINDS ==> self@[i] is None),
            self@.len() == FILTER_KINDS,
    {
        proof {
            use_type_invariant(self);
        }
        let mut i: usize = 0;
        while i < FILTER_KINDS
            invariant
                i <= FILTER_KINDS,
                self.slots.len() == FILTER_KINDS,
                forall|j: int| 0 <= j < i ==> self@[j] is None,
            decreases FILTER_KINDS - i,
        {
            assert(self@[i as int] == self.slots@[i as int].deep_view());
            if self.slots[i].is_some() {
                return false;
            }
            i += 1;
        }
        true
    }

    /// The value that the set holds for a kind of filter.
    pub fn get(&self, kind: FilterKind) -> (r: Option<String>)
        ensures
            r.deep_view() == self@[kind.index()],
            self@.len() == FILTER_KINDS,
    {
        proof {
            use_type_invariant(self);
        }
        let at = kind.position();
        assert(self@[at as int] == self.slots@[at as int].deep_view());
        match &self.slots[at] {
            Some(v) => Some(v.clone()),
            None => None,
        }
    }

    /// The query parameters of the set: the components of its filters in the
    /// fixed order of the kinds, with `&` between them.
    pub fn to_query_params(&self) -> (r: String)
        ensures
            r@ == query_params(self@),
    {
        proof {
            use_type_invariant(self);
        }
        let mut parts: Vec<Vec<char>> = Vec::new();
        let mut i: usize = 0;
        while i < FILTER_KINDS
            invariant
                i <= FILTER_KINDS,
                self.slots.len() == FILTER_KINDS,
                rows(parts@) == components(self@, i as int),
            decreases FILTER_KINDS - i,
        {
            assert(self@[i as int] == self.slots@[i as int].deep_view());
            let ghost before = rows(parts@);
            match &self.slots[i] {
                Some(v) => match component_text(FilterKind::at_position(i), v.as_str()) {
                    Some(c) => {
                        parts.push(c);
                        assert(rows(parts@) =~= before.push(c@));
                    },
                    None => {},
                },
                None => {},
            }
            i += 1;
        }
        string_of(&join(&parts, &single('&')))
    }
}

impl Clone for SearchFilters {
    fn clone(&self) -> (r: SearchFilters)
        ensures
            r@ == self@,
    {
        proof {
            use_type_invariant(self);
        }
        let mut slots: Vec<Option<String>> = Vec::new();
        let mut i: usize = 0;
        while i < FILTER_KINDS
            invariant
                i <= FILTER_KINDS,
                self.slots.len() == FILTER_KINDS,
                slots@ == self.slots@.take(i as int),
            decreases FILTER_KINDS - i,
        {
            let slot = match &self.slots[i] {
                Some(v) => Some(v.clone()),
                None => None,
            };
            slots.push(slot);
            assert(slots@ == self.slots@.take(i + 1));
            i += 1;
        }
        assert(self.slots@.take(FILTER_KINDS as int) == self.slots@);
        SearchFilters { slots }
    }
}

impl Default for SearchFilters {
    /// The set without filters.
    fn default() -> (r: SearchFilters)
        ensures
            r@ == chosen(Seq::empty()),
    {
        SearchFilters::new(Vec::new())
    }
}

/// Two lists of filters that agree, for every kind, on the last filter of
/// that kind make the same set and so the same query parameters: the
/// encoding is a function of the set alone, whatever the order in which the
/// filters of different kinds were given.
pub proof fn lemma_encoding_depends_on_set_only(a: Seq<SearchFilter>, b: Seq<SearchFilter>)
    requires
        forall|k: FilterKind| last_of_kind(a, k) == last_of_kind(b, k),
    ensures
        chosen(a) == chosen(b),
        query_params(chosen(a)) == query_params(chosen(b)),
{
    assert(chosen(a) =~= chosen(b));
}

/// A season filter always contributes a component: the id of a season that
/// the table knows, and the word `default` for any other name.
pub proof fn lemma_season_always_contributes(value: Seq<char>)
    ensures
        component(FilterKind::Season, value) is Some,
        SearchPageFilters::season_id(value) is None ==> component(FilterKind::Season, value)
            == Some("season"@ + seq!['='] + "default"@),
{
    reveal_strlit("default");
    match SearchPageFilters::season_id(value) {
        Some(n) => {
            lemma_decimal_nonempty(n as nat);
        },
        None => {
            assert("default"@.len() == 7);
        },
    }
}

/// A number has at least one decimal digit.
pub proof fn lemma_decimal_nonempty(n: nat)
    ensures
        decimal(n).len() > 0,
    decreases n,
{
    if n >= 10 {
        lemma_decimal_nonempty(n / 10);
    }
}

/// A filter of a kind other than season whose value its table does not
/// know contributes nothing.
pub proof fn lemma_unknown_value_contributes_nothing(kind: FilterKind, value: Seq<char>)
    requires
        match kind {
            FilterKind::Type => SearchPageFilters::type_id(value) is None,
            FilterKind::Status => SearchPageFilters::status_id(value) is None,
            FilterKind::Rated => SearchPageFilters::rated_id(value) is None,
            FilterKind::Score => SearchPageFilters::score_id(value) is None,
            FilterKind::Language => SearchPageFilters::language_id(value) is None,
            FilterKind::Sort => SearchPageFilters::sort_id(value) is None,
            FilterKind::Invalid => true,
            _ => false,
        },
    ensures
        component(kind, value) is None,
{
}

/// The ids of a list of names are the ids of its first part and then
/// those of its second part.
pub proof fn lemma_genre_ids_of_parts(a: Seq<Seq<char>>, b: Seq<Seq<char>>)
    ensures
        genre_ids(a + b) == genre_ids(a) + genre_ids(b),
    decreases b.len(),
{
    if b.len() == 0 {
        assert(a + b == a);
        assert(genre_ids(a) + genre_ids(b) == genre_ids(a));
    } else {
        lemma_genre_ids_of_parts(a, b.drop_last());
        assert((a + b).drop_last() == a + b.drop_last());
        assert((a + b).last() == b.last());
        match SearchPageFilters::genre_id(b.last()) {
            Some(id) => {
                assert((genre_ids(a) + genre_ids(b.drop_last())).push(decimal(id as nat))
                    == genre_ids(a) + genre_ids(b.drop_last()).push(decimal(id as nat)));
            },
            None => {},
        }
    }
}

/// A name that is no genre leaves no trace in the value of a genres
/// filter: the ids are those of the other names, wherever the name stands.
pub proof fn lemma_unknown_genre_is_dropped(
    before: Seq<Seq<char>>,
    name: Seq<char>,
    after: Seq<Seq<char>>,
)
    requires
        SearchPageFilters::genre_id(name) is None,
    ensures
        genre_ids(before + seq![name] + after) == genre_ids(before + after),
{
    lemma_genre_ids_of_parts(before + seq![name], after);
    lemma_genre_ids_of_parts(before, seq![name]);
    lemma_genre_ids_of_parts(before, after);
    assert(seq![name].drop_last() == Seq::<Seq<char>>::empty());
    assert(seq![name].last() == name);
    assert(genre_ids(Seq::<Seq<char>>::empty()) == Seq::<Seq<char>>::empty());
    assert(genre_ids(seq![name]) == Seq::<Seq<char>>::empty());
    assert(genre_ids(before) + Seq::<Seq<char>>::empty() == genre_ids(before));
}

/// A date filter whose value is a date contributes its three components
/// as they are, without the key of the filter before them.
pub proof fn lemma_date_expands_without_key(value: Seq<char>)
    requires
        date_parts(value) is Some,
    ensures
        component(FilterKind::StartDate, value) == Some(date_components(value, 's')),
        component(FilterKind::EndDate, value) == Some(date_components(value, 'e')),
{
    assert(date_components(value, 's').len() > 0);
    assert(date_components(value, 'e').len() > 0);
}

} // verus!
