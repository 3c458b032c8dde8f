//! Pagination of a listing page, and the genres of its sidebar.

use crate::dom::{
    attribute_of, document_matches, element_attr, element_has_class, element_text,
    find_all_in_document, first_of, has_class, parse_selector, query_document, select_in_document,
    texts_of,
};
use crate::number::{parse_u16, parsed_u16};
use crate::split::{after_last, last_piece};
use crate::text::{opt_view, single, string_of};
use crate::utils::HiAnimeUtils;
use scraper::{ElementRef, Html, Selector};
use vstd::prelude::*;

verus! {

/// The entries of the pagination control.
pub const PAGE_ENTRIES: &'static str = ".pagination > li";

/// The entries of the pagination control that are marked active.
pub const PAGE_ACTIVE: &'static str = ".pagination li.active";

/// The link to the last page.
pub const PAGE_LAST_LINK: &'static str = ".pagination > .page-item a[title=\"Last\"]";

/// The link to the next page.
pub const PAGE_NEXT_LINK: &'static str = ".pagination > .page-item a[title=\"Next\"]";

/// The link of the active page.
pub const PAGE_ACTIVE_LINK: &'static str = ".pagination > .page-item.active a";

/// The class that marks the entry of the current page.
pub const ACTIVE: &'static str = "active";

/// The value of the attribute `name` of the first of `found` that has it.
pub open spec fn first_with_attr(found: Seq<ElementRef<'static>>, name: Seq<char>) -> Option<
    Seq<char>,
>
    decreases found.len(),
{
    if found.len() == 0 {
        None
    } else {
        match attribute_of(found[0], name) {
            Some(v) => Some(v),
            None => first_with_attr(found.drop_first(), name),
        }
    }
}

/// The first text node below the first of `found` that has one.
pub open spec fn first_text_among(found: Seq<ElementRef<'static>>) -> Option<Seq<char>>
    decreases found.len(),
{
    if found.len() == 0 {
        None
    } else {
        match first_of(texts_of(found[0])) {
            Some(t) => Some(t),
            None => first_text_among(found.drop_first()),
        }
    }
}

/// The first text nodes of those of `found` that have one, in order.
pub open spec fn first_texts(found: Seq<ElementRef<'static>>) -> Seq<Seq<char>>
    decreases found.len(),
{
    if found.len() == 0 {
        Seq::empty()
    } else {
        match first_of(texts_of(found.last())) {
            Some(t) => first_texts(found.drop_last()).push(t),
            None => first_texts(found.drop_last()),
        }
    }
}

/// The page number behind the last `=` of the first link target among
/// `links`, if that reads as a number.
pub open spec fn link_page(links: Seq<ElementRef<'static>>) -> Option<u16> {
    match first_with_attr(links, "href"@) {
        Some(href) => parsed_u16(last_piece(href, seq!['='])),
        None => None,
    }
}

/// The page number written in the first text among `links`.
pub open spec fn text_page(links: Seq<ElementRef<'static>>) -> Option<u16> {
    match first_text_among(links) {
        Some(t) => parsed_u16(t),
        None => None,
    }
}

/// Whether a page follows the current one: there is a pagination control,
/// one of its entries is marked active, and its last entry is not.
pub open spec fn next_page_exists(document: Html) -> bool {
    let entries = query_document(document, PAGE_ENTRIES@);
    &&& entries.len() > 0
    &&& query_document(document, PAGE_ACTIVE@).len() > 0
    &&& !has_class(entries.last(), ACTIVE@)
}

/// The number of pages: the number in the target of the link to the last
/// page; without one, that in the target of the link to the next page;
/// without one, the number written on the active entry; without one, 1.
pub open spec fn total_pages(document: Html) -> u16 {
    match link_page(query_document(document, PAGE_LAST_LINK@)) {
        Some(n) => n,
        None => match link_page(query_document(document, PAGE_NEXT_LINK@)) {
            Some(n) => n,
            None => match text_page(query_document(document, PAGE_ACTIVE_LINK@)) {
                Some(n) => n,
                None => 1,
            },
        },
    }
}

/// Whether a document has no pagination control: none of the queries for
/// its parts finds anything.
pub open spec fn lacks_pagination(document: Html) -> bool {
    &&& query_document(document, PAGE_ENTRIES@).len() == 0
    &&& query_document(document, PAGE_LAST_LINK@).len() == 0
    &&& query_document(document, PAGE_NEXT_LINK@).len() == 0
    &&& query_document(document, PAGE_ACTIVE_LINK@).len() == 0
}

/// A document without a pagination control has one page and no next page.
pub proof fn lemma_no_pagination(document: Html)
    requires
        lacks_pagination(document),
    ensures
        !next_page_exists(document),
        total_pages(document) == 1,
{
}

/// A document whose last pagination entry is marked active has no next page.
pub proof fn lemma_last_entry_active(document: Html)
    requires
        query_document(document, PAGE_ENTRIES@).len() > 0,
        has_class(query_document(document, PAGE_ENTRIES@).last(), ACTIVE@),
    ensures
        !next_page_exists(document),
{
}

/// The value of the attribute `name` of the first of `found` that has it.
pub fn attr_of_first_with<'a>(found: &Vec<ElementRef<'a>>, name: &str) -> (r: Option<Vec<char>>)
    ensures
        opt_view(r) == first_with_attr(found@, name@),
{
    let mut i: usize = 0;
    assert(found@.subrange(0, found.len() as int) == found@);
    while i < found.len()
        invariant
            i <= found.len(),
            first_with_attr(found@, name@) == first_with_attr(
                found@.subrange(i as int, found.len() as int),
                name@,
            ),
        decreases found.len() - i,
    {
        let ghost rest = found@.subrange(i as int, found.len() as int);
        assert(rest[0] == found@[i as int]);
        assert(rest.drop_first() == found@.subrange(i + 1, found.len() as int));
        match element_attr(found[i], name) {
            Some(v) => {
                return Some(v);
            },
            None => {},
        }
        i += 1;
    }
    None
}

/// The first text node below the first of `found` that has one.
pub fn text_of_first_with<'a>(found: &Vec<ElementRef<'a>>) -> (r: Option<Vec<char>>)
    ensures
        opt_view(r) == first_text_among(found@),
{
    let mut i: usize = 0;
    assert(found@.subrange(0, found.len() as int) == found@);
    while i < found.len()
        invariant
            i <= found.len(),
            first_text_among(found@) == first_text_among(
                found@.subrange(i as int, found.len() as int),
            ),
        decreases found.len() - i,
    {
        let ghost rest = found@.subrange(i as int, found.len() as int);
        assert(rest[0] == found@[i as int]);
        assert(rest.drop_first() == found@.subrange(i + 1, found.len() as int));
        match element_text(found[i]) {
            Some(t) => {
                return Some(t);
            },
            None => {},
        }
        i += 1;
    }
    None
}

/// The page number in the first link target among `links`.
fn page_of_link<'a>(links: &Vec<ElementRef<'a>>) -> (r: Option<u16>)
    ensures
        r == link_page(links@),
{
    match attr_of_first_with(links, "href") {
        Some(href) => {
            let number = after_last(&href, &single('='));
            parse_u16(&number)
        },
        None => None,
    }
}

impl HiAnimeUtils {
    /// Whether a page follows the current one.
    pub fn has_next_page(document: &Html) -> (r: bool)
        ensures
            r == next_page_exists(*document),
    {
        let entries = find_all_in_document(document, &parse_selector(PAGE_ENTRIES));
        if entries.len() == 0 {
            return false;
        }
        let active = find_all_in_document(document, &parse_selector(PAGE_ACTIVE));
        if active.len() == 0 {
            return false;
        }
        !element_has_class(entries[entries.len() - 1], ACTIVE)
    }

    /// The number of pages of the listing.
    pub fn get_total_pages(document: &Html) -> (r: u16)
        ensures
            r == total_pages(*document),
    {
        let last = find_all_in_document(document, &parse_selector(PAGE_LAST_LINK));
        match page_of_link(&last) {
            Some(n) => {
                return n;
            },
            None => {},
        }
        let next = find_all_in_document(document, &parse_selector(PAGE_NEXT_LINK));
        match page_of_link(&next) {
            Some(n) => {
                return n;
            },
            None => {},
        }
        let active = find_all_in_document(document, &parse_selector(PAGE_ACTIVE_LINK));
        match text_of_first_with(&active) {
            Some(t) => match parse_u16(&t) {
                Some(n) => n,
                None => 1,
            },
            None => 1,
        }
    }

    /// Appends to `genre_names` the first text of every node that
    /// `genre_selector` finds in `document` and that has one.
    pub fn extract_genres(document: &Html, genre_selector: &Selector, genre_names: &mut Vec<String>)
        ensures
            final(genre_names).deep_view() == old(genre_names).deep_view() + first_texts(
                document_matches(*document, *genre_selector),
            ),
    {
        let items = select_in_document(document, genre_selector);
        let mut i: usize = 0;
        assert(genre_names.deep_view() =~= old(genre_names).deep_view() + first_texts(
            items@.take(0),
        ));
        while i < items.len()
            invariant
                i <= items.len(),
                items@ == document_matches(*document, *genre_selector),
                genre_names.deep_view() == old(genre_names).deep_view() + first_texts(
                    items@.take(i as int),
                ),
            decreases items.len() - i,
        {
            assert(items@.take(i + 1).drop_last() == items@.take(i as int));
            assert(items@.take(i + 1).last() == items@[i as int]);
            match element_text(items[i]) {
                Some(t) => {
                    let ghost before = genre_names.deep_view();
                    let name = string_of(&t);
                    genre_names.push(name);
                    assert(genre_names.deep_view() =~= before.push(t@));
                    assert(genre_names.deep_view() =~= old(genre_names).deep_view() + first_texts(
                        items@.take(i + 1),
                    ));
                },
                None => {},
            }
            i += 1;
        }
        assert(items@.take(items.len() as int) == items@);
    }
}

/// The first texts of the nodes that the selector written as `pattern`
/// finds in `document`.
pub fn genres_at(document: &Html, pattern: &str) -> (names: Vec<String>)
    ensures
        names.deep_view() == first_texts(query_document(*document, pattern@)),
{
    let mut names: Vec<String> = Vec::new();
    assert(names.deep_view() =~= Seq::<Seq<char>>::empty());
    match parse_selector(pattern) {
        Some(selector) => {
            HiAnimeUtils::extract_genres(document, &selector, &mut names);
            assert(names.deep_view() =~= first_texts(query_document(*document, pattern@)));
        },
        None => {},
    }
    names
}

/// The page that a caller asks for: the number given, and the first page
/// where none or zero is given.
pub open spec fn page_asked(page_number: Option<u16>) -> u16 {
    match page_number {
        Some(n) => if n >= 1 {
            n
        } else {
            1
        },
        None => 1,
    }
}

pub fn current_page(page_number: Option<u16>) -> (r: u16)
    ensures
        r == page_asked(page_number),
{
    match page_number {
        Some(n) => if n >= 1 {
            n
        } else {
            1
        },
        None => 1,
    }
}

} // verus!
