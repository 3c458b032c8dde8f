//! Documents, selectors and elements.
//!
//! Parsing HTML and matching CSS selectors is the work of the `scraper` crate.
//! This module declares its three types, names what its functions return, and
//! wraps the calls. Nothing is proved of the wrappers: their contracts say
//! only that a call returns what its name stands for. The field extractors
//! below them are verified against those names.

use crate::text::{append_str, chars_of, opt_view, same_text, string_of, trim, trimmed};
use scraper::{ElementRef, Html, Selector};
use vstd::prelude::*;

verus! {

#[verifier::external_type_specification]
#[verifier::external_body]
pub struct ExHtml(Html);

#[verifier::external_type_specification]
#[verifier::external_body]
pub struct ExSelector(Selector);

#[verifier::external_type_specification]
#[verifier::external_body]
pub struct ExElementRef<'a>(ElementRef<'a>);

/// The tree that `Html::parse_document` builds from `text`.
pub uninterp spec fn parsed_document(text: Seq<char>) -> Html;

/// The tree that `Html::parse_fragment` builds from `text`.
pub uninterp spec fn parsed_fragment(text: Seq<char>) -> Html;

/// The selector group that `Selector::parse` reads from `pattern`, if it
/// accepts `pattern`.
pub uninterp spec fn parsed_selector(pattern: Seq<char>) -> Option<Selector>;

/// The elements of `document` that `Html::select` yields for `selector`, in
/// the order in which it yields them.
pub uninterp spec fn document_matches(document: Html, selector: Selector) -> Seq<
    ElementRef<'static>,
>;

/// The descendants of `element` that `ElementRef::select` yields for
/// `selector`, in the order in which it yields them.
pub uninterp spec fn element_matches(element: ElementRef<'static>, selector: Selector) -> Seq<
    ElementRef<'static>,
>;

/// The value that `ElementRef::attr` finds for the attribute `name`.
pub uninterp spec fn attribute_of(element: ElementRef<'static>, name: Seq<char>) -> Option<
    Seq<char>,
>;

/// The text nodes below `element` that `ElementRef::text` yields, in order.
pub uninterp spec fn texts_of(element: ElementRef<'static>) -> Seq<Seq<char>>;

/// The class names that `Element::classes` yields for `element`, in order.
pub uninterp spec fn classes_of(element: ElementRef<'static>) -> Seq<Seq<char>>;

/// The contents of a list of string slices.
pub open spec fn slices(v: Seq<&str>) -> Seq<Seq<char>> {
    Seq::new(v.len(), |i: int| v[i]@)
}

/// Calls `Html::parse_document`, which accepts every text. The contract
/// only names the tree.
#[verifier::external_body]
pub(crate) fn parse_document(text: &str) -> (document: Html)
    ensures
        document == parsed_document(text@),
{
    Html::parse_document(text)
}

/// Calls `Html::parse_fragment`, which accepts every text. The contract
/// only names the tree.
#[verifier::external_body]
pub(crate) fn parse_fragment(text: &str) -> (document: Html)
    ensures
        document == parsed_fragment(text@),
{
    Html::parse_fragment(text)
}

/// Calls `Selector::parse` and drops the error it may return. The contract
/// only names the outcome.
#[verifier::external_body]
pub(crate) fn parse_selector(pattern: &str) -> (selector: Option<Selector>)
    ensures
        selector == parsed_selector(pattern@),
{
    Selector::parse(pattern).ok()
}

/// Calls `Html::select` and collects what it yields. The contract only
/// names the elements.
#[verifier::external_body]
pub(crate) fn select_in_document<'a>(document: &'a Html, selector: &Selector) -> (found: Vec<
    ElementRef<'a>,
>)
    ensures
        found@ == document_matches(*document, *selector),
{
    document.select(selector).collect()
}

/// Calls `ElementRef::select` and collects what it yields. The contract
/// only names the elements.
#[verifier::external_body]
pub(crate) fn select_in_element<'a>(element: ElementRef<'a>, selector: &Selector) -> (found: Vec<
    ElementRef<'a>,
>)
    ensures
        found@ == element_matches(element, *selector),
{
    element.select(selector).collect()
}

/// Calls `ElementRef::attr`. The contract only names the value.
#[verifier::external_body]
pub(crate) fn attribute<'a>(element: ElementRef<'a>, name: &str) -> (value: Option<&'a str>)
    ensures
        match value {
            Some(v) => attribute_of(element, name@) == Some(v@),
            None => attribute_of(element, name@) is None,
        },
{
    element.attr(name)
}

/// Calls `ElementRef::text` and collects what it yields. The contract only
/// names the text nodes.
#[verifier::external_body]
pub(crate) fn texts<'a>(element: ElementRef<'a>) -> (found: Vec<&'a str>)
    ensures
        slices(found@) == texts_of(element),
{
    element.text().collect()
}

/// Calls `Element::classes` on the element's value and collects what it
/// yields. The contract only names the class names.
#[verifier::external_body]
pub(crate) fn classes<'a>(element: ElementRef<'a>) -> (found: Vec<&'a str>)
    ensures
        slices(found@) == classes_of(element),
{
    element.value().classes().collect()
}

// ---------------------------------------------------------------------------
// Queries
// ---------------------------------------------------------------------------

/// The first item of a sequence, if it has one.
pub open spec fn first_of<A>(s: Seq<A>) -> Option<A> {
    if s.len() > 0 {
        Some(s[0])
    } else {
        None
    }
}

/// The last item of a sequence, if it has one.
pub open spec fn last_of<A>(s: Seq<A>) -> Option<A> {
    if s.len() > 0 {
        Some(s[s.len() - 1])
    } else {
        None
    }
}

/// What a selector that may not have parsed finds in a document: nothing
/// where it did not parse.
pub open spec fn found_in_document(document: Html, selector: Option<Selector>) -> Seq<
    ElementRef<'static>,
> {
    match selector {
        Some(s) => document_matches(document, s),
        None => Seq::empty(),
    }
}

/// What a selector that may not have parsed finds below an element: nothing
/// where it did not parse.
pub open spec fn found_in(element: ElementRef<'static>, selector: Option<Selector>) -> Seq<
    ElementRef<'static>,
> {
    match selector {
        Some(s) => element_matches(element, s),
        None => Seq::empty(),
    }
}

/// The elements of `document` that match the selector written as `pattern`.
pub open spec fn query_document(document: Html, pattern: Seq<char>) -> Seq<ElementRef<'static>> {
    found_in_document(document, parsed_selector(pattern))
}

/// The descendants of `element` that match the selector written as `pattern`.
pub open spec fn query(element: ElementRef<'static>, pattern: Seq<char>) -> Seq<
    ElementRef<'static>,
> {
    found_in(element, parsed_selector(pattern))
}

/// The first text node below the first of `found`.
pub open spec fn first_text(found: Seq<ElementRef<'static>>) -> Option<Seq<char>> {
    match first_of(found) {
        Some(e) => first_of(texts_of(e)),
        None => None,
    }
}

/// The attribute `name` of the first of `found`.
pub open spec fn first_attr(found: Seq<ElementRef<'static>>, name: Seq<char>) -> Option<
    Seq<char>,
> {
    match first_of(found) {
        Some(e) => attribute_of(e, name),
        None => None,
    }
}

/// The attribute `name` of the last of `found`.
pub open spec fn last_attr(found: Seq<ElementRef<'static>>, name: Seq<char>) -> Option<
    Seq<char>,
> {
    match last_of(found) {
        Some(e) => attribute_of(e, name),
        None => None,
    }
}

/// Whether `element` carries the class `name`.
pub open spec fn has_class(element: ElementRef<'static>, name: Seq<char>) -> bool {
    classes_of(element).contains(name)
}

/// A text that may be absent, trimmed where it is present.
pub open spec fn opt_trimmed(o: Option<Seq<char>>) -> Option<Seq<char>> {
    match o {
        Some(t) => Some(trimmed(t)),
        None => None,
    }
}

pub fn find_all_in_document<'a>(document: &'a Html, selector: &Option<Selector>) -> (found: Vec<
    ElementRef<'a>,
>)
    ensures
        found@ == found_in_document(*document, *selector),
{
    match selector {
        Some(s) => select_in_document(document, s),
        None => Vec::new(),
    }
}

pub fn find_all<'a>(element: ElementRef<'a>, selector: &Option<Selector>) -> (found: Vec<
    ElementRef<'a>,
>)
    ensures
        found@ == found_in(element, *selector),
{
    match selector {
        Some(s) => select_in_element(element, s),
        None => Vec::new(),
    }
}

/// The first text node of an element.
pub fn element_text<'a>(element: ElementRef<'a>) -> (r: Option<Vec<char>>)
    ensures
        opt_view(r) == first_of(texts_of(element)),
{
    let all = texts(element);
    if all.len() == 0 {
        None
    } else {
        assert(slices(all@)[0] == all@[0]@);
        Some(chars_of(all[0]))
    }
}

/// The value of an attribute of an element.
pub fn element_attr<'a>(element: ElementRef<'a>, name: &str) -> (r: Option<Vec<char>>)
    ensures
        opt_view(r) == attribute_of(element, name@),
{
    match attribute(element, name) {
        Some(v) => Some(chars_of(v)),
        None => None,
    }
}

/// Whether an element carries a class.
pub fn element_has_class<'a>(element: ElementRef<'a>, name: &str) -> (r: bool)
    ensures
        r == has_class(element, name@),
{
    let all = classes(element);
    let wanted = chars_of(name);
    let mut i: usize = 0;
    while i < all.len()
        invariant
            i <= all.len(),
            wanted@ == name@,
            slices(all@) == classes_of(element),
            forall|j: int| 0 <= j < i ==> classes_of(element)[j] != name@,
        decreases all.len() - i,
    {
        assert(slices(all@)[i as int] == all@[i as int]@);
        let class = chars_of(all[i]);
        if same_text(&class, &wanted) {
            return true;
        }
        i += 1;
    }
    false
}

/// The first text node below the first of `found`.
pub fn text_of_first<'a>(found: &Vec<ElementRef<'a>>) -> (r: Option<Vec<char>>)
    ensures
        opt_view(r) == first_text(found@),
{
    if found.len() == 0 {
        None
    } else {
        element_text(found[0])
    }
}

/// The attribute `name` of the first of `found`.
pub fn attr_of_first<'a>(found: &Vec<ElementRef<'a>>, name: &str) -> (r: Option<Vec<char>>)
    ensures
        opt_view(r) == first_attr(found@, name@),
{
    if found.len() == 0 {
        None
    } else {
        element_attr(found[0], name)
    }
}

/// The attribute `name` of the last of `found`.
pub fn attr_of_last<'a>(found: &Vec<ElementRef<'a>>, name: &str) -> (r: Option<Vec<char>>)
    ensures
        opt_view(r) == last_attr(found@, name@),
{
    if found.len() == 0 {
        None
    } else {
        element_attr(found[found.len() - 1], name)
    }
}

/// A text that may be absent, as a string.
pub fn opt_string(o: &Option<Vec<char>>) -> (r: Option<String>)
    ensures
        r.deep_view() == opt_view(*o),
{
    match o {
        Some(t) => Some(string_of(t)),
        None => None,
    }
}

/// A text that may be absent, trimmed, as a string.
pub fn opt_trimmed_string(o: &Option<Vec<char>>) -> (r: Option<String>)
    ensures
        r.deep_view() == opt_trimmed(opt_view(*o)),
{
    match o {
        Some(t) => {
            let t = trim(t);
            Some(string_of(&t))
        },
        None => None,
    }
}

/// The first text node below the first match of the selector written as
/// `pattern` in `document`.
pub fn text_in_document(document: &Html, pattern: &str) -> (r: Option<Vec<char>>)
    ensures
        opt_view(r) == first_text(query_document(*document, pattern@)),
{
    let found = find_all_in_document(document, &parse_selector(pattern));
    text_of_first(&found)
}

/// The attribute `name` of the first match of the selector written as
/// `pattern` in `document`.
pub fn attr_in_document(document: &Html, pattern: &str, name: &str) -> (r: Option<Vec<char>>)
    ensures
        opt_view(r) == first_attr(query_document(*document, pattern@), name@),
{
    let found = find_all_in_document(document, &parse_selector(pattern));
    attr_of_first(&found, name)
}

/// The value of an attribute of an element, trimmed.
pub fn trimmed_element_attr<'a>(element: ElementRef<'a>, name: &str) -> (r: Option<String>)
    ensures
        r.deep_view() == opt_trimmed(attribute_of(element, name@)),
{
    opt_trimmed_string(&element_attr(element, name))
}

/// The texts of `parts` in a row.
pub open spec fn concat(parts: Seq<Seq<char>>) -> Seq<char>
    decreases parts.len(),
{
    if parts.len() == 0 {
        Seq::empty()
    } else {
        concat(parts.drop_last()) + parts.last()
    }
}

/// All the text below an element: its text nodes in a row.
pub open spec fn whole_text(element: ElementRef<'static>) -> Seq<char> {
    concat(texts_of(element))
}

/// All the text below an element.
pub fn element_whole_text<'a>(element: ElementRef<'a>) -> (r: Vec<char>)
    ensures
        r@ == whole_text(element),
{
    let all = texts(element);
    let mut r: Vec<char> = Vec::new();
    let mut i: usize = 0;
    while i < all.len()
        invariant
            i <= all.len(),
            r@ == concat(slices(all@).take(i as int)),
        decreases all.len() - i,
    {
        assert(slices(all@).take(i + 1).drop_last() == slices(all@).take(i as int));
        assert(slices(all@).take(i + 1).last() == all@[i as int]@);
        append_str(&mut r, all[i]);
        i += 1;
    }
    assert(slices(all@).take(all.len() as int) == slices(all@));
    r
}

} // verus!
