//! Field extractors: how the text of one node or attribute becomes the value
//! of one field. A field whose text is absent, or does not read as the type
//! asked for, is absent.

use crate::number::{parse_u16, parse_u32, parsed_u16, parsed_u32};
use crate::split::{
    after_last, before_first, first_piece, first_word, last_piece, last_word, leading_word,
    trailing_word,
};
use crate::text::{
    chars_of, drop_first_char, opt_view, single, string_of, trim, trimmed, without_first,
};
use vstd::prelude::*;

verus! {

/// The marker behind which a link target carries where the link was found.
pub const SEARCH_MARKER: &'static str = "?ref=search";

/// The identifier in the link target of a listing: the target without its
/// first character, the path separator, and cut before the marker
/// `?ref=search` where it carries one.
pub open spec fn listed_id(href: Seq<char>) -> Seq<char> {
    first_piece(without_first(href), SEARCH_MARKER@)
}

/// The identifier in a link target: the target without its first character,
/// the path separator, and trimmed.
pub open spec fn path_id(href: Seq<char>) -> Seq<char> {
    trimmed(without_first(href))
}

/// The count at the end of a label: its last word, read as a number.
pub open spec fn trailing_count(label: Seq<char>) -> Option<u16> {
    match last_word(label) {
        Some(w) => parsed_u16(w),
        None => None,
    }
}

/// The rank in a label such as `#3 Spotlight`: its first word without the
/// first character, read as a number.
pub open spec fn spotlight_rank(label: Seq<char>) -> Option<u32> {
    match first_word(label) {
        Some(w) => parsed_u32(without_first(w)),
        None => None,
    }
}

pub open spec fn opt_listed_id(o: Option<Seq<char>>) -> Option<Seq<char>> {
    match o {
        Some(t) => Some(listed_id(t)),
        None => None,
    }
}

pub open spec fn opt_path_id(o: Option<Seq<char>>) -> Option<Seq<char>> {
    match o {
        Some(t) => Some(path_id(t)),
        None => None,
    }
}

pub open spec fn opt_trailing_count(o: Option<Seq<char>>) -> Option<u16> {
    match o {
        Some(t) => trailing_count(t),
        None => None,
    }
}

pub open spec fn opt_spotlight_rank(o: Option<Seq<char>>) -> Option<u32> {
    match o {
        Some(t) => spotlight_rank(t),
        None => None,
    }
}

/// A trimmed text read as an unsigned 16-bit number.
pub open spec fn opt_u16(o: Option<Seq<char>>) -> Option<u16> {
    match o {
        Some(t) => parsed_u16(trimmed(t)),
        None => None,
    }
}

/// A trimmed text read as an unsigned 32-bit number.
pub open spec fn opt_u32(o: Option<Seq<char>>) -> Option<u32> {
    match o {
        Some(t) => parsed_u32(trimmed(t)),
        None => None,
    }
}

/// The piece of a text behind the last occurrence of `pat`.
pub open spec fn opt_last_piece(o: Option<Seq<char>>, pat: Seq<char>) -> Option<Seq<char>> {
    match o {
        Some(t) => Some(last_piece(t, pat)),
        None => None,
    }
}

pub fn listed_id_of(href: &Option<Vec<char>>) -> (r: Option<String>)
    ensures
        r.deep_view() == opt_listed_id(opt_view(*href)),
{
    match href {
        Some(h) => {
            let rest = drop_first_char(h);
            let marker = chars_of(SEARCH_MARKER);
            let id = before_first(&rest, &marker);
            Some(string_of(&id))
        },
        None => None,
    }
}

pub fn path_id_of(href: &Option<Vec<char>>) -> (r: Option<String>)
    ensures
        r.deep_view() == opt_path_id(opt_view(*href)),
{
    match href {
        Some(h) => {
            let rest = drop_first_char(h);
            let id = trim(&rest);
            Some(string_of(&id))
        },
        None => None,
    }
}

pub fn trailing_count_of(label: &Option<Vec<char>>) -> (r: Option<u16>)
    ensures
        r == opt_trailing_count(opt_view(*label)),
{
    match label {
        Some(t) => match trailing_word(t) {
            Some(w) => parse_u16(&w),
            None => None,
        },
        None => None,
    }
}

pub fn spotlight_rank_of(label: &Option<Vec<char>>) -> (r: Option<u32>)
    ensures
        r == opt_spotlight_rank(opt_view(*label)),
{
    match label {
        Some(t) => match leading_word(t) {
            Some(w) => {
                let digits = drop_first_char(&w);
                parse_u32(&digits)
            },
            None => None,
        },
        None => None,
    }
}

pub fn u16_of(text: &Option<Vec<char>>) -> (r: Option<u16>)
    ensures
        r == opt_u16(opt_view(*text)),
{
    match text {
        Some(t) => {
            let t = trim(t);
            parse_u16(&t)
        },
        None => None,
    }
}

pub fn u32_of(text: &Option<Vec<char>>) -> (r: Option<u32>)
    ensures
        r == opt_u32(opt_view(*text)),
{
    match text {
        Some(t) => {
            let t = trim(t);
            parse_u32(&t)
        },
        None => None,
    }
}

/// The piece of a text behind the last occurrence of the separator.
pub fn last_piece_of(text: &Option<Vec<char>>, sep: char) -> (r: Option<String>)
    ensures
        r.deep_view() == opt_last_piece(opt_view(*text), seq![sep]),
{
    match text {
        Some(t) => {
            let piece = after_last(t, &single(sep));
            Some(string_of(&piece))
        },
        None => None,
    }
}

/// The last of the pieces into which `sep` cuts a text, trimmed and read
/// as an unsigned 16-bit number.
pub open spec fn opt_last_u16(o: Option<Seq<char>>, sep: Seq<char>) -> Option<u16> {
    match o {
        Some(t) => parsed_u16(trimmed(last_piece(t, sep))),
        None => None,
    }
}

pub fn last_u16_of(text: &Option<Vec<char>>, sep: char) -> (r: Option<u16>)
    ensures
        r == opt_last_u16(opt_view(*text), seq![sep]),
{
    match text {
        Some(t) => {
            let piece = trim(&after_last(t, &single(sep)));
            parse_u16(&piece)
        },
        None => None,
    }
}

} // verus!
