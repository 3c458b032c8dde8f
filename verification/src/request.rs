//! Requests: the address to fetch and the headers to send with it.

use crate::number::{decimal, push_decimal};
use crate::text::{append_str, append_text, chars_of, string_of};
use crate::uri::EnmaUtils;
use crate::utils::HiAnimeUtils;
use vstd::prelude::*;

verus! {

pub const REFERER: &'static str = "referer";

pub const ACCEPT: &'static str = "accept";

pub const PRAGMA: &'static str = "pragma";

pub const X_REQUESTED_WITH: &'static str = "x-requested-with";

pub const ACCEPT_ANYTHING: &'static str = "*/*";

pub const NO_CACHE: &'static str = "no-cache";

/// What to fetch: an address, and headers as pairs of name and value.
#[derive(Debug, PartialEq, Eq)]
pub struct Request {
    pub url: String,
    pub headers: Vec<(String, String)>,
}

/// The address of page `page` of the listing `name` under `base`.
pub open spec fn listing_url(base: Seq<char>, name: Seq<char>, page: u16) -> Seq<char> {
    base + "/"@ + name + "?page="@ + decimal(page as nat)
}

/// The address of the item `name` under `base`.
pub open spec fn item_url(base: Seq<char>, name: Seq<char>) -> Seq<char> {
    base + "/"@ + name
}

/// The header that names the home page as the referring page.
pub open spec fn home_referer() -> (Seq<char>, Seq<char>) {
    (REFERER@, HiAnimeUtils::HomeUrl.address())
}

/// The header that marks a request as made by a script.
pub open spec fn requested_with() -> (Seq<char>, Seq<char>) {
    (X_REQUESTED_WITH@, EnmaUtils::XRequestedWithHeader.header())
}

pub fn listing_address(base: &str, name: &Vec<char>, page: u16) -> (r: String)
    ensures
        r@ == listing_url(base@, name@, page),
{
    let mut out = chars_of(base);
    append_str(&mut out, "/");
    append_text(&mut out, name);
    append_str(&mut out, "?page=");
    push_decimal(&mut out, page as u64);
    string_of(&out)
}

pub fn item_address(base: &str, name: &Vec<char>) -> (r: String)
    ensures
        r@ == item_url(base@, name@),
{
    let mut out = chars_of(base);
    append_str(&mut out, "/");
    append_text(&mut out, name);
    string_of(&out)
}

/// A header, as a pair of name and value.
pub fn header(name: &str, value: &str) -> (r: (String, String))
    ensures
        r.deep_view() == (name@, value@),
{
    (string_of(&chars_of(name)), string_of(&chars_of(value)))
}

/// A request without headers of its own.
pub fn plain_request(url: String) -> (r: Request)
    ensures
        r.url@ == url@,
        r.headers.deep_view() == Seq::<(Seq<char>, Seq<char>)>::empty(),
{
    let r = Request { url, headers: Vec::new() };
    assert(r.headers.deep_view() =~= Seq::<(Seq<char>, Seq<char>)>::empty());
    r
}

/// A request with the given headers.
pub fn request_with(url: String, headers: Vec<(String, String)>) -> (r: Request)
    ensures
        r.url@ == url@,
        r.headers.deep_view() == headers.deep_view(),
{
    Request { url, headers }
}

} // verus!
