//! Addresses of the site.

use crate::filters::{genres_value, SearchFilter};
use vstd::prelude::*;

verus! {

/// The addresses under which the site serves its pages.
#[derive(Debug, Clone, Copy, PartialEq, Eq, Structural)]
pub enum HiAnimeUtils {
    BaseUrl,
    HomeUrl,
    AjaxUrl,
    SearchUrl,
    SearchSuggestionUrl,
    AZListUrl,
    QtipUrl,
    ProducerUrl,
    GenreUrl,
    ScheduleUrl,
    EpisodeListUrl,
    EpisodeServersUrl,
}

impl HiAnimeUtils {
    pub open spec fn address(self) -> Seq<char> {
        match self {
            HiAnimeUtils::BaseUrl => "https://hianime.to"@,
            HiAnimeUtils::HomeUrl => "https://hianime.to/home"@,
            HiAnimeUtils::AjaxUrl => "https://hianime.to/ajax"@,
            HiAnimeUtils::SearchUrl => "https://hianime.to/search"@,
            HiAnimeUtils::SearchSuggestionUrl => "https://hianime.to/ajax/search/suggest"@,
            HiAnimeUtils::AZListUrl => "https://hianime.to/az-list"@,
            HiAnimeUtils::QtipUrl => "https://hianime.to/ajax/movie/qtip"@,
            HiAnimeUtils::ProducerUrl => "https://hianime.to/producer"@,
            HiAnimeUtils::GenreUrl => "https://hianime.to/genre"@,
            HiAnimeUtils::ScheduleUrl => "https://hianime.to/ajax/schedule/list"@,
            HiAnimeUtils::EpisodeListUrl => "https://hianime.to/ajax/v2/episode/list"@,
            HiAnimeUtils::EpisodeServersUrl => "https://hianime.to/ajax/v2/episode/servers"@,
        }
    }

    pub fn value(&self) -> (r: &'static str)
        ensures
            r@ == self.address(),
    {
        match self {
            HiAnimeUtils::BaseUrl => "https://hianime.to",
            HiAnimeUtils::HomeUrl => "https://hianime.to/home",
            HiAnimeUtils::AjaxUrl => "https://hianime.to/ajax",
            HiAnimeUtils::SearchUrl => "https://hianime.to/search",
            HiAnimeUtils::SearchSuggestionUrl => "https://hianime.to/ajax/search/suggest",
            HiAnimeUtils::AZListUrl => "https://hianime.to/az-list",
            HiAnimeUtils::QtipUrl => "https://hianime.to/ajax/movie/qtip",
            HiAnimeUtils::ProducerUrl => "https://hianime.to/producer",
            HiAnimeUtils::GenreUrl => "https://hianime.to/genre",
            HiAnimeUtils::ScheduleUrl => "https://hianime.to/ajax/schedule/list",
            HiAnimeUtils::EpisodeListUrl => "https://hianime.to/ajax/v2/episode/list",
            HiAnimeUtils::EpisodeServersUrl => "https://hianime.to/ajax/v2/episode/servers",
        }
    }

    /// The value of a genres filter for the given names of genres: the ids
    /// of those that are genres, with commas between them. There is no
    /// value for no names.
    pub fn get_genres_filter_value(genre_names: Vec<String>) -> (r: Option<String>)
        ensures
            r.deep_view() == genres_value(genre_names.deep_view()),
    {
        SearchFilter::get_genres_filter_value(genre_names)
    }
}

} // verus!
