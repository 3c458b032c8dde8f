//! Extraction of typed records from the pages of an anime catalog.
//!
//! The library turns the markup of a page into records, tells how many
//! pages a listing has, sorts rankings by their period, and encodes search
//! filters as query parameters. It fetches nothing: for each page it offers
//! a function that builds the request and one that reads what came back.

use vstd::prelude::*;

pub mod dom;
pub mod episodes;
pub mod error;
pub mod fields;
pub mod filter_set;
pub mod filters;
pub mod info;
pub mod listing;
pub mod number;
pub mod pages;
pub mod pagination;
pub mod qtip;
pub mod request;
pub mod schedule;
pub mod search;
pub mod split;
pub mod tables;
pub mod text;
pub mod top10;
pub mod types;
pub mod uri;
pub mod utils;

pub use episodes::{ScrapedAnimeEpisodes, ScrapedEpisodeServers};
pub use error::{EnmaError, ErrorDetails};
pub use filter_set::SearchFilters;
pub use filters::{FilterKind, SearchFilter};
pub use info::{AnimeDetailedInfo, ScrapedAnimeInfo};
pub use pages::{
    ScrapedAZList, ScrapedCategoryAnime, ScrapedGenreAnime, ScrapedHomePage,
    ScrapedProducerAnime,
};
pub use qtip::{QtipAnime, ScrapedQtipInfo};
pub use request::Request;
pub use schedule::{ScheduledAnime, ScrapedSchedule};
pub use search::{ScrapedSearchResult, ScrapedSearchSuggestion};
pub use tables::SearchPageFilters;
pub use types::{
    Anime, AnimeCharacter, AnimeCharactersVoiceActors, AnimeDetailedStats, AnimeEpisode,
    AnimePromotionalVideo, AnimeSearchSuggestion, EpisodeInfo, Episodes, MostPopularAnime,
    OtherInfoValue, Season, Server, SpotlightAnime, Top10Anime, Top10AnimePeriod,
    Top10AnimesWithPeriod, TrendingAnime,
};
pub use uri::EnmaUtils;
pub use utils::HiAnimeUtils;

verus! {

/// The result of an operation of the library.
pub type EnmaResult<T> = Result<T, EnmaError>;

} // verus!
