//! The records that the extraction functions build. Every field that the
//! source markup may lack is optional.

use crate::text::{chars_of, is_text};
use vstd::prelude::*;

verus! {

/// Episode counts of an anime, subbed and dubbed.
#[derive(Debug, PartialEq, Eq)]
pub struct Episodes {
    pub sub: Option<u16>,
    pub dub: Option<u16>,
}

/// An entry of a listing.
#[derive(Debug, PartialEq, Eq)]
pub struct Anime {
    pub id: Option<String>,
    pub name: Option<String>,
    pub poster: Option<String>,
    /// japanese name
    pub jname: Option<String>,
    pub duration: Option<String>,
    pub rating: Option<String>,
    pub anime_type: Option<String>,
    pub episodes: Episodes,
}

/// An entry of a ranking for one period.
#[derive(Debug, PartialEq, Eq)]
pub struct Top10Anime {
    pub id: Option<String>,
    pub name: Option<String>,
    pub poster: Option<String>,
    pub jname: Option<String>,
    pub rank: Option<u32>,
    pub episodes: Episodes,
}

/// The rankings of the three periods.
#[derive(Debug, PartialEq, Eq)]
pub struct Top10AnimesWithPeriod {
    pub today: Vec<Top10Anime>,
    pub week: Vec<Top10Anime>,
    pub month: Vec<Top10Anime>,
}

/// The period of a ranking.
#[derive(Debug, Clone, Copy, PartialEq, Eq, Structural)]
pub enum Top10AnimePeriod {
    Day,
    Week,
    Month,
}

/// An entry of a sidebar listing.
#[derive(Debug, PartialEq, Eq)]
pub struct MostPopularAnime {
    pub id: Option<String>,
    pub name: Option<String>,
    pub poster: Option<String>,
    pub jname: Option<String>,
    pub anime_type: Option<String>,
    pub episodes: Episodes,
}

/// An entry of the spotlight slider.
#[derive(Debug, PartialEq, Eq)]
pub struct SpotlightAnime {
    pub id: Option<String>,
    pub name: Option<String>,
    pub poster: Option<String>,
    pub jname: Option<String>,
    pub anime_type: Option<String>,
    pub rank: Option<u32>,
    pub description: Option<String>,
    pub other_info: Vec<String>,
    pub episodes: Episodes,
}

/// An entry of the trending slider.
#[derive(Debug, PartialEq, Eq)]
pub struct TrendingAnime {
    pub id: Option<String>,
    pub name: Option<String>,
    pub poster: Option<String>,
    pub jname: Option<String>,
    pub rank: Option<u32>,
}

pub type RecommendedAnime = Anime;

pub type TopUpcomingAnime = Anime;

pub type LatestEpisodeAnime = Anime;

pub type RelatedAnime = MostPopularAnime;

pub type TopAiringAnime = MostPopularAnime;

pub type MostFavoriteAnime = MostPopularAnime;

pub type LatestCompletedAnime = MostPopularAnime;

/// A season of an anime, as its detail page lists it.
#[derive(Debug, PartialEq, Eq)]
pub struct Season {
    pub id: Option<String>,
    pub name: Option<String>,
    pub poster: Option<String>,
    pub title: Option<String>,
    pub is_current: bool,
}

/// What a detail page says under one heading: one text, or a list of them.
#[derive(Debug, PartialEq, Eq)]
pub enum OtherInfoValue {
    Single(String),
    Multiple(Vec<String>),
}

#[derive(Debug, PartialEq, Eq)]
pub struct AnimeDetailedStats {
    pub quality: Option<String>,
    pub duration: Option<String>,
    pub rating: Option<String>,
    pub anime_type: Option<String>,
    pub episodes: Episodes,
}

#[derive(Debug, PartialEq, Eq)]
pub struct AnimePromotionalVideo {
    pub title: Option<String>,
    pub source: Option<String>,
    pub thumbnail: Option<String>,
}

#[derive(Debug, PartialEq, Eq)]
pub struct AnimeCharacter {
    pub id: Option<String>,
    pub name: Option<String>,
    pub poster: Option<String>,
    pub cast: Option<String>,
}

#[derive(Debug, PartialEq, Eq)]
pub struct AnimeCharactersVoiceActors {
    pub character: AnimeCharacter,
    pub voice_actor: AnimeCharacter,
}

#[derive(Debug, PartialEq, Eq)]
pub struct AnimeSearchSuggestion {
    pub id: Option<String>,
    pub name: Option<String>,
    pub poster: Option<String>,
    pub jname: Option<String>,
    pub other_info: Vec<String>,
}

#[derive(Debug, PartialEq, Eq)]
pub struct AnimeEpisode {
    pub title: Option<String>,
    pub number: Option<u16>,
    pub episode_id: Option<String>,
    pub is_filler: bool,
}

#[derive(Debug, PartialEq, Eq)]
pub struct EpisodeInfo {
    pub server_name: Option<String>,
    pub server_id: Option<u16>,
}

pub type SubEpisode = EpisodeInfo;

pub type DubEpisode = EpisodeInfo;

pub type RawEpisode = EpisodeInfo;

/// The streaming servers that the site names.
#[derive(Debug, Clone, Copy, PartialEq, Eq, Structural)]
pub enum Server {
    VidStreaming,
    MegaCloud,
    StreamSB,
    StreamTape,
    VidCloud,
    AsianLoad,
    GogoCDN,
    MixDrop,
    UpCloud,
    VizCloud,
    MyCloud,
    FileMoon,
}

impl Top10AnimePeriod {
    /// The period that a section's suffix names, if it names one.
    pub open spec fn named(token: Seq<char>) -> Option<Top10AnimePeriod> {
        if token == "day"@ {
            Some(Top10AnimePeriod::Day)
        } else if token == "week"@ {
            Some(Top10AnimePeriod::Week)
        } else if token == "month"@ {
            Some(Top10AnimePeriod::Month)
        } else {
            None
        }
    }

    /// Reads a period from a section's suffix: `day`, `week` or `month`.
    pub fn parse(token: &str) -> (r: Option<Top10AnimePeriod>)
        ensures
            r == Self::named(token@),
    {
        let t = chars_of(token);
        if is_text(&t, "day") {
            Some(Top10AnimePeriod::Day)
        } else if is_text(&t, "week") {
            Some(Top10AnimePeriod::Week)
        } else if is_text(&t, "month") {
            Some(Top10AnimePeriod::Month)
        } else {
            None
        }
    }

    /// The period that `period` names; a day for any other text.
    pub fn from(period: &String) -> (r: Top10AnimePeriod)
        ensures
            r == match Self::named(period@) {
                Some(p) => p,
                None => Top10AnimePeriod::Day,
            },
    {
        match Self::parse(period.as_str()) {
            Some(p) => p,
            None => Top10AnimePeriod::Day,
        }
    }
}

impl Server {
    /// The name under which the site knows the server.
    pub open spec fn name(self) -> Seq<char> {
        match self {
            Server::VidStreaming => "hd-1"@,
            Server::MegaCloud => "megacloud"@,
            Server::StreamSB => "streamsb"@,
            Server::StreamTape => "streamtape"@,
            Server::VidCloud => "hd-2"@,
            Server::AsianLoad => "asianload"@,
            Server::GogoCDN => "gogocdn"@,
            Server::MixDrop => "mixdrop"@,
            Server::UpCloud => "upcloud"@,
            Server::VizCloud => "vizcloud"@,
            Server::MyCloud => "mycloud"@,
            Server::FileMoon => "filemoon"@,
        }
    }

    pub fn value(&self) -> (r: &'static str)
        ensures
            r@ == self.name(),
    {
        match self {
            Server::VidStreaming => "hd-1",
            Server::MegaCloud => "megacloud",
            Server::StreamSB => "streamsb",
            Server::StreamTape => "streamtape",
            Server::VidCloud => "hd-2",
            Server::AsianLoad => "asianload",
            Server::GogoCDN => "gogocdn",
            Server::MixDrop => "mixdrop",
            Server::UpCloud => "upcloud",
            Server::VizCloud => "vizcloud",
            Server::MyCloud => "mycloud",
            Server::FileMoon => "filemoon",
        }
    }
}

} // verus!
