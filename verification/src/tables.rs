//! The fixed vocabularies of the site: the ids under which its search knows
//! genres, types and the other filter values, and the closed sets of names
//! that its pages accept.

use crate::text::{chars_of, is_text};
use vstd::prelude::*;

verus! {

/// The id tables of the search page. Each table maps the names that callers
/// write to the ids that the site reads.
#[derive(Debug, Clone, Copy, PartialEq, Eq, Structural)]
pub struct SearchPageFilters;

impl SearchPageFilters {
    /// The id of a genre.
    pub open spec fn genre_id(name: Seq<char>) -> Option<u8> {
        if name == "action"@ {
            Some(1)
        } else if name == "adventure"@ {
            Some(2)
        } else if name == "cars"@ {
            Some(3)
        } else if name == "comedy"@ {
            Some(4)
        } else if name == "dementia"@ {
            Some(5)
        } else if name == "demons"@ {
            Some(6)
        } else if name == "drama"@ {
            Some(8)
        } else if name == "ecchi"@ {
            Some(9)
        } else if name == "fantasy"@ {
            Some(10)
        } else if name == "game"@ {
            Some(11)
        } else if name == "harem"@ {
            Some(35)
        } else if name == "historical"@ {
            Some(13)
        } else if name == "horror"@ {
            Some(14)
        } else if name == "isekai"@ {
            Some(44)
        } else if name == "josei"@ {
            Some(43)
        } else if name == "kids"@ {
            Some(15)
        } else if name == "magic"@ {
            Some(16)
        } else if name == "martial-arts"@ {
            Some(17)
        } else if name == "mecha"@ {
            Some(18)
        } else if name == "military"@ {
            Some(38)
        } else if name == "music"@ {
            Some(19)
        } else if name == "mystery"@ {
            Some(7)
        } else if name == "parody"@ {
            Some(20)
        } else if name == "police"@ {
            Some(39)
        } else if name == "psychological"@ {
            Some(40)
        } else if name == "romance"@ {
            Some(22)
        } else if name == "samurai"@ {
            Some(21)
        } else if name == "school"@ {
            Some(23)
        } else if name == "sci-fi"@ {
            Some(24)
        } else if name == "seinen"@ {
            Some(42)
        } else if name == "shoujo"@ {
            Some(25)
        } else if name == "shoujo-ai"@ {
            Some(26)
        } else if name == "shounen"@ {
            Some(27)
        } else if name == "shounen-ai"@ {
            Some(28)
        } else if name == "slice-of-life"@ {
            Some(36)
        } else if name == "space"@ {
            Some(29)
        } else if name == "sports"@ {
            Some(30)
        } else if name == "super-power"@ {
            Some(31)
        } else if name == "supernatural"@ {
            Some(37)
        } else if name == "thriller"@ {
            Some(41)
        } else if name == "vampire"@ {
            Some(32)
        } else {
            None
        }
    }

    pub fn genre(name: &str) -> (r: Option<u8>)
        ensures
            r == Self::genre_id(name@),
    {
        let t = chars_of(name);
        if is_text(&t, "action") {
            Some(1)
        } else if is_text(&t, "adventure") {
            Some(2)
        } else if is_text(&t, "cars") {
            Some(3)
        } else if is_text(&t, "comedy") {
            Some(4)
        } else if is_text(&t, "dementia") {
            Some(5)
        } else if is_text(&t, "demons") {
            Some(6)
        } else if is_text(&t, "drama") {
            Some(8)
        } else if is_text(&t, "ecchi") {
            Some(9)
        } else if is_text(&t, "fantasy") {
            Some(10)
        } else if is_text(&t, "game") {
            Some(11)
        } else if is_text(&t, "harem") {
            Some(35)
        } else if is_text(&t, "historical") {
            Some(13)
        } else if is_text(&t, "horror") {
            Some(14)
        } else if is_text(&t, "isekai") {
            Some(44)
        } else if is_text(&t, "josei") {
            Some(43)
        } else if is_text(&t, "kids") {
            Some(15)
        } else if is_text(&t, "magic") {
            Some(16)
        } else if is_text(&t, "martial-arts") {
            Some(17)
        } else if is_text(&t, "mecha") {
            Some(18)
        } else if is_text(&t, "military") {
            Some(38)
        } else if is_text(&t, "music") {
            Some(19)
        } else if is_text(&t, "mystery") {
            Some(7)
        } else if is_text(&t, "parody") {
            Some(20)
        } else if is_text(&t, "police") {
            Some(39)
        } else if is_text(&t, "psychological") {
            Some(40)
        } else if is_text(&t, "romance") {
            Some(22)
        } else if is_text(&t, "samurai") {
            Some(21)
        } else if is_text(&t, "school") {
            Some(23)
        } else if is_text(&t, "sci-fi") {
            Some(24)
        } else if is_text(&t, "seinen") {
            Some(42)
        } else if is_text(&t, "shoujo") {
            Some(25)
        } else if is_text(&t, "shoujo-ai") {
            Some(26)
        } else if is_text(&t, "shounen") {
            Some(27)
        } else if is_text(&t, "shounen-ai") {
            Some(28)
        } else if is_text(&t, "slice-of-life") {
            Some(36)
        } else if is_text(&t, "space") {
            Some(29)
        } else if is_text(&t, "sports") {
            Some(30)
        } else if is_text(&t, "super-power") {
            Some(31)
        } else if is_text(&t, "supernatural") {
            Some(37)
        } else if is_text(&t, "thriller") {
            Some(41)
        } else if is_text(&t, "vampire") {
            Some(32)
        } else {
            None
        }
    }

    /// The id of a type.
    pub open spec fn type_id(name: Seq<char>) -> Option<u8> {
        if name == "all"@ {
            Some(0)
        } else if name == "movie"@ {
            Some(1)
        } else if name == "tv"@ {
            Some(2)
        } else if name == "ova"@ {
            Some(3)
        } else if name == "ona"@ {
            Some(4)
        } else if name == "special"@ {
            Some(5)
        } else if name == "music"@ {
            Some(6)
        } else {
            None
        }
    }

    pub fn anime_type(name: &str) -> (r: Option<u8>)
        ensures
            r == Self::type_id(name@),
    {
        let t = chars_of(name);
        if is_text(&t, "all") {
            Some(0)
        } else if is_text(&t, "movie") {
            Some(1)
        } else if is_text(&t, "tv") {
            Some(2)
        } else if is_text(&t, "ova") {
            Some(3)
        } else if is_text(&t, "ona") {
            Some(4)
        } else if is_text(&t, "special") {
            Some(5)
        } else if is_text(&t, "music") {
            Some(6)
        } else {
            None
        }
    }

    /// The id of a status.
    pub open spec fn status_id(name: Seq<char>) -> Option<u8> {
        if name == "all"@ {
            Some(0)
        } else if name == "finished-airing"@ {
            Some(1)
        } else if name == "currently-airing"@ {
            Some(2)
        } else if name == "not-yet-aired"@ {
            Some(3)
        } else {
            None
        }
    }

    pub fn status(name: &str) -> (r: Option<u8>)
        ensures
            r == Self::status_id(name@),
    {
        let t = chars_of(name);
        if is_text(&t, "all") {
            Some(0)
        } else if is_text(&t, "finished-airing") {
            Some(1)
        } else if is_text(&t, "currently-airing") {
            Some(2)
        } else if is_text(&t, "not-yet-aired") {
            Some(3)
        } else {
            None
        }
    }

    /// The id of a rating.
    pub open spec fn rated_id(name: Seq<char>) -> Option<u8> {
        if name == "all"@ {
            Some(0)
        } else if name == "g"@ {
            Some(1)
        } else if name == "pg"@ {
            Some(2)
        } else if name == "pg-13"@ {
            Some(3)
        } else if name == "r"@ {
            Some(4)
        } else if name == "r+"@ {
            Some(5)
        } else if name == "rx"@ {
            Some(6)
        } else {
            None
        }
    }

    pub fn rated(name: &str) -> (r: Option<u8>)
        ensures
            r == Self::rated_id(name@),
    {
        let t = chars_of(name);
        if is_text(&t, "all") {
            Some(0)
        } else if is_text(&t, "g") {
            Some(1)
        } else if is_text(&t, "pg") {
            Some(2)
        } else if is_text(&t, "pg-13") {
            Some(3)
        } else if is_text(&t, "r") {
            Some(4)
        } else if is_text(&t, "r+") {
            Some(5)
        } else if is_text(&t, "rx") {
            Some(6)
        } else {
            None
        }
    }

    /// The id of a score.
    pub open spec fn score_id(name: Seq<char>) -> Option<u8> {
        if name == "all"@ {
            Some(0)
        } else if name == "appalling"@ {
            Some(1)
        } else if name == "horrible"@ {
            Some(2)
        } else if name == "very-bad"@ {
            Some(3)
        } else if name == "bad"@ {
            Some(4)
        } else if name == "average"@ {
            Some(5)
        } else if name == "fine"@ {
            Some(6)
        } else if name == "good"@ {
            Some(7)
        } else if name == "very-good"@ {
            Some(8)
        } else if name == "great"@ {
            Some(9)
        } else if name == "masterpiece"@ {
            Some(10)
        } else {
            None
        }
    }

    pub fn score(name: &str) -> (r: Option<u8>)
        ensures
            r == Self::score_id(name@),
    {
        let t = chars_of(name);
        if is_text(&t, "all") {
            Some(0)
        } else if is_text(&t, "appalling") {
            Some(1)
        } else if is_text(&t, "horrible") {
            Some(2)
        } else if is_text(&t, "very-bad") {
            Some(3)
        } else if is_text(&t, "bad") {
            Some(4)
        } else if is_text(&t, "average") {
            Some(5)
        } else if is_text(&t, "fine") {
            Some(6)
        } else if is_text(&t, "good") {
            Some(7)
        } else if is_text(&t, "very-good") {
            Some(8)
        } else if is_text(&t, "great") {
            Some(9)
        } else if is_text(&t, "masterpiece") {
            Some(10)
        } else {
            None
        }
    }

    /// The id of a season.
    pub open spec fn season_id(name: Seq<char>) -> Option<u8> {
        if name == "all"@ {
            Some(0)
        } else if name == "spring"@ {
            Some(1)
        } else if name == "summer"@ {
            Some(2)
        } else if name == "fall"@ {
            Some(3)
        } else if name == "winter"@ {
            Some(4)
        } else {
            None
        }
    }

    pub fn season(name: &str) -> (r: Option<u8>)
        ensures
            r == Self::season_id(name@),
    {
        let t = chars_of(name);
        if is_text(&t, "all") {
            Some(0)
        } else if is_text(&t, "spring") {
            Some(1)
        } else if is_text(&t, "summer") {
            Some(2)
        } else if is_text(&t, "fall") {
            Some(3)
        } else if is_text(&t, "winter") {
            Some(4)
        } else {
            None
        }
    }

    /// The id of a language.
    pub open spec fn language_id(name: Seq<char>) -> Option<u8> {
        if name == "all"@ {
            Some(0)
        } else if name == "sub"@ {
            Some(1)
        } else if name == "dub"@ {
            Some(2)
        } else if name == "sub-&-dub"@ {
            Some(3)
        } else {
            None
        }
    }

    pub fn language(name: &str) -> (r: Option<u8>)
        ensures
            r == Self::language_id(name@),
    {
        let t = chars_of(name);
        if is_text(&t, "all") {
            Some(0)
        } else if is_text(&t, "sub") {
            Some(1)
        } else if is_text(&t, "dub") {
            Some(2)
        } else if is_text(&t, "sub-&-dub") {
            Some(3)
        } else {
            None
        }
    }

    /// The id of a sort order.
    pub open spec fn sort_id(name: Seq<char>) -> Option<Seq<char>> {
        if name == "default"@ {
            Some("default"@)
        } else if name == "recently-added"@ {
            Some("recently_added"@)
        } else if name == "recently-updated"@ {
            Some("recently_updated"@)
        } else if name == "score"@ {
            Some("score"@)
        } else if name == "name-a-z"@ {
            Some("name_az"@)
        } else if name == "released-date"@ {
            Some("released_date"@)
        } else if name == "most-watched"@ {
            Some("most_watched"@)
        } else {
            None
        }
    }

    pub fn sort(name: &str) -> (r: Option<&'static str>)
        ensures
            match r {
                Some(s) => Self::sort_id(name@) == Some(s@),
                None => Self::sort_id(name@) is None,
            },
    {
        let t = chars_of(name);
        if is_text(&t, "default") {
            Some("default")
        } else if is_text(&t, "recently-added") {
            Some("recently_added")
        } else if is_text(&t, "recently-updated") {
            Some("recently_updated")
        } else if is_text(&t, "score") {
            Some("score")
        } else if is_text(&t, "name-a-z") {
            Some("name_az")
        } else if is_text(&t, "released-date") {
            Some("released_date")
        } else if is_text(&t, "most-watched") {
            Some("most_watched")
        } else {
            None
        }
    }
}

/// The sort options of the alphabetical list.
pub open spec fn is_az_list_sort_option(name: Seq<char>) -> bool {
    ||| name == "all"@
        ||| name == "other"@
        ||| name == "0-9"@
        ||| name == "a"@
        ||| name == "b"@
        ||| name == "c"@
        ||| name == "d"@
        ||| name == "e"@
        ||| name == "f"@
        ||| name == "g"@
        ||| name == "h"@
        ||| name == "i"@
        ||| name == "j"@
        ||| name == "k"@
        ||| name == "l"@
        ||| name == "m"@
        ||| name == "n"@
        ||| name == "o"@
        ||| name == "p"@
        ||| name == "q"@
        ||| name == "r"@
        ||| name == "s"@
        ||| name == "t"@
        ||| name == "u"@
        ||| name == "v"@
        ||| name == "w"@
        ||| name == "x"@
        ||| name == "y"@
        ||| name == "z"@
}

pub fn az_list_sort_option(name: &str) -> (r: bool)
    ensures
        r == is_az_list_sort_option(name@),
{
    let t = chars_of(name);
    is_text(&t, "all")
            || is_text(&t, "other")
            || is_text(&t, "0-9")
            || is_text(&t, "a")
            || is_text(&t, "b")
            || is_text(&t, "c")
            || is_text(&t, "d")
            || is_text(&t, "e")
            || is_text(&t, "f")
            || is_text(&t, "g")
            || is_text(&t, "h")
            || is_text(&t, "i")
            || is_text(&t, "j")
            || is_text(&t, "k")
            || is_text(&t, "l")
            || is_text(&t, "m")
            || is_text(&t, "n")
            || is_text(&t, "o")
            || is_text(&t, "p")
            || is_text(&t, "q")
            || is_text(&t, "r")
            || is_text(&t, "s")
            || is_text(&t, "t")
            || is_text(&t, "u")
            || is_text(&t, "v")
            || is_text(&t, "w")
            || is_text(&t, "x")
            || is_text(&t, "y")
            || is_text(&t, "z")
}

/// The categories of anime.
pub open spec fn is_anime_category(name: Seq<char>) -> bool {
    ||| name == "most-favorite"@
        ||| name == "most-popular"@
        ||| name == "subbed-anime"@
        ||| name == "dubbed-anime"@
        ||| name == "recently-updated"@
        ||| name == "recently-added"@
        ||| name == "top-upcoming"@
        ||| name == "top-airing"@
        ||| name == "movie"@
        ||| name == "special"@
        ||| name == "ova"@
        ||| name == "ona"@
        ||| name == "tv"@
        ||| name == "completed"@
}

pub fn anime_category(name: &str) -> (r: bool)
    ensures
        r == is_anime_category(name@),
{
    let t = chars_of(name);
    is_text(&t, "most-favorite")
            || is_text(&t, "most-popular")
            || is_text(&t, "subbed-anime")
            || is_text(&t, "dubbed-anime")
            || is_text(&t, "recently-updated")
            || is_text(&t, "recently-added")
            || is_text(&t, "top-upcoming")
            || is_text(&t, "top-airing")
            || is_text(&t, "movie")
            || is_text(&t, "special")
            || is_text(&t, "ova")
            || is_text(&t, "ona")
            || is_text(&t, "tv")
            || is_text(&t, "completed")
}

/// The servers that the site streams from.
pub open spec fn is_anime_server(name: Seq<char>) -> bool {
    ||| name == "hd-1"@
        ||| name == "hd-2"@
        ||| name == "megacloud"@
        ||| name == "streamsb"@
        ||| name == "streamtape"@
}

pub fn anime_server(name: &str) -> (r: bool)
    ensures
        r == is_anime_server(name@),
{
    let t = chars_of(name);
    is_text(&t, "hd-1")
            || is_text(&t, "hd-2")
            || is_text(&t, "megacloud")
            || is_text(&t, "streamsb")
            || is_text(&t, "streamtape")
}

} // verus!
