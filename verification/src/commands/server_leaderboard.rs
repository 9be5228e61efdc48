//! Arguments of the server-leaderboard command: which statistic to rank
//! linked server members by, per game mode or across all modes, optionally
//! narrowed to one country.

use crate::arguments::{spec_upper, upper_char};
use crate::numbers::push_char;
use vstd::prelude::*;

verus! {

/// A statistic tracked across all modes.
#[derive(Clone, Copy, PartialEq, Eq, Structural, Debug)]
pub enum UserStatsColumn {
    Badges,
    Comments,
    Followers,
    ForumPosts,
    GraveyardMapsets,
    JoinDate,
    KudosuAvailable,
    KudosuTotal,
    LovedMapsets,
    Subscribers,
    Medals,
    PlayedMaps,
    RankedMapsets,
}

/// A statistic tracked per game mode.
#[derive(Clone, Copy, PartialEq, Eq, Structural, Debug)]
pub enum UserModeStatsColumn {
    Accuracy,
    AverageHits,
    CountSsh,
    CountSs,
    CountSh,
    CountS,
    CountA,
    Level,
    MaxCombo,
    Playcount,
    PlaytimeHours,
    Pp,
    RankCountry,
    RankGlobal,
    ReplaysWatched,
    ScoreRanked,
    ScoreTotal,
}

/// Leaderboard across all modes.
pub struct ServerLeaderboardAllModes {
    pub kind: UserStatsColumn,
    pub country: Option<String>,
}

/// osu!standard leaderboard.
pub struct ServerLeaderboardOsu {
    pub kind: UserModeStatsColumn,
    pub country: Option<String>,
}

/// osu!taiko leaderboard.
pub struct ServerLeaderboardTaiko {
    pub kind: UserModeStatsColumn,
    pub country: Option<String>,
}

/// osu!ctb leaderboard.
pub struct ServerLeaderboardCatch {
    pub kind: UserModeStatsColumn,
    pub country: Option<String>,
}

/// osu!mania leaderboard.
pub struct ServerLeaderboardMania {
    pub kind: UserModeStatsColumn,
    pub country: Option<String>,
}

/// The server-leaderboard command: one subcommand per mode, plus one
/// across all modes.
pub enum ServerLeaderboard {
    AllModes(ServerLeaderboardAllModes),
    Osu(ServerLeaderboardOsu),
    Taiko(ServerLeaderboardTaiko),
    Catch(ServerLeaderboardCatch),
    Mania(ServerLeaderboardMania),
}

impl ServerLeaderboard {
    /// The country filter of the chosen subcommand, if one was given.
    pub open spec fn spec_country(&self) -> Option<Seq<char>> {
        let country = match *self {
            ServerLeaderboard::AllModes(ref args) => args.country,
            ServerLeaderboard::Osu(ref args) => args.country,
            ServerLeaderboard::Taiko(ref args) => args.country,
            ServerLeaderboard::Catch(ref args) => args.country,
            ServerLeaderboard::Mania(ref args) => args.country,
        };
        match country {
            Some(c) => Some(c@),
            None => None,
        }
    }

    /// The country filter of the chosen subcommand, if one was given.
    pub fn country(&self) -> (r: Option<&str>)
        ensures
            match r {
                Some(c) => self.spec_country() === Some(c@),
                None => self.spec_country() is None,
            },
    {
        let country = match self {
            ServerLeaderboard::AllModes(args) => &args.country,
            ServerLeaderboard::Osu(args) => &args.country,
            ServerLeaderboard::Taiko(args) => &args.country,
            ServerLeaderboard::Catch(args) => &args.country,
            ServerLeaderboard::Mania(args) => &args.country,
        };
        match country {
            Some(c) => Some(c.as_str()),
            None => None,
        }
    }
}

/// The fallback for a country filter that is not a known country name:
/// a two-character entry is taken as a country acronym and upper-cased;
/// anything else cannot be an acronym.
pub fn country_acronym(country: &str) -> (r: Option<String>)
    ensures
        country@.len() == 2 ==> (r matches Some(code) && code@ == spec_upper(country@)),
        country@.len() != 2 ==> r is None,
{
    if country.unicode_len() != 2 {
        return None;
    }
    let c0 = country.get_char(0);
    let c1 = country.get_char(1);
    let mut code = String::new();
    push_char(&mut code, upper(c0));
    push_char(&mut code, upper(c1));
    proof {
        assert(code@ =~= spec_upper(country@));
    }
    Some(code)
}

/// Upper-cases one ASCII letter; other characters pass through.
fn upper(c: char) -> (r: char)
    ensures
        r == upper_char(c),
{
    let cv = c as u32;
    if 97 <= cv && cv <= 122 {
        ((cv - 32) as u8) as char
    } else {
        c
    }
}

} // verus!
