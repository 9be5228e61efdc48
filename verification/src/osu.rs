//! Plain models of the game values the verified logic reads: game modes,
//! ranked statuses, and the asset URLs built from numeric ids.

use crate::numbers::{push_u64, spec_dec_digits};
use vstd::prelude::*;

verus! {

/// The four game modes.
#[derive(Clone, Copy, PartialEq, Eq, Structural, Debug)]
pub enum GameMode {
    STD,
    TKO,
    CTB,
    MNA,
}

/// Ranked status of a map.
#[derive(Clone, Copy, PartialEq, Eq, Structural, Debug)]
pub enum RankStatus {
    Graveyard,
    Wip,
    Pending,
    Ranked,
    Approved,
    Qualified,
    Loved,
}

/// URL of a player's profile page.
pub open spec fn spec_osu_user_url(user_id: u32) -> Seq<char> {
    "https://osu.ppy.sh/u/"@ + spec_dec_digits(user_id as int)
}

/// Builds the URL of a player's profile page.
pub fn osu_user_url(user_id: u32) -> (r: String)
    ensures
        r@ == spec_osu_user_url(user_id),
{
    let mut url = String::new();
    url.append("https://osu.ppy.sh/u/");
    push_u64(&mut url, user_id as u64);
    proof {
        assert(url@ =~= spec_osu_user_url(user_id));
    }
    url
}

/// URL of a country's flag image.
pub open spec fn spec_flag_url(country_code: Seq<char>) -> Seq<char> {
    "https://osu.ppy.sh/images/flags/"@ + country_code + ".png"@
}

/// Builds the URL of a country's flag image.
pub fn flag_url(country_code: &str) -> (r: String)
    ensures
        r@ == spec_flag_url(country_code@),
{
    let mut url = String::new();
    url.append("https://osu.ppy.sh/images/flags/");
    url.append(country_code);
    url.append(".png");
    proof {
        assert(url@ =~= spec_flag_url(country_code@));
    }
    url
}

/// URL of a mapset's cover image.
pub open spec fn spec_mapset_cover(mapset_id: u32) -> Seq<char> {
    "https://assets.ppy.sh/beatmaps/"@ + spec_dec_digits(mapset_id as int) + "/covers/cover.jpg"@
}

/// Builds the URL of a mapset's cover image.
pub fn mapset_cover(mapset_id: u32) -> (r: String)
    ensures
        r@ == spec_mapset_cover(mapset_id),
{
    let mut url = String::new();
    url.append("https://assets.ppy.sh/beatmaps/");
    push_u64(&mut url, mapset_id as u64);
    url.append("/covers/cover.jpg");
    proof {
        assert(url@ =~= spec_mapset_cover(mapset_id));
    }
    url
}

} // verus!
