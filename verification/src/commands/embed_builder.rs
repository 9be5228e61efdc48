//! Arguments and data of the score-embed builder command: edit, copy, or
//! reset a user's score embed format, and the small data records the built
//! embed carries.

use crate::numbers::{push_u64, spec_dec_digits};
use vstd::prelude::*;

verus! {

/// Edit your own score embed format.
pub struct ScoreEmbedBuilderEdit;

/// Copy someone else's score embed format.
pub struct ScoreEmbedBuilderCopy {
    /// The user to copy the format from.
    pub user: u64,
}

/// Reset your score embed format to the default.
pub struct ScoreEmbedBuilderDefault;

/// The builder command: one subcommand per operation.
pub enum ScoreEmbedBuilder {
    Edit(ScoreEmbedBuilderEdit),
    Copy(ScoreEmbedBuilderCopy),
    Default(ScoreEmbedBuilderDefault),
}

/// Whether the miss-analyzer companion service should be consulted for a
/// score: only inside a server, and only when the caller asked for it.
#[derive(Clone, Copy, PartialEq, Eq, Structural, Debug)]
pub struct MissAnalyzerCheck {
    pub guild_id: Option<u64>,
}

impl MissAnalyzerCheck {
    /// Keeps the server id exactly when the miss analyzer was asked for.
    pub fn new(guild_id: Option<u64>, with_miss_analyzer: bool) -> (r: MissAnalyzerCheck)
        ensures
            with_miss_analyzer ==> r.guild_id == guild_id,
            !with_miss_analyzer ==> r.guild_id is None,
    {
        let guild_id = if with_miss_analyzer {
            guild_id
        } else {
            None
        };
        MissAnalyzerCheck { guild_id }
    }

    /// A check that never consults the miss analyzer.
    pub fn without() -> (r: MissAnalyzerCheck)
        ensures
            r.guild_id is None,
    {
        MissAnalyzerCheck { guild_id: None }
    }
}

/// The score id handed to the miss analyzer when it wants a button on the
/// embed.
pub struct MissAnalyzerData {
    pub score_id: u64,
}

/// The line describing a personal-best position.
pub open spec fn spec_personal_best_text(idx: int) -> Seq<char> {
    "Personal Best #"@ + spec_dec_digits(idx + 1)
}

/// Where a score stands in its owner's top plays: the 0-based index, if it
/// is in there, and the formatted text shown in the embed.
pub struct ScoreEmbedDataPersonalBest {
    /// 0-based position among the top plays.
    pub idx: Option<usize>,
    /// The text shown in the embed.
    pub formatted: String,
}

impl ScoreEmbedDataPersonalBest {
    /// Builds the record for a score known to stand at the 0-based `idx`.
    pub fn from_index(idx: usize) -> (r: ScoreEmbedDataPersonalBest)
        requires
            idx < usize::MAX,
        ensures
            r.idx === Some(idx),
            r.formatted@ == spec_personal_best_text(idx as int),
    {
        let mut formatted = String::new();
        formatted.append("Personal Best #");
        push_u64(&mut formatted, (idx + 1) as u64);
        proof {
            assert(formatted@ =~= spec_personal_best_text(idx as int));
        }
        ScoreEmbedDataPersonalBest { idx: Some(idx), formatted }
    }
}

} // verus!
