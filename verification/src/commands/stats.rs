//! The report line of one player, from what was fetched for the player.

use vstd::prelude::*;
use crate::commands::utils::LookupError;
use crate::emphasis::{
    bold_and_underline, emphasised, level_tier, ratio_tier, tier_of_level, tier_of_ratio,
    EmphasisTier,
};
use crate::level::{level_parts, level_shown, xp_to_level};
use crate::ratio::Ratio;
use crate::text::{push_signed, signed_decimal};

verus! {

/// The Bedwars figures of a player as the provider sends them: any of
/// them may be missing.
#[derive(Debug, PartialEq, Eq)]
pub struct Bedwars {
    pub experience: Option<i32>,
    pub final_kills_bedwars: Option<i32>,
    pub final_deaths_bedwars: Option<i32>,
    pub wins_bedwars: Option<i32>,
    pub losses_bedwars: Option<i32>,
}

/// The statistics of a player, by game.
#[derive(Debug, PartialEq, Eq)]
pub struct Stats {
    pub bedwars: Option<Bedwars>,
}

/// A player as the provider knows it.
#[derive(Debug, PartialEq, Eq)]
pub struct Player {
    pub stats: Option<Stats>,
}

/// What the statistics provider answers.
#[derive(Debug, PartialEq, Eq)]
pub struct PlayerData {
    pub success: bool,
    pub player: Option<Player>,
    pub cause: Option<String>,
}

/// The figures that a report line is made of, none missing.
#[derive(Clone, Copy, Debug, PartialEq, Eq, Structural)]
pub struct Figures {
    pub experience: i32,
    pub final_kills: i32,
    pub final_deaths: i32,
    pub wins: i32,
    pub losses: i32,
}

/// `field`, or zero where it is missing.
pub open spec fn or_zero(field: Option<i32>) -> i32 {
    match field {
        Some(n) => n,
        None => 0,
    }
}

impl Default for Bedwars {
    /// The record in which every figure is there and is zero.
    fn default() -> (bedwars: Bedwars)
        ensures
            bedwars == (Bedwars {
                experience: Some(0),
                final_kills_bedwars: Some(0),
                final_deaths_bedwars: Some(0),
                wins_bedwars: Some(0),
                losses_bedwars: Some(0),
            }),
    {
        Bedwars {
            experience: Some(0),
            final_kills_bedwars: Some(0),
            final_deaths_bedwars: Some(0),
            wins_bedwars: Some(0),
            losses_bedwars: Some(0),
        }
    }
}

impl Bedwars {
    /// The figures with a zero for each one that is missing.
    pub open spec fn filled(self) -> Figures {
        Figures {
            experience: or_zero(self.experience),
            final_kills: or_zero(self.final_kills_bedwars),
            final_deaths: or_zero(self.final_deaths_bedwars),
            wins: or_zero(self.wins_bedwars),
            losses: or_zero(self.losses_bedwars),
        }
    }

    /// Fills each missing figure with zero.
    pub fn figures(&self) -> (figures: Figures)
        ensures
            figures == self.filled(),
    {
        Figures {
            experience: zero_if_missing(self.experience),
            final_kills: zero_if_missing(self.final_kills_bedwars),
            final_deaths: zero_if_missing(self.final_deaths_bedwars),
            wins: zero_if_missing(self.wins_bedwars),
            losses: zero_if_missing(self.losses_bedwars),
        }
    }
}

fn zero_if_missing(field: Option<i32>) -> (n: i32)
    ensures
        n == or_zero(field),
{
    match field {
        Some(n) => n,
        None => 0,
    }
}

impl Figures {
    /// Wins to losses.
    pub open spec fn wlr(self) -> Ratio {
        Ratio { numerator: self.wins, denominator: self.losses }
    }

    /// Final kills to final deaths.
    pub open spec fn fkdr(self) -> Ratio {
        Ratio { numerator: self.final_kills, denominator: self.final_deaths }
    }

    /// The tier of the name: the higher of the level's and of the tier of
    /// final kills to final deaths.
    pub open spec fn name_tier(self) -> EmphasisTier {
        tier_of_level(level_parts(self.experience as int)).higher(tier_of_ratio(self.fkdr()))
    }

    /// Wins to losses.
    pub fn win_loss_ratio(&self) -> (ratio: Ratio)
        ensures
            ratio == self.wlr(),
    {
        Ratio::new(self.wins, self.losses)
    }

    /// Final kills to final deaths.
    pub fn kill_death_ratio(&self) -> (ratio: Ratio)
        ensures
            ratio == self.fkdr(),
    {
        Ratio::new(self.final_kills, self.final_deaths)
    }
}

/// The line of a player who plays under a disguise: the name in the
/// highest tier, and the remark.
pub open spec fn nicked_line(ign: Seq<char>) -> Seq<char> {
    emphasised(ign, 3) + ": Nicked!"@
}

/// The line of the player `ign` with the figures `figures`.
///
/// The name stands in the higher of the two tiers, the level in its own
/// and final kills to final deaths in its own; nothing else is emphasised.
/// Each tier goes by the exact figure, not by the rounded one that is
/// shown.
pub open spec fn stat_line(ign: Seq<char>, figures: Figures) -> Seq<char> {
    let parts = level_parts(figures.experience as int);
    emphasised(ign, figures.name_tier().colour()) + ": "@ + emphasised(
        "Level "@ + level_shown(parts),
        tier_of_level(parts).colour(),
    ) + ", Wins: "@ + signed_decimal(figures.wins as int) + ", WLR: "@ + figures.wlr().shown()
        + ", Finals: "@ + signed_decimal(figures.final_kills as int) + ", "@ + emphasised(
        "FKDR: "@ + figures.fkdr().shown(),
        tier_of_ratio(figures.fkdr()).colour(),
    )
}

/// The line of the player `ign` with the figures `figures`.
pub fn render_line(ign: &str, figures: &Figures) -> (line: String)
    ensures
        line@ == stat_line(ign@, *figures),
{
    let level = xp_to_level(figures.experience);
    let fkdr = figures.kill_death_ratio();
    let level_emphasis = level_tier(&level);
    let fkdr_emphasis = ratio_tier(&fkdr);
    let name_emphasis = level_emphasis.max(fkdr_emphasis);

    let mut level_text = String::from_str("Level ");
    level.push_shown(&mut level_text);
    let mut fkdr_text = String::from_str("FKDR: ");
    fkdr.push_shown(&mut fkdr_text);

    let mut line = bold_and_underline(ign, name_emphasis.colour_code());
    line.append(": ");
    line.append(bold_and_underline(level_text.as_str(), level_emphasis.colour_code()).as_str());
    line.append(", Wins: ");
    push_signed(&mut line, figures.wins as i64);
    line.append(", WLR: ");
    figures.win_loss_ratio().push_shown(&mut line);
    line.append(", Finals: ");
    push_signed(&mut line, figures.final_kills as i64);
    line.append(", ");
    line.append(bold_and_underline(fkdr_text.as_str(), fkdr_emphasis.colour_code()).as_str());
    line
}

/// What came of fetching the statistics of a player.
#[derive(Debug, PartialEq, Eq)]
pub enum Fetched {
    /// The name was not resolved to an identifier, so nothing was asked
    /// of the statistics provider.
    Unresolved,
    /// The provider could not be reached, or its answer not be read, for
    /// the reason given.
    Failed(String),
    /// The provider's answer.
    Reply(PlayerData),
}

/// Why there is no line for a player.
#[derive(Debug, PartialEq, Eq)]
pub enum StatsError {
    /// The provider failed, for the reason given.
    Provider(String),
    /// The provider knows the player but has no Bedwars figures for it.
    NoStats,
}

impl StatsError {
    /// The reason, as text.
    pub open spec fn reason(self) -> Seq<char> {
        match self {
            StatsError::Provider(reason) => reason@,
            StatsError::NoStats => "Unable to retrieve bedwars stats"@,
        }
    }

    /// The reason, as text.
    pub fn message(&self) -> (text: String)
        ensures
            text@ == self.reason(),
    {
        match self {
            StatsError::Provider(reason) => reason.clone(),
            StatsError::NoStats => String::from_str("Unable to retrieve bedwars stats"),
        }
    }
}

/// The Bedwars figures that an answer carries, if it carries any.
pub open spec fn bedwars_of(player: Player) -> Option<Bedwars> {
    match player.stats {
        Some(stats) => stats.bedwars,
        None => None,
    }
}

/// The address at which the statistics of the player `uuid` are asked
/// for with the key `api_key`.
pub open spec fn player_address(uuid: Seq<char>, api_key: Seq<char>) -> Seq<char> {
    "https://api.hypixel.net/v2/player?uuid="@ + uuid + "&key="@ + api_key
}

/// The address at which the statistics of the player `uuid` are asked
/// for with the key `api_key`.
pub fn player_url(uuid: &str, api_key: &str) -> (url: String)
    ensures
        url@ == player_address(uuid@, api_key@),
{
    let mut url = String::from_str("https://api.hypixel.net/v2/player?uuid=");
    url.append(uuid);
    url.append("&key=");
    url.append(api_key);
    url
}

/// The address to ask for a player's statistics, once the name has been
/// looked up: one for a name that was resolved, none for any other.
pub fn request(resolved: &Result<String, LookupError>, api_key: &str) -> (url: Option<String>)
    ensures
        match url {
            Some(url) => resolved matches Ok(uuid) && url@ == player_address(uuid@, api_key@),
            None => resolved is Err,
        },
{
    match resolved {
        Ok(uuid) => Some(player_url(uuid.as_str(), api_key)),
        Err(_) => None,
    }
}

/// What is reported for a player: a line, or the failure.
pub enum Outcome {
    Line(Seq<char>),
    ProviderError(Seq<char>),
    NoStats,
}

/// What is reported for the player `ign` after `fetched`.
///
/// A name that was not resolved is a player under a disguise. A fetch
/// that failed is the provider's failure, and so is an answer that says
/// it failed, for the cause that it names. An answer without a player is
/// again a player under a disguise; one with a player but without Bedwars
/// figures is a failure of its own. Any other answer gives the line of
/// its figures.
pub open spec fn outcome(ign: Seq<char>, fetched: Fetched) -> Outcome {
    match fetched {
        Fetched::Unresolved => Outcome::Line(nicked_line(ign)),
        Fetched::Failed(cause) => Outcome::ProviderError(cause@),
        Fetched::Reply(data) => if !data.success {
            Outcome::ProviderError(
                match data.cause {
                    Some(cause) => cause@,
                    None => "Unknown cause"@,
                },
            )
        } else {
            match data.player {
                None => Outcome::Line(nicked_line(ign)),
                Some(player) => match bedwars_of(player) {
                    None => Outcome::NoStats,
                    Some(bedwars) => Outcome::Line(stat_line(ign, bedwars.filled())),
                },
            }
        },
    }
}

/// What a result of [`get_stats`] reports.
pub open spec fn reported(result: Result<String, StatsError>) -> Outcome {
    match result {
        Ok(line) => Outcome::Line(line@),
        Err(StatsError::Provider(cause)) => Outcome::ProviderError(cause@),
        Err(StatsError::NoStats) => Outcome::NoStats,
    }
}

/// The report line of the player `ign`, or why there is none.
pub fn get_stats(ign: &str, fetched: &Fetched) -> (result: Result<String, StatsError>)
    ensures
        reported(result) == outcome(ign@, *fetched),
{
    match fetched {
        Fetched::Unresolved => Ok(nicked(ign)),
        Fetched::Failed(cause) => Err(StatsError::Provider(cause.clone())),
        Fetched::Reply(data) => {
            if !data.success {
                let cause = match &data.cause {
                    Some(cause) => cause.clone(),
                    None => String::from_str("Unknown cause"),
                };
                return Err(StatsError::Provider(cause));
            }
            match &data.player {
                None => Ok(nicked(ign)),
                Some(player) => {
                    match &player.stats {
                        None => Err(StatsError::NoStats),
                        Some(stats) => match &stats.bedwars {
                            None => Err(StatsError::NoStats),
                            Some(bedwars) => Ok(render_line(ign, &bedwars.figures())),
                        },
                    }
                },
            }
        },
    }
}

/// The line of a player who plays under a disguise.
pub fn nicked(ign: &str) -> (line: String)
    ensures
        line@ == nicked_line(ign@),
{
    let mut line = bold_and_underline(ign, 3);
    line.append(": Nicked!");
    line
}

/// The line of a player is settled by the name and the figures: records
/// that fill to the same figures give the same line for the same name,
/// character for character, so that a missing figure reads as a zero.
pub proof fn lemma_line_is_settled(ign: Seq<char>, first: Bedwars, second: Bedwars)
    requires
        first.filled() == second.filled(),
    ensures
        stat_line(ign, first.filled()) == stat_line(ign, second.filled()),
{
}

/// A player whose name was not resolved gets the line of a player under
/// a disguise, whatever the name is.
pub proof fn lemma_unresolved_is_nicked(ign: Seq<char>)
    ensures
        outcome(ign, Fetched::Unresolved) == Outcome::Line(nicked_line(ign)),
        nicked_line(ign) == emphasised(ign, EmphasisTier::Tier3.colour()) + ": Nicked!"@,
{
}

} // verus!
