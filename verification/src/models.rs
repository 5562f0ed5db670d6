//! What the game-statistics API reports, and how its failures are described.

use vstd::prelude::*;

verus! {

/// A failed call: a description for people and a code shaped like an HTTP
/// status.
#[derive(Debug, PartialEq, Eq)]
pub struct LolApiError {
    pub description: String,
    pub http_code: String,
}

/// The mathematical content of a [`LolApiError`].
pub struct LolApiErrorView {
    pub description: Seq<char>,
    pub http_code: Seq<char>,
}

impl View for LolApiError {
    type V = LolApiErrorView;

    open spec fn view(&self) -> LolApiErrorView {
        LolApiErrorView { description: self.description@, http_code: self.http_code@ }
    }
}

impl Clone for LolApiError {
    fn clone(&self) -> (copy: Self)
        ensures
            copy@ == self@,
    {
        LolApiError { description: self.description.clone(), http_code: self.http_code.clone() }
    }
}

impl LolApiError {
    /// The code of a failure that no upstream status accounts for.
    pub open spec fn internal_code() -> Seq<char> {
        "500"@
    }

    /// A failure that no upstream status accounts for: the call did not go
    /// through, or its answer could not be read.
    pub fn internal(description: String) -> (error: LolApiError)
        ensures
            error@ == (LolApiErrorView {
                description: description@,
                http_code: Self::internal_code(),
            }),
    {
        LolApiError { description, http_code: "500".to_string() }
    }
}

/// One player's part in one match.
#[derive(Debug, PartialEq, Eq)]
pub struct Participant {
    pub champion_name: String,
    pub puuid: String,
    pub win: bool,
    pub kills: u64,
    pub deaths: u64,
    pub assists: u64,
}

/// The mathematical content of a [`Participant`].
pub struct ParticipantView {
    pub champion_name: Seq<char>,
    pub puuid: Seq<char>,
    pub win: bool,
    pub kills: u64,
    pub deaths: u64,
    pub assists: u64,
}

impl View for Participant {
    type V = ParticipantView;

    open spec fn view(&self) -> ParticipantView {
        ParticipantView {
            champion_name: self.champion_name@,
            puuid: self.puuid@,
            win: self.win,
            kills: self.kills,
            deaths: self.deaths,
            assists: self.assists,
        }
    }
}

impl Clone for Participant {
    fn clone(&self) -> (copy: Self)
        ensures
            copy@ == self@,
    {
        Participant {
            champion_name: self.champion_name.clone(),
            puuid: self.puuid.clone(),
            win: self.win,
            kills: self.kills,
            deaths: self.deaths,
            assists: self.assists,
        }
    }
}

/// The content of each participant of a roster.
pub open spec fn roster_view(roster: Seq<Participant>) -> Seq<ParticipantView> {
    roster.map_values(|participant: Participant| participant@)
}

/// The identifier under which the upstream files a match.
#[derive(Debug, PartialEq, Eq)]
pub struct Metadata {
    pub match_id: String,
}

/// What the upstream records of a match as a whole: who took part, how long
/// it lasted and its number.
#[derive(Debug, PartialEq, Eq)]
pub struct GameInfo {
    pub participants: Vec<Participant>,
    pub game_duration: u64,
    pub game_id: u64,
}

/// The details of one match as the upstream reports them.
#[derive(Debug, PartialEq, Eq)]
pub struct GameSummary {
    pub metadata: Metadata,
    pub info: GameInfo,
}

/// The mathematical content of a [`GameSummary`].
pub struct GameSummaryView {
    pub match_id: Seq<char>,
    pub participants: Seq<ParticipantView>,
    pub game_duration: u64,
    pub game_id: u64,
}

impl View for GameSummary {
    type V = GameSummaryView;

    open spec fn view(&self) -> GameSummaryView {
        GameSummaryView {
            match_id: self.metadata.match_id@,
            participants: roster_view(self.info.participants@),
            game_duration: self.info.game_duration,
            game_id: self.info.game_id,
        }
    }
}

/// One match as it went for one player.
#[derive(Debug, PartialEq, Eq)]
pub struct UserGameSummary {
    pub game_id: u64,
    pub match_id: String,
    pub participant: Participant,
    pub game_duration_millis: u64,
}

/// The mathematical content of a [`UserGameSummary`].
pub struct UserGameSummaryView {
    pub game_id: u64,
    pub match_id: Seq<char>,
    pub participant: ParticipantView,
    pub game_duration_millis: u64,
}

impl View for UserGameSummary {
    type V = UserGameSummaryView;

    open spec fn view(&self) -> UserGameSummaryView {
        UserGameSummaryView {
            game_id: self.game_id,
            match_id: self.match_id@,
            participant: self.participant@,
            game_duration_millis: self.game_duration_millis,
        }
    }
}

impl Clone for UserGameSummary {
    fn clone(&self) -> (copy: Self)
        ensures
            copy@ == self@,
    {
        UserGameSummary {
            game_id: self.game_id,
            match_id: self.match_id.clone(),
            participant: self.participant.clone(),
            game_duration_millis: self.game_duration_millis,
        }
    }
}

/// The content of each summary of a list.
pub open spec fn summaries_view(summaries: Seq<UserGameSummary>) -> Seq<UserGameSummaryView> {
    summaries.map_values(|summary: UserGameSummary| summary@)
}

/// A player's standing in one ranked queue.
#[derive(Debug, PartialEq, Eq)]
pub struct LeagueEntry {
    pub tier: String,
    pub rank: String,
    pub league_points: u64,
    pub queue_type: String,
    pub league_id: String,
}

/// The mathematical content of a [`LeagueEntry`].
pub struct LeagueEntryView {
    pub tier: Seq<char>,
    pub rank: Seq<char>,
    pub league_points: u64,
    pub queue_type: Seq<char>,
    pub league_id: Seq<char>,
}

impl View for LeagueEntry {
    type V = LeagueEntryView;

    open spec fn view(&self) -> LeagueEntryView {
        LeagueEntryView {
            tier: self.tier@,
            rank: self.rank@,
            league_points: self.league_points,
            queue_type: self.queue_type@,
            league_id: self.league_id@,
        }
    }
}

impl Clone for LeagueEntry {
    fn clone(&self) -> (copy: Self)
        ensures
            copy@ == self@,
    {
        LeagueEntry {
            tier: self.tier.clone(),
            rank: self.rank.clone(),
            league_points: self.league_points,
            queue_type: self.queue_type.clone(),
            league_id: self.league_id.clone(),
        }
    }
}

/// The content of a standing that may be absent.
pub open spec fn opt_entry_view(entry: Option<LeagueEntry>) -> Option<LeagueEntryView> {
    match entry {
        Some(entry) => Some(entry@),
        None => None,
    }
}

/// The content of each entry of a list.
pub open spec fn entries_view(entries: Seq<LeagueEntry>) -> Seq<LeagueEntryView> {
    entries.map_values(|entry: LeagueEntry| entry@)
}

/// What one response says about the quota: when the upstream sent it, in
/// seconds since the Unix epoch, and how many requests it then still allowed
/// in the running second and the running minute.
#[derive(Clone, Copy, Debug, PartialEq, Eq, Structural)]
pub struct RateLimitInfo {
    pub received_at: i64,
    pub remaining_per_second: u64,
    pub remaining_per_minute: u64,
}

} // verus!
