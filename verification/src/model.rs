//! The match data that PandaScore reports, and the bot's memory of what it
//! has already announced.

use std::collections::HashMap;
use vstd::prelude::*;

verus! {

/// A match as PandaScore's API describes it.
#[derive(Debug)]
pub struct PsMatch {
    pub id: i64,
    pub name: Option<String>,
    pub status: String,
    pub match_type: Option<String>,
    pub number_of_games: Option<i32>,
    pub scheduled_at: Option<String>,
    pub begin_at: Option<String>,
    pub end_at: Option<String>,
    pub tournament: Option<PsTournament>,
    pub opponents: Vec<PsOpponentWrapper>,
    pub results: Option<Vec<PsResult>>,
    pub winner: Option<PsTeam>,
    pub streams_list: Option<Vec<PsStream>>,
}

/// The tournament a match belongs to.
#[derive(Debug)]
pub struct PsTournament {
    pub name: String,
}

/// One side of a match.
#[derive(Debug)]
pub struct PsOpponentWrapper {
    pub opponent: PsTeam,
}

/// A team.
#[derive(Debug)]
pub struct PsTeam {
    pub id: i64,
    pub name: String,
}

/// A team's score in a match.
#[derive(Debug)]
pub struct PsResult {
    pub team_id: i64,
    pub score: i32,
}

/// A broadcast of a match.
#[derive(Debug)]
pub struct PsStream {
    pub language: Option<String>,
    pub raw_url: Option<String>,
}

/// Where a match stands, as far as the bot has seen.
#[derive(Debug, Clone, Copy, PartialEq, Eq, Structural)]
pub enum MatchStatus {
    Upcoming,
    Running,
    Finished,
    Canceled,
}

/// What the bot remembers of one match: its state and which notices went out.
#[derive(Debug)]
pub struct MatchState {
    pub id: i64,
    pub status: MatchStatus,
    pub notified_announced: bool,
    pub notified_live: bool,
    pub notified_result: bool,
    pub notified_result_24h: bool,
    pub name: String,
    pub scheduled_at: Option<String>,
    pub result_timestamp: Option<String>,
}

/// The bot's whole memory, kept between polls.
#[derive(Debug)]
pub struct BotState {
    pub known_matches: HashMap<i64, MatchState>,
    pub last_daily_reminder: Option<String>,
}

/// The characters of an optional string.
pub open spec fn opt_text(o: Option<String>) -> Option<Seq<char>> {
    match o {
        Some(s) => Some(s@),
        None => None,
    }
}

/// Copies an optional string.
pub fn clone_opt_text(o: &Option<String>) -> (res: Option<String>)
    ensures
        opt_text(res) == opt_text(*o),
{
    match o {
        Some(s) => Some(s.clone()),
        None => None,
    }
}

impl MatchState {
    /// The record of a match just seen for the first time: upcoming, nothing
    /// announced yet, with the match's name (empty where it has none) and
    /// schedule.
    pub open spec fn is_fresh_record_of(self, m: PsMatch) -> bool {
        &&& self.status == MatchStatus::Upcoming
        &&& self.has_fresh_fields_of(m)
    }

    /// All fields but the status are those of a fresh record of `m`.
    pub open spec fn has_fresh_fields_of(self, m: PsMatch) -> bool {
        &&& self.id == m.id
        &&& !self.notified_announced
        &&& !self.notified_live
        &&& !self.notified_result
        &&& !self.notified_result_24h
        &&& self.name@ == (match m.name {
            Some(n) => n@,
            None => Seq::<char>::empty(),
        })
        &&& opt_text(self.scheduled_at) == opt_text(m.scheduled_at)
        &&& self.result_timestamp is None
    }

    /// A fresh record for a match that the bot sees for the first time.
    pub fn new_upcoming(match_data: &PsMatch) -> (res: MatchState)
        ensures
            res.is_fresh_record_of(*match_data),
    {
        let name = match &match_data.name {
            Some(n) => n.clone(),
            None => String::new(),
        };
        MatchState {
            id: match_data.id,
            status: MatchStatus::Upcoming,
            notified_announced: false,
            notified_live: false,
            notified_result: false,
            notified_result_24h: false,
            name,
            scheduled_at: clone_opt_text(&match_data.scheduled_at),
            result_timestamp: None,
        }
    }
}

impl BotState {
    /// A memory with no match and no reminder sent.
    pub fn new() -> (res: BotState)
        ensures
            res.known_matches@ == Map::<i64, MatchState>::empty(),
            res.last_daily_reminder is None,
    {
        BotState { known_matches: HashMap::new(), last_daily_reminder: None }
    }
}

} // verus!
