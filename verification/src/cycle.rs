//! One poll, from the lists of matches that PandaScore reported to the
//! saving of the bot's memory, as a state machine.
//!
//! The caller performs each action the cycle hands out (sends a message,
//! saves the memory) and reports, at the next step, whether the message went
//! out. The cycle decides everything else: the order of the notices, what the
//! memory records, and that a match whose result could not be sent gets no
//! reminder of it in the same poll.
//!
//! `report` and `advance` state each step exactly; the laws at the end of
//! this file state what a whole poll does: each notice goes out once, a
//! delivered notice is marked, the memory is saved once, and the statuses
//! follow the lists.

use crate::clock::{date_label_text, utc_rfc3339_text, UtcInstant, Zone};
use crate::model::{opt_text, BotState, MatchState, MatchStatus, PsMatch};
use crate::notifications::{
    announced_message, best_of_text, live_message, match_scores, match_time_fits, opponent_name_text,
    reminder_message, result_message, result_text, stream_line_text, tournament_text,
};
use crate::text::decimal_text;
use crate::poll::{
    announced_recorded, announcement_due, law_records_kept_compose, law_recorded_keeps_records,
    law_seen_keeps_records, law_sent_notice_not_due_again,
    live_notice_due, live_recorded, prior_status, records_kept, reminder_due, result_24h_due,
    result_24h_recorded, result_due, result_recorded, seen_with_status, todays_matches,
    DailyReminder,
};
use vstd::prelude::*;

verus! {

broadcast use vstd::std_specs::hash::group_hash_axioms;

/// The part of the poll a cycle is at.
#[derive(Debug, Clone, Copy, PartialEq, Eq, Structural)]
pub enum Stage {
    /// Announcing the upcoming matches.
    Announcing,
    /// Telling which matches are being played.
    Live,
    /// Giving the results of the finished matches.
    Results,
    /// Reminding the result of the finished match at the same position, a
    /// day after it went out.
    LaterResults,
    /// The morning reminder.
    Reminder,
    /// Saving the memory.
    Saving,
    /// Nothing left to do.
    Done,
}

/// The notice a cycle handed out last and waits to hear about.
#[derive(Debug)]
pub enum Pending {
    Nothing,
    Announcement(i64),
    Live(i64),
    Result(i64),
    LaterResult(i64),
    Reminder(String),
}

/// What a message is about.
#[derive(Debug, Clone, Copy, PartialEq, Eq, Structural)]
pub enum Notice {
    /// The announcement of the match with this id.
    Announcement(i64),
    /// The live notice of the match with this id.
    Live(i64),
    /// The result of the match with this id.
    Result(i64),
    /// The reminder of the result of the match with this id.
    LaterResult(i64),
    /// The morning reminder.
    Reminder,
}

/// What the caller is to do next.
#[derive(Debug)]
pub enum PollAction {
    /// Send this message to the chat, then report whether it went out.
    Send(String, Notice),
    /// Save the memory (`PollCycle::state`).
    Save,
    /// Nothing to perform: step again.
    Continue,
    /// The poll is over.
    Finished,
}

/// The fate of the last message handed out.
#[derive(Debug, Clone, Copy, PartialEq, Eq, Structural)]
pub enum SendOutcome {
    /// It went out.
    Delivered,
    /// It could not be sent.
    Failed,
    /// No message was handed out at the last step.
    NoMessage,
}

/// Some match of the three lists has this id.
pub open spec fn listed(up: Seq<PsMatch>, run: Seq<PsMatch>, past: Seq<PsMatch>, id: i64) -> bool {
    ||| exists|i: int| 0 <= i < up.len() && #[trigger] up[i].id == id
    ||| exists|i: int| 0 <= i < run.len() && #[trigger] run[i].id == id
    ||| exists|i: int| 0 <= i < past.len() && #[trigger] past[i].id == id
}

/// Every match whose id is in none of the lists is as it was in `old`
/// (known with the same record, or still unknown).
pub open spec fn unlisted_unchanged(
    old: Map<i64, MatchState>,
    new: Map<i64, MatchState>,
    up: Seq<PsMatch>,
    run: Seq<PsMatch>,
    past: Seq<PsMatch>,
) -> bool {
    forall|id: i64|
        !listed(up, run, past, id) ==> (#[trigger] new.contains_key(id) == old.contains_key(id) && (
        old.contains_key(id) ==> new[id] == old[id]))
}

/// The number of positions a cycle still has to go through.
pub open spec fn remaining(stage: Stage, index: int, up: int, run: int, past: int) -> int {
    match stage {
        Stage::Announcing => (up - index) + run + 2 * past + 5,
        Stage::Live => (run - index) + 2 * past + 4,
        Stage::Results => 2 * (past - index) + 3,
        Stage::LaterResults => 2 * (past - index) + 2,
        Stage::Reminder => 2,
        Stage::Saving => 1,
        Stage::Done => 0,
    }
}

/// A poll in progress.
pub struct PollCycle {
    state: BotState,
    upcoming: Vec<PsMatch>,
    running: Vec<PsMatch>,
    past: Vec<PsMatch>,
    team_id: i64,
    morning_hour: u32,
    zone: Zone,
    stage: Stage,
    index: usize,
    pending: Pending,
    start: Ghost<Map<i64, MatchState>>,
}

impl PollCycle {
    #[verifier::type_invariant]
    spec fn wf(self) -> bool {
        &&& records_kept(self.start@, self.state.known_matches@)
        &&& unlisted_unchanged(
            self.start@,
            self.state.known_matches@,
            self.upcoming@,
            self.running@,
            self.past@,
        )
        &&& match self.stage {
            Stage::Announcing => self.index <= self.upcoming@.len(),
            Stage::Live => self.index <= self.running@.len(),
            Stage::Results => self.index <= self.past@.len(),
            Stage::LaterResults => self.index < self.past@.len(),
            _ => true,
        }
        &&& match self.pending {
            Pending::Announcement(id) => listed(self.upcoming@, self.running@, self.past@, id),
            Pending::Live(id) => listed(self.upcoming@, self.running@, self.past@, id),
            Pending::Result(id) => self.stage == Stage::LaterResults && listed(
                self.upcoming@,
                self.running@,
                self.past@,
                id,
            ),
            Pending::LaterResult(id) => listed(self.upcoming@, self.running@, self.past@, id),
            _ => true,
        }
    }

    /// The memory's records when the poll began.
    pub closed spec fn spec_start(self) -> Map<i64, MatchState> {
        self.start@
    }

    /// The memory's records now.
    pub closed spec fn spec_known(self) -> Map<i64, MatchState> {
        self.state.known_matches@
    }

    /// The upcoming matches of the poll.
    pub closed spec fn spec_upcoming(self) -> Seq<PsMatch> {
        self.upcoming@
    }

    /// The matches being played.
    pub closed spec fn spec_running(self) -> Seq<PsMatch> {
        self.running@
    }

    /// The finished matches.
    pub closed spec fn spec_past(self) -> Seq<PsMatch> {
        self.past@
    }

    /// The time zone of the poll.
    pub closed spec fn spec_zone(self) -> Seq<char> {
        self.zone.spec_name()
    }

    /// Vitality's team id.
    pub closed spec fn spec_team_id(self) -> i64 {
        self.team_id
    }

    /// The hour of the morning reminder.
    pub closed spec fn spec_morning_hour(self) -> u32 {
        self.morning_hour
    }

    /// The part of the poll the cycle is at.
    pub closed spec fn spec_stage(self) -> Stage {
        self.stage
    }

    /// The notice the cycle waits to hear about.
    pub closed spec fn spec_pending(self) -> Pending {
        self.pending
    }

    /// The position of the cycle in the list of its stage.
    pub closed spec fn spec_index(self) -> int {
        self.index as int
    }

    /// The date of the last morning reminder sent, in the memory now.
    pub closed spec fn spec_last_reminder(self) -> Option<String> {
        self.state.last_daily_reminder
    }

    /// The number of positions the cycle still has to go through.
    pub closed spec fn spec_remaining(self) -> int {
        remaining(
            self.stage,
            self.index as int,
            self.upcoming@.len() as int,
            self.running@.len() as int,
            self.past@.len() as int,
        )
    }

    /// A poll of the given lists, starting from the memory `state`.
    pub fn start(
        state: BotState,
        upcoming: Vec<PsMatch>,
        running: Vec<PsMatch>,
        past: Vec<PsMatch>,
        team_id: i64,
        morning_hour: u32,
        zone: &Zone,
    ) -> (res: PollCycle)
        ensures
            res.spec_start() == state.known_matches@,
            res.spec_known() == state.known_matches@,
            res.spec_upcoming() == upcoming@,
            res.spec_running() == running@,
            res.spec_past() == past@,
            res.spec_team_id() == team_id,
            res.spec_morning_hour() == morning_hour,
            res.spec_zone() == zone.spec_name(),
            res.spec_stage() == Stage::Announcing,
            res.spec_pending() is Nothing,
    {
        let ghost start = state.known_matches@;
        PollCycle {
            state,
            upcoming,
            running,
            past,
            team_id,
            morning_hour,
            zone: zone.duplicate(),
            stage: Stage::Announcing,
            index: 0,
            pending: Pending::Nothing,
            start: Ghost(start),
        }
    }

    /// The memory as it stands, for saving. Every record of the memory the
    /// poll began with is still there with every notice it marked as sent,
    /// and the matches that no list names are as they were.
    pub fn state(&self) -> (res: &BotState)
        ensures
            res.known_matches@ == self.spec_known(),
            records_kept(self.spec_start(), res.known_matches@),
            unlisted_unchanged(
                self.spec_start(),
                res.known_matches@,
                self.spec_upcoming(),
                self.spec_running(),
                self.spec_past(),
            ),
    {
        proof { use_type_invariant(self); }
        &self.state
    }

    /// Ends the poll and gives back the memory, which keeps every record and
    /// every notice marked as sent of the memory the poll began with, and
    /// leaves the matches that no list names as they were.
    pub fn finish(self) -> (res: BotState)
        ensures
            res.known_matches@ == self.spec_known(),
            records_kept(self.spec_start(), res.known_matches@),
            unlisted_unchanged(
                self.spec_start(),
                res.known_matches@,
                self.spec_upcoming(),
                self.spec_running(),
                self.spec_past(),
            ),
    {
        proof { use_type_invariant(&self); }
        let PollCycle { state, .. } = self;
        state
    }

    /// Marks the last message handed out as sent where `outcome` says it
    /// went out (a result at the instant `now`). Where a result could not be
    /// sent, the reminder of that result is skipped for this poll.
    pub fn report(self, outcome: SendOutcome, now: &UtcInstant) -> (res: PollCycle)
        ensures
            reported(self, outcome, *now, res),
    {
        proof { use_type_invariant(&self); }
        let ghost before = self;
        let PollCycle {
            mut state,
            upcoming,
            running,
            past,
            team_id,
            morning_hour,
            zone,
            mut stage,
            mut index,
            pending,
            start,
        } = self;
        let ghost known0 = state.known_matches@;
        let past_len = past.len();
        let delivered = match outcome {
            SendOutcome::Delivered => true,
            _ => false,
        };
        match pending {
            Pending::Announcement(id) => {
                if delivered {
                    state.record_announced(id);
                    proof { law_recorded_keeps_records(known0, state.known_matches@, id, Seq::empty()); }
                }
            },
            Pending::Live(id) => {
                if delivered {
                    state.record_live(id);
                    proof { law_recorded_keeps_records(known0, state.known_matches@, id, Seq::empty()); }
                }
            },
            Pending::Result(id) => {
                assert(index < past_len);
                if delivered {
                    state.record_result(id, now);
                    proof {
                        law_recorded_keeps_records(
                            known0,
                            state.known_matches@,
                            id,
                            utc_rfc3339_text(now.spec_secs(), now.spec_nanos()),
                        );
                    }
                } else {
                    stage = Stage::Results;
                    index = index + 1;
                }
            },
            Pending::LaterResult(id) => {
                if delivered {
                    state.record_result_24h(id);
                    proof { law_recorded_keeps_records(known0, state.known_matches@, id, Seq::empty()); }
                }
            },
            Pending::Reminder(day) => {
                if delivered {
                    state.record_daily_reminder(day);
                }
            },
            Pending::Nothing => {},
        }
        PollCycle {
            state,
            upcoming,
            running,
            past,
            team_id,
            morning_hour,
            zone,
            stage,
            index,
            pending: Pending::Nothing,
            start,
        }
    }

    /// Looks at the next position of the poll and tells what to do: the
    /// announcement of the next upcoming match, the live notice of the next
    /// running one, the result of the next finished one and then the reminder
    /// of its result, each where it is due (noting the match in the memory
    /// in any case); then the morning reminder where it is due; then saving;
    /// then the end. A notice handed out waits for `report`; a notice left
    /// waiting by the last step is dropped.
    pub fn advance(self, now: &UtcInstant) -> (res: (PollCycle, PollAction))
        ensures
            advanced(self, *now, res.0, res.1),
    {
        proof { use_type_invariant(&self); }
        let ghost before = self;
        let PollCycle {
            mut state,
            upcoming,
            running,
            past,
            team_id,
            morning_hour,
            zone,
            mut stage,
            mut index,
            pending,
            start,
        } = self;
        let past_len = past.len();
        let mut next = Pending::Nothing;
        let action = match stage {
            Stage::Announcing => {
                if index < upcoming.len() {
                    let m = &upcoming[index];
                    index = index + 1;
                    match state.plan_announced(m, &zone) {
                        Some(msg) => {
                            next = Pending::Announcement(m.id);
                            PollAction::Send(msg, Notice::Announcement(m.id))
                        },
                        None => PollAction::Continue,
                    }
                } else {
                    stage = Stage::Live;
                    index = 0;
                    PollAction::Continue
                }
            },
            Stage::Live => {
                if index < running.len() {
                    let m = &running[index];
                    index = index + 1;
                    match state.plan_live(m, &zone) {
                        Some(msg) => {
                            next = Pending::Live(m.id);
                            PollAction::Send(msg, Notice::Live(m.id))
                        },
                        None => PollAction::Continue,
                    }
                } else {
                    stage = Stage::Results;
                    index = 0;
                    PollAction::Continue
                }
            },
            Stage::Results => {
                if index < past.len() {
                    let m = &past[index];
                    stage = Stage::LaterResults;
                    match state.plan_result(m, team_id, &zone) {
                        Some(msg) => {
                            next = Pending::Result(m.id);
                            PollAction::Send(msg, Notice::Result(m.id))
                        },
                        None => PollAction::Continue,
                    }
                } else {
                    stage = Stage::Reminder;
                    PollAction::Continue
                }
            },
            Stage::LaterResults => {
                assert(index < past_len);
                let m = &past[index];
                stage = Stage::Results;
                index = index + 1;
                match state.plan_result_24h(m, team_id, now, &zone) {
                    Some(msg) => {
                        next = Pending::LaterResult(m.id);
                        PollAction::Send(msg, Notice::LaterResult(m.id))
                    },
                    None => PollAction::Continue,
                }
            },
            Stage::Reminder => {
                stage = Stage::Saving;
                match state.plan_daily_reminder(now, &zone, morning_hour, &upcoming) {
                    Some(r) => {
                        let DailyReminder { day, message } = r;
                        next = Pending::Reminder(day);
                        PollAction::Send(message, Notice::Reminder)
                    },
                    None => PollAction::Continue,
                }
            },
            Stage::Saving => {
                stage = Stage::Done;
                PollAction::Save
            },
            Stage::Done => PollAction::Finished,
        };
        proof {
            if before.stage == Stage::Announcing && before.index < before.upcoming@.len() {
                let m = before.upcoming@[before.index as int];
                assert(listed(before.upcoming@, before.running@, before.past@, m.id));
                law_seen_keeps_records(before.state.known_matches@, state.known_matches@, m, prior_status(before.state.known_matches@, m));
            }
            if before.stage == Stage::Live && before.index < before.running@.len() {
                let m = before.running@[before.index as int];
                assert(listed(before.upcoming@, before.running@, before.past@, m.id));
                law_seen_keeps_records(before.state.known_matches@, state.known_matches@, m, MatchStatus::Running);
            }
            if before.stage == Stage::Results && before.index < before.past@.len() {
                let m = before.past@[before.index as int];
                assert(listed(before.upcoming@, before.running@, before.past@, m.id));
                law_seen_keeps_records(before.state.known_matches@, state.known_matches@, m, MatchStatus::Finished);
            }
        }
        let cycle = PollCycle {
            state,
            upcoming,
            running,
            past,
            team_id,
            morning_hour,
            zone,
            stage,
            index,
            pending: next,
            start,
        };
        (cycle, action)
    }

    /// One step of the poll: `report` of the last message's `outcome`, then
    /// `advance` to the next action.
    pub fn step(self, outcome: SendOutcome, now: &UtcInstant) -> (res: (PollCycle, PollAction))
        ensures
            step_taken(self, outcome, *now, res.0, res.1),
            !(res.1 is Finished) ==> res.0.spec_remaining() < self.spec_remaining(),
            pending_fits(res.0),
    {
        let mid = self.report(outcome, now);
        let ghost g = mid;
        let res = mid.advance(now);
        assert(advanced(g, *now, res.0, res.1));
        res
    }
}

/// The cycle `d` goes on with the same poll as `c`: the same lists, team,
/// reminder hour, zone and starting memory.
pub open spec fn same_poll(c: PollCycle, d: PollCycle) -> bool {
    &&& d.spec_start() == c.spec_start()
    &&& d.spec_upcoming() == c.spec_upcoming()
    &&& d.spec_running() == c.spec_running()
    &&& d.spec_past() == c.spec_past()
    &&& d.spec_team_id() == c.spec_team_id()
    &&& d.spec_morning_hour() == c.spec_morning_hour()
    &&& d.spec_zone() == c.spec_zone()
}

/// `d` is at the same position as `c`.
pub open spec fn same_position(c: PollCycle, d: PollCycle) -> bool {
    d.spec_stage() == c.spec_stage() && d.spec_index() == c.spec_index()
}

/// `d` is `c` once the fate of its last message is known: a delivered
/// announcement, live notice, result (at the instant `now`), reminder of a
/// result or morning reminder is marked in the memory; nothing else changes,
/// except that a result that could not be sent makes the poll move on to the
/// next finished match without reminding that result.
pub open spec fn reported(c: PollCycle, outcome: SendOutcome, now: UtcInstant, d: PollCycle) -> bool {
    &&& same_poll(c, d)
    &&& d.spec_pending() is Nothing
    &&& d.spec_remaining() <= c.spec_remaining()
    &&& if outcome == SendOutcome::Delivered {
        &&& same_position(c, d)
        &&& match c.spec_pending() {
            Pending::Announcement(id) => announced_recorded(c.spec_known(), d.spec_known(), id)
                && d.spec_last_reminder() == c.spec_last_reminder(),
            Pending::Live(id) => live_recorded(c.spec_known(), d.spec_known(), id)
                && d.spec_last_reminder() == c.spec_last_reminder(),
            Pending::Result(id) => result_recorded(
                c.spec_known(),
                d.spec_known(),
                id,
                utc_rfc3339_text(now.spec_secs(), now.spec_nanos()),
            ) && d.spec_last_reminder() == c.spec_last_reminder(),
            Pending::LaterResult(id) => result_24h_recorded(c.spec_known(), d.spec_known(), id)
                && d.spec_last_reminder() == c.spec_last_reminder(),
            Pending::Reminder(day) => d.spec_known() == c.spec_known() && opt_text(
                d.spec_last_reminder(),
            ) == Some(day@),
            Pending::Nothing => d.spec_known() == c.spec_known() && d.spec_last_reminder()
                == c.spec_last_reminder(),
        }
    } else {
        &&& d.spec_known() == c.spec_known()
        &&& d.spec_last_reminder() == c.spec_last_reminder()
        &&& if c.spec_pending() is Result {
            d.spec_stage() == Stage::Results && d.spec_index() == c.spec_index() + 1
        } else {
            same_position(c, d)
        }
    }
}

/// `d` and `a` are what the position of `c` gives at the instant `now`.
pub open spec fn advanced(c: PollCycle, now: UtcInstant, d: PollCycle, a: PollAction) -> bool {
    let up = c.spec_upcoming();
    let run = c.spec_running();
    let past = c.spec_past();
    let zone = c.spec_zone();
    let known = c.spec_known();
    let i = c.spec_index();
    &&& same_poll(c, d)
    &&& d.spec_last_reminder() == c.spec_last_reminder() || c.spec_stage() == Stage::Reminder
    &&& d.spec_remaining() < c.spec_remaining() || c.spec_stage() == Stage::Done
    &&& match c.spec_stage() {
        Stage::Announcing => if i < up.len() {
            &&& seen_with_status(known, d.spec_known(), up[i], prior_status(known, up[i]))
            &&& d.spec_stage() == Stage::Announcing && d.spec_index() == i + 1
            &&& if announcement_due(known, up[i].id) {
                &&& a matches PollAction::Send(t, Notice::Announcement(id))
                &&& id == up[i].id && announced_message(zone, up[i], t@)
                &&& d.spec_pending() == Pending::Announcement(up[i].id)
            } else {
                a is Continue && d.spec_pending() is Nothing
            }
        } else {
            &&& d.spec_known() == known
            &&& d.spec_stage() == Stage::Live && d.spec_index() == 0
            &&& a is Continue && d.spec_pending() is Nothing
        },
        Stage::Live => if i < run.len() {
            &&& seen_with_status(known, d.spec_known(), run[i], MatchStatus::Running)
            &&& d.spec_stage() == Stage::Live && d.spec_index() == i + 1
            &&& if live_notice_due(known, run[i].id) {
                &&& a matches PollAction::Send(t, Notice::Live(id))
                &&& id == run[i].id && live_message(run[i], t@)
                &&& d.spec_pending() == Pending::Live(run[i].id)
            } else {
                a is Continue && d.spec_pending() is Nothing
            }
        } else {
            &&& d.spec_known() == known
            &&& d.spec_stage() == Stage::Results && d.spec_index() == 0
            &&& a is Continue && d.spec_pending() is Nothing
        },
        Stage::Results => if i < past.len() {
            &&& seen_with_status(known, d.spec_known(), past[i], MatchStatus::Finished)
            &&& d.spec_stage() == Stage::LaterResults && d.spec_index() == i
            &&& if result_due(known, past[i].id) {
                &&& a matches PollAction::Send(t, Notice::Result(id))
                &&& id == past[i].id && result_message(
                    zone,
                    past[i],
                    c.spec_team_id(),
                    false,
                    t@,
                )
                &&& d.spec_pending() == Pending::Result(past[i].id)
            } else {
                a is Continue && d.spec_pending() is Nothing
            }
        } else {
            &&& d.spec_known() == known
            &&& d.spec_stage() == Stage::Reminder
            &&& a is Continue && d.spec_pending() is Nothing
        },
        Stage::LaterResults => {
            &&& i < past.len()
            &&& d.spec_known() == known
            &&& d.spec_stage() == Stage::Results && d.spec_index() == i + 1
            &&& if result_24h_due(known, past[i].id, now) {
                &&& a matches PollAction::Send(t, Notice::LaterResult(id))
                &&& id == past[i].id && result_message(
                    zone,
                    past[i],
                    c.spec_team_id(),
                    true,
                    t@,
                )
                &&& d.spec_pending() == Pending::LaterResult(past[i].id)
            } else {
                a is Continue && d.spec_pending() is Nothing
            }
        },
        Stage::Reminder => {
            &&& d.spec_known() == known
            &&& d.spec_last_reminder() == c.spec_last_reminder()
            &&& d.spec_stage() == Stage::Saving
            &&& if reminder_due(c.spec_last_reminder(), zone, now, c.spec_morning_hour()) {
                &&& a matches PollAction::Send(t, Notice::Reminder)
                &&& reminder_message(zone, todays_matches(zone, up, now.local(zone)), t@)
                &&& d.spec_pending() matches Pending::Reminder(day)
                &&& day@ == date_label_text(now.local(zone))
            } else {
                a is Continue && d.spec_pending() is Nothing
            }
        },
        Stage::Saving => {
            &&& d.spec_known() == known
            &&& d.spec_stage() == Stage::Done
            &&& a is Save && d.spec_pending() is Nothing
        },
        Stage::Done => {
            &&& d.spec_known() == known
            &&& d.spec_stage() == Stage::Done
            &&& a is Finished && d.spec_pending() is Nothing
        },
    }
}


/// `a` hands out the notice `n`.
pub open spec fn sends(a: PollAction, n: Notice) -> bool {
    a matches PollAction::Send(_, x) && x == n
}

/// The notice a cycle waits for fits its position: a result waits at the
/// reminder of that result, a morning reminder at the saving.
pub open spec fn pending_fits(c: PollCycle) -> bool {
    &&& c.spec_pending() is Result ==> c.spec_stage() == Stage::LaterResults
    &&& c.spec_pending() is Reminder ==> c.spec_stage() == Stage::Saving
}

/// Reporting the fate of a message forgets no match and unmarks no notice.
pub proof fn law_report_keeps_records(c: PollCycle, outcome: SendOutcome, now: UtcInstant, d: PollCycle)
    requires
        reported(c, outcome, now, d),
    ensures
        records_kept(c.spec_known(), d.spec_known()),
{
    if outcome == SendOutcome::Delivered {
        match c.spec_pending() {
            Pending::Announcement(id) => law_recorded_keeps_records(c.spec_known(), d.spec_known(), id, Seq::empty()),
            Pending::Live(id) => law_recorded_keeps_records(c.spec_known(), d.spec_known(), id, Seq::empty()),
            Pending::Result(id) => law_recorded_keeps_records(
                c.spec_known(),
                d.spec_known(),
                id,
                utc_rfc3339_text(now.spec_secs(), now.spec_nanos()),
            ),
            Pending::LaterResult(id) => law_recorded_keeps_records(c.spec_known(), d.spec_known(), id, Seq::empty()),
            _ => {},
        }
    }
}

/// The memory `known` marks the notice `n` about a match as sent.
pub open spec fn marked(known: Map<i64, MatchState>, n: Notice) -> bool {
    match n {
        Notice::Announcement(id) => !announcement_due(known, id),
        Notice::Live(id) => !live_notice_due(known, id),
        Notice::Result(id) => !result_due(known, id),
        Notice::LaterResult(id) => known.contains_key(id) && known[id].notified_result_24h,
        Notice::Reminder => false,
    }
}

/// Looking at a position forgets no match and unmarks no notice.
pub proof fn law_advance_keeps_records(c: PollCycle, now: UtcInstant, d: PollCycle, a: PollAction)
    requires
        advanced(c, now, d, a),
    ensures
        records_kept(c.spec_known(), d.spec_known()),
{
    let k = c.spec_known();
    let i = c.spec_index();
    match c.spec_stage() {
        Stage::Announcing => if i < c.spec_upcoming().len() {
            law_seen_keeps_records(k, d.spec_known(), c.spec_upcoming()[i], prior_status(k, c.spec_upcoming()[i]));
        },
        Stage::Live => if i < c.spec_running().len() {
            law_seen_keeps_records(k, d.spec_known(), c.spec_running()[i], MatchStatus::Running);
        },
        Stage::Results => if i < c.spec_past().len() {
            law_seen_keeps_records(k, d.spec_known(), c.spec_past()[i], MatchStatus::Finished);
        },
        _ => {},
    }
}

/// A notice about a match that the memory marks as sent is never handed out.
pub proof fn law_advance_skips_marked(
    c: PollCycle,
    now: UtcInstant,
    d: PollCycle,
    a: PollAction,
    n: Notice,
)
    requires
        advanced(c, now, d, a),
        marked(c.spec_known(), n),
    ensures
        !sends(a, n),
{
}

/// Marks stay: what `old` marks as sent, `new` marks too where it keeps the
/// records of `old`.
pub proof fn law_marks_stay(old: Map<i64, MatchState>, new: Map<i64, MatchState>, n: Notice)
    requires
        records_kept(old, new),
        marked(old, n),
    ensures
        marked(new, n),
{
    match n {
        Notice::Announcement(id) => law_sent_notice_not_due_again(old, new, id, arbitrary()),
        Notice::Live(id) => law_sent_notice_not_due_again(old, new, id, arbitrary()),
        Notice::Result(id) => law_sent_notice_not_due_again(old, new, id, arbitrary()),
        Notice::LaterResult(id) => {
            assert(new.contains_key(id));
        },
        Notice::Reminder => {},
    }
}

/// Each notice goes out once: a notice that the memory marks as sent when a
/// step begins is not handed out by that step (nor by any later one, since
/// the mark stays), and the morning reminder is not handed out again on a
/// day whose reminder is marked as sent.
pub proof fn law_marked_notice_not_sent_again(
    c: PollCycle,
    outcome: SendOutcome,
    now: UtcInstant,
    mid: PollCycle,
    d: PollCycle,
    a: PollAction,
    n: Notice,
)
    requires
        pending_fits(c),
        reported(c, outcome, now, mid),
        advanced(mid, now, d, a),
    ensures
        records_kept(c.spec_known(), d.spec_known()),
        marked(c.spec_known(), n) ==> !sends(a, n),
        opt_text(c.spec_last_reminder()) == Some(date_label_text(now.local(c.spec_zone())))
            ==> !sends(a, Notice::Reminder),
{
    law_report_keeps_records(c, outcome, now, mid);
    law_advance_keeps_records(mid, now, d, a);
    law_records_kept_compose(c.spec_known(), mid.spec_known(), d.spec_known());
    if marked(c.spec_known(), n) {
        law_marks_stay(c.spec_known(), mid.spec_known(), n);
        law_advance_skips_marked(mid, now, d, a, n);
    }
}

/// `d` and `a` are what one step of `c` gives, hearing `outcome` of the
/// last message at the instant `now`.
pub open spec fn step_taken(
    c: PollCycle,
    outcome: SendOutcome,
    now: UtcInstant,
    d: PollCycle,
    a: PollAction,
) -> bool {
    exists|mid: PollCycle| reported(c, outcome, now, mid) && #[trigger] advanced(mid, now, d, a)
}

/// `cycles` are the cycles a poll goes through: step `k` hears `outcomes[k]`
/// at the instant `nows[k]`, goes from `cycles[k]` to `cycles[k + 1]` and
/// hands out `actions[k]`.
pub open spec fn poll_run(
    cycles: Seq<PollCycle>,
    outcomes: Seq<SendOutcome>,
    nows: Seq<UtcInstant>,
    actions: Seq<PollAction>,
) -> bool {
    &&& cycles.len() == actions.len() + 1
    &&& outcomes.len() == actions.len()
    &&& nows.len() == actions.len()
    &&& forall|k: int|
        #![trigger actions[k]]
        0 <= k < actions.len() ==> step_taken(cycles[k], outcomes[k], nows[k], cycles[k + 1], actions[k])
}

/// Over a poll, no match is forgotten and no notice unmarked.
pub proof fn law_run_keeps_records(
    cycles: Seq<PollCycle>,
    outcomes: Seq<SendOutcome>,
    nows: Seq<UtcInstant>,
    actions: Seq<PollAction>,
    i: int,
    k: int,
)
    requires
        poll_run(cycles, outcomes, nows, actions),
        0 <= i <= k < cycles.len(),
    ensures
        records_kept(cycles[i].spec_known(), cycles[k].spec_known()),
    decreases k - i,
{
    if i < k {
        law_run_keeps_records(cycles, outcomes, nows, actions, i, k - 1);
        let a = actions[k - 1];
        let mid = choose|mid: PollCycle|
            reported(cycles[k - 1], outcomes[k - 1], nows[k - 1], mid) && #[trigger] advanced(
                mid,
                nows[k - 1],
                cycles[k],
                a,
            );
        law_report_keeps_records(cycles[k - 1], outcomes[k - 1], nows[k - 1], mid);
        law_advance_keeps_records(mid, nows[k - 1], cycles[k], a);
        law_records_kept_compose(cycles[k - 1].spec_known(), mid.spec_known(), cycles[k].spec_known());
        law_records_kept_compose(
            cycles[i].spec_known(),
            cycles[k - 1].spec_known(),
            cycles[k].spec_known(),
        );
    }
}

/// In a poll, a notice about a match that the memory marked as sent when
/// the poll began is never handed out.
pub proof fn law_run_skips_marked_notices(
    cycles: Seq<PollCycle>,
    outcomes: Seq<SendOutcome>,
    nows: Seq<UtcInstant>,
    actions: Seq<PollAction>,
    k: int,
    n: Notice,
)
    requires
        poll_run(cycles, outcomes, nows, actions),
        0 <= k < actions.len(),
        marked(cycles[0].spec_known(), n),
    ensures
        !sends(actions[k], n),
{
    law_run_keeps_records(cycles, outcomes, nows, actions, 0, k);
    law_marks_stay(cycles[0].spec_known(), cycles[k].spec_known(), n);
    let a = actions[k];
    let mid = choose|mid: PollCycle|
        reported(cycles[k], outcomes[k], nows[k], mid) && #[trigger] advanced(mid, nows[k], cycles[k + 1], a);
    law_report_keeps_records(cycles[k], outcomes[k], nows[k], mid);
    law_marks_stay(cycles[k].spec_known(), mid.spec_known(), n);
    law_advance_skips_marked(mid, nows[k], cycles[k + 1], a, n);
}

/// In a poll, a notice about a match goes out once: once it is handed out
/// and heard delivered, no later step hands it out again.
pub proof fn law_run_sends_each_notice_once(
    cycles: Seq<PollCycle>,
    outcomes: Seq<SendOutcome>,
    nows: Seq<UtcInstant>,
    actions: Seq<PollAction>,
    j: int,
    k: int,
    n: Notice,
)
    requires
        poll_run(cycles, outcomes, nows, actions),
        0 <= j < k < actions.len(),
        !(n is Reminder),
        sends(actions[j], n),
        outcomes[j + 1] == SendOutcome::Delivered,
    ensures
        !sends(actions[k], n),
{
    let aj = actions[j];
    let midj = choose|mid: PollCycle|
        reported(cycles[j], outcomes[j], nows[j], mid) && #[trigger] advanced(mid, nows[j], cycles[j + 1], aj);
    let a1 = actions[j + 1];
    let mid1 = choose|mid: PollCycle|
        reported(cycles[j + 1], outcomes[j + 1], nows[j + 1], mid) && #[trigger] advanced(
            mid,
            nows[j + 1],
            cycles[j + 2],
            a1,
        );
    // The step after the send marks the notice before it looks further.
    law_delivered_notice_marked(midj, nows[j], cycles[j + 1], aj, nows[j + 1], mid1, n);
    assert(marked(mid1.spec_known(), n));
    law_advance_skips_marked(mid1, nows[j + 1], cycles[j + 2], a1, n);
    if k > j + 1 {
        law_advance_keeps_records(mid1, nows[j + 1], cycles[j + 2], a1);
        law_marks_stay(mid1.spec_known(), cycles[j + 2].spec_known(), n);
        law_run_keeps_records(cycles, outcomes, nows, actions, j + 2, k);
        law_marks_stay(cycles[j + 2].spec_known(), cycles[k].spec_known(), n);
        let a = actions[k];
        let mid = choose|mid: PollCycle|
            reported(cycles[k], outcomes[k], nows[k], mid) && #[trigger] advanced(
                mid,
                nows[k],
                cycles[k + 1],
                a,
            );
        law_report_keeps_records(cycles[k], outcomes[k], nows[k], mid);
        law_marks_stay(cycles[k].spec_known(), mid.spec_known(), n);
        law_advance_skips_marked(mid, nows[k], cycles[k + 1], a, n);
    }
}

/// A notice that goes out is marked in the memory: once a step hands out a
/// notice and the next step hears that it was delivered, the memory marks
/// the announcement, live notice, result (with the instant `now2` it was
/// heard of) or reminder of a result of that match as sent, or holds the
/// date of the morning reminder as the last one sent.
pub proof fn law_delivered_notice_marked(
    c: PollCycle,
    now: UtcInstant,
    d: PollCycle,
    a: PollAction,
    now2: UtcInstant,
    e: PollCycle,
    n: Notice,
)
    requires
        advanced(c, now, d, a),
        reported(d, SendOutcome::Delivered, now2, e),
        sends(a, n),
    ensures
        match n {
            Notice::Result(id) => {
                &&& e.spec_known().contains_key(id)
                &&& e.spec_known()[id].notified_result
                &&& opt_text(e.spec_known()[id].result_timestamp) == Some(
                    utc_rfc3339_text(now2.spec_secs(), now2.spec_nanos()),
                )
            },
            Notice::Reminder => opt_text(e.spec_last_reminder()) == Some(
                date_label_text(now.local(c.spec_zone())),
            ),
            _ => marked(e.spec_known(), n),
        },
{
}

/// A message that could not be sent, or no message at all, marks nothing:
/// the memory stays as it was.
pub proof fn law_failed_notice_unmarked(c: PollCycle, outcome: SendOutcome, now: UtcInstant, d: PollCycle)
    requires
        reported(c, outcome, now, d),
        outcome != SendOutcome::Delivered,
    ensures
        d.spec_known() == c.spec_known(),
        d.spec_last_reminder() == c.spec_last_reminder(),
{
}

/// The memory is saved once per poll: a step asks for the save exactly at
/// the saving, which changes nothing in the memory and ends the poll's
/// work; the poll says it is over exactly once it has done so, and no other
/// step reaches its end.
pub proof fn law_saved_once(c: PollCycle, now: UtcInstant, d: PollCycle, a: PollAction)
    requires
        advanced(c, now, d, a),
    ensures
        (a is Save) == (c.spec_stage() == Stage::Saving),
        (a is Finished) == (c.spec_stage() == Stage::Done),
        a is Save ==> d.spec_known() == c.spec_known() && d.spec_stage() == Stage::Done
            && d.spec_pending() is Nothing,
        d.spec_stage() == Stage::Done ==> c.spec_stage() == Stage::Saving || c.spec_stage()
            == Stage::Done,
        pending_fits(d),
{
}

/// After the save, every step only says that the poll is over and leaves the
/// memory as it was saved.
pub proof fn law_after_save_only_finished(
    c: PollCycle,
    outcome: SendOutcome,
    now: UtcInstant,
    mid: PollCycle,
    d: PollCycle,
    a: PollAction,
)
    requires
        c.spec_stage() == Stage::Done,
        c.spec_pending() is Nothing,
        reported(c, outcome, now, mid),
        advanced(mid, now, d, a),
    ensures
        a is Finished,
        d.spec_stage() == Stage::Done,
        d.spec_pending() is Nothing,
        d.spec_known() == c.spec_known(),
        d.spec_last_reminder() == c.spec_last_reminder(),
{
}

/// Over a poll, the number of positions left never grows.
pub proof fn law_run_remaining_falls(
    cycles: Seq<PollCycle>,
    outcomes: Seq<SendOutcome>,
    nows: Seq<UtcInstant>,
    actions: Seq<PollAction>,
    i: int,
    k: int,
)
    requires
        poll_run(cycles, outcomes, nows, actions),
        0 <= i <= k < cycles.len(),
    ensures
        cycles[k].spec_remaining() <= cycles[i].spec_remaining(),
    decreases k - i,
{
    if i < k {
        law_run_remaining_falls(cycles, outcomes, nows, actions, i, k - 1);
        let a = actions[k - 1];
        let mid = choose|mid: PollCycle|
            reported(cycles[k - 1], outcomes[k - 1], nows[k - 1], mid) && #[trigger] advanced(
                mid,
                nows[k - 1],
                cycles[k],
                a,
            );
    }
}

/// A step hands out the morning reminder or asks for the save only at the
/// position of that stage, and leaves the cycle with fewer positions left
/// than that position has.
proof fn lemma_step_at_stage(
    c: PollCycle,
    outcome: SendOutcome,
    now: UtcInstant,
    d: PollCycle,
    a: PollAction,
)
    requires
        step_taken(c, outcome, now, d, a),
    ensures
        sends(a, Notice::Reminder) ==> c.spec_remaining() >= 2 && d.spec_remaining() <= 1,
        a is Save ==> c.spec_remaining() >= 1 && d.spec_remaining() == 0,
        d.spec_remaining() <= c.spec_remaining(),
{
    let mid = choose|mid: PollCycle| reported(c, outcome, now, mid) && #[trigger] advanced(mid, now, d, a);
}

/// In a poll, the morning reminder is handed out at most once.
pub proof fn law_run_one_reminder(
    cycles: Seq<PollCycle>,
    outcomes: Seq<SendOutcome>,
    nows: Seq<UtcInstant>,
    actions: Seq<PollAction>,
    j: int,
    k: int,
)
    requires
        poll_run(cycles, outcomes, nows, actions),
        0 <= j < k < actions.len(),
        sends(actions[j], Notice::Reminder),
    ensures
        !sends(actions[k], Notice::Reminder),
{
    lemma_step_at_stage(cycles[j], outcomes[j], nows[j], cycles[j + 1], actions[j]);
    law_run_remaining_falls(cycles, outcomes, nows, actions, j + 1, k);
    lemma_step_at_stage(cycles[k], outcomes[k], nows[k], cycles[k + 1], actions[k]);
}

/// In a poll, the save is asked for at most once.
pub proof fn law_run_saves_at_most_once(
    cycles: Seq<PollCycle>,
    outcomes: Seq<SendOutcome>,
    nows: Seq<UtcInstant>,
    actions: Seq<PollAction>,
    j: int,
    k: int,
)
    requires
        poll_run(cycles, outcomes, nows, actions),
        0 <= j < k < actions.len(),
        actions[j] is Save,
    ensures
        !(actions[k] is Save),
{
    lemma_step_at_stage(cycles[j], outcomes[j], nows[j], cycles[j + 1], actions[j]);
    law_run_remaining_falls(cycles, outcomes, nows, actions, j + 1, k);
    lemma_step_at_stage(cycles[k], outcomes[k], nows[k], cycles[k + 1], actions[k]);
}

/// A poll that has not ended reaches its end only through the save: if
/// `cycles[i]` is not at the end and `cycles[k]` is, some step in between
/// asked for the save.
pub proof fn law_run_ends_after_save(
    cycles: Seq<PollCycle>,
    outcomes: Seq<SendOutcome>,
    nows: Seq<UtcInstant>,
    actions: Seq<PollAction>,
    i: int,
    k: int,
)
    requires
        poll_run(cycles, outcomes, nows, actions),
        0 <= i < k < cycles.len(),
        cycles[i].spec_stage() != Stage::Done,
        cycles[k].spec_stage() == Stage::Done,
    ensures
        exists|j: int| i <= j < k && #[trigger] actions[j] is Save,
    decreases k - i,
{
    let a = actions[k - 1];
    let mid = choose|mid: PollCycle|
        reported(cycles[k - 1], outcomes[k - 1], nows[k - 1], mid) && #[trigger] advanced(
            mid,
            nows[k - 1],
            cycles[k],
            a,
        );
    if cycles[k - 1].spec_stage() == Stage::Done {
        law_run_ends_after_save(cycles, outcomes, nows, actions, i, k - 1);
        let j = choose|j: int| i <= j < k - 1 && #[trigger] actions[j] is Save;
        assert(i <= j < k && actions[j] is Save);
    } else {
        assert(actions[k - 1] is Save);
    }
}

/// The memory is saved once in every poll: a poll that began before its end
/// has asked for the save by the time it says it is over.
pub proof fn law_run_saves_before_finishing(
    cycles: Seq<PollCycle>,
    outcomes: Seq<SendOutcome>,
    nows: Seq<UtcInstant>,
    actions: Seq<PollAction>,
    k: int,
)
    requires
        poll_run(cycles, outcomes, nows, actions),
        cycles[0].spec_stage() != Stage::Done,
        0 <= k < actions.len(),
        actions[k] is Finished,
    ensures
        exists|j: int| 0 <= j < k && #[trigger] actions[j] is Save,
{
    let a = actions[k];
    let mid = choose|mid: PollCycle|
        reported(cycles[k], outcomes[k], nows[k], mid) && #[trigger] advanced(mid, nows[k], cycles[k + 1], a);
    assert(cycles[k].spec_stage() == Stage::Done);
    law_run_ends_after_save(cycles, outcomes, nows, actions, 0, k);
}

/// Some match among the first `n` of `s` has this id.
pub open spec fn listed_before(s: Seq<PsMatch>, n: int, id: i64) -> bool {
    exists|p: int| 0 <= p < n && #[trigger] s[p].id == id
}

/// The status of match `id` in the memory `start`, or `Upcoming` where the
/// memory does not know it.
pub open spec fn status_at_start(start: Map<i64, MatchState>, id: i64) -> MatchStatus {
    if start.contains_key(id) {
        start[id].status
    } else {
        MatchStatus::Upcoming
    }
}

/// The status that the memory `known` holds for match `id`, once a poll
/// that began from `start` has looked at the first `nu` upcoming, `nr`
/// running and `np` finished matches: finished if one of those finished
/// matches has this id, else running if one of those running matches has
/// it, else as at the start if one of those upcoming matches has it; a match
/// none of them names is as it was at the start.
pub open spec fn status_follows(
    start: Map<i64, MatchState>,
    known: Map<i64, MatchState>,
    up: Seq<PsMatch>,
    run: Seq<PsMatch>,
    past: Seq<PsMatch>,
    nu: int,
    nr: int,
    np: int,
    id: i64,
) -> bool {
    if listed_before(past, np, id) {
        known.contains_key(id) && known[id].status == MatchStatus::Finished
    } else if listed_before(run, nr, id) {
        known.contains_key(id) && known[id].status == MatchStatus::Running
    } else if listed_before(up, nu, id) {
        known.contains_key(id) && known[id].status == status_at_start(start, id)
    } else {
        &&& known.contains_key(id) == start.contains_key(id)
        &&& start.contains_key(id) ==> known[id].status == start[id].status
    }
}

/// How many matches of each list a cycle has looked at: upcoming, running
/// and finished.
pub open spec fn visited(c: PollCycle) -> (int, int, int) {
    let nu = c.spec_upcoming().len() as int;
    let nr = c.spec_running().len() as int;
    let np = c.spec_past().len() as int;
    match c.spec_stage() {
        Stage::Announcing => (c.spec_index(), 0, 0),
        Stage::Live => (nu, c.spec_index(), 0),
        Stage::Results => (nu, nr, c.spec_index()),
        Stage::LaterResults => (nu, nr, c.spec_index() + 1),
        _ => (nu, nr, np),
    }
}

/// The position of a cycle lies within the list of its stage.
pub open spec fn position_fits(c: PollCycle) -> bool {
    &&& 0 <= c.spec_index()
    &&& match c.spec_stage() {
        Stage::Announcing => c.spec_index() <= c.spec_upcoming().len(),
        Stage::Live => c.spec_index() <= c.spec_running().len(),
        Stage::Results => c.spec_index() <= c.spec_past().len(),
        Stage::LaterResults => c.spec_index() < c.spec_past().len(),
        _ => true,
    }
}

/// Every status in the memory of `c` is what the matches it has looked at
/// make it.
pub open spec fn statuses_follow(c: PollCycle) -> bool {
    let v = visited(c);
    forall|id: i64|
        #[trigger] status_follows(
            c.spec_start(),
            c.spec_known(),
            c.spec_upcoming(),
            c.spec_running(),
            c.spec_past(),
            v.0,
            v.1,
            v.2,
            id,
        )
}

/// Two memories know the same matches with the same statuses.
pub open spec fn same_statuses(a: Map<i64, MatchState>, b: Map<i64, MatchState>) -> bool {
    forall|id: i64|
        #[trigger] b.contains_key(id) == a.contains_key(id) && (a.contains_key(id) ==> b[id].status
            == a[id].status)
}

proof fn lemma_listed_before_next(s: Seq<PsMatch>, n: int, id: i64)
    requires
        0 <= n < s.len(),
    ensures
        listed_before(s, n + 1, id) == (listed_before(s, n, id) || s[n].id == id),
{
    if listed_before(s, n + 1, id) && !(s[n].id == id) {
        let p = choose|p: int| 0 <= p < n + 1 && #[trigger] s[p].id == id;
        assert(0 <= p < n && s[p].id == id);
    }
    if s[n].id == id {
        assert(0 <= n < n + 1 && s[n].id == id);
    }
    if listed_before(s, n, id) {
        let p = choose|p: int| 0 <= p < n && #[trigger] s[p].id == id;
        assert(0 <= p < n + 1 && s[p].id == id);
    }
}

/// Reporting the fate of a message changes no status and no position that
/// the statuses depend on.
proof fn lemma_report_keeps_statuses(c: PollCycle, outcome: SendOutcome, now: UtcInstant, d: PollCycle)
    requires
        reported(c, outcome, now, d),
        pending_fits(c),
        position_fits(c),
        statuses_follow(c),
    ensures
        position_fits(d),
        statuses_follow(d),
        pending_fits(d),
{
    let k = c.spec_known();
    let k2 = d.spec_known();
    assert(same_statuses(k, k2)) by {
        if outcome == SendOutcome::Delivered {
            match c.spec_pending() {
                Pending::Result(id) => {
                    if k.contains_key(id) {
                        assert(k2 == k.insert(id, k2[id]));
                    }
                },
                _ => {},
            }
        }
    }
    assert(visited(d) == visited(c));
    let v = visited(c);
    assert forall|id: i64|
        #[trigger] status_follows(
            d.spec_start(),
            k2,
            d.spec_upcoming(),
            d.spec_running(),
            d.spec_past(),
            v.0,
            v.1,
            v.2,
            id,
        ) by {
        assert(status_follows(
            c.spec_start(),
            k,
            c.spec_upcoming(),
            c.spec_running(),
            c.spec_past(),
            v.0,
            v.1,
            v.2,
            id,
        ));
        assert(k2.contains_key(id) == k.contains_key(id));
    }
}

/// Looking at a position gives the match there the status of its list and
/// leaves every other status alone.
proof fn lemma_advance_keeps_statuses(c: PollCycle, now: UtcInstant, d: PollCycle, a: PollAction)
    requires
        advanced(c, now, d, a),
        position_fits(c),
        statuses_follow(c),
    ensures
        position_fits(d),
        statuses_follow(d),
{
    let k = c.spec_known();
    let k2 = d.spec_known();
    let up = c.spec_upcoming();
    let run = c.spec_running();
    let past = c.spec_past();
    let start = c.spec_start();
    let i = c.spec_index();
    let v = visited(c);
    let w = visited(d);
    assert forall|id: i64|
        #[trigger] status_follows(start, k2, up, run, past, w.0, w.1, w.2, id) by {
        assert(status_follows(start, k, up, run, past, v.0, v.1, v.2, id));
        match c.spec_stage() {
            Stage::Announcing => if i < up.len() {
                lemma_listed_before_next(up, i, id);
                assert(!listed_before(past, 0, id));
                assert(!listed_before(run, 0, id));
                if up[i].id != id {
                    assert(k2.contains_key(id) == k.contains_key(id));
                }
            } else {
                assert(!listed_before(past, 0, id));
                assert(!listed_before(run, 0, id));
            },
            Stage::Live => if i < run.len() {
                lemma_listed_before_next(run, i, id);
                assert(!listed_before(past, 0, id));
                if run[i].id != id {
                    assert(k2.contains_key(id) == k.contains_key(id));
                }
            } else {
                assert(!listed_before(past, 0, id));
            },
            Stage::Results => if i < past.len() {
                lemma_listed_before_next(past, i, id);
                if past[i].id != id {
                    assert(k2.contains_key(id) == k.contains_key(id));
                }
            },
            _ => {},
        }
    }
}

/// Over a poll that began at its first position, the statuses in the memory
/// follow the matches looked at so far.
proof fn lemma_run_statuses(
    cycles: Seq<PollCycle>,
    outcomes: Seq<SendOutcome>,
    nows: Seq<UtcInstant>,
    actions: Seq<PollAction>,
    k: int,
)
    requires
        poll_run(cycles, outcomes, nows, actions),
        0 <= k < cycles.len(),
        cycles[0].spec_stage() == Stage::Announcing,
        cycles[0].spec_index() == 0,
        cycles[0].spec_known() == cycles[0].spec_start(),
        pending_fits(cycles[0]),
    ensures
        position_fits(cycles[k]),
        statuses_follow(cycles[k]),
        pending_fits(cycles[k]),
    decreases k,
{
    if k == 0 {
        let c = cycles[0];
        assert forall|id: i64|
            #[trigger] status_follows(
                c.spec_start(),
                c.spec_known(),
                c.spec_upcoming(),
                c.spec_running(),
                c.spec_past(),
                0,
                0,
                0,
                id,
            ) by {
            assert(!listed_before(c.spec_past(), 0, id));
            assert(!listed_before(c.spec_running(), 0, id));
            assert(!listed_before(c.spec_upcoming(), 0, id));
        }
    } else {
        lemma_run_statuses(cycles, outcomes, nows, actions, k - 1);
        let a = actions[k - 1];
        let mid = choose|mid: PollCycle|
            reported(cycles[k - 1], outcomes[k - 1], nows[k - 1], mid) && #[trigger] advanced(
                mid,
                nows[k - 1],
                cycles[k],
                a,
            );
        lemma_report_keeps_statuses(cycles[k - 1], outcomes[k - 1], nows[k - 1], mid);
        lemma_advance_keeps_statuses(mid, nows[k - 1], cycles[k], a);
        law_saved_once(mid, nows[k - 1], cycles[k], a);
    }
}

/// At the end of a poll, the memory holds each listed match with the status
/// of the lists: finished if a finished match has its id, else running if a
/// running match has it, else (an upcoming match) the status it had at the
/// start, or upcoming where the memory did not know it.
pub proof fn law_run_final_statuses(
    cycles: Seq<PollCycle>,
    outcomes: Seq<SendOutcome>,
    nows: Seq<UtcInstant>,
    actions: Seq<PollAction>,
    id: i64,
)
    requires
        poll_run(cycles, outcomes, nows, actions),
        cycles[0].spec_stage() == Stage::Announcing,
        cycles[0].spec_index() == 0,
        cycles[0].spec_known() == cycles[0].spec_start(),
        pending_fits(cycles[0]),
        cycles.last().spec_stage() == Stage::Done,
    ensures
        ({
            let c = cycles.last();
            let known = c.spec_known();
            let up = c.spec_upcoming();
            let run = c.spec_running();
            let past = c.spec_past();
            &&& listed_before(past, past.len() as int, id) ==> known.contains_key(id)
                && known[id].status == MatchStatus::Finished
            &&& !listed_before(past, past.len() as int, id) && listed_before(
                run,
                run.len() as int,
                id,
            ) ==> known.contains_key(id) && known[id].status == MatchStatus::Running
            &&& !listed_before(past, past.len() as int, id) && !listed_before(
                run,
                run.len() as int,
                id,
            ) && listed_before(up, up.len() as int, id) ==> known.contains_key(id)
                && known[id].status == status_at_start(cycles[0].spec_start(), id)
        }),
{
    let last = cycles.len() - 1;
    lemma_run_statuses(cycles, outcomes, nows, actions, last);
    law_run_same_poll(cycles, outcomes, nows, actions, last);
    let c = cycles[last];
    let v = visited(c);
    assert(status_follows(
        c.spec_start(),
        c.spec_known(),
        c.spec_upcoming(),
        c.spec_running(),
        c.spec_past(),
        v.0,
        v.1,
        v.2,
        id,
    ));
}

/// A poll keeps its lists, team, hour, zone and starting memory throughout.
pub proof fn law_run_same_poll(
    cycles: Seq<PollCycle>,
    outcomes: Seq<SendOutcome>,
    nows: Seq<UtcInstant>,
    actions: Seq<PollAction>,
    k: int,
)
    requires
        poll_run(cycles, outcomes, nows, actions),
        0 <= k < cycles.len(),
    ensures
        same_poll(cycles[0], cycles[k]),
    decreases k,
{
    if k > 0 {
        law_run_same_poll(cycles, outcomes, nows, actions, k - 1);
        let a = actions[k - 1];
        let mid = choose|mid: PollCycle|
            reported(cycles[k - 1], outcomes[k - 1], nows[k - 1], mid) && #[trigger] advanced(
                mid,
                nows[k - 1],
                cycles[k],
                a,
            );
    }
}

/// The result notice of a finished match as a poll hands it out: the
/// victory or defeat headline (marked " (24h après la fin)" where `later`),
/// Vitality's score, the opponent's score, the opponent, the tournament, the
/// number of games and the start time `time`.
pub open spec fn handed_result_text(
    m: PsMatch,
    team_id: i64,
    later: bool,
    time: Seq<char>,
) -> Seq<char> {
    let s = match_scores(m, team_id);
    (if s.0 > s.1 {
        "🏆 𝗩𝗜𝗖𝗧𝗢𝗜𝗥𝗘 !"@
    } else {
        "💀 𝗗𝗘́𝗙𝗔𝗜𝗧𝗘"@
    }) + (if later {
        " (24h après la fin)"@
    } else {
        Seq::<char>::empty()
    }) + "\n\n<b>"@ + decimal_text(s.0 as int) + " - "@ + decimal_text(s.1 as int) + "</b> "@
        + opponent_name_text(m) + "\n🏆 "@ + tournament_text(m) + " · BO"@ + best_of_text(m)
        + "\n📅 "@ + time
}

/// A poll hands out the result of a finished match as the result notice,
/// with no " (24h après la fin)" mark, and the reminder of a result with the
/// mark: each is about the finished match at the cycle's position and shows
/// its start time.
pub proof fn law_result_notices_carry_their_mark(c: PollCycle, now: UtcInstant, d: PollCycle, a: PollAction)
    requires
        advanced(c, now, d, a),
    ensures
        a matches PollAction::Send(t, Notice::Result(id)) ==> {
            &&& c.spec_stage() == Stage::Results
            &&& 0 <= c.spec_index() < c.spec_past().len()
            &&& c.spec_past()[c.spec_index()].id == id
            &&& exists|time: Seq<char>|
                match_time_fits(c.spec_zone(), c.spec_past()[c.spec_index()], time) && t@
                    == handed_result_text(c.spec_past()[c.spec_index()], c.spec_team_id(), false, time)
        },
        a matches PollAction::Send(t, Notice::LaterResult(id)) ==> {
            &&& c.spec_stage() == Stage::LaterResults
            &&& 0 <= c.spec_index() < c.spec_past().len()
            &&& c.spec_past()[c.spec_index()].id == id
            &&& exists|time: Seq<char>|
                match_time_fits(c.spec_zone(), c.spec_past()[c.spec_index()], time) && t@
                    == handed_result_text(c.spec_past()[c.spec_index()], c.spec_team_id(), true, time)
        },
{
    if let PollAction::Send(t, n) = a {
        let m = c.spec_past()[c.spec_index()];
        let zone = c.spec_zone();
        let team = c.spec_team_id();
        match n {
            Notice::Result(id) => {
                if c.spec_stage() == Stage::Results {
                    let time = choose|time: Seq<char>|
                        #![trigger match_time_fits(zone, m, time)]
                        match_time_fits(zone, m, time) && t@ == result_text(
                            false,
                            match_scores(m, team),
                            opponent_name_text(m),
                            tournament_text(m),
                            best_of_text(m),
                            time,
                        );
                    assert(t@ =~= handed_result_text(m, team, false, time));
                }
            },
            Notice::LaterResult(id) => {
                if c.spec_stage() == Stage::LaterResults {
                    let time = choose|time: Seq<char>|
                        #![trigger match_time_fits(zone, m, time)]
                        match_time_fits(zone, m, time) && t@ == result_text(
                            true,
                            match_scores(m, team),
                            opponent_name_text(m),
                            tournament_text(m),
                            best_of_text(m),
                            time,
                        );
                    assert(t@ =~= handed_result_text(m, team, true, time));
                }
            },
            _ => {},
        }
    }
}

/// A poll hands out the announcement of an upcoming match as "🎮 𝗠𝗔𝗧𝗖𝗛
/// 𝗔𝗡𝗡𝗢𝗡𝗖𝗘́" with the opponent, the tournament, the start time, the number
/// of games and the French stream, and the live notice of a running match
/// as "🔴 𝗟𝗜𝗩𝗘 𝗠𝗔𝗜𝗡𝗧𝗘𝗡𝗔𝗡𝗧" with the opponent, the tournament, the number of
/// games and the stream; each is about the match at the cycle's position.
pub proof fn law_announcement_and_live_texts(c: PollCycle, now: UtcInstant, d: PollCycle, a: PollAction)
    requires
        advanced(c, now, d, a),
    ensures
        a matches PollAction::Send(t, Notice::Announcement(id)) ==> {
            let m = c.spec_upcoming()[c.spec_index()];
            &&& c.spec_stage() == Stage::Announcing
            &&& 0 <= c.spec_index() < c.spec_upcoming().len()
            &&& m.id == id
            &&& exists|time: Seq<char>|
                match_time_fits(c.spec_zone(), m, time) && t@ == "🎮 𝗠𝗔𝗧𝗖𝗛 𝗔𝗡𝗡𝗢𝗡𝗖𝗘́\n\n<b>"@
                    + opponent_name_text(m) + "</b>\n🏆 "@ + tournament_text(m) + "\n📅 "@ + time
                    + "\n🎯 BO"@ + best_of_text(m) + "\n\n📺 Stream FR : "@ + stream_line_text(m)
        },
        a matches PollAction::Send(t, Notice::Live(id)) ==> {
            let m = c.spec_running()[c.spec_index()];
            &&& c.spec_stage() == Stage::Live
            &&& 0 <= c.spec_index() < c.spec_running().len()
            &&& m.id == id
            &&& t@ == "🔴 𝗟𝗜𝗩𝗘 𝗠𝗔𝗜𝗡𝗧𝗘𝗡𝗔𝗡𝗧\n\n<b>"@ + opponent_name_text(m) + "</b>\n🏆 "@
                + tournament_text(m) + " · BO"@ + best_of_text(m) + "\n\n📺 "@ + stream_line_text(m)
        },
{
}

} // verus!
