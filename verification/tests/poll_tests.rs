use vitality_bot::api::{
    past_matches_request, running_matches_request, telegram_message, telegram_send_url,
    upcoming_matches_request,
};
use vitality_bot::clock::{UtcInstant, Zone};
use vitality_bot::cycle::{Notice, PollAction, PollCycle, SendOutcome};
use vitality_bot::model::{BotState, MatchState, MatchStatus, PsMatch, PsOpponentWrapper, PsTeam};

fn team(id: i64, name: &str) -> PsOpponentWrapper {
    PsOpponentWrapper { opponent: PsTeam { id, name: name.to_string() } }
}

fn game(id: i64, begin_at: &str) -> PsMatch {
    PsMatch {
        id,
        name: Some(format!("Match {}", id)),
        status: "not_started".to_string(),
        match_type: None,
        number_of_games: None,
        scheduled_at: Some(begin_at.to_string()),
        begin_at: Some(begin_at.to_string()),
        end_at: None,
        tournament: None,
        opponents: vec![team(9565, "Vitality"), team(id, "Rival")],
        results: None,
        winner: None,
        streams_list: None,
    }
}

fn paris() -> Zone {
    Zone::from_name("Europe/Paris").unwrap()
}

fn at(s: &str) -> UtcInstant {
    UtcInstant::parse_rfc3339(s).unwrap()
}

#[test]
fn new_bot_state_is_empty() {
    let s = BotState::new();
    assert!(s.known_matches.is_empty());
    assert!(s.last_daily_reminder.is_none());
}

#[test]
fn fresh_record() {
    let mut m = game(5, "2024-08-03T18:05:00Z");
    let e = MatchState::new_upcoming(&m);
    assert_eq!(e.id, 5);
    assert_eq!(e.status, MatchStatus::Upcoming);
    assert!(!e.notified_announced && !e.notified_live && !e.notified_result && !e.notified_result_24h);
    assert_eq!(e.name, "Match 5");
    assert_eq!(e.scheduled_at.as_deref(), Some("2024-08-03T18:05:00Z"));
    assert!(e.result_timestamp.is_none());
    m.name = None;
    assert_eq!(MatchState::new_upcoming(&m).name, "");
}

#[test]
fn announcement_goes_out_once() {
    let mut s = BotState::new();
    let m = game(7, "2024-08-03T18:05:00Z");
    let msg = s.plan_announced(&m, &paris());
    assert!(msg.unwrap().contains("<b>Rival</b>"));
    assert_eq!(s.known_matches[&7].status, MatchStatus::Upcoming);
    // Not sent: still due at the next poll.
    assert!(s.plan_announced(&m, &paris()).is_some());
    s.record_announced(7);
    assert!(s.known_matches[&7].notified_announced);
    assert!(s.plan_announced(&m, &paris()).is_none());
    assert_eq!(s.known_matches.len(), 1);
}

#[test]
fn live_notice_goes_out_once_and_marks_running() {
    let mut s = BotState::new();
    let m = game(8, "2024-08-03T18:05:00Z");
    assert!(s.plan_live(&m, &paris()).unwrap().starts_with("🔴"));
    assert_eq!(s.known_matches[&8].status, MatchStatus::Running);
    s.record_live(8);
    assert!(s.plan_live(&m, &paris()).is_none());
    assert!(s.plan_announced(&m, &paris()).is_some());
    assert_eq!(s.known_matches[&8].status, MatchStatus::Running);
}

#[test]
fn result_then_reminder_a_day_later() {
    let mut s = BotState::new();
    let m = game(9, "2024-08-03T18:05:00Z");
    let finished = at("2024-08-03T21:00:00Z");
    assert!(s.plan_result(&m, 9565, &paris()).unwrap().starts_with("💀"));
    assert_eq!(s.known_matches[&9].status, MatchStatus::Finished);
    // Before the result is out, no reminder.
    assert!(s.plan_result_24h(&m, 9565, &at("2024-08-05T00:00:00Z"), &paris()).is_none());
    s.record_result(9, &finished);
    assert!(s.known_matches[&9].notified_result);
    assert_eq!(s.known_matches[&9].result_timestamp.as_deref(), Some("2024-08-03T21:00:00+00:00"));
    assert!(s.plan_result(&m, 9565, &paris()).is_none());
    assert!(s.plan_result_24h(&m, 9565, &at("2024-08-04T20:59:59Z"), &paris()).is_none());
    let later = s.plan_result_24h(&m, 9565, &at("2024-08-04T21:00:00Z"), &paris()).unwrap();
    assert!(later.contains("(24h après la fin)"));
    s.record_result_24h(9);
    assert!(s.plan_result_24h(&m, 9565, &at("2024-08-06T00:00:00Z"), &paris()).is_none());
}

#[test]
fn unreadable_result_time_gives_no_reminder() {
    let mut s = BotState::new();
    let m = game(10, "2024-08-03T18:05:00Z");
    s.plan_result(&m, 9565, &paris());
    s.record_result(10, &at("2024-08-03T21:00:00Z"));
    s.known_matches.get_mut(&10).unwrap().result_timestamp = Some("garbage".to_string());
    assert!(s.plan_result_24h(&m, 9565, &at("2024-09-01T00:00:00Z"), &paris()).is_none());
}

#[test]
fn recording_an_unknown_match_changes_nothing() {
    let mut s = BotState::new();
    s.record_announced(1);
    s.record_live(1);
    s.record_result(1, &at("2024-08-03T21:00:00Z"));
    s.record_result_24h(1);
    assert!(s.known_matches.is_empty());
}

#[test]
fn seen_again_keeps_the_record() {
    let mut s = BotState::new();
    let m = game(11, "2024-08-03T18:05:00Z");
    s.plan_announced(&m, &paris());
    s.record_announced(11);
    s.plan_live(&m, &paris());
    s.record_live(11);
    s.plan_result(&m, 9565, &paris());
    let e = &s.known_matches[&11];
    assert!(e.notified_announced && e.notified_live && !e.notified_result);
    assert_eq!(e.status, MatchStatus::Finished);
}

#[test]
fn morning_reminder_once_per_day() {
    let mut s = BotState::new();
    let today = game(12, "2024-08-03T18:05:00Z");
    let tomorrow = game(13, "2024-08-04T18:05:00Z");
    let upcoming = vec![tomorrow, today];
    // 09:15 in Paris (summer time).
    let morning = at("2024-08-03T07:15:00Z");
    let r = s.plan_daily_reminder(&morning, &paris(), 9, &upcoming).unwrap();
    assert_eq!(r.day, "2024-08-03");
    assert!(r.message.contains("vs Rival (BO3)"));
    assert_eq!(r.message.matches("⏰").count(), 1);
    assert!(r.message.contains("20h05"));
    s.record_daily_reminder(r.day);
    assert!(s.plan_daily_reminder(&at("2024-08-03T07:45:00Z"), &paris(), 9, &upcoming).is_none());
    // Next day, same hour: due again.
    assert!(s.plan_daily_reminder(&at("2024-08-04T07:15:00Z"), &paris(), 9, &upcoming).is_some());
}

#[test]
fn morning_reminder_only_in_its_hour() {
    let s = BotState::new();
    let upcoming = vec![];
    assert!(s.plan_daily_reminder(&at("2024-08-03T06:59:59Z"), &paris(), 9, &upcoming).is_none());
    assert!(s.plan_daily_reminder(&at("2024-08-03T08:00:00Z"), &paris(), 9, &upcoming).is_none());
    let r = s.plan_daily_reminder(&at("2024-08-03T07:00:00Z"), &paris(), 9, &upcoming).unwrap();
    assert_eq!(r.message, "☀️ 𝗠𝗔𝗧𝗖𝗛 𝗔𝗨𝗝𝗢𝗨𝗥𝗗'𝗛𝗨𝗜\n\nAucun match prévu.");
    assert!(s.plan_daily_reminder(&at("2024-08-03T07:00:00Z"), &paris(), u32::MAX, &upcoming).is_none());
}

#[test]
fn pandascore_requests() {
    let r = upcoming_matches_request("tok", 9565);
    assert_eq!(r.url, "https://api.pandascore.co/csgo/matches/upcoming");
    assert_eq!(r.authorization, "Bearer tok");
    let q: Vec<(&str, &str)> = r.query.iter().map(|(a, b)| (a.as_str(), b.as_str())).collect();
    assert_eq!(q, vec![("filter[opponent_id]", "9565"), ("sort", "begin_at"), ("per_page", "50")]);

    let r = running_matches_request("tok", -3);
    assert_eq!(r.url, "https://api.pandascore.co/csgo/matches/running");
    assert_eq!(r.query, vec![("filter[opponent_id]".to_string(), "-3".to_string())]);

    let r = past_matches_request("tok", 9565, 10);
    assert_eq!(r.url, "https://api.pandascore.co/csgo/matches/past");
    let q: Vec<(&str, &str)> = r.query.iter().map(|(a, b)| (a.as_str(), b.as_str())).collect();
    assert_eq!(q, vec![("filter[opponent_id]", "9565"), ("sort", "-end_at"), ("per_page", "10")]);
}

#[test]
fn telegram_request() {
    assert_eq!(telegram_send_url("123:abc"), "https://api.telegram.org/bot123:abc/sendMessage");
    let m = telegram_message("-100", "<b>hi</b>");
    assert_eq!(m.chat_id, "-100");
    assert_eq!(m.text, "<b>hi</b>");
    assert_eq!(m.parse_mode, "HTML");
    assert!(m.disable_web_page_preview);
}

fn run_cycle(
    state: BotState,
    upcoming: Vec<PsMatch>,
    running: Vec<PsMatch>,
    past: Vec<PsMatch>,
    now: &str,
    deliver: impl Fn(&Notice) -> bool,
) -> (BotState, Vec<Notice>, usize) {
    let mut cycle = PollCycle::start(state, upcoming, running, past, 9565, 9, &paris());
    let mut outcome = SendOutcome::NoMessage;
    let mut sent = Vec::new();
    let mut saves = 0;
    let now = at(now);
    loop {
        let (next, action) = cycle.step(outcome, &now);
        cycle = next;
        outcome = SendOutcome::NoMessage;
        match action {
            PollAction::Send(_, notice) => {
                if deliver(&notice) {
                    outcome = SendOutcome::Delivered;
                    sent.push(notice);
                } else {
                    outcome = SendOutcome::Failed;
                }
            }
            PollAction::Save => saves += 1,
            PollAction::Continue => {}
            PollAction::Finished => break,
        }
    }
    (cycle.finish(), sent, saves)
}

#[test]
fn a_cycle_sends_each_notice_once() {
    let up = || vec![game(1, "2024-08-05T18:00:00Z")];
    let run = || vec![game(2, "2024-08-03T17:00:00Z")];
    let past = || vec![game(3, "2024-08-01T17:00:00Z")];
    let (state, sent, saves) =
        run_cycle(BotState::new(), up(), run(), past(), "2024-08-03T12:00:00Z", |_| true);
    assert_eq!(sent, vec![Notice::Announcement(1), Notice::Live(2), Notice::Result(3)]);
    assert_eq!(saves, 1);
    // The next poll sends nothing new.
    let (state, sent, _) = run_cycle(state, up(), run(), past(), "2024-08-03T12:05:00Z", |_| true);
    assert!(sent.is_empty());
    // A day after the result went out, its reminder comes.
    let (state, sent, _) = run_cycle(state, up(), run(), past(), "2024-08-04T12:00:00Z", |_| true);
    assert_eq!(sent, vec![Notice::LaterResult(3)]);
    let (_, sent, _) = run_cycle(state, up(), run(), past(), "2024-08-05T12:00:00Z", |_| true);
    assert!(sent.is_empty());
}

#[test]
fn a_failed_result_skips_its_reminder_and_is_tried_again() {
    let mut state = BotState::new();
    let m = game(4, "2024-08-01T17:00:00Z");
    // A result that went out long ago, then was forgotten.
    state.plan_result(&m, 9565, &paris());
    state.record_result(4, &at("2024-07-01T00:00:00Z"));
    state.known_matches.get_mut(&4).unwrap().notified_result = false;
    let (state, sent, _) = run_cycle(
        state,
        vec![],
        vec![],
        vec![game(4, "2024-08-01T17:00:00Z")],
        "2024-08-03T12:00:00Z",
        |n| *n != Notice::Result(4),
    );
    assert!(sent.is_empty());
    assert!(!state.known_matches[&4].notified_result_24h);
    let (_, sent, _) = run_cycle(
        state,
        vec![],
        vec![],
        vec![game(4, "2024-08-01T17:00:00Z")],
        "2024-08-03T12:05:00Z",
        |_| true,
    );
    assert_eq!(sent, vec![Notice::Result(4)]);
}

#[test]
fn a_cycle_sends_the_morning_reminder() {
    let up = vec![game(5, "2024-08-03T18:05:00Z")];
    let (state, sent, _) =
        run_cycle(BotState::new(), up, vec![], vec![], "2024-08-03T07:10:00Z", |_| true);
    assert_eq!(sent, vec![Notice::Announcement(5), Notice::Reminder]);
    assert_eq!(state.last_daily_reminder.as_deref(), Some("2024-08-03"));
}

#[test]
fn a_cycle_leaves_unlisted_matches_alone() {
    let mut state = BotState::new();
    let other = game(6, "2024-08-01T17:00:00Z");
    state.plan_live(&other, &paris());
    let (state, sent, _) = run_cycle(
        state,
        vec![game(7, "2024-08-05T18:00:00Z")],
        vec![],
        vec![],
        "2024-08-03T12:00:00Z",
        |_| false,
    );
    assert!(sent.is_empty());
    assert_eq!(state.known_matches[&6].status, MatchStatus::Running);
    assert!(!state.known_matches[&6].notified_live);
    assert!(!state.known_matches[&7].notified_announced);
}

#[test]
fn advance_hands_out_a_due_notice_and_report_marks_it() {
    let now = at("2024-08-03T12:00:00Z");
    let cycle = PollCycle::start(
        BotState::new(),
        vec![game(1, "2024-08-05T18:00:00Z")],
        vec![],
        vec![],
        9565,
        9,
        &paris(),
    );
    let (cycle, action) = cycle.advance(&now);
    match action {
        PollAction::Send(text, notice) => {
            assert_eq!(notice, Notice::Announcement(1));
            assert!(text.contains("Rival"));
        }
        _ => panic!("the announcement is due"),
    }
    assert!(!cycle.state().known_matches[&1].notified_announced);
    let cycle = cycle.report(SendOutcome::Delivered, &now);
    assert!(cycle.state().known_matches[&1].notified_announced);
    // The upcoming list is done: the cycle moves on without sending.
    let (cycle, action) = cycle.advance(&now);
    assert!(matches!(action, PollAction::Continue));
    let state = cycle.finish();
    assert!(state.known_matches[&1].notified_announced);
}

#[test]
fn a_failed_send_marks_nothing() {
    let now = at("2024-08-03T12:00:00Z");
    let cycle = PollCycle::start(
        BotState::new(),
        vec![],
        vec![game(2, "2024-08-03T11:00:00Z")],
        vec![],
        9565,
        9,
        &paris(),
    );
    // The upcoming list is empty: the first step only moves on.
    let (cycle, action) = cycle.advance(&now);
    assert!(matches!(action, PollAction::Continue));
    let (cycle, action) = cycle.advance(&now);
    assert!(matches!(action, PollAction::Send(_, Notice::Live(2))));
    let cycle = cycle.report(SendOutcome::Failed, &now);
    assert!(!cycle.state().known_matches[&2].notified_live);
    assert_eq!(cycle.state().known_matches[&2].status, MatchStatus::Running);
}

#[test]
fn after_the_save_the_poll_is_over() {
    let now = at("2024-08-03T12:00:00Z");
    let mut cycle = PollCycle::start(BotState::new(), vec![], vec![], vec![], 9565, 9, &paris());
    let mut actions = Vec::new();
    for _ in 0..8 {
        let (next, action) = cycle.step(SendOutcome::NoMessage, &now);
        cycle = next;
        actions.push(match action {
            PollAction::Send(..) => "send",
            PollAction::Save => "save",
            PollAction::Continue => "continue",
            PollAction::Finished => "finished",
        });
    }
    assert_eq!(
        actions,
        vec!["continue", "continue", "continue", "continue", "save", "finished", "finished", "finished"]
    );
}

#[test]
fn a_poll_sets_statuses_from_its_lists() {
    let mut state = BotState::new();
    let known = game(11, "2024-08-01T17:00:00Z");
    state.plan_live(&known, &paris());
    let (state, _, _) = run_cycle(
        state,
        vec![game(10, "2024-08-05T18:00:00Z"), game(11, "2024-08-01T17:00:00Z"), game(12, "2024-08-01T17:00:00Z")],
        vec![game(12, "2024-08-01T17:00:00Z")],
        vec![game(10, "2024-08-05T18:00:00Z")],
        "2024-08-03T12:00:00Z",
        |_| true,
    );
    assert_eq!(state.known_matches[&10].status, MatchStatus::Finished);
    assert_eq!(state.known_matches[&11].status, MatchStatus::Running);
    assert_eq!(state.known_matches[&12].status, MatchStatus::Running);
}
