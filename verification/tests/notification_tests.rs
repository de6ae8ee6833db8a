use vitality_bot::clock::{UtcInstant, Zone};
use vitality_bot::model::{PsMatch, PsOpponentWrapper, PsResult, PsStream, PsTeam, PsTournament};
use vitality_bot::notifications::{
    extract_match_details, format_announced, format_daily_reminder, format_live,
    format_match_time, format_result, format_result_24h, get_scores, match_is_on_date_of,
};

fn paris() -> Zone {
    Zone::from_name("Europe/Paris").unwrap()
}

fn team(id: i64, name: &str) -> PsOpponentWrapper {
    PsOpponentWrapper { opponent: PsTeam { id, name: name.to_string() } }
}

fn stream(lang: Option<&str>, url: Option<&str>) -> PsStream {
    PsStream { language: lang.map(|s| s.to_string()), raw_url: url.map(|s| s.to_string()) }
}

fn sample() -> PsMatch {
    PsMatch {
        id: 1001,
        name: Some("Vitality vs G2".to_string()),
        status: "not_started".to_string(),
        match_type: Some("best_of".to_string()),
        number_of_games: Some(3),
        scheduled_at: Some("2024-08-03T18:05:00Z".to_string()),
        begin_at: Some("2024-08-03T18:05:00Z".to_string()),
        end_at: None,
        tournament: Some(PsTournament { name: "IEM Cologne".to_string() }),
        opponents: vec![team(9565, "Vitality"), team(3210, "G2")],
        results: Some(vec![
            PsResult { team_id: 9565, score: 2 },
            PsResult { team_id: 3210, score: 1 },
        ]),
        winner: None,
        streams_list: Some(vec![
            stream(Some("en"), Some("https://twitch.tv/en")),
            stream(Some("fr"), Some("https://twitch.tv/fr")),
        ]),
    }
}

#[test]
fn french_match_time() {
    assert_eq!(format_match_time("2024-08-03T18:05:00Z", &paris()), "Samedi 3 août · 20h05");
    assert_eq!(format_match_time("2024-12-25T10:00:00+01:00", &paris()), "Mercredi 25 décembre · 10h00");
    assert_eq!(format_match_time("2024-02-05T22:59:00Z", &paris()), "Lundi 5 février · 23h59");
}

#[test]
fn details_of_a_match() {
    let (opponent, tournament, time, stream) = extract_match_details(&sample(), &paris());
    assert_eq!(opponent, "G2");
    assert_eq!(tournament, "IEM Cologne");
    assert_eq!(time, "Samedi 3 août · 20h05");
    assert_eq!(stream, Some("https://twitch.tv/fr".to_string()));
}

#[test]
fn opponent_when_vitality_is_listed_second_or_alone() {
    let mut m = sample();
    m.opponents = vec![team(3210, "G2"), team(9565, "Vitality")];
    assert_eq!(extract_match_details(&m, &paris()).0, "G2");
    m.opponents = vec![team(9565, "Vitality")];
    assert_eq!(extract_match_details(&m, &paris()).0, "Unknown");
    m.opponents = vec![];
    assert_eq!(extract_match_details(&m, &paris()).0, "Unknown");
}

#[test]
fn missing_tournament_and_time() {
    let mut m = sample();
    m.tournament = None;
    m.begin_at = None;
    let (_, tournament, time, _) = extract_match_details(&m, &paris());
    assert_eq!(tournament, "Tournoi inconnu");
    assert_eq!(time, "Heure inconnue");
}

#[test]
fn stream_choice() {
    let mut m = sample();
    m.streams_list = Some(vec![stream(Some("en"), Some("https://en")), stream(None, Some("https://x"))]);
    assert_eq!(extract_match_details(&m, &paris()).3, Some("https://en".to_string()));
    m.streams_list = Some(vec![stream(Some("fr"), None), stream(Some("en"), Some("https://en"))]);
    assert_eq!(extract_match_details(&m, &paris()).3, None);
    m.streams_list = Some(vec![stream(Some("de"), Some("https://de"))]);
    assert_eq!(extract_match_details(&m, &paris()).3, None);
    m.streams_list = None;
    assert_eq!(extract_match_details(&m, &paris()).3, None);
}

#[test]
fn scores_take_the_last_result_of_each_side() {
    let mut m = sample();
    assert_eq!(get_scores(&m, 9565), (2, 1));
    m.results = Some(vec![
        PsResult { team_id: 9565, score: 1 },
        PsResult { team_id: 3210, score: 1 },
        PsResult { team_id: 9565, score: 3 },
        PsResult { team_id: 42, score: 0 },
    ]);
    assert_eq!(get_scores(&m, 9565), (3, 0));
    m.results = None;
    assert_eq!(get_scores(&m, 9565), (0, 0));
    m.results = Some(vec![]);
    assert_eq!(get_scores(&m, 9565), (0, 0));
}

#[test]
fn announcement_text() {
    assert_eq!(
        format_announced(&sample(), &paris()),
        "🎮 𝗠𝗔𝗧𝗖𝗛 𝗔𝗡𝗡𝗢𝗡𝗖𝗘́\n\n<b>G2</b>\n🏆 IEM Cologne\n📅 Samedi 3 août · 20h05\n🎯 BO3\n\n📺 Stream FR : https://twitch.tv/fr"
    );
}

#[test]
fn announcement_defaults() {
    let mut m = sample();
    m.number_of_games = None;
    m.streams_list = None;
    m.begin_at = None;
    assert_eq!(
        format_announced(&m, &paris()),
        "🎮 𝗠𝗔𝗧𝗖𝗛 𝗔𝗡𝗡𝗢𝗡𝗖𝗘́\n\n<b>G2</b>\n🏆 IEM Cologne\n📅 Heure inconnue\n🎯 BO3\n\n📺 Stream FR : Aucun stream disponible"
    );
}

#[test]
fn live_text() {
    let mut m = sample();
    m.number_of_games = Some(5);
    assert_eq!(
        format_live(&m, &paris()),
        "🔴 𝗟𝗜𝗩𝗘 𝗠𝗔𝗜𝗡𝗧𝗘𝗡𝗔𝗡𝗧\n\n<b>G2</b>\n🏆 IEM Cologne · BO5\n\n📺 https://twitch.tv/fr"
    );
}

#[test]
fn victory_text() {
    assert_eq!(
        format_result(&sample(), 9565, &paris()),
        "🏆 𝗩𝗜𝗖𝗧𝗢𝗜𝗥𝗘 !\n\n<b>2 - 1</b> G2\n🏆 IEM Cologne · BO3\n📅 Samedi 3 août · 20h05"
    );
}

#[test]
fn defeat_and_draw_texts() {
    let mut m = sample();
    m.results = Some(vec![PsResult { team_id: 9565, score: 0 }, PsResult { team_id: 3210, score: 2 }]);
    assert_eq!(
        format_result(&m, 9565, &paris()),
        "💀 𝗗𝗘́𝗙𝗔𝗜𝗧𝗘\n\n<b>0 - 2</b> G2\n🏆 IEM Cologne · BO3\n📅 Samedi 3 août · 20h05"
    );
    m.results = None;
    assert!(format_result(&m, 9565, &paris()).starts_with("💀 𝗗𝗘́𝗙𝗔𝗜𝗧𝗘\n\n<b>0 - 0</b>"));
}

#[test]
fn result_texts_follow_the_configured_team() {
    assert!(format_result(&sample(), 3210, &paris()).starts_with("💀 𝗗𝗘́𝗙𝗔𝗜𝗧𝗘\n\n<b>1 - 2</b>"));
}

#[test]
fn later_result_texts() {
    assert_eq!(
        format_result_24h(&sample(), 9565, &paris()),
        "🏆 𝗩𝗜𝗖𝗧𝗢𝗜𝗥𝗘 ! (24h après la fin)\n\n<b>2 - 1</b> G2\n🏆 IEM Cologne · BO3\n📅 Samedi 3 août · 20h05"
    );
    let mut m = sample();
    m.results = Some(vec![PsResult { team_id: 3210, score: 16 }]);
    assert_eq!(
        format_result_24h(&m, 9565, &paris()),
        "💀 𝗗𝗘́𝗙𝗔𝗜𝗧𝗘 (24h après la fin)\n\n<b>0 - 16</b> G2\n🏆 IEM Cologne · BO3\n📅 Samedi 3 août · 20h05"
    );
}

#[test]
fn empty_daily_reminder() {
    assert_eq!(format_daily_reminder(&[], &paris()), "☀️ 𝗠𝗔𝗧𝗖𝗛 𝗔𝗨𝗝𝗢𝗨𝗥𝗗'𝗛𝗨𝗜\n\nAucun match prévu.");
}

#[test]
fn daily_reminder_lists_the_matches() {
    let a = sample();
    let mut b = sample();
    b.opponents = vec![team(9565, "Vitality"), team(7, "NaVi")];
    b.begin_at = Some("2024-08-03T21:30:00Z".to_string());
    b.number_of_games = Some(1);
    b.streams_list = None;
    b.tournament = None;
    assert_eq!(
        format_daily_reminder(&[&a, &b], &paris()),
        "☀️ 𝗠𝗔𝗧𝗖𝗛 𝗔𝗨𝗝𝗢𝗨𝗥𝗗'𝗛𝗨𝗜\n\nVitality joue aujourd'hui !\n\n\
⏰ Samedi 3 août · 20h05 — vs G2 (BO3)\n   🏆 IEM Cologne\n   📺 https://twitch.tv/fr\n\n\
⏰ Samedi 3 août · 23h30 — vs NaVi (BO1)\n   🏆 Tournoi inconnu\n   📺 Aucun stream disponible"
    );
}

#[test]
fn daily_reminder_trims_a_trailing_blank_link() {
    let mut a = sample();
    a.streams_list = Some(vec![stream(Some("fr"), Some("https://fr "))]);
    assert!(format_daily_reminder(&[&a], &paris()).ends_with("📺 https://fr"));
}

#[test]
fn times_follow_the_time_zone() {
    let ny = Zone::from_name("America/New_York").unwrap();
    assert_eq!(format_match_time("2024-08-03T18:05:00Z", &ny), "Samedi 3 août · 14h05");
    let m = sample();
    assert!(format_announced(&m, &ny).contains("📅 Samedi 3 août · 14h05"));
}

#[test]
fn unreadable_start_uses_the_clock() {
    let text = format_match_time("soon", &paris());
    assert!(text.contains(" · ") && text.contains('h'));
}

#[test]
fn match_on_paris_date() {
    let m = sample();
    let same_day = UtcInstant::parse_rfc3339("2024-08-02T22:30:00Z").unwrap();
    let day_before = UtcInstant::parse_rfc3339("2024-08-02T21:30:00Z").unwrap();
    assert!(match_is_on_date_of(&m, &paris(), &same_day));
    assert!(!match_is_on_date_of(&m, &paris(), &day_before));
    let mut undated = sample();
    undated.begin_at = None;
    assert!(!match_is_on_date_of(&undated, &paris(), &same_day));
    undated.begin_at = Some("soon".to_string());
    assert!(!match_is_on_date_of(&undated, &paris(), &same_day));
}

#[test]
fn later_result_is_the_result_with_its_mark() {
    let m = sample();
    let first = format_result(&m, 9565, &paris());
    let later = format_result_24h(&m, 9565, &paris());
    let words = "🏆 𝗩𝗜𝗖𝗧𝗢𝗜𝗥𝗘 !";
    assert!(first.starts_with(words));
    assert_eq!(later, format!("{} (24h après la fin){}", words, &first[words.len()..]));
}
