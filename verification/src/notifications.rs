//! The Telegram messages the bot sends, built from PandaScore's match data.

use crate::clock::{rfc3339_instant, utc_representable, wall_clock, UtcInstant, WallTime, Zone};
use crate::model::{opt_text, PsMatch, PsResult, PsStream};
use crate::text::{
    append_signed, append_unsigned, decimal_digits, decimal_text, signed_to_string, text_eq,
    trim_end, trim_end_text,
};
use vstd::prelude::*;

verus! {

/// The PandaScore id of Team Vitality, whose matches the bot follows.
pub const VITALITY_TEAM_ID: i64 = 9565;

// ---------------------------------------------------------------------------
// The pieces of a message
// ---------------------------------------------------------------------------

/// The opponent's name: the first team listed, or the second one where the
/// first is Vitality; "Unknown" where that team is missing.
pub open spec fn opponent_name_text(m: PsMatch) -> Seq<char> {
    if m.opponents@.len() == 0 {
        "Unknown"@
    } else if m.opponents@[0].opponent.id == VITALITY_TEAM_ID {
        if m.opponents@.len() > 1 {
            m.opponents@[1].opponent.name@
        } else {
            "Unknown"@
        }
    } else {
        m.opponents@[0].opponent.name@
    }
}

/// The tournament's name, or "Tournoi inconnu" where there is none.
pub open spec fn tournament_text(m: PsMatch) -> Seq<char> {
    match m.tournament {
        Some(t) => t.name@,
        None => "Tournoi inconnu"@,
    }
}

/// Whether the stream is in the given language.
pub open spec fn stream_in(s: PsStream, lang: Seq<char>) -> bool {
    s.language matches Some(l) && l@ == lang
}

/// The index of the first stream from `i` on that is in `lang`.
pub open spec fn first_stream_in(streams: Seq<PsStream>, lang: Seq<char>, i: int) -> Option<int>
    decreases streams.len() - i,
{
    if i < 0 || i >= streams.len() {
        None
    } else if stream_in(streams[i], lang) {
        Some(i)
    } else {
        first_stream_in(streams, lang, i + 1)
    }
}

/// What `first_stream_in` finds is a stream of the asked language, at or
/// after `i`, and no stream between `i` and it is in that language.
pub proof fn lemma_first_stream_in(streams: Seq<PsStream>, lang: Seq<char>, i: int)
    ensures
        first_stream_in(streams, lang, i) matches Some(j) ==> {
            &&& i <= j < streams.len()
            &&& stream_in(streams[j], lang)
            &&& forall|k: int| i <= k < j ==> !stream_in(#[trigger] streams[k], lang)
        },
    decreases streams.len() - i,
{
    if 0 <= i < streams.len() && !stream_in(streams[i], lang) {
        lemma_first_stream_in(streams, lang, i + 1);
    }
}

/// The stream link: that of the first French stream; where there is no French
/// stream, that of the first English one.
pub open spec fn stream_url_text(m: PsMatch) -> Option<Seq<char>> {
    match m.streams_list {
        None => None,
        Some(v) => match first_stream_in(v@, "fr"@, 0) {
            Some(i) => opt_text(v@[i].raw_url),
            None => match first_stream_in(v@, "en"@, 0) {
                Some(i) => opt_text(v@[i].raw_url),
                None => None,
            },
        },
    }
}

/// The stream link is that of the first stream whose language is "fr";
/// where no stream is in French, that of the first stream whose language is
/// "en"; where there is neither, there is no link.
pub proof fn law_stream_prefers_french(m: PsMatch, v: Vec<PsStream>, j: int)
    requires
        m.streams_list == Some(v),
    ensures
        0 <= j < v@.len() && stream_in(v@[j], "fr"@) && (forall|k: int|
            0 <= k < j ==> !stream_in(#[trigger] v@[k], "fr"@)) ==> stream_url_text(m) == opt_text(
            v@[j].raw_url,
        ),
        0 <= j < v@.len() && (forall|k: int|
            0 <= k < v@.len() ==> !stream_in(#[trigger] v@[k], "fr"@)) && stream_in(v@[j], "en"@)
            && (forall|k: int| 0 <= k < j ==> !stream_in(#[trigger] v@[k], "en"@))
            ==> stream_url_text(m) == opt_text(v@[j].raw_url),
        (forall|k: int|
            0 <= k < v@.len() ==> !stream_in(#[trigger] v@[k], "fr"@) && !stream_in(v@[k], "en"@))
            ==> stream_url_text(m) is None,
{
    lemma_first_stream_in(v@, "fr"@, 0);
    lemma_first_stream_in(v@, "en"@, 0);
    lemma_no_stream_in(v@, "fr"@, 0);
    lemma_no_stream_in(v@, "en"@, 0);
    if 0 <= j < v@.len() && stream_in(v@[j], "fr"@) {
        assert(first_stream_in(v@, "fr"@, 0) is Some);
        let i = first_stream_in(v@, "fr"@, 0)->0;
        if i < j {
            assert(stream_in(v@[i], "fr"@));
        }
    }
    if 0 <= j < v@.len() && stream_in(v@[j], "en"@) {
        assert(first_stream_in(v@, "en"@, 0) is Some);
        let i = first_stream_in(v@, "en"@, 0)->0;
        if i < j {
            assert(stream_in(v@[i], "en"@));
        }
    }
}

/// `first_stream_in` finds none exactly where no stream from `i` on is in
/// `lang`.
proof fn lemma_no_stream_in(streams: Seq<PsStream>, lang: Seq<char>, i: int)
    requires
        0 <= i,
    ensures
        (forall|k: int| i <= k < streams.len() ==> !stream_in(#[trigger] streams[k], lang))
            <==> first_stream_in(streams, lang, i) is None,
    decreases streams.len() - i,
{
    if i < streams.len() {
        lemma_no_stream_in(streams, lang, i + 1);
        if !stream_in(streams[i], lang) {
            if first_stream_in(streams, lang, i) is None {
                assert forall|k: int| i <= k < streams.len() implies !stream_in(
                    #[trigger] streams[k],
                    lang,
                ) by {
                    if k > i {
                    }
                }
            }
        }
    }
}

/// The stream link as a message shows it.
pub open spec fn stream_line_text(m: PsMatch) -> Seq<char> {
    match stream_url_text(m) {
        Some(u) => u,
        None => "Aucun stream disponible"@,
    }
}

/// The number of games of the match (best of ...), 3 where PandaScore gives
/// none.
pub open spec fn best_of_text(m: PsMatch) -> Seq<char> {
    match m.number_of_games {
        Some(n) => decimal_text(n as int),
        None => "3"@,
    }
}

/// French name of a day of the week, counted from Monday.
pub open spec fn weekday_name(d: u32) -> Seq<char> {
    if d == 0 { "Lundi"@ }
    else if d == 1 { "Mardi"@ }
    else if d == 2 { "Mercredi"@ }
    else if d == 3 { "Jeudi"@ }
    else if d == 4 { "Vendredi"@ }
    else if d == 5 { "Samedi"@ }
    else { "Dimanche"@ }
}

/// French name of a month, 1 for January; empty outside 1 to 12.
pub open spec fn month_name(m: u32) -> Seq<char> {
    if m == 1 { "janvier"@ }
    else if m == 2 { "février"@ }
    else if m == 3 { "mars"@ }
    else if m == 4 { "avril"@ }
    else if m == 5 { "mai"@ }
    else if m == 6 { "juin"@ }
    else if m == 7 { "juillet"@ }
    else if m == 8 { "août"@ }
    else if m == 9 { "septembre"@ }
    else if m == 10 { "octobre"@ }
    else if m == 11 { "novembre"@ }
    else if m == 12 { "décembre"@ }
    else { Seq::<char>::empty() }
}

/// The names of the months and days of the week, in French: January is
/// "janvier", ..., December is "décembre"; Monday (0) is "Lundi", ..., Sunday
/// (6) is "Dimanche".
pub proof fn law_french_calendar_names()
    ensures
        month_name(1) == "janvier"@,
        month_name(2) == "février"@,
        month_name(3) == "mars"@,
        month_name(4) == "avril"@,
        month_name(5) == "mai"@,
        month_name(6) == "juin"@,
        month_name(7) == "juillet"@,
        month_name(8) == "août"@,
        month_name(9) == "septembre"@,
        month_name(10) == "octobre"@,
        month_name(11) == "novembre"@,
        month_name(12) == "décembre"@,
        weekday_name(0) == "Lundi"@,
        weekday_name(1) == "Mardi"@,
        weekday_name(2) == "Mercredi"@,
        weekday_name(3) == "Jeudi"@,
        weekday_name(4) == "Vendredi"@,
        weekday_name(5) == "Samedi"@,
        weekday_name(6) == "Dimanche"@,
{
}

/// A number written with at least two digits (`{:02}`).
pub open spec fn two_digits(n: nat) -> Seq<char> {
    if n < 10 {
        seq!['0'] + decimal_digits(n)
    } else {
        decimal_digits(n)
    }
}

/// A wall clock's date and time in French, such as "Samedi 3 août · 20h05".
pub open spec fn french_time_text(p: WallTime) -> Seq<char> {
    weekday_name(p.weekday) + " "@ + decimal_digits(p.day as nat) + " "@ + month_name(p.month)
        + " · "@ + decimal_digits(p.hour as nat) + "h"@ + two_digits(p.minute as nat)
}

/// `text` is the French time that the bot writes for the RFC 3339 text `s`,
/// on a clock in `zone`: the time of the instant `s` names; where chrono
/// refuses `s`, the time of the instant at which the system clock was read,
/// or "Heure inconnue" where the clock could not be read.
pub open spec fn time_text_fits(zone: Seq<char>, s: Seq<char>, text: Seq<char>) -> bool {
    match rfc3339_instant(s) {
        Some(p) => text == french_time_text(wall_clock(zone, p.0, p.1)),
        None => text == "Heure inconnue"@ || exists|secs: i64, nanos: u32|
            utc_representable(secs, nanos) && text == french_time_text(
                #[trigger] wall_clock(zone, secs, nanos),
            ),
    }
}

/// `text` is the French time the bot writes in `zone` for the match's start,
/// or "Heure inconnue" where PandaScore gives no start.
pub open spec fn match_time_fits(zone: Seq<char>, m: PsMatch, text: Seq<char>) -> bool {
    match m.begin_at {
        Some(s) => time_text_fits(zone, s@, text),
        None => text == "Heure inconnue"@,
    }
}

/// The scores of Vitality and of its opponent: for each, the score of the
/// last result that belongs to it (Vitality's result is the one with its team
/// id, the opponent's any other), 0 where there is none.
pub open spec fn scores_of(results: Seq<PsResult>, team_id: i64) -> (i32, i32)
    decreases results.len(),
{
    if results.len() == 0 {
        (0, 0)
    } else {
        let before = scores_of(results.drop_last(), team_id);
        let r = results.last();
        if r.team_id == team_id {
            (r.score, before.1)
        } else {
            (before.0, r.score)
        }
    }
}

/// Vitality's score is that of the last result with Vitality's team id, and
/// the opponent's that of the last result with another team id; a side with
/// no result scores 0.
pub proof fn law_scores_are_the_last_of_each_side(results: Seq<PsResult>, team_id: i64)
    ensures
        forall|i: int|
            0 <= i < results.len() && #[trigger] results[i].team_id == team_id && (forall|j: int|
                i < j < results.len() ==> results[j].team_id != team_id) ==> scores_of(
                results,
                team_id,
            ).0 == results[i].score,
        (forall|j: int| 0 <= j < results.len() ==> #[trigger] results[j].team_id != team_id)
            ==> scores_of(results, team_id).0 == 0,
        forall|i: int|
            0 <= i < results.len() && #[trigger] results[i].team_id != team_id && (forall|j: int|
                i < j < results.len() ==> results[j].team_id == team_id) ==> scores_of(
                results,
                team_id,
            ).1 == results[i].score,
        (forall|j: int| 0 <= j < results.len() ==> #[trigger] results[j].team_id == team_id)
            ==> scores_of(results, team_id).1 == 0,
    decreases results.len(),
{
    if results.len() > 0 {
        let init = results.drop_last();
        law_scores_are_the_last_of_each_side(init, team_id);
        let n = results.len() - 1;
        assert forall|i: int|
            0 <= i < results.len() && #[trigger] results[i].team_id == team_id && (forall|j: int|
                i < j < results.len() ==> results[j].team_id != team_id) implies scores_of(
            results,
            team_id,
        ).0 == results[i].score by {
            if i < n {
                assert(results[n].team_id != team_id);
                assert(init[i] == results[i]);
                assert forall|j: int| i < j < init.len() implies init[j].team_id != team_id by {
                    assert(init[j] == results[j]);
                }
            }
        }
        if forall|j: int| 0 <= j < results.len() ==> #[trigger] results[j].team_id != team_id {
            assert forall|j: int| 0 <= j < init.len() implies #[trigger] init[j].team_id != team_id by {
                assert(init[j] == results[j]);
            }
            assert(results[n].team_id != team_id);
        }
        assert forall|i: int|
            0 <= i < results.len() && #[trigger] results[i].team_id != team_id && (forall|j: int|
                i < j < results.len() ==> results[j].team_id == team_id) implies scores_of(
            results,
            team_id,
        ).1 == results[i].score by {
            if i < n {
                assert(results[n].team_id == team_id);
                assert(init[i] == results[i]);
                assert forall|j: int| i < j < init.len() implies init[j].team_id == team_id by {
                    assert(init[j] == results[j]);
                }
            }
        }
        if forall|j: int| 0 <= j < results.len() ==> #[trigger] results[j].team_id == team_id {
            assert forall|j: int| 0 <= j < init.len() implies #[trigger] init[j].team_id == team_id by {
                assert(init[j] == results[j]);
            }
            assert(results[n].team_id == team_id);
        }
    }
}

/// The scores of a match, (0, 0) where PandaScore gives no results.
pub open spec fn match_scores(m: PsMatch, team_id: i64) -> (i32, i32) {
    match m.results {
        Some(rs) => scores_of(rs@, team_id),
        None => (0, 0),
    }
}

// ---------------------------------------------------------------------------
// The messages
// ---------------------------------------------------------------------------

/// The announcement of an upcoming match.
pub open spec fn announced_text(
    opponent: Seq<char>,
    tournament: Seq<char>,
    time: Seq<char>,
    best_of: Seq<char>,
    stream: Seq<char>,
) -> Seq<char> {
    "🎮 𝗠𝗔𝗧𝗖𝗛 𝗔𝗡𝗡𝗢𝗡𝗖𝗘́\n\n<b>"@ + opponent + "</b>\n🏆 "@ + tournament + "\n📅 "@ + time
        + "\n🎯 BO"@ + best_of + "\n\n📺 Stream FR : "@ + stream
}

/// The notice that a match is being played.
pub open spec fn live_text(
    opponent: Seq<char>,
    tournament: Seq<char>,
    best_of: Seq<char>,
    stream: Seq<char>,
) -> Seq<char> {
    "🔴 𝗟𝗜𝗩𝗘 𝗠𝗔𝗜𝗡𝗧𝗘𝗡𝗔𝗡𝗧\n\n<b>"@ + opponent + "</b>\n🏆 "@ + tournament + " · BO"@ + best_of
        + "\n\n📺 "@ + stream
}

/// The first words of a result: a victory where Vitality scored more than
/// its opponent, a defeat otherwise.
pub open spec fn result_words(victory: bool) -> Seq<char> {
    if victory {
        "🏆 𝗩𝗜𝗖𝗧𝗢𝗜𝗥𝗘 !"@
    } else {
        "💀 𝗗𝗘́𝗙𝗔𝗜𝗧𝗘"@
    }
}

/// What marks the reminder of a result, sent a day after the match ended.
pub open spec fn later_mark() -> Seq<char> {
    " (24h après la fin)"@
}

/// The headline of a result; `later` marks the reminder sent a day after.
pub open spec fn result_headline(victory: bool, later: bool) -> Seq<char> {
    result_words(victory) + (if later { later_mark() } else { Seq::<char>::empty() }) + "\n\n<b>"@
}

/// The notice of a finished match's result.
pub open spec fn result_text(
    later: bool,
    scores: (i32, i32),
    opponent: Seq<char>,
    tournament: Seq<char>,
    best_of: Seq<char>,
    time: Seq<char>,
) -> Seq<char> {
    result_headline(scores.0 > scores.1, later) + decimal_text(scores.0 as int) + " - "@
        + decimal_text(scores.1 as int) + "</b> "@ + opponent + "\n🏆 "@ + tournament + " · BO"@
        + best_of + "\n📅 "@ + time
}

/// The reminder of a result reads as the result itself with " (24h après
/// la fin)" after its first words, where both show the same start time.
pub proof fn law_later_result_marks_first_words(
    scores: (i32, i32),
    opponent: Seq<char>,
    tournament: Seq<char>,
    best_of: Seq<char>,
    time: Seq<char>,
)
    ensures
        ({
            let words = result_words(scores.0 > scores.1);
            let first = result_text(false, scores, opponent, tournament, best_of, time);
            let later = result_text(true, scores, opponent, tournament, best_of, time);
            &&& first == words + first.skip(words.len() as int)
            &&& later == words + later_mark() + first.skip(words.len() as int)
        }),
{
    let words = result_words(scores.0 > scores.1);
    let first = result_text(false, scores, opponent, tournament, best_of, time);
    let later = result_text(true, scores, opponent, tournament, best_of, time);
    let rest = "\n\n<b>"@ + decimal_text(scores.0 as int) + " - "@ + decimal_text(scores.1 as int)
        + "</b> "@ + opponent + "\n🏆 "@ + tournament + " · BO"@ + best_of + "\n📅 "@ + time;
    assert(first =~= words + rest);
    assert(later =~= words + later_mark() + rest);
    assert(first.skip(words.len() as int) =~= rest);
}

/// `msg` is the announcement of `m`.
pub open spec fn announced_message(zone: Seq<char>, m: PsMatch, msg: Seq<char>) -> bool {
    exists|time: Seq<char>|
        #![trigger match_time_fits(zone, m, time)]
        match_time_fits(zone, m, time) && msg == announced_text(
            opponent_name_text(m),
            tournament_text(m),
            time,
            best_of_text(m),
            stream_line_text(m),
        )
}

/// `msg` is the live notice of `m`.
pub open spec fn live_message(m: PsMatch, msg: Seq<char>) -> bool {
    msg == live_text(opponent_name_text(m), tournament_text(m), best_of_text(m), stream_line_text(m))
}

/// `msg` is the result notice of `m` (`later`: the one sent a day after).
pub open spec fn result_message(
    zone: Seq<char>,
    m: PsMatch,
    team_id: i64,
    later: bool,
    msg: Seq<char>,
) -> bool {
    exists|time: Seq<char>|
        #![trigger match_time_fits(zone, m, time)]
        match_time_fits(zone, m, time) && msg == result_text(
            later,
            match_scores(m, team_id),
            opponent_name_text(m),
            tournament_text(m),
            best_of_text(m),
            time,
        )
}

/// The first lines of the morning reminder.
pub open spec fn reminder_header() -> Seq<char> {
    "☀️ 𝗠𝗔𝗧𝗖𝗛 𝗔𝗨𝗝𝗢𝗨𝗥𝗗'𝗛𝗨𝗜\n\n"@
}

/// One match's lines in the morning reminder.
pub open spec fn reminder_line(m: PsMatch, time: Seq<char>) -> Seq<char> {
    "⏰ "@ + time + " — vs "@ + opponent_name_text(m) + " (BO"@ + best_of_text(m) + ")\n   🏆 "@
        + tournament_text(m) + "\n   📺 "@ + stream_line_text(m) + "\n\n"@
}

/// The lines of all the matches, in order, each with its time text.
pub open spec fn reminder_lines(ms: Seq<PsMatch>, times: Seq<Seq<char>>) -> Seq<char>
    decreases ms.len(),
{
    if ms.len() == 0 {
        Seq::<char>::empty()
    } else {
        reminder_lines(ms.drop_last(), times.drop_last()) + reminder_line(
            ms.last(),
            times[ms.len() - 1],
        )
    }
}

/// The matches behind a list of references.
pub open spec fn deref_matches(ms: Seq<&PsMatch>) -> Seq<PsMatch> {
    ms.map_values(|r: &PsMatch| *r)
}

/// `msg` is the morning reminder for the matches `ms`: a fixed text where
/// there are none, else a header followed by one block per match, without
/// the trailing white space.
pub open spec fn reminder_message(zone: Seq<char>, ms: Seq<PsMatch>, msg: Seq<char>) -> bool {
    if ms.len() == 0 {
        msg == "☀️ 𝗠𝗔𝗧𝗖𝗛 𝗔𝗨𝗝𝗢𝗨𝗥𝗗'𝗛𝗨𝗜\n\nAucun match prévu."@
    } else {
        exists|times: Seq<Seq<char>>|
            #![trigger reminder_lines(ms, times)]
            times.len() == ms.len() && (forall|i: int|
                0 <= i < ms.len() ==> match_time_fits(zone, ms[i], #[trigger] times[i])) && msg
                == trim_end_text(
                reminder_header() + "Vitality joue aujourd'hui !\n\n"@ + reminder_lines(ms, times),
            )
    }
}


// ---------------------------------------------------------------------------
// Reading a match
// ---------------------------------------------------------------------------

fn append_weekday(s: &mut String, d: u32)
    ensures
        final(s)@ == old(s)@ + weekday_name(d),
{
    if d == 0 {
        s.append("Lundi");
    } else if d == 1 {
        s.append("Mardi");
    } else if d == 2 {
        s.append("Mercredi");
    } else if d == 3 {
        s.append("Jeudi");
    } else if d == 4 {
        s.append("Vendredi");
    } else if d == 5 {
        s.append("Samedi");
    } else {
        s.append("Dimanche");
    }
}

fn append_month(s: &mut String, m: u32)
    ensures
        final(s)@ == old(s)@ + month_name(m),
{
    if m == 1 {
        s.append("janvier");
    } else if m == 2 {
        s.append("février");
    } else if m == 3 {
        s.append("mars");
    } else if m == 4 {
        s.append("avril");
    } else if m == 5 {
        s.append("mai");
    } else if m == 6 {
        s.append("juin");
    } else if m == 7 {
        s.append("juillet");
    } else if m == 8 {
        s.append("août");
    } else if m == 9 {
        s.append("septembre");
    } else if m == 10 {
        s.append("octobre");
    } else if m == 11 {
        s.append("novembre");
    } else if m == 12 {
        s.append("décembre");
    } else {
        assert(old(s)@ + month_name(m) =~= old(s)@);
    }
}

/// Writes a wall clock's date and time in French, such as
/// "Samedi 3 août · 20h05".
pub fn french_time(p: &WallTime) -> (res: String)
    ensures
        res@ == french_time_text(*p),
{
    let mut s = String::new();
    append_weekday(&mut s, p.weekday);
    s.append(" ");
    append_unsigned(&mut s, p.day as u64);
    s.append(" ");
    append_month(&mut s, p.month);
    s.append(" · ");
    append_unsigned(&mut s, p.hour as u64);
    s.append("h");
    let ghost before_minute = s@;
    if p.minute < 10 {
        proof { reveal_strlit("0"); }
        s.append("0");
    }
    append_unsigned(&mut s, p.minute as u64);
    assert(s@ =~= before_minute + two_digits(p.minute as nat));
    assert(s@ =~= french_time_text(*p));
    s
}

/// The French time, on a clock in `zone`, of the instant that an RFC 3339
/// text names. Where chrono refuses the text, the current instant is taken,
/// and "Heure inconnue" is written where the system clock cannot be read.
pub fn format_match_time(utc_str: &str, zone: &Zone) -> (res: String)
    ensures
        time_text_fits(zone.spec_name(), utc_str@, res@),
{
    let instant = match UtcInstant::parse_rfc3339(utc_str) {
        Some(t) => t,
        None => match UtcInstant::now() {
            Some(t) => t,
            None => return String::from_str("Heure inconnue"),
        },
    };
    let p = instant.to_local(zone);
    let res = french_time(&p);
    proof {
        if rfc3339_instant(utc_str@) is None {
            assert(res@ == french_time_text(
                wall_clock(zone.spec_name(), instant.spec_secs(), instant.spec_nanos()),
            ));
        }
    }
    res
}

/// The scores of Vitality (the team `vitality_team_id`) and of its opponent.
pub fn get_scores(match_data: &PsMatch, vitality_team_id: i64) -> (res: (i32, i32))
    ensures
        res == match_scores(*match_data, vitality_team_id),
{
    let mut vitality_score: i32 = 0;
    let mut opponent_score: i32 = 0;
    if let Some(results) = &match_data.results {
        let n = results.len();
        for i in 0..n
            invariant
                n == results@.len(),
                (vitality_score, opponent_score) == scores_of(results@.take(i as int), vitality_team_id),
        {
            assert(results@.take(i + 1).drop_last() =~= results@.take(i as int));
            let r = &results[i];
            if r.team_id == vitality_team_id {
                vitality_score = r.score;
            } else {
                opponent_score = r.score;
            }
        }
        assert(results@.take(n as int) =~= results@);
    }
    (vitality_score, opponent_score)
}

fn stream_has_language(s: &PsStream, lang: &str) -> (res: bool)
    ensures
        res == stream_in(*s, lang@),
{
    match &s.language {
        Some(l) => text_eq(l.as_str(), lang),
        None => false,
    }
}

fn find_stream(streams: &Vec<PsStream>, lang: &str) -> (res: Option<usize>)
    ensures
        match res {
            Some(j) => first_stream_in(streams@, lang@, 0) == Some(j as int),
            None => first_stream_in(streams@, lang@, 0) is None,
        },
{
    let n = streams.len();
    let mut i: usize = 0;
    while i < n
        invariant
            n == streams@.len(),
            i <= n,
            first_stream_in(streams@, lang@, 0) == first_stream_in(streams@, lang@, i as int),
        decreases n - i,
    {
        if stream_has_language(&streams[i], lang) {
            return Some(i);
        }
        i = i + 1;
    }
    None
}

/// The link of the first French stream, or where there is none of the first
/// English one.
pub fn find_stream_url(match_data: &PsMatch) -> (res: Option<String>)
    ensures
        opt_text(res) == stream_url_text(*match_data),
{
    match &match_data.streams_list {
        None => None,
        Some(streams) => {
            let chosen = match find_stream(streams, "fr") {
                Some(i) => Some(i),
                None => find_stream(streams, "en"),
            };
            proof {
                lemma_first_stream_in(streams@, "fr"@, 0);
                lemma_first_stream_in(streams@, "en"@, 0);
            }
            match chosen {
                Some(i) => crate::model::clone_opt_text(&streams[i].raw_url),
                None => None,
            }
        }
    }
}

/// The name of Vitality's opponent.
pub fn opponent_name(match_data: &PsMatch) -> (res: String)
    ensures
        res@ == opponent_name_text(*match_data),
{
    if match_data.opponents.len() > 0 {
        let first = &match_data.opponents[0];
        if first.opponent.id == VITALITY_TEAM_ID {
            if match_data.opponents.len() > 1 {
                match_data.opponents[1].opponent.name.clone()
            } else {
                String::from_str("Unknown")
            }
        } else {
            first.opponent.name.clone()
        }
    } else {
        String::from_str("Unknown")
    }
}

/// The name of the match's tournament.
pub fn tournament_name(match_data: &PsMatch) -> (res: String)
    ensures
        res@ == tournament_text(*match_data),
{
    match &match_data.tournament {
        Some(t) => t.name.clone(),
        None => String::from_str("Tournoi inconnu"),
    }
}

/// The opponent's name, the tournament's name, the French start time and the
/// stream link of a match.
pub fn extract_match_details(match_data: &PsMatch, zone: &Zone) -> (res: (
    String,
    String,
    String,
    Option<String>,
))
    ensures
        res.0@ == opponent_name_text(*match_data),
        res.1@ == tournament_text(*match_data),
        match_time_fits(zone.spec_name(), *match_data, res.2@),
        opt_text(res.3) == stream_url_text(*match_data),
{
    let opponent = opponent_name(match_data);
    let tournament = tournament_name(match_data);
    let formatted_time = match &match_data.begin_at {
        Some(time) => format_match_time(time.as_str(), zone),
        None => String::from_str("Heure inconnue"),
    };
    let stream_url = find_stream_url(match_data);
    (opponent, tournament, formatted_time, stream_url)
}


// ---------------------------------------------------------------------------
// Writing the messages
// ---------------------------------------------------------------------------

fn best_of_string(match_data: &PsMatch) -> (res: String)
    ensures
        res@ == best_of_text(*match_data),
{
    match match_data.number_of_games {
        Some(n) => signed_to_string(n as i64),
        None => String::from_str("3"),
    }
}

fn stream_line(stream_url: Option<String>) -> (res: String)
    ensures
        res@ == (match opt_text(stream_url) {
            Some(u) => u,
            None => "Aucun stream disponible"@,
        }),
{
    match stream_url {
        Some(u) => u,
        None => String::from_str("Aucun stream disponible"),
    }
}

/// The announcement of an upcoming match.
pub fn format_announced(match_data: &PsMatch, zone: &Zone) -> (res: String)
    ensures
        announced_message(zone.spec_name(), *match_data, res@),
{
    let (opponent_name, tournament_name, formatted_time, stream_url) = extract_match_details(
        match_data,
        zone,
    );
    let best_of = best_of_string(match_data);
    let stream = stream_line(stream_url);
    let mut s = String::from_str("🎮 𝗠𝗔𝗧𝗖𝗛 𝗔𝗡𝗡𝗢𝗡𝗖𝗘́\n\n<b>");
    s.append(opponent_name.as_str());
    s.append("</b>\n🏆 ");
    s.append(tournament_name.as_str());
    s.append("\n📅 ");
    s.append(formatted_time.as_str());
    s.append("\n🎯 BO");
    s.append(best_of.as_str());
    s.append("\n\n📺 Stream FR : ");
    s.append(stream.as_str());
    proof {
        assert(match_time_fits(zone.spec_name(), *match_data, formatted_time@));
        assert(s@ =~= announced_text(
            opponent_name_text(*match_data),
            tournament_text(*match_data),
            formatted_time@,
            best_of_text(*match_data),
            stream_line_text(*match_data),
        ));
    }
    s
}

/// The notice that a match is being played.
pub fn format_live(match_data: &PsMatch, zone: &Zone) -> (res: String)
    ensures
        live_message(*match_data, res@),
{
    let (opponent_name, tournament_name, _formatted_time, stream_url) = extract_match_details(
        match_data,
        zone,
    );
    let best_of = best_of_string(match_data);
    let stream = stream_line(stream_url);
    let mut s = String::from_str("🔴 𝗟𝗜𝗩𝗘 𝗠𝗔𝗜𝗡𝗧𝗘𝗡𝗔𝗡𝗧\n\n<b>");
    s.append(opponent_name.as_str());
    s.append("</b>\n🏆 ");
    s.append(tournament_name.as_str());
    s.append(" · BO");
    s.append(best_of.as_str());
    s.append("\n\n📺 ");
    s.append(stream.as_str());
    assert(s@ =~= live_text(
        opponent_name_text(*match_data),
        tournament_text(*match_data),
        best_of_text(*match_data),
        stream_line_text(*match_data),
    ));
    s
}

fn result_message_text(
    match_data: &PsMatch,
    vitality_team_id: i64,
    later: bool,
    zone: &Zone,
) -> (res: String)
    ensures
        result_message(zone.spec_name(), *match_data, vitality_team_id, later, res@),
{
    let (opponent_name, tournament_name, formatted_time, _stream_url) = extract_match_details(
        match_data,
        zone,
    );
    let (vitality_score, opponent_score) = get_scores(match_data, vitality_team_id);
    let best_of = best_of_string(match_data);
    let mut s = if vitality_score > opponent_score {
        String::from_str("🏆 𝗩𝗜𝗖𝗧𝗢𝗜𝗥𝗘 !")
    } else {
        String::from_str("💀 𝗗𝗘́𝗙𝗔𝗜𝗧𝗘")
    };
    if later {
        s.append(" (24h après la fin)");
    }
    s.append("\n\n<b>");
    append_signed(&mut s, vitality_score as i64);
    s.append(" - ");
    append_signed(&mut s, opponent_score as i64);
    s.append("</b> ");
    s.append(opponent_name.as_str());
    s.append("\n🏆 ");
    s.append(tournament_name.as_str());
    s.append(" · BO");
    s.append(best_of.as_str());
    s.append("\n📅 ");
    s.append(formatted_time.as_str());
    proof {
        assert(match_time_fits(zone.spec_name(), *match_data, formatted_time@));
        assert(s@ =~= result_text(
            later,
            match_scores(*match_data, vitality_team_id),
            opponent_name_text(*match_data),
            tournament_text(*match_data),
            best_of_text(*match_data),
            formatted_time@,
        ));
    }
    s
}

/// The notice of a finished match's result: a victory where Vitality (the
/// team `vitality_team_id`) scored more than its opponent, else a defeat.
pub fn format_result(match_data: &PsMatch, vitality_team_id: i64, zone: &Zone) -> (res: String)
    ensures
        result_message(zone.spec_name(), *match_data, vitality_team_id, false, res@),
{
    result_message_text(match_data, vitality_team_id, false, zone)
}

/// The reminder of a match's result, sent a day after it ended.
pub fn format_result_24h(match_data: &PsMatch, vitality_team_id: i64, zone: &Zone) -> (res:
    String)
    ensures
        result_message(zone.spec_name(), *match_data, vitality_team_id, true, res@),
{
    result_message_text(match_data, vitality_team_id, true, zone)
}

/// The morning reminder listing the matches of the day.
#[verifier::rlimit(50)]
pub fn format_daily_reminder(matches: &[&PsMatch], zone: &Zone) -> (res: String)
    ensures
        reminder_message(zone.spec_name(), deref_matches(matches@), res@),
{
    if matches.len() == 0 {
        return String::from_str("☀️ 𝗠𝗔𝗧𝗖𝗛 𝗔𝗨𝗝𝗢𝗨𝗥𝗗'𝗛𝗨𝗜\n\nAucun match prévu.");
    }
    let mut msg = String::from_str("☀️ 𝗠𝗔𝗧𝗖𝗛 𝗔𝗨𝗝𝗢𝗨𝗥𝗗'𝗛𝗨𝗜\n\n");
    msg.append("Vitality joue aujourd'hui !\n\n");
    let ghost head = msg@;
    let ghost mut times: Seq<Seq<char>> = Seq::empty();
    let n = matches.len();
    for i in 0..n
        invariant
            n == matches@.len(),
            head == reminder_header() + "Vitality joue aujourd'hui !\n\n"@,
            times.len() == i,
            forall|j: int| 0 <= j < i ==> match_time_fits(zone.spec_name(), *matches@[j], #[trigger] times[j]),
            msg@ == head + reminder_lines(deref_matches(matches@).take(i as int), times),
    {
        let match_data: &PsMatch = matches[i];
        let (opponent_name, tournament_name, formatted_time, stream_url) = extract_match_details(
            match_data,
            zone,
        );
        let best_of = best_of_string(match_data);
        let stream = stream_line(stream_url);
        let ghost before = msg@;
        msg.append("⏰ ");
        msg.append(formatted_time.as_str());
        msg.append(" — vs ");
        msg.append(opponent_name.as_str());
        msg.append(" (BO");
        msg.append(best_of.as_str());
        msg.append(")\n   🏆 ");
        msg.append(tournament_name.as_str());
        msg.append("\n   📺 ");
        msg.append(stream.as_str());
        msg.append("\n\n");
        proof {
            let old_times = times;
            times = times.push(formatted_time@);
            assert(msg@ =~= before + reminder_line(*match_data, formatted_time@));
            assert(deref_matches(matches@).take(i + 1).drop_last() =~= deref_matches(matches@).take(i as int));
            assert(times.drop_last() =~= old_times);
        }
    }
    proof {
        assert(deref_matches(matches@).take(n as int) =~= deref_matches(matches@));
    }
    trim_end(msg.as_str())
}


/// Two wall clocks show the same date.
pub open spec fn same_date(a: WallTime, b: WallTime) -> bool {
    a.year == b.year && a.month == b.month && a.day == b.day
}

/// The match starts, by the RFC 3339 time PandaScore gives, on the date that
/// `today` shows in `zone`.
pub open spec fn is_on_local_date(zone: Seq<char>, m: PsMatch, today: WallTime) -> bool {
    &&& m.begin_at matches Some(s)
    &&& rfc3339_instant(s@) matches Some(p)
    &&& same_date(wall_clock(zone, p.0, p.1), today)
}

/// A match starts on one date only: where it starts on the date of `today`,
/// it starts on no other date (a match of tomorrow or of any later day is
/// not a match of today), and a match without a readable start time starts
/// on no date.
pub proof fn law_a_match_starts_on_one_date(zone: Seq<char>, m: PsMatch, today: WallTime, other: WallTime)
    ensures
        is_on_local_date(zone, m, today) && !same_date(today, other) ==> !is_on_local_date(
            zone,
            m,
            other,
        ),
        is_on_local_date(zone, m, today) && same_date(today, other) ==> is_on_local_date(
            zone,
            m,
            other,
        ),
        (m.begin_at is None || (m.begin_at matches Some(s) && rfc3339_instant(s@) is None))
            ==> !is_on_local_date(zone, m, today),
{
}

/// Whether the match starts on the date, in `zone`, of the instant `now`.
pub fn match_is_on_date_of(match_data: &PsMatch, zone: &Zone, now: &UtcInstant) -> (res: bool)
    ensures
        res == is_on_local_date(zone.spec_name(), *match_data, now.local(zone.spec_name())),
{
    if let Some(begin_at) = &match_data.begin_at {
        if let Some(start) = UtcInstant::parse_rfc3339(begin_at.as_str()) {
            let local = start.to_local(zone);
            let today = now.to_local(zone);
            return local.year == today.year && local.month == today.month && local.day
                == today.day;
        }
    }
    false
}

/// Whether the match starts today, as read now on a clock in `zone`; `false`
/// where the system clock cannot be read.
pub fn match_is_today(match_data: &PsMatch, zone: &Zone) -> (res: bool)
    ensures
        res ==> exists|secs: i64, nanos: u32|
            utc_representable(secs, nanos) && is_on_local_date(
                zone.spec_name(),
                *match_data,
                #[trigger] wall_clock(zone.spec_name(), secs, nanos),
            ),
{
    match UtcInstant::now() {
        Some(now) => match_is_on_date_of(match_data, zone, &now),
        None => false,
    }
}

} // verus!
