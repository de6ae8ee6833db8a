//! The decisions of one poll: which notices are due for the matches that
//! PandaScore reports, and how the bot's memory changes once a notice has
//! gone out.
//!
//! `cycle::PollCycle` chains these decisions into a whole poll; the caller
//! performs its requests to PandaScore and Telegram and saves the memory.

use crate::clock::{
    date_label_text, elapsed_nanos, in_four_digit_years, utc_rfc3339_text, utc_text_instant,
    UtcInstant, WallTime, Zone,
};
use crate::model::{opt_text, BotState, MatchState, MatchStatus, PsMatch};
use crate::notifications::{
    announced_message, deref_matches, format_announced, format_daily_reminder, format_live,
    format_result, format_result_24h, is_on_local_date, live_message, match_is_on_date_of,
    reminder_message, result_message,
};
use vstd::prelude::*;

verus! {

broadcast use vstd::std_specs::hash::group_hash_axioms;

// ---------------------------------------------------------------------------
// The memory, in the model
// ---------------------------------------------------------------------------

/// Two records agree on everything but the status.
pub open spec fn same_but_status(a: MatchState, b: MatchState) -> bool {
    &&& a.id == b.id
    &&& a.notified_announced == b.notified_announced
    &&& a.notified_live == b.notified_live
    &&& a.notified_result == b.notified_result
    &&& a.notified_result_24h == b.notified_result_24h
    &&& a.name == b.name
    &&& a.scheduled_at == b.scheduled_at
    &&& a.result_timestamp == b.result_timestamp
}

/// `e` is the record a poll works on for `m`: the one already known, or else
/// a fresh one; its status aside.
pub open spec fn starts_from(known: Map<i64, MatchState>, m: PsMatch, e: MatchState) -> bool {
    if known.contains_key(m.id) {
        same_but_status(e, known[m.id])
    } else {
        e.has_fresh_fields_of(m)
    }
}

/// The status the record of `m` has before the poll looks at it.
pub open spec fn prior_status(known: Map<i64, MatchState>, m: PsMatch) -> MatchStatus {
    if known.contains_key(m.id) {
        known[m.id].status
    } else {
        MatchStatus::Upcoming
    }
}

/// `new` is `old` with a record for `m` (kept, or fresh where `m` was
/// unknown) whose status becomes `status`; all other records are untouched.
pub open spec fn seen_with_status(
    old: Map<i64, MatchState>,
    new: Map<i64, MatchState>,
    m: PsMatch,
    status: MatchStatus,
) -> bool {
    &&& new.contains_key(m.id)
    &&& new == old.insert(m.id, new[m.id])
    &&& starts_from(old, m, new[m.id])
    &&& new[m.id].status == status
}

/// The announcement of match `id` has not gone out yet.
pub open spec fn announcement_due(known: Map<i64, MatchState>, id: i64) -> bool {
    !(known.contains_key(id) && known[id].notified_announced)
}

/// The live notice of match `id` has not gone out yet.
pub open spec fn live_notice_due(known: Map<i64, MatchState>, id: i64) -> bool {
    !(known.contains_key(id) && known[id].notified_live)
}

/// The result of match `id` has not gone out yet.
pub open spec fn result_due(known: Map<i64, MatchState>, id: i64) -> bool {
    !(known.contains_key(id) && known[id].notified_result)
}

/// The result of match `id` went out at a time that chrono reads back from
/// the stored text, at least 24 hours (as chrono counts them) before the
/// instant `now`, and its reminder has not gone out yet.
pub open spec fn result_24h_due(known: Map<i64, MatchState>, id: i64, now: UtcInstant) -> bool {
    &&& known.contains_key(id)
    &&& !known[id].notified_result_24h
    &&& known[id].result_timestamp matches Some(ts)
    &&& utc_text_instant(ts@) matches Some(p)
    &&& elapsed_nanos(now.spec_secs(), now.spec_nanos(), p.0, p.1) >= 86_400_000_000_000
}

/// `new` is `old` where the record `id`, if there is one, says that the
/// announcement went out; nothing else changes.
pub open spec fn announced_recorded(
    old: Map<i64, MatchState>,
    new: Map<i64, MatchState>,
    id: i64,
) -> bool {
    if old.contains_key(id) {
        new == old.insert(id, MatchState { notified_announced: true, ..old[id] })
    } else {
        new == old
    }
}

/// `new` is `old` where the record `id`, if there is one, says that the live
/// notice went out; nothing else changes.
pub open spec fn live_recorded(old: Map<i64, MatchState>, new: Map<i64, MatchState>, id: i64) -> bool {
    if old.contains_key(id) {
        new == old.insert(id, MatchState { notified_live: true, ..old[id] })
    } else {
        new == old
    }
}

/// `new` is `old` where the record `id`, if there is one, says that the
/// result went out at the time written `stamp`; nothing else changes.
pub open spec fn result_recorded(
    old: Map<i64, MatchState>,
    new: Map<i64, MatchState>,
    id: i64,
    stamp: Seq<char>,
) -> bool {
    if old.contains_key(id) {
        &&& new.contains_key(id)
        &&& new == old.insert(id, new[id])
        &&& opt_text(new[id].result_timestamp) == Some(stamp)
        &&& new[id] == MatchState {
            notified_result: true,
            result_timestamp: new[id].result_timestamp,
            ..old[id]
        }
    } else {
        new == old
    }
}

/// `new` is `old` where the record `id`, if there is one, says that the
/// reminder of the result went out; nothing else changes.
pub open spec fn result_24h_recorded(
    old: Map<i64, MatchState>,
    new: Map<i64, MatchState>,
    id: i64,
) -> bool {
    if old.contains_key(id) {
        new == old.insert(id, MatchState { notified_result_24h: true, ..old[id] })
    } else {
        new == old
    }
}

/// Every record of `old` is still in `new`, and every notice that `old`
/// marks as sent is still marked so.
pub open spec fn records_kept(old: Map<i64, MatchState>, new: Map<i64, MatchState>) -> bool {
    forall|id: i64|
        #[trigger] old.contains_key(id) ==> {
            &&& new.contains_key(id)
            &&& old[id].notified_announced ==> new[id].notified_announced
            &&& old[id].notified_live ==> new[id].notified_live
            &&& old[id].notified_result ==> new[id].notified_result
            &&& old[id].notified_result_24h ==> new[id].notified_result_24h
        }
}

/// Each record is filed under its own match id.
pub open spec fn ids_match(known: Map<i64, MatchState>) -> bool {
    forall|id: i64| #[trigger] known.contains_key(id) ==> known[id].id == id
}

/// The matches of `ms` that start, in `zone`, on the date of `today`, in
/// order.
pub open spec fn todays_matches(zone: Seq<char>, ms: Seq<PsMatch>, today: WallTime) -> Seq<
    PsMatch,
>
    decreases ms.len(),
{
    if ms.len() == 0 {
        Seq::<PsMatch>::empty()
    } else {
        let before = todays_matches(zone, ms.drop_last(), today);
        if is_on_local_date(zone, ms.last(), today) {
            before.push(ms.last())
        } else {
            before
        }
    }
}

/// The morning reminder is due at `now`: none went out on today's date in
/// `zone`, and the clock there is in the hour `morning_hour`.
pub open spec fn reminder_due(
    last: Option<String>,
    zone: Seq<char>,
    now: UtcInstant,
    morning_hour: u32,
) -> bool {
    &&& opt_text(last) != Some(date_label_text(now.local(zone)))
    &&& morning_hour <= now.local(zone).hour < morning_hour + 1
}

/// A morning reminder: the date it is for (`YYYY-MM-DD` in the bot's time
/// zone), and its text.
pub struct DailyReminder {
    pub day: String,
    pub message: String,
}

// ---------------------------------------------------------------------------
// Laws of the memory
// ---------------------------------------------------------------------------

/// The morning reminder lists exactly the matches that start on today's
/// date: a match is in the list if and only if it is one of `ms` and starts
/// on the date of `today` in `zone`; the list is no longer than `ms`, and is
/// `ms` itself where every match of `ms` starts that day.
pub proof fn law_todays_matches_are_those_of_today(zone: Seq<char>, ms: Seq<PsMatch>, today: WallTime)
    ensures
        forall|m: PsMatch|
            #[trigger] todays_matches(zone, ms, today).contains(m) <==> (ms.contains(m)
                && is_on_local_date(zone, m, today)),
        todays_matches(zone, ms, today).len() <= ms.len(),
        (forall|i: int| 0 <= i < ms.len() ==> is_on_local_date(zone, #[trigger] ms[i], today))
            ==> todays_matches(zone, ms, today) == ms,
    decreases ms.len(),
{
    if ms.len() > 0 {
        let init = ms.drop_last();
        law_todays_matches_are_those_of_today(zone, init, today);
        let before = todays_matches(zone, init, today);
        assert(ms =~= init.push(ms.last()));
        assert forall|m: PsMatch|
            #[trigger] todays_matches(zone, ms, today).contains(m) <==> (ms.contains(m)
                && is_on_local_date(zone, m, today)) by {
            if ms.contains(m) {
                let j = choose|j: int| 0 <= j < ms.len() && ms[j] == m;
                if j < ms.len() - 1 {
                    assert(init[j] == m);
                }
            }
            if init.contains(m) {
                let j = choose|j: int| 0 <= j < init.len() && init[j] == m;
                assert(ms[j] == m);
            }
            if is_on_local_date(zone, ms.last(), today) {
                assert(before.push(ms.last())[before.len() as int] == ms.last());
                if before.contains(m) {
                    let j = choose|j: int| 0 <= j < before.len() && before[j] == m;
                    assert(before.push(ms.last())[j] == m);
                }
                if before.push(ms.last()).contains(m) {
                    let j = choose|j: int| 0 <= j < before.len() + 1 && before.push(ms.last())[j] == m;
                    if j < before.len() {
                        assert(before[j] == m);
                    }
                }
            }
        }
        if forall|i: int| 0 <= i < ms.len() ==> is_on_local_date(zone, #[trigger] ms[i], today) {
            assert forall|i: int| 0 <= i < init.len() implies is_on_local_date(
                zone,
                #[trigger] init[i],
                today,
            ) by {
                assert(init[i] == ms[i]);
            }
            assert(is_on_local_date(zone, ms[ms.len() - 1], today));
        }
    }
}

/// The list of the morning reminder keeps the order of the upcoming
/// matches: the list for two lists one after the other is the list for the
/// first, then the list for the second.
pub proof fn law_todays_matches_keep_order(
    zone: Seq<char>,
    a: Seq<PsMatch>,
    b: Seq<PsMatch>,
    today: WallTime,
)
    ensures
        todays_matches(zone, a + b, today) == todays_matches(zone, a, today) + todays_matches(
            zone,
            b,
            today,
        ),
    decreases b.len(),
{
    if b.len() == 0 {
        assert(a + b =~= a);
        assert(todays_matches(zone, a, today) + todays_matches(zone, b, today) =~= todays_matches(
            zone,
            a,
            today,
        ));
    } else {
        law_todays_matches_keep_order(zone, a, b.drop_last(), today);
        assert((a + b).drop_last() =~= a + b.drop_last());
        assert((a + b).last() == b.last());
        let ta = todays_matches(zone, a, today);
        let tb = todays_matches(zone, b.drop_last(), today);
        assert((ta + tb).push(b.last()) =~= ta + tb.push(b.last()));
    }
}

/// Marking the announcement of `id` as sent marks nothing else: every other
/// notice of every match stays due or not as it was, the statuses stay, and
/// only the announcement of `id` (where the memory knows `id`) stops being
/// due.
pub proof fn law_announcement_mark_is_alone(
    old: Map<i64, MatchState>,
    new: Map<i64, MatchState>,
    id: i64,
    x: i64,
)
    requires
        announced_recorded(old, new, id),
    ensures
        new.contains_key(x) == old.contains_key(x),
        new.contains_key(x) ==> new[x].status == old[x].status,
        announcement_due(new, x) == (announcement_due(old, x) && !(x == id && old.contains_key(id))),
        live_notice_due(new, x) == live_notice_due(old, x),
        result_due(new, x) == result_due(old, x),
        (new.contains_key(x) && new[x].notified_result_24h) == (old.contains_key(x)
            && old[x].notified_result_24h),
{
}

/// Marking the live notice of `id` as sent marks nothing else.
pub proof fn law_live_mark_is_alone(old: Map<i64, MatchState>, new: Map<i64, MatchState>, id: i64, x: i64)
    requires
        live_recorded(old, new, id),
    ensures
        new.contains_key(x) == old.contains_key(x),
        new.contains_key(x) ==> new[x].status == old[x].status,
        announcement_due(new, x) == announcement_due(old, x),
        live_notice_due(new, x) == (live_notice_due(old, x) && !(x == id && old.contains_key(id))),
        result_due(new, x) == result_due(old, x),
        (new.contains_key(x) && new[x].notified_result_24h) == (old.contains_key(x)
            && old[x].notified_result_24h),
{
}

/// Marking the result of `id` as sent marks nothing else (besides storing
/// when it went out).
pub proof fn law_result_mark_is_alone(
    old: Map<i64, MatchState>,
    new: Map<i64, MatchState>,
    id: i64,
    stamp: Seq<char>,
    x: i64,
)
    requires
        result_recorded(old, new, id, stamp),
    ensures
        new.contains_key(x) == old.contains_key(x),
        new.contains_key(x) ==> new[x].status == old[x].status,
        announcement_due(new, x) == announcement_due(old, x),
        live_notice_due(new, x) == live_notice_due(old, x),
        result_due(new, x) == (result_due(old, x) && !(x == id && old.contains_key(id))),
        (new.contains_key(x) && new[x].notified_result_24h) == (old.contains_key(x)
            && old[x].notified_result_24h),
{
}

/// Marking the reminder of the result of `id` as sent marks nothing else.
pub proof fn law_result_reminder_mark_is_alone(
    old: Map<i64, MatchState>,
    new: Map<i64, MatchState>,
    id: i64,
    x: i64,
)
    requires
        result_24h_recorded(old, new, id),
    ensures
        new.contains_key(x) == old.contains_key(x),
        new.contains_key(x) ==> new[x].status == old[x].status,
        announcement_due(new, x) == announcement_due(old, x),
        live_notice_due(new, x) == live_notice_due(old, x),
        result_due(new, x) == result_due(old, x),
        (new.contains_key(x) && new[x].notified_result_24h) == ((old.contains_key(x)
            && old[x].notified_result_24h) || (x == id && old.contains_key(id))),
{
}

/// The morning reminder is due exactly in the hour `morning_hour` of the
/// clock in `zone`, on a day whose reminder has not been marked as sent.
pub proof fn law_reminder_only_in_its_hour(
    last: Option<String>,
    zone: Seq<char>,
    now: UtcInstant,
    morning_hour: u32,
)
    ensures
        reminder_due(last, zone, now, morning_hour) <==> (now.local(zone).hour == morning_hour
            && opt_text(last) != Some(date_label_text(now.local(zone)))),
{
}

/// The reminder of a result is never due less than 24 hours after the time
/// stored for the result.
pub proof fn law_result_reminder_not_before_a_day(
    known: Map<i64, MatchState>,
    id: i64,
    now: UtcInstant,
    sent_secs: i64,
    sent_nanos: u32,
)
    requires
        known.contains_key(id),
        known[id].result_timestamp matches Some(ts) && utc_text_instant(ts@) == Some(
            (sent_secs, sent_nanos),
        ),
        elapsed_nanos(now.spec_secs(), now.spec_nanos(), sent_secs, sent_nanos)
            < 86_400_000_000_000,
    ensures
        !result_24h_due(known, id, now),
{
}

/// Noting a match seen in a poll forgets no match and unmarks no notice.
pub proof fn law_seen_keeps_records(
    old: Map<i64, MatchState>,
    new: Map<i64, MatchState>,
    m: PsMatch,
    status: MatchStatus,
)
    requires
        seen_with_status(old, new, m, status),
    ensures
        records_kept(old, new),
        new.contains_key(m.id),
        new.dom() == old.dom().insert(m.id),
{
    assert(new.dom() =~= old.dom().insert(m.id));
}

/// Marking a notice as sent forgets no match and unmarks no notice.
pub proof fn law_recorded_keeps_records(
    old: Map<i64, MatchState>,
    new: Map<i64, MatchState>,
    id: i64,
    stamp: Seq<char>,
)
    requires
        announced_recorded(old, new, id) || live_recorded(old, new, id) || result_recorded(
            old,
            new,
            id,
            stamp,
        ) || result_24h_recorded(old, new, id),
    ensures
        records_kept(old, new),
        new.dom() == old.dom(),
{
    assert(new.dom() =~= old.dom());
}

/// Kept records stay kept over several steps.
pub proof fn law_records_kept_compose(
    a: Map<i64, MatchState>,
    b: Map<i64, MatchState>,
    c: Map<i64, MatchState>,
)
    requires
        records_kept(a, b),
        records_kept(b, c),
    ensures
        records_kept(a, c),
{
}

/// A notice that went out is never due again, however the memory changes
/// afterwards (duplicate notices are prevented).
pub proof fn law_sent_notice_not_due_again(
    old: Map<i64, MatchState>,
    new: Map<i64, MatchState>,
    id: i64,
    now: UtcInstant,
)
    requires
        records_kept(old, new),
    ensures
        !announcement_due(old, id) ==> !announcement_due(new, id),
        !live_notice_due(old, id) ==> !live_notice_due(new, id),
        !result_due(old, id) ==> !result_due(new, id),
        old.contains_key(id) && old[id].notified_result_24h ==> !result_24h_due(new, id, now),
{
    if old.contains_key(id) {
        assert(new.contains_key(id));
    }
}

/// Once a poll has noted a match and the notice it planned has been marked
/// as sent, that notice is no longer due.
pub proof fn law_planned_then_recorded_not_due(
    k0: Map<i64, MatchState>,
    k1: Map<i64, MatchState>,
    k2: Map<i64, MatchState>,
    m: PsMatch,
    status: MatchStatus,
    stamp: Seq<char>,
    now: UtcInstant,
)
    requires
        seen_with_status(k0, k1, m, status),
    ensures
        announced_recorded(k1, k2, m.id) ==> !announcement_due(k2, m.id),
        live_recorded(k1, k2, m.id) ==> !live_notice_due(k2, m.id),
        result_recorded(k1, k2, m.id, stamp) ==> !result_due(k2, m.id),
        result_24h_recorded(k1, k2, m.id) ==> !result_24h_due(k2, m.id, now),
{
}

/// A match that a poll meets for the first time gets no reminder of its
/// result: no time of result is stored for it yet.
pub proof fn law_new_match_has_no_result_reminder(
    old: Map<i64, MatchState>,
    new: Map<i64, MatchState>,
    m: PsMatch,
    status: MatchStatus,
    now: UtcInstant,
)
    requires
        seen_with_status(old, new, m, status),
        !old.contains_key(m.id),
    ensures
        !result_24h_due(new, m.id, now),
{
}

/// The reminder of a result is due only where the result went out: the
/// time of the result is stored only together with the mark that the result
/// was sent.
pub proof fn law_result_reminder_follows_result(
    old: Map<i64, MatchState>,
    new: Map<i64, MatchState>,
    id: i64,
    stamp: Seq<char>,
)
    requires
        result_recorded(old, new, id, stamp),
        old.contains_key(id),
    ensures
        new[id].notified_result,
        opt_text(new[id].result_timestamp) == Some(stamp),
{
}

/// Every step keeps each record filed under its own match id.
pub proof fn law_ids_match_kept(
    old: Map<i64, MatchState>,
    new: Map<i64, MatchState>,
    m: PsMatch,
    status: MatchStatus,
    id: i64,
    stamp: Seq<char>,
)
    requires
        ids_match(old),
        seen_with_status(old, new, m, status) || announced_recorded(old, new, id)
            || live_recorded(old, new, id) || result_recorded(old, new, id, stamp)
            || result_24h_recorded(old, new, id),
    ensures
        ids_match(new),
{
}

/// At most one morning reminder per day: once the reminder of a day is
/// marked as sent, no reminder is due at any instant of that day.
pub proof fn law_one_reminder_per_day(
    last: Option<String>,
    zone: Seq<char>,
    now: UtcInstant,
    morning_hour: u32,
)
    requires
        opt_text(last) == Some(date_label_text(now.local(zone))),
    ensures
        !reminder_due(last, zone, now, morning_hour),
{
}

/// The reminder of a result does come a day later: once the result of a
/// match is marked as sent at the instant `sent_at` (in the years 0 to
/// 9999), its reminder is due at every instant `now` at least 24 hours
/// later, until it is marked as sent.
pub proof fn law_result_reminder_due_a_day_later(
    old: Map<i64, MatchState>,
    new: Map<i64, MatchState>,
    id: i64,
    sent_at: UtcInstant,
    now: UtcInstant,
)
    requires
        old.contains_key(id),
        !old[id].notified_result_24h,
        result_recorded(old, new, id, utc_rfc3339_text(sent_at.spec_secs(), sent_at.spec_nanos())),
        utc_text_instant(utc_rfc3339_text(sent_at.spec_secs(), sent_at.spec_nanos())) == Some(
            (sent_at.spec_secs(), sent_at.spec_nanos()),
        ),
        elapsed_nanos(now.spec_secs(), now.spec_nanos(), sent_at.spec_secs(), sent_at.spec_nanos())
            >= 86_400_000_000_000,
    ensures
        result_24h_due(new, id, now),
{
    let ts = new[id].result_timestamp->0;
    assert(ts@ == utc_rfc3339_text(sent_at.spec_secs(), sent_at.spec_nanos()));
}

/// Without leap seconds, the 24 hours are the plain difference of the two
/// instants.
pub proof fn law_day_is_plain_difference(later_secs: i64, later_nanos: u32, earlier_secs: i64, earlier_nanos: u32)
    requires
        later_nanos < 1_000_000_000,
        earlier_nanos < 1_000_000_000,
    ensures
        elapsed_nanos(later_secs, later_nanos, earlier_secs, earlier_nanos) == (later_secs
            - earlier_secs) * 1_000_000_000 + later_nanos - earlier_nanos,
{
}

// ---------------------------------------------------------------------------
// The decisions
// ---------------------------------------------------------------------------

impl BotState {
    /// Takes the record of `m` out of the memory, or a fresh one where `m` is
    /// unknown.
    fn take_record(&mut self, m: &PsMatch) -> (res: MatchState)
        ensures
            final(self).known_matches@ == old(self).known_matches@.remove(m.id),
            final(self).last_daily_reminder == old(self).last_daily_reminder,
            starts_from(old(self).known_matches@, *m, res),
            res.status == prior_status(old(self).known_matches@, *m),
    {
        match self.known_matches.remove(&m.id) {
            Some(e) => e,
            None => MatchState::new_upcoming(m),
        }
    }

    /// Notes an upcoming match (remembering it if it is new) and gives its
    /// announcement if that has not gone out yet.
    pub fn plan_announced(&mut self, m: &PsMatch, zone: &Zone) -> (res: Option<String>)
        ensures
            seen_with_status(
                old(self).known_matches@,
                final(self).known_matches@,
                *m,
                prior_status(old(self).known_matches@, *m),
            ),
            final(self).last_daily_reminder == old(self).last_daily_reminder,
            res is Some <==> announcement_due(old(self).known_matches@, m.id),
            res matches Some(msg) ==> announced_message(zone.spec_name(), *m, msg@),
    {
        let record = self.take_record(m);
        let due = !record.notified_announced;
        self.known_matches.insert(m.id, record);
        proof {
            assert(old(self).known_matches@.remove(m.id).insert(m.id, record)
                =~= old(self).known_matches@.insert(m.id, record));
        }
        if due {
            Some(format_announced(m, zone))
        } else {
            None
        }
    }

    /// Notes a match being played (its status becomes `Running`) and gives
    /// its live notice if that has not gone out yet.
    pub fn plan_live(&mut self, m: &PsMatch, zone: &Zone) -> (res: Option<String>)
        ensures
            seen_with_status(
                old(self).known_matches@,
                final(self).known_matches@,
                *m,
                MatchStatus::Running,
            ),
            final(self).last_daily_reminder == old(self).last_daily_reminder,
            res is Some <==> live_notice_due(old(self).known_matches@, m.id),
            res matches Some(msg) ==> live_message(*m, msg@),
    {
        let mut record = self.take_record(m);
        record.status = MatchStatus::Running;
        let due = !record.notified_live;
        self.known_matches.insert(m.id, record);
        proof {
            assert(old(self).known_matches@.remove(m.id).insert(m.id, record)
                =~= old(self).known_matches@.insert(m.id, record));
        }
        if due {
            Some(format_live(m, zone))
        } else {
            None
        }
    }

    /// Notes a finished match (its status becomes `Finished`) and gives its
    /// result if that has not gone out yet.
    pub fn plan_result(&mut self, m: &PsMatch, vitality_team_id: i64, zone: &Zone) -> (res: Option<
        String,
    >)
        ensures
            seen_with_status(
                old(self).known_matches@,
                final(self).known_matches@,
                *m,
                MatchStatus::Finished,
            ),
            final(self).last_daily_reminder == old(self).last_daily_reminder,
            res is Some <==> result_due(old(self).known_matches@, m.id),
            res matches Some(msg) ==> result_message(zone.spec_name(), *m, vitality_team_id, false, msg@),
    {
        let mut record = self.take_record(m);
        record.status = MatchStatus::Finished;
        let due = !record.notified_result;
        self.known_matches.insert(m.id, record);
        proof {
            assert(old(self).known_matches@.remove(m.id).insert(m.id, record)
                =~= old(self).known_matches@.insert(m.id, record));
        }
        if due {
            Some(format_result(m, vitality_team_id, zone))
        } else {
            None
        }
    }

    /// Gives the reminder of a match's result if it is due at `now`: its
    /// result went out at least 24 hours before and the reminder has not.
    pub fn plan_result_24h(
        &self,
        m: &PsMatch,
        vitality_team_id: i64,
        now: &UtcInstant,
        zone: &Zone,
    ) -> (res: Option<String>)
        ensures
            res is Some <==> result_24h_due(self.known_matches@, m.id, *now),
            res matches Some(msg) ==> result_message(zone.spec_name(), *m, vitality_team_id, true, msg@),
    {
        match self.known_matches.get(&m.id) {
            None => None,
            Some(record) => {
                if record.notified_result_24h {
                    return None;
                }
                match &record.result_timestamp {
                    None => None,
                    Some(ts) => match UtcInstant::parse_utc(ts.as_str()) {
                        None => None,
                        Some(finished_at) => {
                            if now.day_elapsed_since(&finished_at) {
                                Some(format_result_24h(m, vitality_team_id, zone))
                            } else {
                                None
                            }
                        },
                    },
                }
            },
        }
    }

    /// Gives the morning reminder if it is due at `now`, with the matches of
    /// `upcoming` that start on today's date in `zone`.
    pub fn plan_daily_reminder(
        &self,
        now: &UtcInstant,
        zone: &Zone,
        morning_hour: u32,
        upcoming: &Vec<PsMatch>,
    ) -> (res: Option<DailyReminder>)
        ensures
            res is Some <==> reminder_due(
                self.last_daily_reminder,
                zone.spec_name(),
                *now,
                morning_hour,
            ),
            res matches Some(r) ==> {
                &&& r.day@ == date_label_text(now.local(zone.spec_name()))
                &&& reminder_message(
                    zone.spec_name(),
                    todays_matches(zone.spec_name(), upcoming@, now.local(zone.spec_name())),
                    r.message@,
                )
            },
    {
        let today = now.local_date_label(zone);
        let already_sent = match &self.last_daily_reminder {
            Some(d) => *d == today,
            None => false,
        };
        let hour = now.to_local(zone).hour;
        if !already_sent && hour >= morning_hour && hour < morning_hour + 1 {
            let mut today_matches: Vec<&PsMatch> = Vec::new();
            let n = upcoming.len();
            for i in 0..n
                invariant
                    n == upcoming@.len(),
                    deref_matches(today_matches@) == todays_matches(
                        zone.spec_name(),
                        upcoming@.take(i as int),
                        now.local(zone.spec_name()),
                    ),
            {
                let m = &upcoming[i];
                let ghost before = today_matches@;
                proof {
                    assert(upcoming@.take(i + 1).drop_last() =~= upcoming@.take(i as int));
                }
                if match_is_on_date_of(m, zone, now) {
                    today_matches.push(m);
                    assert(deref_matches(today_matches@) =~= deref_matches(before).push(*m));
                }
            }
            proof {
                assert(upcoming@.take(n as int) =~= upcoming@);
            }
            let message = format_daily_reminder(today_matches.as_slice(), zone);
            Some(DailyReminder { day: today, message })
        } else {
            None
        }
    }

    /// Marks the announcement of match `id` as sent.
    pub fn record_announced(&mut self, id: i64)
        ensures
            announced_recorded(old(self).known_matches@, final(self).known_matches@, id),
            final(self).last_daily_reminder == old(self).last_daily_reminder,
    {
        if let Some(mut record) = self.known_matches.remove(&id) {
            record.notified_announced = true;
            self.known_matches.insert(id, record);
            proof {
                assert(old(self).known_matches@.remove(id).insert(id, record)
                    =~= old(self).known_matches@.insert(id, record));
            }
        } else {
            assert(self.known_matches@ =~= old(self).known_matches@);
        }
    }

    /// Marks the live notice of match `id` as sent.
    pub fn record_live(&mut self, id: i64)
        ensures
            live_recorded(old(self).known_matches@, final(self).known_matches@, id),
            final(self).last_daily_reminder == old(self).last_daily_reminder,
    {
        if let Some(mut record) = self.known_matches.remove(&id) {
            record.notified_live = true;
            self.known_matches.insert(id, record);
            proof {
                assert(old(self).known_matches@.remove(id).insert(id, record)
                    =~= old(self).known_matches@.insert(id, record));
            }
        } else {
            assert(self.known_matches@ =~= old(self).known_matches@);
        }
    }

    /// Marks the result of match `id` as sent at the instant `now`, which is
    /// stored in RFC 3339.
    pub fn record_result(&mut self, id: i64, now: &UtcInstant)
        ensures
            result_recorded(
                old(self).known_matches@,
                final(self).known_matches@,
                id,
                utc_rfc3339_text(now.spec_secs(), now.spec_nanos()),
            ),
            in_four_digit_years(now.spec_secs()) ==> utc_text_instant(
                utc_rfc3339_text(now.spec_secs(), now.spec_nanos()),
            ) == Some((now.spec_secs(), now.spec_nanos())),
            final(self).last_daily_reminder == old(self).last_daily_reminder,
    {
        let stamp = now.to_rfc3339();
        if let Some(mut record) = self.known_matches.remove(&id) {
            record.notified_result = true;
            record.result_timestamp = Some(stamp);
            self.known_matches.insert(id, record);
            proof {
                assert(old(self).known_matches@.remove(id).insert(id, record)
                    =~= old(self).known_matches@.insert(id, record));
            }
        } else {
            assert(self.known_matches@ =~= old(self).known_matches@);
        }
    }

    /// Marks the reminder of the result of match `id` as sent.
    pub fn record_result_24h(&mut self, id: i64)
        ensures
            result_24h_recorded(old(self).known_matches@, final(self).known_matches@, id),
            final(self).last_daily_reminder == old(self).last_daily_reminder,
    {
        if let Some(mut record) = self.known_matches.remove(&id) {
            record.notified_result_24h = true;
            self.known_matches.insert(id, record);
            proof {
                assert(old(self).known_matches@.remove(id).insert(id, record)
                    =~= old(self).known_matches@.insert(id, record));
            }
        } else {
            assert(self.known_matches@ =~= old(self).known_matches@);
        }
    }

    /// Marks the morning reminder of the date `day` as sent.
    pub fn record_daily_reminder(&mut self, day: String)
        ensures
            final(self).known_matches@ == old(self).known_matches@,
            opt_text(final(self).last_daily_reminder) == Some(day@),
    {
        self.last_daily_reminder = Some(day);
    }
}

} // verus!
