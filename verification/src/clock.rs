//! Instants in UTC, time zones, and the wall clock of the zone the bot
//! schedules in (Europe/Paris unless configured otherwise).
//!
//! The calendar work itself (time zones, RFC 3339 text) is chrono's and
//! chrono-tz's; this module holds the instants as plain numbers and names what
//! those crates compute from them.

use chrono::{DateTime, Datelike, Timelike, Utc};
use chrono_tz::Tz;
use std::time::{SystemTime, UNIX_EPOCH};
use vstd::prelude::*;
use crate::text::{append_unsigned, decimal_digits, digit_char};

verus! {

#[verifier::external_type_specification]
#[verifier::external_body]
pub struct ExSystemTime(SystemTime);

/// The first second that chrono's `DateTime<Utc>` can hold
/// (`-262143-01-01T00:00:00Z`).
pub const MIN_UTC_SECS: i64 = -8_334_601_228_800;

/// The last second that chrono's `DateTime<Utc>` can hold
/// (`262142-12-31T23:59:59Z`).
pub const MAX_UTC_SECS: i64 = 8_210_266_876_799;

/// The instant `secs` seconds and `nanos` nanoseconds after the Unix epoch is
/// one that chrono's `DateTime::<Utc>::from_timestamp` accepts: its day lies
/// in chrono's calendar range, and the nanoseconds are below one second, or
/// below two seconds in the last second of a minute (a leap second).
pub open spec fn utc_representable(secs: i64, nanos: u32) -> bool {
    &&& MIN_UTC_SECS <= secs <= MAX_UTC_SECS
    &&& (nanos < 1_000_000_000 || (nanos < 2_000_000_000 && secs % 60 == 59))
}

/// The instant lies in the years 0 to 9999, which RFC 3339 writes with four
/// digits.
pub open spec fn in_four_digit_years(secs: i64) -> bool {
    -62_167_219_200 <= secs <= 253_402_300_799
}

/// The time from the instant `earlier` to the instant `later`, in
/// nanoseconds, as chrono's `signed_duration_since` counts it: the plain
/// difference, except that a leap second (nanoseconds from one second up) is
/// counted as the extra second it is when the other instant's time of day
/// lies on the far side of it.
pub open spec fn elapsed_nanos(later_secs: i64, later_nanos: u32, earlier_secs: i64, earlier_nanos: u32) -> int {
    let later_of_day = later_secs % 86_400;
    let earlier_of_day = earlier_secs % 86_400;
    let leap = if later_of_day > earlier_of_day && earlier_nanos >= 1_000_000_000 {
        1int
    } else if later_of_day < earlier_of_day && later_nanos >= 1_000_000_000 {
        -1int
    } else {
        0int
    };
    (later_secs - earlier_secs + leap) * 1_000_000_000 + later_nanos - earlier_nanos
}

/// Holds when chrono-tz knows a time zone of that name (`name.parse::<Tz>()`
/// succeeds).
pub uninterp spec fn tz_name_known(name: Seq<char>) -> bool;

/// The instant that chrono's `DateTime::parse_from_rfc3339` reads from `s`,
/// as whole seconds since the Unix epoch and the nanoseconds beyond them, or
/// `None` where chrono refuses the text.
pub uninterp spec fn rfc3339_instant(s: Seq<char>) -> Option<(i64, u32)>;

/// The instant that chrono's `FromStr` for `DateTime<Utc>` reads from `s`
/// (a relaxed RFC 3339), or `None` where chrono refuses the text.
pub uninterp spec fn utc_text_instant(s: Seq<char>) -> Option<(i64, u32)>;

/// What a clock in the time zone `zone` shows at the given instant, as
/// chrono-tz computes it.
pub uninterp spec fn wall_clock(zone: Seq<char>, secs: i64, nanos: u32) -> WallTime;

/// The text that chrono's `DateTime::<Utc>::to_rfc3339` gives for the instant.
pub uninterp spec fn utc_rfc3339_text(secs: i64, nanos: u32) -> Seq<char>;

/// A date and time as read on a clock in some time zone.
pub struct WallTime {
    pub year: i32,
    /// 1 for January up to 12 for December.
    pub month: u32,
    /// Day of the month, from 1.
    pub day: u32,
    /// 0 to 23.
    pub hour: u32,
    /// 0 to 59.
    pub minute: u32,
    /// Days since the last Monday: 0 for Monday up to 6 for Sunday.
    pub weekday: u32,
}

impl WallTime {
    /// The ranges that chrono documents for each field.
    pub open spec fn in_range(self) -> bool {
        &&& 1 <= self.month <= 12
        &&& 1 <= self.day <= 31
        &&& self.hour < 24
        &&& self.minute < 60
        &&& self.weekday < 7
    }
}

/// `digits` with zeros in front, up to `width` characters.
pub open spec fn zero_padded(digits: Seq<char>, width: nat) -> Seq<char> {
    let pad: nat = if digits.len() < width { (width - digits.len()) as nat } else { 0 };
    Seq::new(pad, |i: int| '0') + digits
}

/// A year as chrono's `%Y` writes it: four digits at least, with a sign
/// outside the years 0 to 9999.
pub open spec fn year_text(y: int) -> Seq<char> {
    let magnitude = if y < 0 { -y } else { y };
    let padded = zero_padded(decimal_digits(magnitude as nat), 4);
    if 0 <= y <= 9999 {
        padded
    } else if y < 0 {
        seq!['-'] + padded
    } else {
        seq!['+'] + padded
    }
}

/// The date of a wall clock as chrono's `%Y-%m-%d` writes it (the month and
/// day with two digits).
pub open spec fn date_label_text(w: WallTime) -> Seq<char> {
    year_text(w.year as int) + seq!['-'] + zero_padded(decimal_digits(w.month as nat), 2)
        + seq!['-'] + zero_padded(decimal_digits(w.day as nat), 2)
}

/// A number below 100 written with two digits: its tens, then its units.
proof fn lemma_two_digit_chars(n: int)
    requires
        0 <= n < 100,
    ensures
        zero_padded(decimal_digits(n as nat), 2) == seq![digit_char(n / 10), digit_char(n % 10)],
{
    if n < 10 {
        assert(zero_padded(decimal_digits(n as nat), 2) =~= seq!['0', digit_char(n)]);
    } else {
        assert(decimal_digits((n / 10) as nat) == seq![digit_char(n / 10)]);
        assert(zero_padded(decimal_digits(n as nat), 2) =~= seq![digit_char(n / 10), digit_char(n % 10)]);
    }
}

/// A year from 0 to 9999 written with four digits: thousands, hundreds,
/// tens, units.
proof fn lemma_four_digit_chars(y: int)
    requires
        0 <= y < 10000,
    ensures
        zero_padded(decimal_digits(y as nat), 4) == seq![
            digit_char(y / 1000),
            digit_char((y / 100) % 10),
            digit_char((y / 10) % 10),
            digit_char(y % 10),
        ],
{
    let want = seq![
        digit_char(y / 1000),
        digit_char((y / 100) % 10),
        digit_char((y / 10) % 10),
        digit_char(y % 10),
    ];
    if y < 10 {
        assert(zero_padded(decimal_digits(y as nat), 4) =~= want);
    } else if y < 100 {
        assert(decimal_digits((y / 10) as nat) == seq![digit_char(y / 10)]);
        assert(zero_padded(decimal_digits(y as nat), 4) =~= want);
    } else if y < 1000 {
        assert(decimal_digits((y / 100) as nat) == seq![digit_char(y / 100)]);
        assert(decimal_digits((y / 10) as nat) =~= seq![digit_char(y / 100), digit_char((y / 10) % 10)]);
        assert(zero_padded(decimal_digits(y as nat), 4) =~= want);
    } else {
        assert(decimal_digits((y / 1000) as nat) == seq![digit_char(y / 1000)]);
        assert(decimal_digits((y / 100) as nat) =~= seq![
            digit_char(y / 1000),
            digit_char((y / 100) % 10),
        ]);
        assert(decimal_digits((y / 10) as nat) =~= seq![
            digit_char(y / 1000),
            digit_char((y / 100) % 10),
            digit_char((y / 10) % 10),
        ]);
        assert(zero_padded(decimal_digits(y as nat), 4) =~= want);
    }
}

/// The date label of a day of the years 0 to 9999 is "YYYY-MM-DD": ten
/// characters, the four digits of the year, a dash, the two digits of the
/// month, a dash and the two digits of the day.
pub proof fn law_date_label_layout(w: WallTime)
    requires
        w.in_range(),
        0 <= w.year <= 9999,
    ensures
        date_label_text(w) == seq![
            digit_char((w.year as int) / 1000),
            digit_char(((w.year as int) / 100) % 10),
            digit_char(((w.year as int) / 10) % 10),
            digit_char((w.year as int) % 10),
            '-',
            digit_char((w.month as int) / 10),
            digit_char((w.month as int) % 10),
            '-',
            digit_char((w.day as int) / 10),
            digit_char((w.day as int) % 10),
        ],
{
    lemma_four_digit_chars(w.year as int);
    lemma_two_digit_chars(w.month as int);
    lemma_two_digit_chars(w.day as int);
    assert(date_label_text(w) =~= seq![
        digit_char((w.year as int) / 1000),
        digit_char(((w.year as int) / 100) % 10),
        digit_char(((w.year as int) / 10) % 10),
        digit_char((w.year as int) % 10),
        '-',
        digit_char((w.month as int) / 10),
        digit_char((w.month as int) % 10),
        '-',
        digit_char((w.day as int) / 10),
        digit_char((w.day as int) % 10),
    ]);
}

proof fn lemma_digit_count(n: nat)
    ensures
        n < 10 ==> decimal_digits(n).len() == 1,
        10 <= n < 100 ==> decimal_digits(n).len() == 2,
        100 <= n < 1000 ==> decimal_digits(n).len() == 3,
        n >= 1000 ==> decimal_digits(n).len() >= 4,
    decreases n,
{
    if n >= 10 {
        lemma_digit_count(n / 10);
    }
}

fn append_padded(s: &mut String, n: u64, width: u64)
    requires
        width <= 4,
    ensures
        final(s)@ == old(s)@ + zero_padded(decimal_digits(n as nat), width as nat),
{
    let ghost before = s@;
    let ghost digits = decimal_digits(n as nat);
    proof { lemma_digit_count(n as nat); }
    let count: u64 = if n < 10 {
        1
    } else if n < 100 {
        2
    } else if n < 1000 {
        3
    } else {
        4
    };
    let mut k: u64 = count;
    while k < width
        invariant
            count <= k,
            k <= width || k == count,
            count <= 4,
            width <= 4,
            s@ == before + Seq::new((k - count) as nat, |i: int| '0'),
        decreases width - k,
    {
        proof { reveal_strlit("0"); }
        s.append("0");
        assert(s@ =~= before + Seq::new((k + 1 - count) as nat, |i: int| '0'));
        k = k + 1;
    }
    let ghost pad: nat = if digits.len() < width { (width - digits.len()) as nat } else { 0 };
    assert(Seq::new((k - count) as nat, |i: int| '0') =~= Seq::new(pad, |i: int| '0'));
    append_unsigned(s, n);
    assert(s@ =~= before + zero_padded(digits, width as nat));
}

/// Writes the date of a wall clock as chrono's `%Y-%m-%d` does.
pub fn date_label(w: &WallTime) -> (res: String)
    ensures
        res@ == date_label_text(*w),
{
    let mut s = String::new();
    let magnitude: u64 = if w.year < 0 { (-(w.year as i64)) as u64 } else { w.year as u64 };
    if w.year < 0 {
        proof { reveal_strlit("-"); }
        s.append("-");
    } else if w.year > 9999 {
        proof { reveal_strlit("+"); }
        s.append("+");
    }
    append_padded(&mut s, magnitude, 4);
    proof { reveal_strlit("-"); }
    s.append("-");
    append_padded(&mut s, w.month as u64, 2);
    s.append("-");
    append_padded(&mut s, w.day as u64, 2);
    assert(s@ =~= date_label_text(*w));
    s
}

/// A time zone that chrono-tz knows, by its IANA name.
#[derive(Debug)]
pub struct Zone {
    name: String,
}

impl Zone {
    #[verifier::type_invariant]
    spec fn known(self) -> bool {
        tz_name_known(self.name@)
    }

    /// The zone's name.
    pub closed spec fn spec_name(self) -> Seq<char> {
        self.name@
    }

    /// The zone named `name`, where chrono-tz knows one.
    pub fn from_name(name: &str) -> (res: Option<Zone>)
        ensures
            res is Some <==> tz_name_known(name@),
            res matches Some(z) ==> z.spec_name() == name@,
    {
        if zone_name_known(name) {
            Some(Zone { name: String::from_str(name) })
        } else {
            None
        }
    }

    /// Another handle on the same zone.
    pub fn duplicate(&self) -> (res: Zone)
        ensures
            res.spec_name() == self.spec_name(),
    {
        proof { use_type_invariant(self); }
        Zone { name: self.name.clone() }
    }

    /// The zone's name.
    pub fn name(&self) -> (res: &str)
        ensures
            res@ == self.spec_name(),
    {
        self.name.as_str()
    }
}

/// An instant, as seconds and nanoseconds since the Unix epoch, that chrono
/// can represent.
#[derive(Debug)]
pub struct UtcInstant {
    secs: i64,
    nanos: u32,
}

impl UtcInstant {
    #[verifier::type_invariant]
    spec fn representable(self) -> bool {
        utc_representable(self.secs, self.nanos)
    }

    /// Whole seconds since the Unix epoch.
    pub closed spec fn spec_secs(self) -> i64 {
        self.secs
    }

    /// Nanoseconds beyond `spec_secs`.
    pub closed spec fn spec_nanos(self) -> u32 {
        self.nanos
    }

    /// The wall clock in `zone` at this instant.
    pub open spec fn local(self, zone: Seq<char>) -> WallTime {
        wall_clock(zone, self.spec_secs(), self.spec_nanos())
    }

    /// Seconds since the Unix epoch.
    pub fn secs(&self) -> (res: i64)
        ensures
            res == self.spec_secs(),
            utc_representable(self.spec_secs(), self.spec_nanos()),
    {
        proof { use_type_invariant(self); }
        self.secs
    }

    /// Nanoseconds beyond `secs()`.
    pub fn nanos(&self) -> (res: u32)
        ensures
            res == self.spec_nanos(),
    {
        self.nanos
    }

    /// The instant `secs` seconds and `nanos` nanoseconds after the Unix
    /// epoch, where chrono can represent it.
    pub fn from_unix(secs: u64, nanos: u32) -> (res: Option<UtcInstant>)
        ensures
            res is Some <==> secs <= MAX_UTC_SECS && utc_representable(secs as i64, nanos),
            res matches Some(t) ==> t.spec_secs() == secs && t.spec_nanos() == nanos,
    {
        if secs > 8_210_266_876_799u64 {
            return None;
        }
        let s = secs as i64;
        if nanos < 1_000_000_000 || (nanos < 2_000_000_000 && s % 60 == 59) {
            Some(UtcInstant { secs: s, nanos })
        } else {
            None
        }
    }

    /// The current instant, read from the system clock: `None` where the clock
    /// stands before 1970 (or beyond the years chrono can represent).
    pub fn now() -> (res: Option<UtcInstant>)
        ensures
            res matches Some(t) ==> t.spec_nanos() < 1_000_000_000 && utc_representable(
                t.spec_secs(),
                t.spec_nanos(),
            ),
    {
        let reading = system_time_now();
        match since_unix_epoch(&reading) {
            None => None,
            Some((secs, nanos)) => UtcInstant::from_unix(secs, nanos),
        }
    }

    /// The instant an RFC 3339 text names, as chrono's
    /// `DateTime::parse_from_rfc3339` reads it.
    pub fn parse_rfc3339(s: &str) -> (res: Option<UtcInstant>)
        ensures
            match rfc3339_instant(s@) {
                Some(p) => res matches Some(t) && t.spec_secs() == p.0 && t.spec_nanos() == p.1,
                None => res is None,
            },
    {
        match parse_rfc3339_raw(s) {
            Some((secs, nanos)) => Some(UtcInstant { secs, nanos }),
            None => None,
        }
    }

    /// The instant that `s.parse::<DateTime<Utc>>()` reads from `s`.
    pub fn parse_utc(s: &str) -> (res: Option<UtcInstant>)
        ensures
            match utc_text_instant(s@) {
                Some(p) => res matches Some(t) && t.spec_secs() == p.0 && t.spec_nanos() == p.1,
                None => res is None,
            },
    {
        match parse_utc_raw(s) {
            Some((secs, nanos)) => Some(UtcInstant { secs, nanos }),
            None => None,
        }
    }

    /// What a clock in `zone` shows at this instant.
    pub fn to_local(&self, zone: &Zone) -> (res: WallTime)
        ensures
            res == self.local(zone.spec_name()),
            res.in_range(),
            utc_representable(self.spec_secs(), self.spec_nanos()),
    {
        proof {
            use_type_invariant(self);
            use_type_invariant(zone);
        }
        local_fields(zone.name.as_str(), self.secs, self.nanos)
    }

    /// The date in `zone` of this instant as `YYYY-MM-DD` (chrono's
    /// `%Y-%m-%d`).
    pub fn local_date_label(&self, zone: &Zone) -> (res: String)
        ensures
            res@ == date_label_text(self.local(zone.spec_name())),
    {
        let w = self.to_local(zone);
        date_label(&w)
    }

    /// This instant in RFC 3339, as chrono's `to_rfc3339` writes it. In the
    /// years 0 to 9999 chrono reads the text back as the same instant.
    pub fn to_rfc3339(&self) -> (res: String)
        ensures
            res@ == utc_rfc3339_text(self.spec_secs(), self.spec_nanos()),
            in_four_digit_years(self.spec_secs()) ==> utc_text_instant(res@) == Some(
                (self.spec_secs(), self.spec_nanos()),
            ),
    {
        proof { use_type_invariant(self); }
        rfc3339_string(self.secs, self.nanos)
    }

    /// Whether at least 24 hours have gone by from `earlier` to `self`, as
    /// chrono's `self - earlier >= TimeDelta::hours(24)` finds.
    pub fn day_elapsed_since(&self, earlier: &UtcInstant) -> (res: bool)
        ensures
            res == (elapsed_nanos(
                self.spec_secs(),
                self.spec_nanos(),
                earlier.spec_secs(),
                earlier.spec_nanos(),
            ) >= 86_400_000_000_000),
    {
        proof {
            use_type_invariant(self);
            use_type_invariant(earlier);
        }
        let (secs, nanos) = utc_difference(self.secs, self.nanos, earlier.secs, earlier.nanos);
        (secs as i128) * 1_000_000_000 + (nanos as i128) >= 86_400_000_000_000
    }
}

/// Reads std's `SystemTime::now()`. Nothing is claimed of which time comes
/// back.
#[verifier::external_body]
fn system_time_now() -> (res: SystemTime) {
    SystemTime::now()
}

/// Calls std's `SystemTime::duration_since(UNIX_EPOCH)`: `None` where the
/// time stands before the epoch, else the whole seconds and the nanoseconds
/// beyond them, which std documents as below one second.
#[verifier::external_body]
fn since_unix_epoch(t: &SystemTime) -> (res: Option<(u64, u32)>)
    ensures
        res matches Some(p) ==> p.1 < 1_000_000_000,
{
    match t.duration_since(UNIX_EPOCH) {
        Ok(d) => Some((d.as_secs(), d.subsec_nanos())),
        Err(_) => None,
    }
}

/// Calls chrono-tz's `FromStr` for `Tz` and tells whether it knows the name.
#[verifier::external_body]
fn zone_name_known(name: &str) -> (res: bool)
    ensures
        res == tz_name_known(name@),
{
    name.parse::<Tz>().is_ok()
}

/// Calls chrono's `DateTime::parse_from_rfc3339` and gives back the instant
/// as seconds and nanoseconds. chrono documents that such an instant passes
/// back through `DateTime::from_timestamp`, so it is representable.
#[verifier::external_body]
fn parse_rfc3339_raw(s: &str) -> (res: Option<(i64, u32)>)
    ensures
        res == rfc3339_instant(s@),
        res matches Some(p) ==> utc_representable(p.0, p.1),
{
    match DateTime::parse_from_rfc3339(s) {
        Ok(d) => Some((d.timestamp(), d.timestamp_subsec_nanos())),
        Err(_) => None,
    }
}

/// Calls chrono's `FromStr` for `DateTime<Utc>` (`s.parse::<DateTime<Utc>>()`)
/// and gives back the instant as seconds and nanoseconds, representable as
/// above.
#[verifier::external_body]
fn parse_utc_raw(s: &str) -> (res: Option<(i64, u32)>)
    ensures
        res == utc_text_instant(s@),
        res matches Some(p) ==> utc_representable(p.0, p.1),
{
    match s.parse::<DateTime<Utc>>() {
        Ok(d) => Some((d.timestamp(), d.timestamp_subsec_nanos())),
        Err(_) => None,
    }
}

/// Converts the instant to chrono-tz's zone of that name with
/// `with_timezone` and reads its calendar fields. chrono documents the range
/// of each field (`month` 1 to 12, `day` 1 to 31, `hour` 0 to 23, `minute`
/// 0 to 59, `num_days_from_monday` 0 to 6).
#[verifier::external_body]
fn local_fields(zone: &str, secs: i64, nanos: u32) -> (res: WallTime)
    requires
        tz_name_known(zone@),
        utc_representable(secs, nanos),
    ensures
        res == wall_clock(zone@, secs, nanos),
        res.in_range(),
{
    let tz: Tz = zone.parse().unwrap();
    let local = DateTime::from_timestamp(secs, nanos).unwrap().with_timezone(&tz);
    WallTime {
        year: local.year(),
        month: local.month(),
        day: local.day(),
        hour: local.hour(),
        minute: local.minute(),
        weekday: local.weekday().num_days_from_monday(),
    }
}

/// Formats the instant with chrono's `DateTime::<Utc>::to_rfc3339`. In the
/// years 0 to 9999 chrono writes the year with four digits, the offset as
/// `+00:00` and every nanosecond (a leap second as second 60), and its
/// `FromStr` for `DateTime<Utc>` reads that text back as the same instant.
#[verifier::external_body]
fn rfc3339_string(secs: i64, nanos: u32) -> (res: String)
    requires
        utc_representable(secs, nanos),
    ensures
        res@ == utc_rfc3339_text(secs, nanos),
        in_four_digit_years(secs) ==> utc_text_instant(res@) == Some((secs, nanos)),
{
    DateTime::from_timestamp(secs, nanos).unwrap().to_rfc3339()
}

/// Calls chrono's `later - earlier` (`signed_duration_since`) and gives the
/// `TimeDelta` back as its `num_seconds()` and `subsec_nanos()`, which
/// together make up the whole difference; chrono's source computes it as
/// `elapsed_nanos` states.
#[verifier::external_body]
fn utc_difference(
    later_secs: i64,
    later_nanos: u32,
    earlier_secs: i64,
    earlier_nanos: u32,
) -> (res: (i64, i32))
    requires
        utc_representable(later_secs, later_nanos),
        utc_representable(earlier_secs, earlier_nanos),
    ensures
        res.0 * 1_000_000_000 + res.1 == elapsed_nanos(
            later_secs,
            later_nanos,
            earlier_secs,
            earlier_nanos,
        ),
{
    let later = DateTime::from_timestamp(later_secs, later_nanos).unwrap();
    let earlier = DateTime::from_timestamp(earlier_secs, earlier_nanos).unwrap();
    let delta = later - earlier;
    (delta.num_seconds(), delta.subsec_nanos())
}

} // verus!
