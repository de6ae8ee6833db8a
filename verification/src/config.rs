//! The bot's settings, read from the values of its environment variables.
//!
//! The caller reads the environment; this module applies the defaults and
//! reads the numbers, as `str::parse` does for Rust's integer types.

use crate::clock::{tz_name_known, Zone};
use crate::model::opt_text;
use crate::text::{decimal_digits, decimal_text, digit_char};
use vstd::prelude::*;

verus! {

// ---------------------------------------------------------------------------
// Decimal numbers
// ---------------------------------------------------------------------------

/// An ASCII decimal digit.
pub open spec fn is_digit(c: char) -> bool {
    '0' <= c && c <= '9'
}

/// The value of an ASCII decimal digit.
pub open spec fn digit_value(c: char) -> int {
    c as int - '0' as int
}

/// Every character is an ASCII decimal digit.
pub open spec fn all_digits(s: Seq<char>) -> bool {
    forall|i: int| 0 <= i < s.len() ==> is_digit(#[trigger] s[i])
}

/// The number that a string of decimal digits writes.
pub open spec fn digits_value(s: Seq<char>) -> int
    decreases s.len(),
{
    if s.len() == 0 {
        0
    } else {
        10 * digits_value(s.drop_last()) + digit_value(s.last())
    }
}

/// The integer that `s` writes as Rust's `from_str` for integers reads it: an
/// optional `+` (or, where `signed`, `-`) and then at least one decimal digit,
/// nothing else.
pub open spec fn decimal_number(s: Seq<char>, signed: bool) -> Option<int> {
    let negative = signed && s.len() > 0 && s[0] == '-';
    let body = if s.len() > 0 && (s[0] == '+' || negative) {
        s.drop_first()
    } else {
        s
    };
    if body.len() > 0 && all_digits(body) {
        Some(if negative { -digits_value(body) } else { digits_value(body) })
    } else {
        None
    }
}

/// What `s.parse()` gives for an integer type that holds `min..=max`.
pub open spec fn parsed_integer(s: Seq<char>, signed: bool, min: int, max: int) -> Option<int> {
    match decimal_number(s, signed) {
        Some(v) => if min <= v <= max {
            Some(v)
        } else {
            None
        },
        None => None,
    }
}

/// Longer runs of digits never write smaller numbers.
pub proof fn lemma_digits_value_grows(s: Seq<char>, i: int, j: int)
    requires
        all_digits(s),
        0 <= i <= j <= s.len(),
    ensures
        0 <= digits_value(s.take(i)) <= digits_value(s.take(j)),
    decreases j - i,
{
    if i < j {
        lemma_digits_value_grows(s, i, j - 1);
        assert(s.take(j).drop_last() =~= s.take(j - 1));
        assert(is_digit(s[j - 1]));
    } else {
        lemma_digits_value_nonnegative(s.take(i));
    }
}

/// Digits write non-negative numbers.
pub proof fn lemma_digits_value_nonnegative(s: Seq<char>)
    requires
        all_digits(s),
    ensures
        digits_value(s) >= 0,
    decreases s.len(),
{
    if s.len() > 0 {
        assert(all_digits(s.drop_last()));
        lemma_digits_value_nonnegative(s.drop_last());
        assert(is_digit(s[s.len() - 1]));
    }
}

/// Reads the digits of `s` from `start` on, as a number no larger than
/// `limit`.
fn read_digits(s: &str, start: usize, limit: u64) -> (res: Option<u64>)
    requires
        start <= s@.len(),
    ensures
        ({
            let body = s@.skip(start as int);
            match res {
                Some(v) => body.len() > 0 && all_digits(body) && v == digits_value(body) && v <= limit,
                None => !(body.len() > 0 && all_digits(body) && digits_value(body) <= limit),
            }
        }),
{
    let ghost body = s@.skip(start as int);
    let n = s.unicode_len();
    if start >= n {
        return None;
    }
    let mut acc: u64 = 0;
    let mut i: usize = start;
    while i < n
        invariant
            n == s@.len(),
            start <= i <= n,
            body == s@.skip(start as int),
            all_digits(body.take(i - start)),
            acc == digits_value(body.take(i - start)),
            acc <= limit,
        decreases n - i,
    {
        let c = s.get_char(i);
        let ghost k: int = i - start;
        assert(body[k] == c);
        if !('0' <= c && c <= '9') {
            assert(!all_digits(body));
            return None;
        }
        let d = (c as u32 - '0' as u32) as u64;
        assert(body.take(k + 1).drop_last() =~= body.take(k));
        assert(all_digits(body.take(k + 1)));
        if d > limit || acc > (limit - d) / 10 {
            proof {
                assert(digits_value(body.take(k + 1)) == 10 * acc + d);
                if d <= limit {
                    let q = (limit - d) / 10;
                    assert(acc > q ==> 10 * acc + d > limit) by (nonlinear_arith)
                        requires
                            q == (limit - d) / 10,
                            d <= limit,
                    ;
                }
                if all_digits(body) {
                    lemma_digits_value_grows(body, k + 1, body.len() as int);
                    assert(body.take(body.len() as int) =~= body);
                }
            }
            return None;
        }
        proof {
            let q = (limit - d) / 10;
            assert(acc <= q ==> 10 * acc + d <= limit) by (nonlinear_arith)
                requires
                    q == (limit - d) / 10,
                    d <= limit,
            ;
        }
        acc = acc * 10 + d;
        i = i + 1;
    }
    assert(body.take(n - start) =~= body);
    Some(acc)
}

/// Reads a signed 64-bit integer, as `s.parse::<i64>()` does.
pub fn parse_i64(s: &str) -> (res: Option<i64>)
    ensures
        match parsed_integer(s@, true, i64::MIN as int, i64::MAX as int) {
            Some(v) => res == Some(v as i64),
            None => res is None,
        },
{
    let n = s.unicode_len();
    if n == 0 {
        return None;
    }
    let first = s.get_char(0);
    let negative = first == '-';
    let start: usize = if first == '+' || first == '-' { 1 } else { 0 };
    proof {
        if start == 1 {
            assert(s@.skip(1) =~= s@.drop_first());
        } else {
            assert(s@.skip(0) =~= s@);
        }
    }
    let limit: u64 = if negative { 9223372036854775808u64 } else { 9223372036854775807u64 };
    let read = read_digits(s, start, limit);
    proof {
        let body = s@.skip(start as int);
        if body.len() > 0 && all_digits(body) {
            lemma_digits_value_nonnegative(body);
        }
    }
    match read {
        None => None,
        Some(magnitude) => {
            if negative {
                if magnitude == 9223372036854775808u64 {
                    Some(i64::MIN)
                } else {
                    Some(-(magnitude as i64))
                }
            } else {
                Some(magnitude as i64)
            }
        },
    }
}

/// Reads an unsigned integer no larger than `max`, as `s.parse()` does for
/// the unsigned type whose largest value is `max`.
pub fn parse_unsigned(s: &str, max: u64) -> (res: Option<u64>)
    ensures
        match parsed_integer(s@, false, 0, max as int) {
            Some(v) => res == Some(v as u64),
            None => res is None,
        },
{
    let n = s.unicode_len();
    if n == 0 {
        return None;
    }
    let first = s.get_char(0);
    let start: usize = if first == '+' { 1 } else { 0 };
    proof {
        if start == 1 {
            assert(s@.skip(1) =~= s@.drop_first());
        } else {
            assert(s@.skip(0) =~= s@);
        }
    }
    let res = read_digits(s, start, max);
    proof {
        let body = s@.skip(start as int);
        if body.len() > 0 && all_digits(body) {
            lemma_digits_value_nonnegative(body);
        }
    }
    res
}


/// A digit written by `digit_char` reads back as itself.
pub proof fn lemma_digit_char_value(d: int)
    requires
        0 <= d < 10,
    ensures
        is_digit(digit_char(d)),
        digit_value(digit_char(d)) == d,
{
}

/// The digits that `decimal_digits` writes read back as the same number.
pub proof fn lemma_decimal_digits_read_back(n: nat)
    ensures
        decimal_digits(n).len() > 0,
        all_digits(decimal_digits(n)),
        digits_value(decimal_digits(n)) == n,
    decreases n,
{
    if n < 10 {
        lemma_digit_char_value(n as int);
        let whole = decimal_digits(n);
        assert(whole.drop_last() =~= Seq::<char>::empty());
        assert(digits_value(whole) == 10 * digits_value(whole.drop_last()) + digit_value(whole.last()));
    } else {
        lemma_decimal_digits_read_back(n / 10);
        lemma_digit_char_value((n % 10) as int);
        let prefix = decimal_digits(n / 10);
        let whole = decimal_digits(n);
        assert(whole == prefix.push(digit_char((n % 10) as int)));
        assert(whole.drop_last() =~= prefix);
        assert(whole.last() == digit_char((n % 10) as int));
        assert(digits_value(whole) == 10 * digits_value(prefix) + digit_value(whole.last()));
        assert(n == 10 * (n / 10) + n % 10);
        assert(all_digits(whole)) by {
            assert forall|i: int| 0 <= i < whole.len() implies is_digit(#[trigger] whole[i]) by {
                if i < prefix.len() {
                    assert(whole[i] == prefix[i]);
                }
            }
        }
    }
}

/// Reading back what `Display` writes for an `i64` gives the same number:
/// `n.to_string().parse::<i64>() == Ok(n)`.
pub proof fn law_i64_text_round_trip(n: i64)
    ensures
        parsed_integer(decimal_text(n as int), true, i64::MIN as int, i64::MAX as int) == Some(
            n as int,
        ),
{
    let s = decimal_text(n as int);
    if n < 0 {
        let m = (-n) as nat;
        lemma_decimal_digits_read_back(m);
        assert(s[0] == '-');
        assert(s.drop_first() =~= decimal_digits(m));
    } else {
        lemma_decimal_digits_read_back(n as nat);
        let d = decimal_digits(n as nat);
        assert(is_digit(d[0]));
    }
}

/// Reading back what `Display` writes for an unsigned number no larger than
/// `max` gives the same number.
pub proof fn law_unsigned_text_round_trip(n: u64, max: u64)
    requires
        n <= max,
    ensures
        parsed_integer(decimal_digits(n as nat), false, 0, max as int) == Some(n as int),
{
    lemma_decimal_digits_read_back(n as nat);
    let d = decimal_digits(n as nat);
    assert(is_digit(d[0]));
}

// ---------------------------------------------------------------------------
// Settings
// ---------------------------------------------------------------------------

/// The bot's settings.
#[derive(Debug)]
pub struct Config {
    pub pandascore_token: String,
    pub vitality_team_id: i64,
    pub telegram_bot_token: String,
    pub telegram_chat_id: String,
    pub poll_interval: u64,
    pub morning_hour: u32,
    pub port: u16,
    pub state_path: String,
    /// The time zone in which times are written and the day is scheduled.
    pub timezone: Zone,
}

/// The values of the bot's environment variables, `None` where a variable is
/// not set (or does not hold Unicode).
#[derive(Debug)]
pub struct ConfigVars {
    /// `PANDASCORE_TOKEN`
    pub pandascore_token: Option<String>,
    /// `VITALITY_TEAM_ID`
    pub vitality_team_id: Option<String>,
    /// `TELEGRAM_BOT_TOKEN`
    pub telegram_bot_token: Option<String>,
    /// `TELEGRAM_CHAT_ID`
    pub telegram_chat_id: Option<String>,
    /// `POLL_INTERVAL_SECS`
    pub poll_interval: Option<String>,
    /// `MORNING_REMINDER_HOUR`
    pub morning_hour: Option<String>,
    /// `TIMEZONE`
    pub timezone: Option<String>,
    /// `PORT`
    pub port: Option<String>,
    /// `STATE_PATH`
    pub state_path: Option<String>,
}

/// Why the settings cannot be read.
#[derive(Debug, Clone, Copy, PartialEq, Eq, Structural)]
pub enum ConfigError {
    MissingPandascoreToken,
    MissingTeamId,
    InvalidTeamId,
    MissingTelegramBotToken,
    MissingTelegramChatId,
    InvalidPollInterval,
    InvalidMorningHour,
    InvalidPort,
    UnknownTimezone,
}

/// The text of a variable, or `default` where it is not set.
pub open spec fn setting_text(o: Option<String>, default: Seq<char>) -> Seq<char> {
    match o {
        Some(s) => s@,
        None => default,
    }
}

/// The team id that the settings name; there is no default.
pub open spec fn team_id_setting(v: ConfigVars) -> Option<int> {
    match v.vitality_team_id {
        Some(t) => parsed_integer(t@, true, i64::MIN as int, i64::MAX as int),
        None => None,
    }
}

/// The poll interval in seconds that the settings name (default 120).
pub open spec fn poll_interval_setting(v: ConfigVars) -> Option<int> {
    parsed_integer(setting_text(v.poll_interval, "120"@), false, 0, u64::MAX as int)
}

/// The hour of the morning reminder that the settings name (default 9).
pub open spec fn morning_hour_setting(v: ConfigVars) -> Option<int> {
    parsed_integer(setting_text(v.morning_hour, "9"@), false, 0, u32::MAX as int)
}

/// The port of the health check that the settings name (default 3000).
pub open spec fn port_setting(v: ConfigVars) -> Option<int> {
    parsed_integer(setting_text(v.port, "3000"@), false, 0, u16::MAX as int)
}

/// The name of the time zone that the settings name (default Europe/Paris).
pub open spec fn timezone_setting(v: ConfigVars) -> Seq<char> {
    setting_text(v.timezone, "Europe/Paris"@)
}

/// The path of the database that the settings name (default
/// `/app/data/state.db`).
pub open spec fn state_path_setting(v: ConfigVars) -> Seq<char> {
    setting_text(v.state_path, "/app/data/state.db"@)
}

/// The first problem with the settings, in the order in which they are read,
/// or `None` where they can all be read.
pub open spec fn config_error(v: ConfigVars) -> Option<ConfigError> {
    if v.pandascore_token is None {
        Some(ConfigError::MissingPandascoreToken)
    } else if v.vitality_team_id is None {
        Some(ConfigError::MissingTeamId)
    } else if team_id_setting(v) is None {
        Some(ConfigError::InvalidTeamId)
    } else if v.telegram_bot_token is None {
        Some(ConfigError::MissingTelegramBotToken)
    } else if v.telegram_chat_id is None {
        Some(ConfigError::MissingTelegramChatId)
    } else if poll_interval_setting(v) is None {
        Some(ConfigError::InvalidPollInterval)
    } else if morning_hour_setting(v) is None {
        Some(ConfigError::InvalidMorningHour)
    } else if port_setting(v) is None {
        Some(ConfigError::InvalidPort)
    } else if !tz_name_known(timezone_setting(v)) {
        Some(ConfigError::UnknownTimezone)
    } else {
        None
    }
}

/// The documented defaults: with the tokens, the chat id and a team id set
/// and nothing else, the poll comes every 120 seconds, the morning reminder
/// at 9, the health check listens on port 3000, the memory is kept in
/// `/app/data/state.db`, and the time zone is Europe/Paris (so the settings
/// read exactly where chrono-tz knows that zone).
pub proof fn law_default_settings(v: ConfigVars)
    requires
        v.pandascore_token is Some,
        v.telegram_bot_token is Some,
        v.telegram_chat_id is Some,
        team_id_setting(v) is Some,
        v.poll_interval is None,
        v.morning_hour is None,
        v.port is None,
        v.timezone is None,
        v.state_path is None,
    ensures
        config_error(v) is None <==> tz_name_known("Europe/Paris"@),
        poll_interval_setting(v) == Some(120int),
        morning_hour_setting(v) == Some(9int),
        port_setting(v) == Some(3000int),
        timezone_setting(v) == "Europe/Paris"@,
        state_path_setting(v) == "/app/data/state.db"@,
{
    reveal_strlit("120");
    reveal_strlit("9");
    reveal_strlit("3000");
    lemma_digits_text("120"@);
    lemma_digits_text("9"@);
    lemma_digits_text("3000"@);
    reveal_with_fuel(digits_value, 5);
    assert("120"@.drop_last() =~= seq!['1', '2']);
    assert(seq!['1', '2'].drop_last() =~= seq!['1']);
    assert(seq!['1'].drop_last() =~= Seq::<char>::empty());
    assert("3000"@.drop_last() =~= seq!['3', '0', '0']);
    assert(seq!['3', '0', '0'].drop_last() =~= seq!['3', '0']);
    assert(seq!['3', '0'].drop_last() =~= seq!['3']);
    assert(seq!['3'].drop_last() =~= Seq::<char>::empty());
    assert("9"@.drop_last() =~= Seq::<char>::empty());
}

/// A text made only of digits is read as those digits.
pub proof fn lemma_digits_text(s: Seq<char>)
    requires
        s.len() > 0,
        all_digits(s),
    ensures
        decimal_number(s, true) == Some(digits_value(s)),
        decimal_number(s, false) == Some(digits_value(s)),
{
    assert(is_digit(s[0]));
}

/// The text of an error, as the bot reports it.
pub open spec fn config_error_text(e: ConfigError) -> Seq<char> {
    match e {
        ConfigError::MissingPandascoreToken => "PANDASCORE_TOKEN must be set"@,
        ConfigError::MissingTeamId => "VITALITY_TEAM_ID must be set"@,
        ConfigError::InvalidTeamId => "VITALITY_TEAM_ID must be a number"@,
        ConfigError::MissingTelegramBotToken => "TELEGRAM_BOT_TOKEN must be set"@,
        ConfigError::MissingTelegramChatId => "TELEGRAM_CHAT_ID must be set"@,
        ConfigError::InvalidPollInterval => "POLL_INTERVAL_SECS must be a number"@,
        ConfigError::InvalidMorningHour => "MORNING_REMINDER_HOUR must be a number"@,
        ConfigError::InvalidPort => "PORT must be a number"@,
        ConfigError::UnknownTimezone => "TIMEZONE must name a known time zone"@,
    }
}

impl ConfigError {
    /// The text of the error, as the bot reports it.
    pub fn message(&self) -> (res: String)
        ensures
            res@ == config_error_text(*self),
    {
        match self {
            ConfigError::MissingPandascoreToken => String::from_str("PANDASCORE_TOKEN must be set"),
            ConfigError::MissingTeamId => String::from_str("VITALITY_TEAM_ID must be set"),
            ConfigError::InvalidTeamId => String::from_str("VITALITY_TEAM_ID must be a number"),
            ConfigError::MissingTelegramBotToken => String::from_str(
                "TELEGRAM_BOT_TOKEN must be set",
            ),
            ConfigError::MissingTelegramChatId => String::from_str("TELEGRAM_CHAT_ID must be set"),
            ConfigError::InvalidPollInterval => String::from_str(
                "POLL_INTERVAL_SECS must be a number",
            ),
            ConfigError::InvalidMorningHour => String::from_str(
                "MORNING_REMINDER_HOUR must be a number",
            ),
            ConfigError::InvalidPort => String::from_str("PORT must be a number"),
            ConfigError::UnknownTimezone => String::from_str(
                "TIMEZONE must name a known time zone",
            ),
        }
    }
}

fn text_or<'a>(o: &'a Option<String>, default: &'a str) -> (res: &'a str)
    ensures
        res@ == setting_text(*o, default@),
{
    match o {
        Some(s) => s.as_str(),
        None => default,
    }
}

impl Config {
    /// The address of the SQLite database that keeps the bot's memory,
    /// created where it does not exist yet.
    pub fn database_url(&self) -> (res: String)
        ensures
            res@ == "sqlite:"@ + self.state_path@ + "?mode=rwc"@,
    {
        let mut url = String::from_str("sqlite:");
        url.append(self.state_path.as_str());
        url.append("?mode=rwc");
        url
    }

    /// Reads the settings from the values of the environment variables:
    /// the tokens, the chat id and the team id must be set, the team id as a
    /// number; the poll interval (default 120 s), reminder hour (default 9)
    /// and port (default 3000) must be numbers of their types; the time zone
    /// (default Europe/Paris) must be one chrono-tz knows; the state path
    /// defaults to `/app/data/state.db`.
    pub fn from_vars(vars: &ConfigVars) -> (res: Result<Config, ConfigError>)
        ensures
            match res {
                Err(e) => config_error(*vars) == Some(e),
                Ok(c) => {
                    &&& config_error(*vars) is None
                    &&& Some(c.pandascore_token@) == opt_text(vars.pandascore_token)
                    &&& team_id_setting(*vars) == Some(c.vitality_team_id as int)
                    &&& Some(c.telegram_bot_token@) == opt_text(vars.telegram_bot_token)
                    &&& Some(c.telegram_chat_id@) == opt_text(vars.telegram_chat_id)
                    &&& poll_interval_setting(*vars) == Some(c.poll_interval as int)
                    &&& morning_hour_setting(*vars) == Some(c.morning_hour as int)
                    &&& port_setting(*vars) == Some(c.port as int)
                    &&& c.state_path@ == state_path_setting(*vars)
                    &&& c.timezone.spec_name() == timezone_setting(*vars)
                },
            },
    {
        let pandascore_token = match &vars.pandascore_token {
            Some(t) => t.clone(),
            None => return Err(ConfigError::MissingPandascoreToken),
        };
        let team_text = match &vars.vitality_team_id {
            Some(t) => t.as_str(),
            None => return Err(ConfigError::MissingTeamId),
        };
        let vitality_team_id = match parse_i64(team_text) {
            Some(id) => id,
            None => return Err(ConfigError::InvalidTeamId),
        };
        let telegram_bot_token = match &vars.telegram_bot_token {
            Some(t) => t.clone(),
            None => return Err(ConfigError::MissingTelegramBotToken),
        };
        let telegram_chat_id = match &vars.telegram_chat_id {
            Some(t) => t.clone(),
            None => return Err(ConfigError::MissingTelegramChatId),
        };
        let poll_interval = match parse_unsigned(text_or(&vars.poll_interval, "120"), u64::MAX) {
            Some(n) => n,
            None => return Err(ConfigError::InvalidPollInterval),
        };
        let morning_hour = match parse_unsigned(
            text_or(&vars.morning_hour, "9"),
            u32::MAX as u64,
        ) {
            Some(n) => n as u32,
            None => return Err(ConfigError::InvalidMorningHour),
        };
        let port = match parse_unsigned(text_or(&vars.port, "3000"), u16::MAX as u64) {
            Some(n) => n as u16,
            None => return Err(ConfigError::InvalidPort),
        };
        let timezone = match Zone::from_name(text_or(&vars.timezone, "Europe/Paris")) {
            Some(z) => z,
            None => return Err(ConfigError::UnknownTimezone),
        };
        let state_path = String::from_str(text_or(&vars.state_path, "/app/data/state.db"));
        Ok(
            Config {
                pandascore_token,
                vitality_team_id,
                telegram_bot_token,
                telegram_chat_id,
                poll_interval,
                morning_hour,
                port,
                state_path,
                timezone,
            },
        )
    }
}

} // verus!
