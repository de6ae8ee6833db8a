//! What the bot asks of PandaScore and of Telegram: the addresses, query
//! parameters and message fields of its requests. Sending them is the
//! caller's part.

use crate::text::{append_signed, append_unsigned, decimal_digits, decimal_text};
use vstd::prelude::*;

verus! {

/// A GET request to PandaScore's API.
pub struct ApiRequest {
    pub url: String,
    /// The query parameters, in order.
    pub query: Vec<(String, String)>,
    /// The value of the `Authorization` header.
    pub authorization: String,
    /// The value of the `Accept` header.
    pub accept: String,
}

/// The characters of query parameters.
pub open spec fn query_text(q: Seq<(String, String)>) -> Seq<(Seq<char>, Seq<char>)> {
    q.map_values(|p: (String, String)| (p.0@, p.1@))
}

/// The request for `path` on PandaScore's API, restricted to the matches of
/// the team `team_id`, with the further parameters `extra`, authorized by
/// `token` and asking for JSON.
pub open spec fn pandascore_request(
    r: ApiRequest,
    token: Seq<char>,
    team_id: i64,
    path: Seq<char>,
    extra: Seq<(Seq<char>, Seq<char>)>,
) -> bool {
    &&& r.url@ == "https://api.pandascore.co"@ + path
    &&& query_text(r.query@) == seq![("filter[opponent_id]"@, decimal_text(team_id as int))] + extra
    &&& r.authorization@ == "Bearer "@ + token
    &&& r.accept@ == "application/json"@
}

fn text_pair(a: &str, b: &str) -> (res: (String, String))
    ensures
        res.0@ == a@,
        res.1@ == b@,
{
    (String::from_str(a), String::from_str(b))
}

fn request_for(token: &str, team_id: i64, path: &str, extra: Vec<(String, String)>) -> (res:
    ApiRequest)
    ensures
        pandascore_request(res, token@, team_id, path@, query_text(extra@)),
{
    let mut url = String::from_str("https://api.pandascore.co");
    url.append(path);
    let mut team = String::new();
    append_signed(&mut team, team_id);
    assert(team@ =~= decimal_text(team_id as int));
    let mut query: Vec<(String, String)> = Vec::new();
    query.push((String::from_str("filter[opponent_id]"), team));
    let ghost first = query@;
    assert(query_text(first) =~= seq![("filter[opponent_id]"@, decimal_text(team_id as int))]);
    let mut extra = extra;
    let ghost extra_text = query_text(extra@);
    query.append(&mut extra);
    assert(query_text(query@) =~= query_text(first) + extra_text);
    let mut authorization = String::from_str("Bearer ");
    authorization.append(token);
    ApiRequest { url, query, authorization, accept: String::from_str("application/json") }
}

/// The request for Vitality's upcoming matches, by start time, 50 at most.
pub fn upcoming_matches_request(token: &str, team_id: i64) -> (res: ApiRequest)
    ensures
        pandascore_request(
            res,
            token@,
            team_id,
            "/csgo/matches/upcoming"@,
            seq![("sort"@, "begin_at"@), ("per_page"@, "50"@)],
        ),
{
    let mut extra: Vec<(String, String)> = Vec::new();
    extra.push(text_pair("sort", "begin_at"));
    extra.push(text_pair("per_page", "50"));
    assert(query_text(extra@) =~= seq![("sort"@, "begin_at"@), ("per_page"@, "50"@)]);
    request_for(token, team_id, "/csgo/matches/upcoming", extra)
}

/// The request for Vitality's matches being played.
pub fn running_matches_request(token: &str, team_id: i64) -> (res: ApiRequest)
    ensures
        pandascore_request(res, token@, team_id, "/csgo/matches/running"@, seq![]),
{
    let extra: Vec<(String, String)> = Vec::new();
    assert(query_text(extra@) =~= seq![]);
    request_for(token, team_id, "/csgo/matches/running", extra)
}

/// The request for Vitality's last `count` finished matches, latest end
/// first.
pub fn past_matches_request(token: &str, team_id: i64, count: usize) -> (res: ApiRequest)
    ensures
        pandascore_request(
            res,
            token@,
            team_id,
            "/csgo/matches/past"@,
            seq![("sort"@, "-end_at"@), ("per_page"@, decimal_digits(count as nat))],
        ),
{
    let mut per_page = String::new();
    append_unsigned(&mut per_page, count as u64);
    let mut extra: Vec<(String, String)> = Vec::new();
    extra.push(text_pair("sort", "-end_at"));
    extra.push((String::from_str("per_page"), per_page));
    assert(query_text(extra@) =~= seq![
        ("sort"@, "-end_at"@),
        ("per_page"@, decimal_digits(count as nat)),
    ]);
    request_for(token, team_id, "/csgo/matches/past", extra)
}

/// The address of Telegram's `sendMessage` method for the bot `token`.
pub fn telegram_send_url(token: &str) -> (res: String)
    ensures
        res@ == "https://api.telegram.org/bot"@ + token@ + "/sendMessage"@,
{
    let mut url = String::from_str("https://api.telegram.org/bot");
    url.append(token);
    url.append("/sendMessage");
    url
}

/// The fields of a Telegram message.
pub struct TelegramMessage {
    pub chat_id: String,
    pub text: String,
    pub parse_mode: String,
    pub disable_web_page_preview: bool,
}

/// A message to the chat `chat_id`, in HTML, without link previews.
pub fn telegram_message(chat_id: &str, text: &str) -> (res: TelegramMessage)
    ensures
        res.chat_id@ == chat_id@,
        res.text@ == text@,
        res.parse_mode@ == "HTML"@,
        res.disable_web_page_preview,
{
    TelegramMessage {
        chat_id: String::from_str(chat_id),
        text: String::from_str(text),
        parse_mode: String::from_str("HTML"),
        disable_web_page_preview: true,
    }
}

} // verus!
