# vitality_bot

A bot that follows Team Vitality's Counter-Strike matches on PandaScore and
posts notices to a Telegram chat: the announcement of a match, the notice that
it is live, its result, a reminder of the result a day later, and a morning
list of the day's matches. Each notice goes out once; the bot's memory is kept
in SQLite between polls. Times are written, and the day scheduled, in the
time zone `TIMEZONE` (Europe/Paris by default).

Layout:

- `src/` is the verified library (Verus):
  - `text.rs`: decimal rendering of integers, trimming of trailing white space;
  - `clock.rs`: instants as plain numbers, time zones, and the calendar work
    of chrono and chrono-tz (RFC 3339, wall clocks) behind contracts;
  - `model.rs`: PandaScore's match data and the bot's memory;
  - `notifications.rs`: the messages, from a match's data;
  - `poll.rs`: the decisions of a poll (which notices are due, how the memory
    changes once one went out) and the laws they keep;
  - `cycle.rs`: a whole poll as a state machine that hands out the messages
    to send and keeps every record and sent mark of the memory it began with;
  - `config.rs`: the settings, from the environment's values;
  - `api.rs`: the requests made to PandaScore and Telegram.
- `app/main.rs` runs the bot: environment, HTTP, SQLite, the health check and
  the polling loop.
- `tests/` exercise the library on concrete values.
