# reimu_bot

A Discord bot that links channels of many servers into one global chat, backs
up deleted and edited messages, cross-posts messages to Twitter and Mastodon,
and answers a handful of commands.

- `src/` is the verified library (Verus): the global chat registry, the rules
  that route Discord events and commands, the texts the bot sends, the OAuth2
  token bookkeeping with chrono's time arithmetic, tweet and toot composition,
  and the member manager's database rows. Laws that span functions are the
  `law_*` proof functions.
- `app/` is the program around it: Discord (poise/serenity), PostgreSQL and
  MySQL (sqlx), the login web server (axum), OAuth2 requests and Mastodon
  uploads.
- `tests/` runs the library on concrete values.
