# automod_bot

A chat moderation bot whose rules are proved with Verus.

- `src/` is the verified library:
  - `text` renders numbers, counts and removes pattern occurrences, and trims white space, each against a `Seq<char>` model;
  - `automod` holds the fast-path rule engine (regular expressions for Zalgo text, invite links and profanity, and a mention count) and, in `automod::ai`, the prompt and the reading of the language model's reply;
  - `ratelimit` names the store's counters and decides on their values (a rate-limit counter's expiry is set when it has none, so each limit is a fixed window);
  - `events` turns each gateway event into steps: effects to carry out and questions for the counter store; `events::purge` scans a channel's history for a spammer's messages;
  - `load` holds the load tester's decisions (next message, progress reports, back-off).
- `app/` connects the library to the gateway, the HTTP API, Redis, PostgreSQL and the model server, and runs the event loop. `app` also runs the load tester (`load-tester` argument).
- `tests/` runs the library on concrete inputs.
