# rs_tgbot

A Telegram chat bot that answers through an LLM, with one "soul" (system prompt) per user
and a bounded chat history per user.

- `src/` is the verified library (Verus): the configuration checks, the error texts, text
  utilities (trim, find, replace, decimal numbers), the per-user key and history file names,
  the preference and history books behind the stores, the clean-up of LLM replies, and the
  two handler machines (`bot::chat`, `bot::commands`) that decide, event by event, what the
  text and command handlers do next.
- `app/` is the program around it: reading the configuration and the environment, the
  JSON and SQLite stores, the HTTP call to the LLM and the Telegram dispatcher, which
  perform the actions the machines ask for.
- `tests/` runs the library on concrete values.
