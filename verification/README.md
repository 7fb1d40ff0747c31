# afrasyab

The verified core of Afrasyab, a private Telegram bot that downloads links and files
and uploads them to the user's Google Drive.

- `src/` is the library, proved with Verus: configuration checks, link classification,
  file-name rules, yt-dlp arguments and error classification, the job lifecycle, the
  scratch-disk gate, resumable-upload decisions, command grammars, replies, token
  encryption, and the step-by-step flows of incoming messages, jobs, folder changes,
  the OAuth callback, format buttons and playlist confirmations. Each flow decides the next step from
  what the last one reported; the caller does the outside work.
- `app/` is the program around it: environment, SQLite, Telegram, Drive and HTTP, and
  the loops that perform each flow's actions.
- `tests/` runs the library on concrete values, some of them against the `regex` crate.
