# wishget

Finds the gacha wish-history link that a game's web cache holds, turns it
into the link of the record service that serves the same history, and walks
that service page by page, keeping the records in a local cache.

- `src/` is the library, verified with Verus:
  - `text` — character-sequence operations (search, first replacement,
    decimal notation) with their specifications;
  - `game` — the supported games and their banner codes;
  - `links` — reading a history link and making its record-service link;
  - `scan` — finding the history link among the texts of the cache bytes;
  - `json` — the JSON values that the service and the cache hold, their
    comparison, and their reading and writing with the `json` crate;
  - `paging` — page links and the page-by-page walks;
  - `session` — the `data` command as a sequence of steps that ask the
    caller for pages and cache files and take their text back;
  - `history` — the `history` command's report.
- `app/` is the program around it: argument handling, files, network and
  terminal output.
- `tests/` runs the library on concrete inputs.
