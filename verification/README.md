# readwise-reader-tui

A terminal reader for Readwise Reader. The decisions of the reader live in a
library verified with Verus (`src/`); the terminal, the HTTP client and the
command line stay in a thin program around it (`app/`).

- `src/document.rs`: documents, how they are matched, and the text of their columns.
- `src/hostname.rs`: the host shown for a source URL.
- `src/tags.rs`: progress tags, with the laws of writing and reading them back.
- `src/config.rs`: default settings and the precedence of flags over stored settings.
- `src/api.rs`: the authorization value, list queries and update requests.
- `src/ui.rs`: views, tabs, titles, footer text, line counts and article text.
- `src/keys.rs`: the command of each key in the list and in the reader.
- `src/app.rs`: the session state and its transitions after each outcome of the service.
- `tests/`: tests of the library on concrete values.
- `app/`: the program: terminal drawing, event loop, HTTP calls and configuration loading.
