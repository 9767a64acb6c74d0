# record_history

A verified library for a shared audit timeline: standard write payloads for
history rows, the default change-line formatter, the fail-closed parent
authorization gates of a source-scoped history read, newest-first paging with
sanitized client arguments, and the mapping of page rows onto timeline
entries. Contracts are stated over `Seq<char>` views and checked by Verus.

Layout:

- `src/` — the library (`write`, `format`, `authorize`, `model`, `order`,
  `page`, `row_view`, `actor`, `entry`, `timeline`, `text`, `instant`,
  `record_id`, `error`, `constants`), the two request state machines
  (`source_read` for the authorized source-scoped read, `page_request` for a
  timeline page), and `laws`, the cross-function properties proved about it.
- `tests/` — executable tests of the library.
- `app/` — host glue: the loops that perform the state machines' store and
  session steps (against a `HistoryBackend` the host implements), serde copies of the wire types, error
  display, and the E2E load-fault flag.

RFC 3339 text is written and parsed by `chrono`.
