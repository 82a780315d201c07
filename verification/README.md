# China Travel Companion

A local travel planner for trips to China: trips with their dates, a packing
checklist, travel documents with attached files, and a calendar of events.
Everything is stored on the device in SQLite; on Android the app reaches the
system (file picker, viewers, browser) through a small base64/JSON bridge.

## Layout

- `src/` — the verified library (Verus).
  - `text.rs` — trimming, decimal rendering and parsing, as specs and code.
  - `domain/` — validated trips, checklist items, documents, calendar dates
    (Gregorian day arithmetic in `day_count.rs`) and events.
  - `db/` — what storage decides without SQL: the migration plan, the
    attachment columns, the backup format.
  - `platform/` — the bridge messages and their framing, the Android
    platform's request/answer decisions, and a scripted platform for tests.
  - `components/`, `views/`, `routes.rs` — the decisions of the screens:
    button classes, toasts and their queue, link detection, checklist
    reordering and swipe-to-delete, calendar navigation, document and event
    sheets, settings notices, and the route paths.
- `tests/` — tests of the library, run against the real outside crates.
- `app/` — the program around the library: SQLite statements
  (`tokio-rusqlite`), JSON (`serde`), the asynchronous platform port and its
  Android bridge transport, and the pointer arithmetic of dragging.

Contracts are stated over plain models (`Seq<char>` for text, integers,
`Map`, `Seq`); laws that relate several calls are public proof functions
named `lemma_*` beside the functions they speak of.
