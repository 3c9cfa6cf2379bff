# moviemeta

A movie metadata scraper and organizer for local media libraries (Emby,
Jellyfin, Kodi). The library decides; the program around it reads and writes.

## Layout

- `src/` — the library, verified with Verus. Every public function states
  what it returns in its `ensures` (a unit-struct constructor has nothing to
  state), over spec functions on `Seq<char>` and
  the views of the library's types.
  - `number_parser` — movie numbers from file names, display and content forms.
  - `processor`, `workflow`, `file_ops`, `nfo` — destination paths, naming
    templates, the steps of each processing mode, file placement decisions,
    NFO documents.
  - `scanner`, `batch` — which files of a walk are processed, per-file
    outcomes and their tally.
  - `pages`, `dom`, `json`, `scrapers`, `scraper`, `registry`, `metadata` —
    the metadata sources: the pages they read, the numbers they expect, the
    order in which they are tried.
  - `http`, `cloudscraper`, `image`, `face_detect`, `storage`, `types`,
    `api_models`, `logging`, `cli` — retry rules, cookies, settings, job
    states and the command line's choices.
  - `text`, `rx`, `paths` — strings, regular expressions and path parts.
- `app/` — the command line program: walking folders, HTTP requests, file
  operations, image work, logging setup.
- `tests/` — tests of the library on concrete values.

Calls into `regex`, `scraper`, `url`, `serde_json`, `chrono` and `uuid` go through a few trusted
functions whose contracts say what those crates document; each carries a doc
comment naming the call.
