# clipoo

A clipboard history library, verified with Verus, and the desktop shell around it.

`src/` is the verified library:

- `text` — character-level primitives over the `Seq<char>` view of strings:
  trimming, ASCII case mapping, substring search, `lines`, `split_whitespace`,
  UTF-8 length, joining.
- `persian` — normalization of Persian text (Arabic letter forms folded,
  diacritics, zero-width characters and blanks dropped), with its laws.
- `fts` — building full-text prefix queries from free-form search text.
- `classify` — telling links, code and plain text apart.
- `capture` — turning a clipboard capture into an entry to store.
- `image_file` — re-encoding a captured image as the PNG file stored for it.
- `suppress`, `monitor`, `write` — the monitor's and the writer's decisions,
  including the order of the checks in each poll.
- `security` — recognizing password managers by process name.
- `models` — the stored records.
- `db` — the SQLite store: schema and migrations, the entry and settings
  repositories, transactions. The calls into SQLite, the UUID generator and
  the clock sit in `db/sql.rs`.

`app/` is the Tauri application: commands, the monitor thread, the Windows
clipboard, writing and removing image files, and the window.

`tests/` exercises the library, including the store on an in-memory database.
