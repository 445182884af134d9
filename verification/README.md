# mkdown

The core of MkDown, a local Markdown editor and reader for Windows
document libraries (Markdown, plain text in legacy encodings, Office
documents), as a library whose behaviour is stated in contracts and proved.

## Layout

- `src/` — the library, every function with a contract:
  - `state` — the table of authorised path roots, the live search round,
    files waiting to be opened;
  - `paths`, `text`, `num`, `sort` — path components, text helpers, number
    parsing and formatting, the stable ordering used throughout;
  - `fs_service` — encoding detection on read, the bytes written on save,
    and whether a file opens as text or in a preview;
  - `office` — plain text out of OOXML packages and legacy OLE documents;
  - `search`, `search_cache` — scanning files for a query, and the on-disk
    cache of Office text with its eviction;
  - `workspace` — the workspace tree and the rules for creating, renaming
    and deleting entries;
  - `image`, `models`, `commands`, `error` — pasted images, the values handed
    to the user interface, command guards, errors.
- `tests/` — tests of the library on concrete values.
- `app/` — the desktop shell: the user-interface commands, file-system and
  process work, the parallel directory walk, serialisation.
