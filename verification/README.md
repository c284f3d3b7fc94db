# quill

The verified core of Quill, an e-book reader with a reading assistant and
iCloud sync. `src/` is a Verus library: every function there carries a
contract that Verus proves, and the public proof functions named `law_*`
state the properties that hold across calls.

- `text`, `paths`, `codec`, `query` — string, Unix path, integer, base64
  and SQL building blocks.
- `prompts`, `assist`, `stream`, `models` — the assistant's prompts, each
  assistant command up to the network (refusal or request), the streaming
  protocols of the model backends, and the model catalog with its cache.
- `library`, `chats`, `paging`, `records`, `settings`, `schema`, `lww` —
  books, chats, keyset pagination, annotations, settings and secrets,
  schema migrations, and last-writer-wins stamps.
- `ebook`, `container` — metadata and cover extraction from an EPUB read by
  the `epub` crate, and the package path its container names, read with
  the `xml` reader the way that crate reads it.
- `icloud`, `sync`, `platform`, `window` — iCloud paths and placeholders,
  the launch set-up, the sync commands' decisions and the rebuild state
  machine, per-platform directories and log level, and per-window state.
- `mcp`, `json_config`, `codex_config` — the MCP integration and the
  edits of a client's JSON config and of the Codex CLI's TOML config.

`app/` is the `quill` command around the library: the file system, SQLite,
and the config files. `tests/` exercises the library on concrete values.
