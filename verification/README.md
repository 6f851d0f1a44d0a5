# wayclip_core

The foundation library of the Wayclip tools: the models of clips, users and settings, and the
rules that the command line and the daemon share. It is written in Verus: every function in
`src/` carries a contract, and Verus proves the code against it, except the few small
functions that call outside crates (the regex, URL, cookie and version parsers, and
lowercasing), whose contracts are trusted as those crates document them.

## Layout

- `src/models/` — clips (local, hosted, the two brought together, tags, games), keyboard and
  controller shortcuts, users, queries, validated values.
- `src/settings/` — each group of settings with its defaults and text forms, the schema of the
  settings file, reading a setting from text, and migrating a settings file between versions.
- `src/app/` — the actions offered on clips, how local and hosted clips are linked, finding
  clips, pruning old ones, trimming, the keyring entry of the session.
- `src/client.rs` — the session's cookies and how responses are read.
- `src/text.rs`, `src/num.rs` — verified helpers on characters, strings and numbers.
- `app/` — what reaches outside the process (files, keyring, HTTP, FFmpeg, the desktop),
  built on the library.
- `tests/` — tests of the library on concrete values.

The laws of the library (text forms that read back as the same value, migrations that set
the target version, inserts that can be repeated, and others) are public proof functions
whose names begin with `law_`.
