# ytsync-pi

One-shot synchroniser of YouTube playlists to a NAS, with a verified core.

A timer wakes the program; it runs one sync cycle and exits. Audio sources become tagged MP3s, video
sources MKVs in their native codecs. What was downloaded is kept in a small SQLite file, and alerts
are sent about failures only.

## Layout

- `src/` is the library, verified with Verus. It decides; it does no input or output.
  - `sync` and `sync_laws`: a sync cycle as a machine, and what holds of every cycle.
  - `commands`: what the commands decide and print; `run` is a machine of its own.
  - `ytdlp`, `ytdlp_updater`: the command lines of yt-dlp, the meaning of its output, its updates.
  - `musicbrainz`, `id3_tags`: looking recordings up, and writing what was found into an ID3 tag.
  - `ntfy`, `preflight`, `lock`, `db`, `config`: alerts, the checks before a cycle, the lock, the
    statements of the database, the configuration.
  - `text`, `numbers`, `paths`: what the rest is written with.
- `app/` is the program: arguments, files, processes, the network, the database. It performs the
  actions that the library names and hands back what came of them.
- `tests/` runs the library on concrete values.

## What is trusted

A few functions of the standard library and of the crates `shellexpand`, `directories` and `id3` are
called through items whose contracts are taken on trust. Each says above its declaration what it
claims.
