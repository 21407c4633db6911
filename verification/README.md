# Clef

A local music player: it crawls the music directory into a database, lists albums, and plays
them with media controls and a progress bar.

- `src/` is the library, verified with Verus. Each module states what it does in its
  contracts: `queue` (the play queue and its moves), `player` (the audio player as a sequence
  of steps, each waiting on file, decoder or device work), `preloader`, `media_controls`,
  `track` (timing), `tags`, `crawler`, `music_cache`, `order` and `sorting` (how albums,
  directories and songs are ordered), `resizer` and `rgba` (album art and its pixels), `ui` (what each message does to the window's
  state), and small modules for ids, paths, text, records and hover states.
- `tests/` runs the library on concrete values.
- `app/` is the program: threads, files, the sqlite database, audio output, media controls and
  the iced window. It carries out the work that the library's steps ask for.
