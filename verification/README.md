# argus

A terminal dashboard for a repository's CI runs, pull requests, issues,
commits and branches on GitHub (through `gh`) or Bitbucket (through `bkt`).

- `src/` is the library, verified with Verus: the dashboard state machine
  (panels, selection, search, refresh and detail requests), the text that
  every row, header, footer and detail view shows, log cleaning, ordering of
  review threads, remote-URL and argument parsing, the CLI command lines, the
  start-up checks and the release comparison. Its contracts are stated over
  `Seq`, `int` and spec functions; the laws that span several calls stand as
  `law_*` proof functions.
- `app/` is the program around it: arguments, configuration file, running
  `gh`/`bkt`, threads and channels, JSON decoding and drawing with ratatui.
- `tests/` runs the library on concrete values.
