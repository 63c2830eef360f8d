# music-forge

A command-line tool that manages music projects as git repositories:
project creation, seeds (date-prefixed sketches) and their promotion,
lifecycle status tags, snapshots, a per-project timeline and a dashboard
across projects.

- `src/` is the verified library (Verus): file templates, naming rules,
  status validation, the annotated commit history, the dashboard summary,
  its ordering and its table, timeline lines, lookups by partial name, and
  the decisions of `snapshot`, `ingest`, `open`, `adopt` and `watch`.
  `src/commands/` holds one module per subcommand.
- `app/` is the program around it: argument parsing, the configuration
  file, git and git-lfs operations on disk, processes, the file watcher
  and coloured terminal output.
- `tests/` exercises the library on concrete values.
