# yad_tui

A terminal file manager that keeps a local directory in sync with a cloud disk.

- `src/` is the library, verified with Verus: the models of files and disk usage, the
  merge of local and cloud listings, paths, the three-pane navigation, the login form,
  the mapping of keys to messages and of messages to effects, download staging, worker
  scheduling, and the pure parts of the disk client (URLs, headers, error mapping).
- `app/` is the program around it: terminal drawing, key reading, HTTP requests, the
  metadata database, configuration files, threads and the file system.
- `tests/` exercises the library on concrete values.
