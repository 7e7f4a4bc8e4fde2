# Aegira

A local recovery engine. It watches a log, matches lines marked `[ERROR]` or
`[CRITICAL]` against rules, restarts the service or container that the best rule
names, checks whether that helped, and mails a developer where it did not.

- `src/` decides, and Verus proves what it decides. `rules` picks a rule,
  `remedy` and `command` say what is run for it, `recovery`, `incident`,
  `escalation` and `watcher` are state machines over requests and their answers,
  `loading` gathers the rules, `text` handles texts, and `outside` holds the calls
  whose results are trusted.
- `app/` does: files, processes, the clock, the environment and HTTP.
- `tests/` runs the library on concrete values.
