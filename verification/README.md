# trackerclaw

A privacy-first time tracker whose core is verified with Verus.

- `src/` is the library. Every function in it carries a contract that Verus
  proves: the rules for entries (who sees them, how a running entry is
  stopped, what an edit stores), the timers (Pomodoro, idle monitor), the
  tagging rules, the text of every listing, chart and export, and the
  mapping of Toggl and Clockify entries. Parsing and formatting of dates,
  regular expressions, JSON and base64 are done by `chrono`, `regex`,
  `serde_json` and `base64`, behind small trusted functions whose contracts
  state or name what those crates return.
- `app/` is the `trackerclaw` program around it: argument parsing, the
  SQLite store, the terminal and web interfaces, desktop notifications,
  HTTP calls, and what is computed in floating point (SVG chart geometry,
  invoice amounts, the hour figures and bar lengths that listings, charts
  and budget bars are drawn from).
- `tests/` runs the library on concrete values.
