# uto

The verified core of UTO, a web and mobile test automation engine: command
line parsing and planning, test discovery, suite reporting and HTML
rendering, latency statistics, Appium capabilities and endpoints, mobile
selector strategies, Android/Appium setup decisions, host platform
knowledge, ChromeDriver provisioning and the intent demo scenarios.  The
functions in `src/` are verified with Verus against their contracts; the
few that only read the clock (`now_unix_ms`, `elapsed_ms`,
`ScopedLatency::new`) promise nothing of the time they read.

- `src/` — the library, verified with Verus (`text.rs` holds the string
  primitives and their specifications the other modules build on).
- `tests/` — tests of the library on concrete values.
- `app/` — the `uto` program (and the intent demo suite it runs when
  installed as `phase3_intent_poc`) and the engine's I/O layer (files,
  processes, HTTP, WebDriver sessions, floating-point vision scoring) built on
  the library.
