# brlog

The verified core of an amateur-radio logbook, written in Verus.

- `src/` — the library: contacts and logbooks, frequency text and legacy
  parsing, configuration, locale choice, settings search, the database's
  row conversion and migration decisions, and every state change of the
  application session. Each public function carries a contract that Verus
  proves; the calls into `chrono`, `unic-langid`, the system clock and std's
  case mappings sit behind small trusted wrappers documented in place.
- `tests/` — executable tests of the library.
- `app/` — the iced desktop application around it: windows, SQLite,
  configuration files and translations. It performs the I/O and hands the
  results to `brlog::app::Session`, which decides.

The fonts, icon and Fluent translation files that the application embeds
(`assets/`, `i18n/`, `i18n.toml`) are not part of this tree.
