# rpbot

A chat bot for role-play servers. A universe spans one or more servers; each
place is a category with a role, roads join places, and players travel along
roads over time. Moderators accept or reject new characters and their stat
sheets.

## Layout

- `src/` — the library, written in Verus. Its functions carry contracts that
  Verus proves, except for a few small wrappers around calls into `std`,
  `json` and `colored`, whose contracts are assumed and say in their doc
  comments what they claim. The timestamp read from the system clock has no
  contract: nothing holds of every reading. The modules:
  - `moves` — the queue of pending travel steps, kept sorted by end time;
  - `world` — places, roads, travel menus and what happens on arrival;
  - `stats` and `table` — stat sheets typed by moderators, and name-indexed
    tables of stats;
  - `lang` — translation lookups with their fallbacks to the default locale;
  - `layout` and `setup` — the channels, roles and permission overwrites
    that a universe lays out on a server, and their order;
  - `access` — permission and role checks;
  - `dispatch` — which handler an interaction goes to, and message texts;
  - `report`, `clock`, `text` — report colors, log lines, timestamps and
    decimal text.
- `app/` — the program: the chat service client, the database, the travel
  loop and the handlers, which hand plain values to the library and act on
  what it returns.
- `tests/` — tests of the library on concrete values.
