# discordbot

A Discord bot whose decisions live in a library verified with Verus.

- `src/` — the library: the command and component registries (`registry`,
  `command`, `component`, `bot`), the slash commands (`commands/`), the routing
  of interactions and the message log line (`events`), plain descriptions of
  commands, buttons, modals and replies (`ui`), and decimal formatting (`text`).
- `app/` — the program: connects to the gateway with serenity, turns the
  library's descriptions into serenity builders, performs the HTTP calls and
  feeds their results back to the library.
- `tests/` — tests of the library on concrete values.
