# pubg_point_rankings

Point rankings for PUBG teammates: matches are fetched from the PUBG API, each player of the
own team earns points under the active rule, teammates settle up against each other, and a
chat bot can post every match to a group.

- `src/` is the library, verified with Verus: the point calculator, the telemetry parser,
  the game-process state machine and scheduler, the synchronisation decisions, what storing
  a match writes, the history and settlement views, the notification messages and the bot
  runtime's status. Damage is kept in thousandths of a hit point.
- `tests/` exercises the library on concrete values.
- `app/` is the desktop side: SQLite, HTTP to the PUBG API and the bot, log files, the
  background thread, and the commands the window calls.
