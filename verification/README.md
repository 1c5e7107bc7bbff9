# aegl_bot

The logic of a Telegram "looking for group" bot for Destiny players,
verified with Verus: recognising commands, reading their arguments, deciding
each command's next step between database lookups, and the replies it sends.

- `src/` is the verified library. Each command's handler is split into pure
  decision functions (`join_step`, `cancel_step`, `edit_step`, `lfg_step`,
  `psn_step`, `activities_step`, `editguar_step`, `manage_step`) that take what has been looked up so far and name the
  next lookup, change or reply; the caller performs the database work and
  hands the results back.
- `src/` also states the laws the bot keeps as proof functions: a listed
  join or leave link is recognised as exactly that request, a message goes
  to at most one command, the help listing is sorted, a repeated `key=value`
  keeps its last value, the Destiny rotations advance one step a week, only
  an admin changes the stored activities.
- `app/` holds the edges that Verus does not see: the loops that run the
  step functions against a database and hand a message to its commands
  (`app/drivers.rs`, over a `Store` trait), the reminder job's tick, reading `/proc`, the clock, start times outside what the
  library's date reader takes, and the serialisable forms of the listing
  templates.
- `tests/` runs the library on concrete inputs.
