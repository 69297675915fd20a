# comparison_app

A verified core for a desktop application that watches iSolarCloud solar
plants: it reads plants, inverters and string currents and voltages from the
iSolarCloud OpenAPI, keeps their history in a local SQLite database and flags
strings that are dead (red) or drifting from their own history and their
siblings (yellow).

- `src/` is the library, written in Verus: the scheduling policy (24, 12 and
  8 hours), the analysis decision ladder and its thirty-day baseline, the
  dashboard roll-ups, the decoding of OpenAPI replies, the OAuth callback
  handling, request batching and grouping, and the small text and time
  helpers they rest on. Every function carries a contract, and the
  properties the application promises are stated as proof functions.
- `app/` holds what Verus does not see: SQLite, the key ring, HTTP calls, the
  callback server, the floating-point statistics and sun-position model, and
  the commands the user interface calls.
- `tests/` exercises the library on concrete values.
