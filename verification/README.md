# warp_local

The local-first surface of the Warp terminal as a Verus-verified library: the
shared-session status model (every terminal is local and unshared), the local user
and anonymous ids kept in user preferences, the object client that has no cloud
connection, and the crash-reporting entry points that never start a reporter.

- `src/` is the verified library. Each function states in its `ensures` what it
  returns; laws that relate several functions are public proof functions.
- `app/` reads and writes user preferences and the environment, and converts the
  library's plain types to the UI's color, time and serialization types.
- `tests/` exercises the library on concrete values.
