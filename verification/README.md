# clashrpc

A Discord Rich Presence client for Clash Royale: it reads a player's profile
and last battle from the Clash Royale API and shows them on the player's
Discord profile.

- `src/` is the library, written in Verus and proved: text handling, settings,
  arenas, the API addresses, the battle line, the activity content, the first-run dialogue, the
  presence loop's decisions and the automatic update's decisions.
- `app/` is the program around it: console, prompts, HTTP, files, Discord IPC
  and the main loop.
- `tests/` runs the library on concrete values.
