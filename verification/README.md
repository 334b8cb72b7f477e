# StoryLifeUtils

A desktop companion for the StoryLife FiveM server with three bots: an AFK
automation that picks the character on the selection screen and turns AFK mode
on (relaunching the game after a crash), a mining bot that clicks a target
colour, and a gym bot that repeats the exercise interaction.

## Layout

- `src/` — the verified library (Verus). Status records and settings, the
  input plans (key taps, clicks, focus), the pixel search and capture
  transforms, the OCR word matching, name normalisation, key names, webhook
  decisions, the persistent totals, and the three bots as state machines
  (`afk`, `mining`, `muscu`): each step takes the answer to the last query and
  returns the effects to perform and the next query. The laws of each machine
  are proof functions beside it.
- `app/` — the Tauri shell around it: commands, the loops that run the
  machines, Win32 input and capture, Windows OCR, files on disk and the
  Discord webhook. Floating-point geometry (mouse glides, OCR boxes, margins)
  lives here.
- `tests/` — tests of the library on concrete values.
