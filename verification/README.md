# mixr

The state, the rules and the screens of a terminal DJ mixer, as a verified
library.

- `src/` is the library. It holds no file and no socket: what a handler wants
  done is returned as a list of effects, and what it needs to know is handed in.
  The clock is read in one place only, `clock.rs`, for the names of playlists
  and the times of ratings. The screens are lines of styled text together with
  the places that can be clicked on them.
- `tests/` runs the library on concrete values.
- `app/` is the program around it: it draws the lines with ratatui, reads keys
  with crossterm, and carries out the effects.

Quantities that are fractions are kept as integers: tempos in thousandths of a
beat per minute, levels and rates in millionths, gains in hundredths of a
decibel, phase in microseconds, times in milliseconds.
