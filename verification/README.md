# tetris

The rules of a falling-block puzzle game, verified with Verus, and the Bevy
application that draws it.

- `src/` — the verified library:
  - `game`: difficulty setup (options, fall interval, score reset) and the
    bookkeeping when a brick lands (game over, cleared lines, level, score).
  - `moving`: gravity, hard drop, rotation, sideways moves and soft drop of the
    moving brick; board queries are passed in as closures.
  - `pause`: when the game is paused (focus loss, `Esc`).
  - `menu`, `gameover`, `menu_help`: what the buttons of each screen do.
  - `brick_kind`, `position`, `input`, `app_state`, `text`: cell kinds and
    colours, entry position, board coordinates, keys, screens, and the decimal
    text of the counters.
- `tests/` — tests of the library on concrete values.
- `app/` — the Bevy plugins: spawning sprites and text, timers, reading keys and
  window focus, and handing the library plain values.
