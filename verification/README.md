# daph

A music player for the terminal, split in two:

- `src/` is the player's logic, verified with Verus: the key bindings of each
  mode (`message`), the state machine that turns a message into a new state and
  an effect for the audio side (`update`, over the state in `model`), the
  case-insensitive search of the library (`fuzzy_search`, `text`), the large
  digits of the volume display (`number_drawer`), the audio thread's decisions
  (`player`), the screen's small decisions (`screen`), the settings' defaults
  (`config`) and the tracks (`track`). `laws` states and proves what holds
  across calls: next and previous undo each other, Tab twice restores the mode,
  the cursor stays in the library, a typed and erased character leaves the
  keyword as it was, the volume mode times out, and exactly the current track
  stays marked as playing.
- `app/` is the program around it: reading the configuration and the tags,
  the rodio audio thread, the crossterm input and the ratatui drawing.
