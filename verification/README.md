# lofigirl-cli

A terminal radio for lo-fi live streams, played through `mpv`.

`src/` is the library, verified with Verus: the station catalogue, the
settings and where they are kept, the application state and every change
that a key, a player report or the clock makes to it, the text the screens
show, and the commands sent to `mpv`. `src/laws.rs` states and proves what
holds across those operations (the state's invariant, the settings round
trip, toggles that undo themselves, the timer).

`app/` is the program around it: the terminal, the drawing with ratatui,
the `mpv` process and its socket, and the settings file.
