# ime_overlay

A library that a game loads to show the candidates of an input method: it replaces the window
procedures of the game's edit controls, reads the candidates from the input method or from the text
services, and draws them in a window of its own, over a picture that the game draws itself.

- `src/` holds what is decided: the layout of candidate lists, what is drawn and where, which message
  goes to which window procedure, and the order in which the system is called. It is verified with
  Verus. A sequence of system calls is a machine whose state names the call that is due. That such a
  machine comes to its end whatever the system answers, and that all it takes is given back or still
  held there, is proved once for all of them in `src/calls.rs`. They end with nothing in hand, but for
  the making of the capture buffer, which keeps its parts where it succeeds. The wait for the game
  window in `src/window.rs` is not one of them: it goes round until the window is there or its time is
  up.
- `app/` holds the calls themselves. It runs on 32-bit Windows only.
- `tests/` runs the library on concrete values.

The laws that relate several functions are the public proof functions named `law_..`.
