# dx_console

The command console of a small DxLib sample program, as a verified library.

- `src/console.rs`: the console as a state machine. `Console::step` takes what the
  outside world reports (a new frame, an entered text, a chosen file, a loaded
  handle, an answer, a measured size) and names the next thing to do (ask for a
  text, load, release, draw, end). Its contract is the transition function `next`.
- `src/size.rs`: how a graphic's size relates to the window, and how it is drawn.
- `src/handles.rs`: the listing of loaded graphic slots.
- `src/text.rs`: trimming and `usize` parsing over characters, as std does them.
- `src/menu.rs`: the help menu entry.
- `src/laws.rs`: properties of the whole console, proved over `next`.
- `app/main.rs`: the window, input, dialogs, message boxes and loading, driving
  `Console::step`.
