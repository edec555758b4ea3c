# groket-hud

A session command palette for a local control socket: a search field over the
sessions, and for the selected one its overview, turns, timeline, findings and
notes. It shows as an overlay that comes and goes with a hotkey, or as a desktop
window.

- `src/` is the palette's logic, verified with Verus. It takes messages and hands
  back effects; time, window numbers and the answers to requests come in as
  values.
  - `text`, `json`: strings, and the boundary to `serde_json`.
  - `control`: requests, replies, notifications and retries on the control socket.
  - `model`, `domain`: what is shown, and the rules that the palette is given.
  - `event`: messages and effects.
  - `hud`, `catalog`, `overview`, `timeline`, `notes`, `window`, `keys`, `refresh`,
    `update`: the state and what each message does to it.
  - `tray`, `shell`: the tray item, and the shell around a web view.
  - `laws`: what holds of the palette as a whole.
- `tests/` runs the library on concrete values.
- `app/` is the program around it: the socket, the windows, the tray item and the
  hotkey. It is a library too: a program supplies `main`, which calls
  `palette::run`, and an implementation of `Surroundings`, which gives the domain's
  rules, the look, the shortcut, the log and the desktop's own calls.
