# EmberClick

An auto clicker with a small window: interval from 0.1 ms to one hour, left,
right or middle button, single or double clicks, runs until stopped or for a
fixed number of actions, F6 to start and stop.

- `src/` is the verified library: the mouse buttons (`button`), the state that
  the window and the click worker share and every decision of the worker
  (`engine`), the worker's step from state and report to state and command,
  with the laws over every reachable state (`worker`), the hotkey decisions (`hotkey`), the texts the window shows
  (`text`) and the grouping of the session counter (`number`). Each public
  function has a contract, and the properties that span several calls stand
  there as proof functions.
- `app/` is the program around it: the window (eframe), the simulated clicks
  (enigo), the global hotkey (global-hotkey), the worker thread and its
  sleeping.
- `tests/` runs the library on concrete values.
