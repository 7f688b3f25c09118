# qcyx

A verified protocol core for QCY wireless earbuds, and a command-line
program around it.

`src/` is the library, checked by Verus:

- `protocol`, `command`, `response`, `query`: the `0xFF`-framed command
  codec and the ANC scenes, with `parse` proved to undo `pack`.
- one module per setting (`balance`, `battery`, `game_mode`, `ldac`,
  `multipoint`, `sleep_mode`, `notification_volume`, `wear_detection`,
  `scheduled_power_off`, `disconnect_power_off`, `touch_action`, `version`,
  `device_actions`): each setting's wire encoding and decoding, with their
  round trips.
- `profile`: profile snapshots, name sanitizing and import validation.
- `client` and `session`: the decisions of the BLE client (write kind,
  ANC confirmation, query replies, what a fresh connection reports).
- `cli`: which device request each command stands for.
- `gui`: the graphical front end's state machine (`gui::update`, specified
  by `gui::transition`, with its laws in `gui::laws`) and its widget
  decisions.
- `text`: the string handling the rest relies on.

`app/` is the `qcyx` program: argument parsing, the Bluetooth transport and
printing. `tests/` runs the library on concrete values.
