# esp-xbox-controller

Xbox Wireless Controller support over Bluetooth Low Energy, with its logic
verified by Verus.

- `src/` is the verified library:
  - `report`, `state`, `error`: the 16-byte BLE input report parser and the
    controller state it produces.
  - `idle`, `session`, `connection`, `advertisement`: the decisions of the
    ESP32-C3 connection runner: which advertisement to connect to (a
    `Discovery` only ever yields an address announced, since the scan began,
    by an advertisement that identifies an Xbox controller and that the
    selector admits), how to answer pairing and connection events, how to
    recover from a failed attempt, idle disconnection (optionally suspended
    while an activity predicate says input is held) and keepalive scheduling,
    and the `ControllerEvent`s handed to the user.
  - `linux_input`, `devices`, `device_list`, `gamepads`, `gatt`, `panel`,
    `text`, `backend`: the decisions of the desktop inspector: folding Linux
    input events into a controller state, naming, classifying and ordering
    BLE devices, which devices may be paired automatically (those whose
    advertised name contains "Xbox"), picking the controller's input device
    and GATT characteristics, routing notifications, choosing how to vibrate
    and how the device list reacts to the user's actions.
- `app/` holds the I/O around it: the inspector GUI and BlueZ backend
  (`main.rs`) and, for the RISC-V firmware target, the ESP32-C3 BLE runner
  (`esp32.rs`, with `run` and `run_with_events`).
- `tests/` exercises the library on concrete values.
