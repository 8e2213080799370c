# byeefree_quad

Flight-controller firmware for an RP2040 X-frame quadcopter, built on the
embassy async framework, with its core logic verified by Verus.

## Layout

- `src/` — the verified library:
  - `atk_defines`, `frame_state_machine`, `atk_protocol`: the ATK-MS901M
    IMU serial protocol — the frame parser (modelled as a transition
    function, with its invariant, the framing law and resynchronisation),
    register requests with their checksums, answer decoding and the
    read-back checks of register writes.
  - `commands`, `ubuffer`, `text`, `usb`: the shell commands and the exact
    bytes of their replies, the bounded text buffer, the USB echo.
  - `flight`, `motors`, `variables`: the rules by which the flight tasks
    accept a requested mode, motor requests, the shared-state holders.
  - `blink`, `dshot`: LED patterns, the breathing sweep and its integer
    gamma table; the DShot PIO clock divider.
- `tests/` — tests of the library on concrete values.
- `app/` — the firmware around the library: tasks, USB and UART I/O,
  the command-line parser, and the floating-point control (LQR attitude
  controller, height PID, barometric fusion filter).
