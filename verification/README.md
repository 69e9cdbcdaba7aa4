# Teleport

A native remote desktop: a Linux host shares its graphical session, a macOS or Linux
client shows it and sends input, over Media over QUIC.

The rules live in a library that Verus verifies; the program around it talks to the
network, the desktop, the media pipelines and the windows.

## Layout

- `src/`: the library. Each module states what it does as contracts over mathematical
  models, and proves them.
  - `protocol`, `wire`, `text`, `control_order`: the messages, their limits, the key map,
    and the order in which control groups are taken.
  - `identity`, `pairing`, `access`, `security_key`, `system_login`, `system_pam`: who may
    connect, and how long that lasts.
  - `host`, `host_admin`, `host_ui`, `capture`, `audio`, `clipboard`, `ssh_agent`: the host.
  - `client`, `launcher`, `profiles`, `fullscreen`, `keyboard_capture`, `multi_display`,
    `windowing`, `geometry`: the client and its windows.
  - `media`, `decoder`, `hdr`, `hdr_present`, `stats`: pictures, from the encoder to the
    display.
  - `crypto`, `clock`: the primitives that other crates and the machine provide, with what
    the library relies on.
- `app/`: the program. It does the input and output, and asks the library what to do.
- `tests/`: what the library does on concrete values.

Times are nanoseconds since an origin that the caller keeps, and floating-point numbers
that travel in messages are kept as bit patterns: the library compares them and passes
them on, and the program computes with them.
