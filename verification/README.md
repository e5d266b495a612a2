# esp_wroom_32_slave

The logic of a network coprocessor: an ESP32 that gives a master on a serial line Wi-Fi (station
and access point), Ethernet, a TCP server, a UDP discovery listener and an NTP client. The library
in `src/` is verified with [Verus](https://github.com/verus-lang/verus); the firmware around it is
in `app/`.

## Layout

- `src/master/` – the framing protocol, its receiver, the messages, and the routing of messages
  to tasks.
- `src/network/` – addresses, what is reported to the master, and the tasks of the radio and of
  the Ethernet port.
- `src/services/` – the tasks of the TCP server, the UDP listener and the NTP client.
- `src/system/` – the task watchdog, and when a task is under it.
- `src/msgpack.rs`, `src/text.rs`, `src/bytes.rs` – the encodings that the messages use.
- `tests/` – the library on concrete values.
- `app/` – `main`, the drivers, the sockets, the queues, and the parsing of records.

## Tasks

Each task is a state machine. `action` names the call that the task makes next, `step` takes the
outcome of that call and says what is done on the side. The firmware makes the calls and hands the
outcomes back, so everything a task decides is in the library. For each task a spec function
`after` says what `step` does; the files whose names end in `_laws` state what holds of it over
all outcomes.

## What is believed

Encoding to MessagePack and JSON is done by `rmp_serde` and `serde_json`, network masks by
`embedded_svc`, and trimming and UTF-8 by the standard library. Each such call stands in a small
function whose contract is believed; its comment says what is claimed of the call.
