# catapult

A CAT (Computer Aided Transceiver) protocol multiplexer for amateur radio:
several transceivers share one amplifier, and whichever radio is active has
its frequency, mode and PTT state translated into the amplifier's protocol.

## Layout

- `src/` — the library, written in Verus and verified:
  - `text`, `stream`: the digit grammars and frame splitting the wire
    protocols share;
  - `command`, `protocol`: the protocol-neutral request/response model and
    the codec traits;
  - `kenwood`, `icom`, `yaesu`, `yaesu_ascii`, `elecraft`, `flex`: one codec,
    encoder and conversion set per protocol, with encode-then-parse laws for
    the commands whose wire form reads back as itself (for FlexRadio, the
    frequency commands; for Elecraft, those it shares with Kenwood);
  - `models`: the radio model database;
  - `display`: frame annotation for a traffic monitor, each annotation's
    segments and summary given part by part as spec functions of the
    command and its bytes;
  - `mux`: the multiplexer engine (switching, lockout, translation), the
    actor state machine that drives it, and the protocol side of radio
    connections;
  - `sim`: virtual radios and amplifiers;
  - `detect`: port classification and the meaning of probe replies.
- `tests/` — tests of the library on concrete values.
- `app/` — the asynchronous plumbing (tokio tasks, serial ports, channels)
  and the types that carry `serde` and `thiserror` derives.

Public functions state their results in their `ensures`. Those that read
the clock state them for whatever time was read; where that time decides
the result, an `_at` variant takes the time and states its result exactly. Properties that relate
several calls are public proof functions named `law_*`.
