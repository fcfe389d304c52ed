# rustwii

A Wii-style console that runs in the browser: a screen shows the channel
menu and a target shooting game, and up to four phones act as Wii Remotes,
streaming their motion sensors through a small relay server.

## Layout

- `src/` — the verified library (Verus):
  - `types` — the messages exchanged by phones, server and screens;
  - `room` — the room registry that hands out player numbers 1 to 4, with
    its laws (a room never holds more than four players, the lowest free
    number is handed out, a freed number is reused);
  - `session` — the relay server's decisions for each connection;
  - `screen`, `remote` — the decisions of the screen and phone front ends;
  - `game` — scoring of the target shooting game;
  - `calibration`, `cursor`, `audio`, `haptics` — pointer calibration phases,
    player colours, menu tones and vibration pulses;
  - `urls`, `text` — WebSocket and pairing addresses;
  - `qr`, `tls` — the pairing QR code and the server's self-signed
    certificate, through the `qrcode` and `rcgen` crates.
- `app/` — the program around it: the axum server, the Dioxus front ends,
  the browser APIs, and the floating-point motion maths.
- `tests/` — tests of the library.

## Design notes

The room registry keeps its rooms in a `Vec` whose room identifiers are
unique, rather than in a `HashMap<String, Room>`. Verus's specification of
`HashMap` only describes lookups for key types known to obey its hashing
model, which covers integers and booleans; for `String` keys that fact can
only be assumed, and this library assumes nothing. The vector, searched by
identifier, is verified against the same map view.
