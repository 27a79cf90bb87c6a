# iced_ruffle

The verified core of an [iced](https://iced.rs) widget that plays Flash
(`.swf`) movies through [Ruffle](https://ruffle.rs).

- `src/` is the library, checked by Verus:
  - `keys` — toolkit key + location to the player's key descriptor;
  - `events` — which player input a mouse or keyboard event becomes, and the
    redraw policy after advancing;
  - `playback` — the pause/advance/frame state shared by player and widget;
  - `frame` — captured frames, their content hash, and when the persistent
    texture is recreated or written;
  - `stage` — the stage size in whole pixels from the movie header;
  - `audio` — mixer output per device sample format, and the bias that turns
    signed 16-bit samples into offset unsigned ones;
  - `Error` — load errors and their messages.
- `app/` is the widget itself: the Ruffle player, the wgpu pipeline, the cpal
  stream and the iced trait impls, converting toolkit values into the
  library's plain types and carrying out its decisions. Cursor mapping through
  the letterbox, the letterbox scale and the demo's frame pacing are
  floating-point and stay there.
- `tests/` exercise the library on concrete values.
