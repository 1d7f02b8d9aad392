# hear_one_device

HearOneDevice lets other devices on the same network listen, in a browser,
to the system audio of a Windows or Linux PC.

- `src/` is the library, verified with Verus: how a capture is planned and
  how each captured chunk is encoded and forwarded (`capture*.rs`), the room
  that serves the receiver page (`channel.rs`), the WebRTC signaling and
  session bookkeeping (`rtc.rs`), the chunk buffers (`payload.rs`) and the
  text helpers they share (`text.rs`).
- `app/` is the Tauri host application around it: PulseAudio and cpal
  capture, the axum web server, WebRTC and the front-end commands.
- `tests/` runs the library on concrete values.
