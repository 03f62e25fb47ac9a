# LG Buddy core

LG Buddy keeps an LG webOS TV in step with a Linux desktop: it blanks and
restores the screen around idle and sleep, switches inputs, and sets the OLED
brightness. This crate holds its logic, verified with Verus:

- `cli`, `settings`, `config`, `version`: command-line parsing, the settings
  registry and its validation, HDMI inputs, build versions.
- `state`: where the runtime keeps its marker files, and the sleep-cycle
  state file format.
- `tv`, `web_os`, `json`: the TV model, the webOS WebSocket protocol (the
  registration handshake as a state machine, request and reply handling),
  and JSON documents read and written through serde_json.
- `session_bus`, `logind`, `notifications`, `session_notifications`: D-Bus
  messages, logind's sleep signal, desktop notifications and the session
  service that shows update notifications.
- `updates`: the `updates check` command and the choice of release.
- `commands`: the messages of the runtime commands.

`app/` is the program around it: argument handling, file and process I/O,
the WebSocket, D-Bus and HTTP transports.
