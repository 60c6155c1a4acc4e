# webrtc_sendrecv

A WebRTC client that registers with a signalling server, calls a peer or waits for one, sends test
video and audio, and plays what the peer sends.

`src/` is the verified control logic. It decides and performs nothing: each decision is a value.

- `server`: the start of the client and what it does about everything that comes in
- `app`: the handling of messages; `app::branches` the parts of the pipeline, `app::graph` what they
  build, `app::flow` the handling of one message step by step, `app::reactions` what the client does
  when the pipeline calls, `app::connections` what it is connected to and what comes of it,
  `app::plugins` what must be installed, `app::laws` what holds of the handling of messages
- `runs`, `shutdown`: what holds of the client from its start to its end
- `media`: the calls into the media framework as data (`step`), runs of them (`plan`), and the
  element that speaks WebRTC (`webrtcbin`)
- `wire`: the JSON messages between peers
- `message`, `error`, `text`: shared vocabulary

`app/` is the program: it reads the command line, talks to the WebSocket, makes the calls into
GStreamer that the library decides on, and hands the results back.
