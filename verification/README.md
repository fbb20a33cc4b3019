# proxy_call

The call logic of a SIP proxy, written in Rust and verified with Verus: how a call is
set up, dialled, answered, bridged, recorded, refreshed and ended, and how its trunks,
routes and queues are configured. Every function of the library states in its contract
what it returns and changes, and the laws that hold across functions are proof functions
beside them.

## Layout

- `src/` is the library. `session` and `events` hold a call and its main loop; `dialog`,
  `dialogs`, `legs`, `timer`, `playback`, `wav` and `dtmf` its parts, `record` what is told
  of it in the end; `dial` and `flow` the way to a callee;
  `media`, `track`, `relay`, `video`, `sdp` and `codecs` the media descriptions;
  `command` and `apps` what can be asked of a call; `data`, `trunk`, `route` and
  `conditions` the configuration; `builder` the start of a call; `status`, `uri`, `json`,
  `table`, `idset`, `paths` and `text` what the others are built from.
- `app/` is ordinary Rust around the library: dialogs, channels, files and timers. It
  waits for what happens, asks the library what it means, and does that. The media
  engine, the application runtime and the stores are behind the traits of `app/ports.rs`.
- `tests/` run the library with the real outside crates.

## What is trusted

Calls into outside crates stand behind small wrappers whose contracts are believed:
SDP descriptions and the direction rewriting of `rustrtc`, URIs, headers, reason phrases
and call ids of `rsipstack`, the `dashmap` that holds a call's dialogs, `serde_json`
values, codec names of `audio-codec`, percent decoding of `urlencoding`, random names,
numbers and the time from `uuid`, `rand` and `chrono`, and a few character and string
functions of the standard library. The doc comment of each wrapper says what is claimed
of the outside function.
