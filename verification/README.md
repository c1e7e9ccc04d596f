# deskstream

The decision logic of a remote-desktop system (host agent, relay server,
native viewer, settings window, installer), written in Verus: each function
states what it returns in `requires` / `ensures`, and Verus proves it.

- `src/` is the verified library.
  - Wire formats: `protocol`, `wire`, `h264`, `icon`.
  - Relay routing: `relay`, `relay_session` (the host link, browser
    admission and bridge as state machines), `registry`, `service`,
    `ws_outbox`.
  - The agent: `agent`, `agent_loop`, `identity`, `status`, `backend`,
    `json_doc`, `discovery`, `encoder`, `nv12`, `keys`, `tray`, `local`.
  - The viewer: `viewer`, `hud`.
  - The agent's own window: `ui`, `ui_fields`, `font`, `canvas`, `frame`.
  - The Screen Share window: `gui`, `gui_readback`, `window`, `json_text`;
    the installer: `setup`.
  - Text handling shared by all of them is in `text`.
- Laws that relate several functions are public proof functions named
  `lemma_*`, next to the functions they speak of.
- `tests/` runs the library on concrete values.
- `app/` is the relay server program: sockets, threads and the WebSocket
  handshake around the library's state machines, whose steps decide what
  happens on each host link, browser admission and bridge. With `--agent` it
  runs a host agent on a relay instead, driving `agent_loop::agent_step` and
  keeping the agent's configuration file.
