# astrix_client

The core of the Astrix desktop client, with its behaviour stated in contracts and
proved by Verus.

Astrix is a chat application with end-to-end encrypted messages, voice channels
and screen sharing. This crate holds what the client decides and computes. It
neither draws, nor talks to the network, nor calls the graphics system: a caller
does that, performs the actions that the library asks for, and hands back what
came of them.

## Layout

- `src/` is the library.
  - State and events: `state`, `net`, `ws_events`, `app`, `rows`, `pictures`.
  - Panels: `guild_panel`, `channel_panel`, `chat_panel`, `member_panel`,
    `bottom_panel`, `avatar`, `console_panel`.
  - Encryption and links: `crypto`, `deep_links`.
  - Capture and conversion: `gpu_device`, `dxgi_duplication`,
    `minimal_dxgi_process`, `d3d11`, `d3d11_nv12`, `d3d11_i420`, `d3d11_rgba`,
    `d3d11_gl_interop`, `gpu_timeline`, `probe`.
  - Encoding: `mft_setup`, `mft_encoder`, `mft_device`, `encoded_h264`, `h264`.
  - Sound: `denoise`.
  - Start without a window: `headless`. Texts: `text`.
- `tests/` runs the library on concrete values.
- `app/` is the program around it: the window, the console, the registry, and on
  Windows the Direct3D, Media Foundation and OpenGL calls.
- `extras/shaders/` holds the compute shaders.

## Conventions

- Real numbers are held by their bits, or handed over as numerals: the library
  does not compute with them.
- Times are integers on a monotonic clock that the caller reads.
- What alternates between decisions and outside calls is a step function: it takes
  the state and what came of the last action, and returns the next action. Each
  has a law that says that it ends.
- Laws that relate several functions are public proof functions beside them.
