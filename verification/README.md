# Winter WonderLights, verified

The logic behind displaying effects on a Christmas tree of individually addressable RGB LEDs,
and behind scanning the positions of those LEDs with a camera, written in Verus and proved
against its contracts.

- `src/` is the verified library:
  - `scanner_shared`, `client_impl`: the messages of the scanner and the client type handshake;
  - `scan_manager`, `photo_map`, `server_state`: the scanner's server, as state machines that
    return the actions to carry out;
  - `scanner_client`, `camera`: the decisions of the camera and controller clients, image
    rotation and the search for the brightest pixel;
  - `remote_client`: how the remote client of the tree's server follows the server's messages;
  - `gift_geometry`: the integer geometry of the photos behind a GIFT file;
  - `frame`, `effects`, `ws2811`: frames, drivers and the debug effects;
  - `editor`: the command language of the GIFT coordinate editor.
- `tests/` runs the library on concrete values.
- `app/` holds the programs around the library: the scanner's server (networking and
  sleeping), the coordinate editor (terminal and files), and the effect runner, together with
  the floating point work on GIFT coordinates.
