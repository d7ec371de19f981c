# slint_demo

The logic behind a set of Slint cross-platform demos, verified with Verus:

- `pixels`: mirroring RGB camera frames left to right (and that mirroring twice gives the frame back);
- `camera`, `camera_loop`: the camera states, the preview's reaction to them, and the desktop
  capture loop as a state machine whose runs report a prefix of Opening, Opened, Closed, or
  Opening then Error;
- `theme`: Material themes from JSON, colour parsing, the theme map and its ordering;
- `window`: the off-screen check, window centring and the monitor list;
- `tray`: hide-to-tray and the flashing tray icon;
- `device_info`: the device, battery and network texts on desktop and Android;
- `clipboard`: the clipboard service and its status lines;
- `text`: the string helpers these need (trimming, splitting on whitespace, decimals).

`src/` is the verified library, `tests/` its tests, and `app/` a command-line front end that
does the I/O (files, `ip`, the clipboard, the camera thread) and calls the library.
