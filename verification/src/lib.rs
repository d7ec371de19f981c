//! Verified core of a set of Slint cross-platform demos: camera frame
//! mirroring and the camera state machines, theme loading and colour
//! conversion, tray flashing, window placement, device-information texts
//! and clipboard status messages.
pub mod pixels;
pub mod text;
pub mod camera;
pub mod camera_loop;
pub mod theme;
pub mod window;
pub mod tray;
pub mod device_info;
pub mod clipboard;
