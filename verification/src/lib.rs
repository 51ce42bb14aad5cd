//! Screen crosshair overlay: the decisions and data transformations of a
//! tray-resident tool that shows an arbitrary PNG as a crosshair in the
//! middle of the screen.
pub mod text;
pub mod setting;
pub mod hotkey;
pub mod controller;
pub mod menu;
pub mod geometry;
pub mod pixels;
pub mod decoded;
pub mod icon_file;
