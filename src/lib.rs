//! Input handling, frame sequencing and volume layout for a renderer that
//! raymarches a procedural density volume inside a box, seen through a fly camera.

pub mod controller;
pub mod frame;
pub mod volume;
