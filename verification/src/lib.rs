//! Live structure synchronisation for an atomic-structure viewer.
//!
//! The crate holds the rules that keep a displayed structure in step with a
//! stream of snapshots: the channel that carries them into the frame loop, the
//! merge that replaces the structure as a whole, and the rebuild of the scene,
//! one visual per atom. Beside them stand the camera rig, the switches of the
//! panel and the reader of XYZ text.
//!
//! All of it works on plain values. Coordinates and lengths pass through as
//! bit patterns; rendering, sockets, windowing and arithmetic on positions
//! live with the caller.

pub mod camera;
pub mod client;
pub mod constants;
pub mod number;
pub mod parse;
pub mod scene;
pub mod structure;
pub mod text;
pub mod ui;
