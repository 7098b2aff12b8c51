//! Camera core for a four-dimensional voxel viewer.
//!
//! A viewer looks at a 4D world through a 3D hyperplane whose orientation is
//! an element of the 4D proper rotation group. Player input selects one of
//! four quarter-turn double rotations; a tick-driven state machine animates
//! the turn over a fixed duration and commits the interpolated orientation;
//! a packing layer turns the committed orientation into the byte layout that
//! a slicing shader reads from a uniform buffer.
//!
//! All rotation values are kept in exact form: orientations are described
//! symbolically (a chosen generator and a progress fraction), sweep matrices
//! are assembled over fixed-point integer cosine/sine samples, and the
//! GPU-facing record holds 32-bit float bit patterns as plain `u32` words.
//! The caller that owns the clock and the float evaluation hands in plain
//! integers and takes plain integers back.

pub mod camera;
pub mod input;
pub mod rotation;
pub mod uniform;
