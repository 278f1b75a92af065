//! State and rendering core of a terminal text-editor session.
//!
//! The library owns the editor's data model (buffers, windows, session
//! context), the render dispatch that turns model state into lines of text,
//! and the input-pipeline decisions (key policy, event queue, loop control).
//! Terminal I/O — raw mode, key decoding, painting regions — lives outside
//! the library, behind the thin binary that drives it.

pub mod input;
pub mod model;
pub mod render;
pub mod text;
