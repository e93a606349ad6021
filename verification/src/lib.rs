//! Core of a terminal text viewer/editor: an in-memory line buffer with
//! tab-aware rendering, cursor navigation, viewport scrolling, and a
//! renderer that computes each frame as a sequence of abstract draw
//! operations for a terminal front end to execute.

pub mod row;
pub mod text;
pub mod screen;
pub mod editor;
