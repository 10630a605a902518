//! A fixed-size tile board: the board and its entities, the sprite atlas,
//! the mapping between board cells, canvas coordinates and screen pixels,
//! the composition of a frame's draw operations, and the translation of raw
//! window events into board-level input.
//!
//! Coordinates that a renderer would hold as floating-point numbers are kept
//! here as exact fractions (`Ratio`), so that every statement about them is
//! a statement about integers.

pub mod position;
pub mod board;
pub mod sprite;
pub mod atlas;
pub mod canvas;
pub mod render;
pub mod input;
