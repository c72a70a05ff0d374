//! Selection-and-move-resolution core for a clickable chess board.
//!
//! The library owns the board position, the transient selection state,
//! and the click-resolution state machine; pseudo-legal reachability is
//! delegated to the `chess` crate behind trusted wrappers.

pub mod bitset;
pub mod controller;
pub mod piece;
pub mod projection;
pub mod position;
pub mod rules;
pub mod square;
