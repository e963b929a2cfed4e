//! What the widgets of the tool do to the game, apart from drawing
//! themselves.

pub mod runes;
