pub mod bus;
pub mod chips;
pub mod backends;
pub mod motherboard;
pub mod terminal;
pub mod tui;
pub mod laws;
pub mod placement;
