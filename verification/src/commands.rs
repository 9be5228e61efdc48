//! The per-command pieces whose handling is plain logic: slash-command
//! argument shapes, the score-embed builder's data records, the help
//! menu's command tree, and the minesweeper game.

pub mod embed_builder;
pub mod help;
pub mod minesweeper;
pub mod server_leaderboard;
