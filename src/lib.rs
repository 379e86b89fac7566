//! Session logic of a terminal number-guessing game: a UTF-8 aware line
//! editor, the guess-narrowing engine, the menu/game/leaderboard state
//! machine and the leaderboard ranking.

pub mod app;
pub mod decimal;
pub mod editor;
pub mod guess;
pub mod history;
pub mod models;
pub mod outside;
pub mod scores;
mod string_ops;
pub mod utf8;
