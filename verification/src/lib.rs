//! Orchestration core of an idle-time arcade overlay: a timer, the contracts
//! that mini-games and loss effects satisfy, and the two handlers that pick
//! one of them at random and drive it frame by frame.

pub mod config;
pub mod effects;
pub mod game;
pub mod game_handler;
pub mod games;
pub mod loss_handler;
pub mod motion;
pub mod overlay;
pub mod pong;
pub mod random;
pub mod render;
pub mod util;
