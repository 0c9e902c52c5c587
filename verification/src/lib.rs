//! Game rules for a two-paddle Pong: play-field geometry, paddle and ball
//! movement, collision and scoring, keyboard handling, score labels with a
//! memoised rasterisation, and the placement of everything on screen.
//!
//! The crate holds no windowing, audio or font code. Whoever embeds it feeds
//! it input events and a rasteriser, and draws and plays what it answers.

pub mod config;
pub mod data;
pub mod game;
pub mod geometry;
pub mod gui;
pub mod input;
pub mod render;
pub mod text;
