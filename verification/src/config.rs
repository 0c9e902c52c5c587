//! The fixed measures of the game. Lengths are in pixels, speeds in pixels
//! per frame; the play field has its origin at the centre of the window.

use vstd::prelude::*;

verus! {

pub const TARGET_FPS: u8 = 60;

pub const WINDOW_WIDTH: u32 = 800;

pub const WINDOW_HEIGHT: u32 = 600;

/// Distance from the centre of the field to its left and right edges.
pub const WINDOW_HALF_WIDTH: i32 = 400;

/// Distance from the centre of the field to its top and bottom edges.
pub const WINDOW_HALF_HEIGHT: i32 = 300;

pub const PADDLE_WIDTH: u32 = 52;

pub const PADDLE_HEIGHT: u32 = 150;

/// The part of a paddle that the ball can hit is narrower than its sprite.
pub const PADDLE_COLLIDER_WIDTH: u32 = 10;

/// The part of a paddle that the ball can hit is shorter than its sprite.
pub const PADDLE_COLLIDER_HEIGHT: u32 = 110;

pub const PADDLE_SPEED: i32 = 4;

pub const BALL_WIDTH: u32 = 51;

pub const BALL_HEIGHT: u32 = 51;

pub const BALL_RADIUS: i32 = 11;

/// Speed of a freshly served ball along each axis.
pub const BALL_SPEED: i32 = 2;

/// Largest horizontal speed the ball can reach.
pub const BALL_MAX_SPEED: i32 = 15;

} // verus!
