//! Constants of the windowed application: window and game-area sizes,
//! speeds and frame rate.

use vstd::prelude::*;

verus! {

pub const CHANNEL_COUNT: u32 = 3;

pub const PADDING: i32 = 10;

pub const WINDOW_WIDTH: i32 = 350;
pub const WINDOW_HEIGHT: i32 = 288;

pub const GAME_WIDTH: i32 = 200;
pub const GAME_HEIGHT: i32 = WINDOW_HEIGHT - (PADDING * 2);

/// Half the game width (`GAME_WIDTH / 2`).
pub const CENTER_X: i32 = 100;
pub const PLAYER_Y: i32 = GAME_HEIGHT - 16;

pub const APP_NAME: &'static str = "Teki";
pub const PLAYER_SPEED: i32 = 10;
pub const MYSHOT_SPEED: i32 = 6;
pub const FPS: u32 = 60;

/// `CENTER_X` is the middle of the game width, and the player stands 16
/// above the bottom of the game area, which is the window less its padding.
pub proof fn lemma_app_layout()
    ensures
        CENTER_X == GAME_WIDTH / 2,
        GAME_HEIGHT == 268,
        PLAYER_Y == 252,
{
}

} // verus!
