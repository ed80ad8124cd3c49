use vstd::prelude::*;
use crate::game::GameState;

verus! {

/// The width and height of the game's logical screen, in pixels.
pub const SCREEN_W: i32 = 1280;
pub const SCREEN_H: i32 = 720;

/// What is drawn over the playfield on each screen.
#[derive(Debug, Clone, Copy, PartialEq, Eq, Structural)]
pub enum Overlay {
    /// Nothing: the game is being played.
    Clear,
    /// A banner framed in this colour.
    Banner(u8, u8, u8),
    /// The hangar shop panel.
    ShopPanel,
}

pub open spec fn overlay_of(state: GameState) -> Overlay {
    match state {
        GameState::Menu => Overlay::Banner(0, 220, 255),
        GameState::Paused => Overlay::Banner(255, 200, 50),
        GameState::GameOver => Overlay::Banner(255, 50, 50),
        GameState::Victory => Overlay::Banner(100, 255, 100),
        GameState::Shop => Overlay::ShopPanel,
        GameState::Playing => Overlay::Clear,
    }
}

/// What is drawn over the playfield on screen `state`.
pub fn state_overlay(state: GameState) -> (o: Overlay)
    ensures
        o == overlay_of(state),
{
    match state {
        GameState::Menu => Overlay::Banner(0, 220, 255),
        GameState::Paused => Overlay::Banner(255, 200, 50),
        GameState::GameOver => Overlay::Banner(255, 50, 50),
        GameState::Victory => Overlay::Banner(100, 255, 100),
        GameState::Shop => Overlay::ShopPanel,
        GameState::Playing => Overlay::Clear,
    }
}

/// The top-left corner of a `w` by `h` panel centred on the screen.
pub fn centered_panel(w: i32, h: i32) -> (p: (i32, i32))
    requires
        0 <= w <= SCREEN_W,
        0 <= h <= SCREEN_H,
    ensures
        p.0 == (SCREEN_W - w) / 2,
        p.1 == (SCREEN_H - h) / 2,
{
    ((SCREEN_W - w) / 2, (SCREEN_H - h) / 2)
}

/// Where the HUD draws the icon of life number `i` (from 0): x, y, width,
/// height.
pub fn life_icon_rect(i: i32) -> (r: (i32, i32, u32, u32))
    requires
        0 <= i,
        15 + 32 * i <= i32::MAX,
    ensures
        r.0 == 15 + 32 * i,
        r.1 == 8,
        r.2 == 28,
        r.3 == 28,
{
    (15 + 32 * i, 8, 28, 28)
}

/// The colour of the boss's health bar: red once enraged in phase 2,
/// amber before.
pub fn boss_bar_color(phase: u32) -> (c: (u8, u8, u8))
    ensures
        c == (if phase == 2 { (255u8, 40u8, 40u8) } else { (255u8, 180u8, 0u8) }),
{
    if phase == 2 {
        (255, 40, 40)
    } else {
        (255, 180, 0)
    }
}

/// The colour of a projectile: the player's lasers cyan, enemy fire red.
pub fn projectile_color(from_player: bool) -> (c: (u8, u8, u8))
    ensures
        c == (if from_player { (100u8, 220u8, 255u8) } else { (255u8, 50u8, 50u8) }),
{
    if from_player {
        (100, 220, 255)
    } else {
        (255, 50, 50)
    }
}

/// Each screen's overlay: the menu's banner is framed in cyan, the pause
/// banner in amber, game over in red and victory in green; the shop shows
/// its panel; nothing covers the game while it is played.
pub proof fn lemma_overlays()
    ensures
        overlay_of(GameState::Menu) == Overlay::Banner(0, 220, 255),
        overlay_of(GameState::Paused) == Overlay::Banner(255, 200, 50),
        overlay_of(GameState::GameOver) == Overlay::Banner(255, 50, 50),
        overlay_of(GameState::Victory) == Overlay::Banner(100, 255, 100),
        overlay_of(GameState::Shop) == Overlay::ShopPanel,
        overlay_of(GameState::Playing) == Overlay::Clear,
{
}

} // verus!
