use vstd::prelude::*;
use crate::entities::BrickType;
use crate::game::{GameMode, GameState};

verus! {

/// Mouse buttons, as far as the game tells them apart.
#[derive(Debug, Clone, Copy, PartialEq, Eq, Structural)]
pub enum MouseButtonKind {
    Left,
    Right,
    Other,
}

/// The player's inputs the game reacts to.
#[derive(Debug, Clone, Copy, PartialEq, Eq, Structural)]
pub enum Input {
    /// The window was closed or Escape pressed.
    Quit,
    /// P: pause or resume.
    PauseKey,
    /// H: endless horde mode.
    EndlessKey,
    /// B: the hangar shop.
    ShopKey,
    /// E: the level editor.
    EditorKey,
    /// S: save the custom level.
    SaveKey,
    /// L: load the custom level.
    LoadKey,
    /// The mouse wheel turned by this many steps (positive is up).
    Wheel(i32),
    /// A mouse button went down at this window position.
    MouseDown(MouseButtonKind, i32, i32),
    /// SPACE.
    Space,
    /// The mouse moved to this horizontal window position.
    MouseMotion(i32),
}

/// What the game must do in answer to an input, beyond its new screen and
/// mode.
#[derive(Debug, Clone, Copy, PartialEq, Eq, Structural)]
pub enum Action {
    Nothing,
    Quit,
    /// Start a campaign from level 1.
    StartCampaign,
    /// Start endless horde mode.
    StartEndless,
    /// Launch the balls held on the paddle and fire the paddle's lasers.
    LaunchAndFire,
    /// The editor opened: clear bricks, hazards, capsules and the boss.
    ClearArena,
    /// Save the bricks as the custom level.
    SaveLevel,
    /// Load the custom level's bricks.
    LoadLevel,
    /// Select this brick kind for placing.
    SelectBrick(BrickType),
    /// Replace whatever brick stands at this grid point with the selected
    /// kind.
    PlaceBrick(i64, i64),
    /// Remove whatever brick stands at this grid point.
    EraseBrick(i64, i64),
    /// Move the paddle's centre to this horizontal position.
    MovePaddle(i32),
}

/// The game's answer to an input.
#[derive(Debug, Clone, Copy, PartialEq, Eq, Structural)]
pub struct Response {
    pub state: GameState,
    pub mode: GameMode,
    pub palette_index: usize,
    pub action: Action,
}

/// How many brick kinds the editor's palette offers.
pub const PALETTE_LEN: usize = 13;

/// The editor palette's brick kinds, in wheel order.
pub open spec fn palette_kind(i: int) -> BrickType {
    if i == 0 {
        BrickType::ColorRed
    } else if i == 1 {
        BrickType::ColorOrange
    } else if i == 2 {
        BrickType::ColorYellow
    } else if i == 3 {
        BrickType::ColorGreen
    } else if i == 4 {
        BrickType::ColorBlue
    } else if i == 5 {
        BrickType::ColorPurple
    } else if i == 6 {
        BrickType::ArmoredDark
    } else if i == 7 {
        BrickType::ArmoredGold
    } else if i == 8 {
        BrickType::Unbreakable
    } else if i == 9 {
        BrickType::Explosive
    } else if i == 10 {
        BrickType::Powerup
    } else if i == 11 {
        BrickType::Moving
    } else {
        BrickType::Portal
    }
}

/// The palette position after the wheel turns by `steps`: up moves to the
/// next kind, down to the previous one, both wrapping around.
pub open spec fn wheel_index(i: int, steps: i32) -> int {
    if steps > 0 {
        (i + 1) % (PALETTE_LEN as int)
    } else if steps < 0 {
        if i == 0 {
            PALETTE_LEN - 1
        } else {
            i - 1
        }
    } else {
        i
    }
}

/// The editor's grid: the point a click at `(x, y)` snaps to, on a grid of
/// 94 by 44 pixel cells offset by 40 and 60 pixels.
pub open spec fn snap_point(x: int, y: int) -> (int, int) {
    ((x / 94) * 94 + 40, (y / 44) * 44 + 60)
}

/// The state machine of the game's screens.
pub open spec fn respond(state: GameState, mode: GameMode, palette: usize, input: Input) -> Response {
    let keep = Response { state, mode, palette_index: palette, action: Action::Nothing };
    let click_action = if state == GameState::Menu || state == GameState::GameOver || state
        == GameState::Victory {
        Action::StartCampaign
    } else if state == GameState::Playing {
        Action::LaunchAndFire
    } else {
        Action::Nothing
    };
    match input {
        Input::Quit => Response { action: Action::Quit, ..keep },
        Input::PauseKey => if state == GameState::Playing {
            Response { state: GameState::Paused, ..keep }
        } else if state == GameState::Paused {
            Response { state: GameState::Playing, ..keep }
        } else {
            keep
        },
        Input::EndlessKey => if state == GameState::Menu {
            Response { action: Action::StartEndless, ..keep }
        } else {
            keep
        },
        Input::ShopKey => if state == GameState::Menu {
            Response { state: GameState::Shop, ..keep }
        } else if state == GameState::Shop {
            Response { state: GameState::Menu, ..keep }
        } else {
            keep
        },
        Input::EditorKey => if mode == GameMode::Editor {
            Response { state: GameState::Menu, mode: GameMode::Campaign, ..keep }
        } else {
            Response {
                state: GameState::Playing,
                mode: GameMode::Editor,
                action: Action::ClearArena,
                ..keep
            }
        },
        Input::SaveKey => if mode == GameMode::Editor {
            Response { action: Action::SaveLevel, ..keep }
        } else {
            keep
        },
        Input::LoadKey => if mode == GameMode::Editor {
            Response { action: Action::LoadLevel, ..keep }
        } else {
            keep
        },
        Input::Wheel(steps) => if mode == GameMode::Editor {
            let i = wheel_index(palette as int, steps);
            Response {
                palette_index: i as usize,
                action: Action::SelectBrick(palette_kind(i)),
                ..keep
            }
        } else {
            keep
        },
        Input::MouseDown(button, x, y) => if mode == GameMode::Editor {
            let p = snap_point(x as int, y as int);
            match button {
                MouseButtonKind::Left => Response {
                    action: Action::PlaceBrick(p.0 as i64, p.1 as i64),
                    ..keep
                },
                MouseButtonKind::Right => Response {
                    action: Action::EraseBrick(p.0 as i64, p.1 as i64),
                    ..keep
                },
                MouseButtonKind::Other => keep,
            }
        } else {
            Response { action: click_action, ..keep }
        },
        Input::Space => Response { action: click_action, ..keep },
        Input::MouseMotion(x) => if state == GameState::Playing {
            Response { action: Action::MovePaddle(x), ..keep }
        } else {
            keep
        },
    }
}

/// The brick kind at position `i` of the editor's palette.
pub fn palette_brick(i: usize) -> (t: BrickType)
    requires
        i < PALETTE_LEN,
    ensures
        t == palette_kind(i as int),
{
    let kinds = [
        BrickType::ColorRed,
        BrickType::ColorOrange,
        BrickType::ColorYellow,
        BrickType::ColorGreen,
        BrickType::ColorBlue,
        BrickType::ColorPurple,
        BrickType::ArmoredDark,
        BrickType::ArmoredGold,
        BrickType::Unbreakable,
        BrickType::Explosive,
        BrickType::Powerup,
        BrickType::Moving,
        BrickType::Portal,
    ];
    kinds[i]
}

/// Moves through the palette as the wheel turns by `steps`.
pub fn turn_palette(i: usize, steps: i32) -> (r: usize)
    requires
        i < PALETTE_LEN,
    ensures
        r == wheel_index(i as int, steps),
        r < PALETTE_LEN,
{
    if steps > 0 {
        (i + 1) % PALETTE_LEN
    } else if steps < 0 {
        if i == 0 {
            PALETTE_LEN - 1
        } else {
            i - 1
        }
    } else {
        i
    }
}

/// `v` divided by `d`, rounded down.
fn floor_div(v: i64, d: i64) -> (q: i64)
    requires
        0 < d <= 100,
        -0x1_0000_0000 <= v <= 0x1_0000_0000,
    ensures
        q == v as int / d as int,
{
    if v >= 0 {
        v / d
    } else {
        let q = -((-v + d - 1) / d);
        proof {
            let n: int = -(v as int);
            let di: int = d as int;
            let m: int = (n + di - 1) / di;
            assert(q == -m);
            assert(v as int / di == -m) by (nonlinear_arith)
                requires
                    n > 0,
                    di > 0,
                    v as int == -n,
                    m == (n + di - 1) / di,
            ;
        }
        q
    }
}

/// The editor grid point that a click at window position `(x, y)` snaps
/// to.
pub fn snap_to_grid(x: i32, y: i32) -> (p: (i64, i64))
    ensures
        p.0 == snap_point(x as int, y as int).0,
        p.1 == snap_point(x as int, y as int).1,
{
    let gx = floor_div(x as i64, 94) * 94 + 40;
    let gy = floor_div(y as i64, 44) * 44 + 60;
    (gx, gy)
}

/// Answers an input: the screen and mode that follow and what the game must
/// do.
pub fn handle_input(state: GameState, mode: GameMode, palette: usize, input: Input) -> (r: Response)
    requires
        palette < PALETTE_LEN,
    ensures
        r == respond(state, mode, palette, input),
        r.palette_index < PALETTE_LEN,
{
    let keep = Response { state, mode, palette_index: palette, action: Action::Nothing };
    let click_action = if state == GameState::Menu || state == GameState::GameOver || state
        == GameState::Victory {
        Action::StartCampaign
    } else if state == GameState::Playing {
        Action::LaunchAndFire
    } else {
        Action::Nothing
    };
    match input {
        Input::Quit => Response { action: Action::Quit, ..keep },
        Input::PauseKey => {
            if state == GameState::Playing {
                Response { state: GameState::Paused, ..keep }
            } else if state == GameState::Paused {
                Response { state: GameState::Playing, ..keep }
            } else {
                keep
            }
        },
        Input::EndlessKey => {
            if state == GameState::Menu {
                Response { action: Action::StartEndless, ..keep }
            } else {
                keep
            }
        },
        Input::ShopKey => {
            if state == GameState::Menu {
                Response { state: GameState::Shop, ..keep }
            } else if state == GameState::Shop {
                Response { state: GameState::Menu, ..keep }
            } else {
                keep
            }
        },
        Input::EditorKey => {
            if mode == GameMode::Editor {
                Response { state: GameState::Menu, mode: GameMode::Campaign, ..keep }
            } else {
                Response {
                    state: GameState::Playing,
                    mode: GameMode::Editor,
                    action: Action::ClearArena,
                    ..keep
                }
            }
        },
        Input::SaveKey => {
            if mode == GameMode::Editor {
                Response { action: Action::SaveLevel, ..keep }
            } else {
                keep
            }
        },
        Input::LoadKey => {
            if mode == GameMode::Editor {
                Response { action: Action::LoadLevel, ..keep }
            } else {
                keep
            }
        },
        Input::Wheel(steps) => {
            if mode == GameMode::Editor {
                let i = turn_palette(palette, steps);
                Response { palette_index: i, action: Action::SelectBrick(palette_brick(i)), ..keep }
            } else {
                keep
            }
        },
        Input::MouseDown(button, x, y) => {
            if mode == GameMode::Editor {
                let p = snap_to_grid(x, y);
                match button {
                    MouseButtonKind::Left => Response {
                        action: Action::PlaceBrick(p.0, p.1),
                        ..keep
                    },
                    MouseButtonKind::Right => Response {
                        action: Action::EraseBrick(p.0, p.1),
                        ..keep
                    },
                    MouseButtonKind::Other => keep,
                }
            } else {
                Response { action: click_action, ..keep }
            }
        },
        Input::Space => Response { action: click_action, ..keep },
        Input::MouseMotion(x) => {
            if state == GameState::Playing {
                Response { action: Action::MovePaddle(x), ..keep }
            } else {
                keep
            }
        },
    }
}

/// P pauses a running game and P again resumes it.
pub proof fn lemma_pause_twice_resumes(mode: GameMode, palette: usize)
    ensures
        respond(GameState::Playing, mode, palette, Input::PauseKey).state == GameState::Paused,
        respond(
            respond(GameState::Playing, mode, palette, Input::PauseKey).state,
            mode,
            palette,
            Input::PauseKey,
        ).state == GameState::Playing,
{
}

/// B opens the shop from the menu and B again returns to the menu.
pub proof fn lemma_shop_toggles(mode: GameMode, palette: usize)
    ensures
        respond(GameState::Menu, mode, palette, Input::ShopKey).state == GameState::Shop,
        respond(GameState::Shop, mode, palette, Input::ShopKey).state == GameState::Menu,
{
}

/// E opens the editor from any screen outside it, clearing the arena, and E
/// again leaves it for the campaign menu.
pub proof fn lemma_editor_toggles(state: GameState, mode: GameMode, palette: usize)
    requires
        mode != GameMode::Editor,
    ensures
        ({
            let opened = respond(state, mode, palette, Input::EditorKey);
            let closed = respond(opened.state, opened.mode, palette, Input::EditorKey);
            &&& opened.mode == GameMode::Editor
            &&& opened.state == GameState::Playing
            &&& opened.action == Action::ClearArena
            &&& closed.mode == GameMode::Campaign
            &&& closed.state == GameState::Menu
        }),
{
}

/// In the editor, turning the wheel up a step and back down a step returns
/// to the same palette kind, and so does the reverse.
pub proof fn lemma_wheel_up_down_restores(i: usize, up: i32, down: i32)
    requires
        i < PALETTE_LEN,
        up > 0,
        down < 0,
    ensures
        wheel_index(wheel_index(i as int, up), down) == i,
        wheel_index(wheel_index(i as int, down), up) == i,
{
}

/// Two clicks in the same editor grid cell snap to the same point, so a
/// second placement there replaces the first brick. Each grid point lies in
/// its own cell horizontally: snapping its x again gives it back.
pub proof fn lemma_same_cell_same_point(x1: int, y1: int, x2: int, y2: int)
    requires
        x1 / 94 == x2 / 94,
        y1 / 44 == y2 / 44,
    ensures
        snap_point(x1, y1) == snap_point(x2, y2),
        snap_point(snap_point(x1, y1).0, y1).0 == snap_point(x1, y1).0,
{
    let k = x1 / 94;
    assert((k * 94 + 40) / 94 == k) by (nonlinear_arith);
}

/// Moving the mouse moves the paddle to the mouse's position while the game
/// is being played, and does nothing on any other screen (paused, menu,
/// shop, game over, victory). It never changes the screen, mode or palette.
pub proof fn lemma_mouse_motion(state: GameState, mode: GameMode, palette: usize, x: i32)
    ensures
        ({
            let r = respond(state, mode, palette, Input::MouseMotion(x));
            &&& r.action == (if state == GameState::Playing {
                Action::MovePaddle(x)
            } else {
                Action::Nothing
            })
            &&& r.state == state
            &&& r.mode == mode
            &&& r.palette_index == palette
        }),
{
}

/// SPACE starts a campaign from the menu, game-over and victory screens,
/// launches and fires while playing, and does nothing while paused or in
/// the shop. A mouse click outside the editor does the same, whichever
/// button. Neither changes the screen, mode or palette by itself.
pub proof fn lemma_space_and_clicks(
    state: GameState,
    mode: GameMode,
    palette: usize,
    button: MouseButtonKind,
    x: i32,
    y: i32,
)
    ensures
        ({
            let r = respond(state, mode, palette, Input::Space);
            &&& r.action == (if state == GameState::Menu || state == GameState::GameOver || state
                == GameState::Victory {
                Action::StartCampaign
            } else if state == GameState::Playing {
                Action::LaunchAndFire
            } else {
                Action::Nothing
            })
            &&& r.state == state
            &&& r.mode == mode
            &&& r.palette_index == palette
        }),
        mode != GameMode::Editor ==> respond(state, mode, palette, Input::MouseDown(button, x, y))
            == respond(state, mode, palette, Input::Space),
{
}

/// Only the pause, shop and editor keys change the screen, and only the
/// editor key changes the mode: P swaps playing and paused and leaves other
/// screens alone; B swaps the menu and the shop and leaves other screens
/// alone. Quitting is always possible.
pub proof fn lemma_screen_changes(state: GameState, mode: GameMode, palette: usize, input: Input)
    ensures
        respond(state, mode, palette, input).mode != mode ==> input == Input::EditorKey,
        respond(state, mode, palette, input).state != state ==> input == Input::PauseKey || input
            == Input::ShopKey || input == Input::EditorKey,
        respond(state, mode, palette, Input::PauseKey).state == (if state == GameState::Playing {
            GameState::Paused
        } else if state == GameState::Paused {
            GameState::Playing
        } else {
            state
        }),
        respond(state, mode, palette, Input::ShopKey).state == (if state == GameState::Menu {
            GameState::Shop
        } else if state == GameState::Shop {
            GameState::Menu
        } else {
            state
        }),
        respond(state, mode, palette, Input::Quit).action == Action::Quit,
        respond(state, mode, palette, input).palette_index != palette ==> exists|steps: i32|
            input == Input::Wheel(steps),
{
}

/// Endless mode starts only from the menu; saving and loading a custom
/// level happen only in the editor, and the wheel picks bricks only there.
pub proof fn lemma_mode_bound_keys(state: GameState, mode: GameMode, palette: usize, steps: i32)
    ensures
        respond(state, mode, palette, Input::EndlessKey).action == (if state == GameState::Menu {
            Action::StartEndless
        } else {
            Action::Nothing
        }),
        respond(state, mode, palette, Input::SaveKey).action == (if mode == GameMode::Editor {
            Action::SaveLevel
        } else {
            Action::Nothing
        }),
        respond(state, mode, palette, Input::LoadKey).action == (if mode == GameMode::Editor {
            Action::LoadLevel
        } else {
            Action::Nothing
        }),
        mode != GameMode::Editor ==> respond(state, mode, palette, Input::Wheel(steps)).action
            == Action::Nothing,
{
}

/// In the editor, the left button places the selected brick at the grid
/// point the click snaps to, the right button erases there, and other
/// buttons do nothing.
pub proof fn lemma_editor_clicks(state: GameState, palette: usize, x: i32, y: i32)
    ensures
        respond(state, GameMode::Editor, palette, Input::MouseDown(MouseButtonKind::Left, x, y)).action
            == Action::PlaceBrick(snap_point(x as int, y as int).0 as i64, snap_point(x as int, y as int).1 as i64),
        respond(state, GameMode::Editor, palette, Input::MouseDown(MouseButtonKind::Right, x, y)).action
            == Action::EraseBrick(snap_point(x as int, y as int).0 as i64, snap_point(x as int, y as int).1 as i64),
        respond(state, GameMode::Editor, palette, Input::MouseDown(MouseButtonKind::Other, x, y)).action
            == Action::Nothing,
{
}

/// The palette offers all thirteen brick kinds, in the order red, orange,
/// yellow, green, blue, purple, dark armour, gold armour, unbreakable,
/// explosive, power-up, moving, portal.
pub proof fn lemma_palette_order(t: BrickType)
    ensures
        palette_kind(0) == BrickType::ColorRed,
        palette_kind(1) == BrickType::ColorOrange,
        palette_kind(2) == BrickType::ColorYellow,
        palette_kind(3) == BrickType::ColorGreen,
        palette_kind(4) == BrickType::ColorBlue,
        palette_kind(5) == BrickType::ColorPurple,
        palette_kind(6) == BrickType::ArmoredDark,
        palette_kind(7) == BrickType::ArmoredGold,
        palette_kind(8) == BrickType::Unbreakable,
        palette_kind(9) == BrickType::Explosive,
        palette_kind(10) == BrickType::Powerup,
        palette_kind(11) == BrickType::Moving,
        palette_kind(12) == BrickType::Portal,
        exists|i: int| 0 <= i < PALETTE_LEN && palette_kind(i) == t,
{
    let i: int = match t {
        BrickType::ColorRed => 0,
        BrickType::ColorOrange => 1,
        BrickType::ColorYellow => 2,
        BrickType::ColorGreen => 3,
        BrickType::ColorBlue => 4,
        BrickType::ColorPurple => 5,
        BrickType::ArmoredDark => 6,
        BrickType::ArmoredGold => 7,
        BrickType::Unbreakable => 8,
        BrickType::Explosive => 9,
        BrickType::Powerup => 10,
        BrickType::Moving => 11,
        BrickType::Portal => 12,
    };
    assert(palette_kind(i) == t);
}

/// The wheel moves one kind along the palette per event, whatever the
/// number of steps it reports, wrapping at both ends; a zero turn stays.
pub proof fn lemma_wheel_moves_one_kind(i: int, steps: i32)
    requires
        0 <= i < PALETTE_LEN,
    ensures
        0 <= wheel_index(i, steps) < PALETTE_LEN,
        steps > 0 ==> wheel_index(i, steps) == (if i == PALETTE_LEN - 1 { 0 } else { i + 1 }),
        steps < 0 ==> wheel_index(i, steps) == (if i == 0 { PALETTE_LEN - 1 } else { i - 1 }),
        steps == 0 ==> wheel_index(i, steps) == i,
{
}

/// A click snaps to the grid point of its cell: the point lies 40 pixels
/// right of the cell's left edge and 60 pixels below its top edge, on a grid
/// of 94-pixel columns and 44-pixel rows, where the cell is the one holding
/// the click.
pub proof fn lemma_snap_lies_in_the_click_cell(x: int, y: int)
    ensures
        snap_point(x, y).0 - 40 <= x < snap_point(x, y).0 - 40 + 94,
        snap_point(x, y).1 - 60 <= y < snap_point(x, y).1 - 60 + 44,
        (snap_point(x, y).0 - 40) % 94 == 0,
        (snap_point(x, y).1 - 60) % 44 == 0,
{
    let qx = x / 94;
    let qy = y / 44;
    assert(qx * 94 <= x < qx * 94 + 94) by (nonlinear_arith)
        requires
            qx == x / 94,
    ;
    assert(qy * 44 <= y < qy * 44 + 44) by (nonlinear_arith)
        requires
            qy == y / 44,
    ;
    assert((qx * 94) % 94 == 0) by (nonlinear_arith);
    assert((qy * 44) % 44 == 0) by (nonlinear_arith);
}

} // verus!
