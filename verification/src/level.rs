use vstd::prelude::*;
use crate::entities::{BrickStatus, BrickType, HazardType};

verus! {

/// The grid a stage's bricks are laid out on, in whole pixels.
#[derive(Debug, Clone, Copy, PartialEq, Eq, Structural)]
pub struct StageGrid {
    pub rows: usize,
    pub cols: usize,
    pub brick_w: u32,
    pub brick_h: u32,
    pub spacing_x: u32,
    pub spacing_y: u32,
    pub start_y: u32,
}

/// One brick of a stage: its health and its cell on the stage's grid.
#[derive(Debug, Clone, Copy, PartialEq, Eq, Structural)]
pub struct BrickSlot {
    pub status: BrickStatus,
    pub row: usize,
    pub col: usize,
}

/// Where a hazard stands across the screen.
#[derive(Debug, Clone, Copy, PartialEq, Eq, Structural)]
pub enum HazardAnchor {
    /// At this percentage of the screen's width.
    ScreenPercent(u32),
    /// This many pixels from the left edge.
    FromLeft(u32),
    /// This many pixels from the right edge.
    FromRight(u32),
}

/// A hazard as a stage places it. `shoot_delay_tenths` is the turret's first
/// shot delay in tenths of a second.
#[derive(Debug, Clone, Copy, PartialEq, Eq, Structural)]
pub struct HazardSpec {
    pub anchor: HazardAnchor,
    pub y: u32,
    pub w: u32,
    pub h: u32,
    pub hazard_type: HazardType,
    pub shoot_delay_tenths: u32,
}

/// A campaign stage: its title, grid, bricks and hazards.
pub struct LevelLayout {
    pub name: &'static str,
    pub grid: StageGrid,
    pub bricks: Vec<BrickSlot>,
    pub hazards: Vec<HazardSpec>,
}

/// The stage that level number `level_num` plays: stages 1 to 4 by their
/// number, stage 5 for any other number.
pub open spec fn stage_of(level_num: u32) -> u32 {
    if 1 <= level_num <= 4 {
        level_num
    } else {
        5
    }
}

pub open spec fn stage_name(stage: u32) -> &'static str {
    if stage == 1 {
        "Stage 1: Neon Genesis Grid"
    } else if stage == 2 {
        "Stage 2: Explosive Citadel"
    } else if stage == 3 {
        "Stage 3: Quantum Warp Core"
    } else if stage == 4 {
        "Stage 4: Turret Fortress"
    } else {
        "Stage 5: Master Ballscape Omega"
    }
}

pub open spec fn stage_grid(stage: u32) -> StageGrid {
    if stage == 1 {
        StageGrid { rows: 5, cols: 10, brick_w: 84, brick_h: 34, spacing_x: 10, spacing_y: 10, start_y: 90 }
    } else if stage == 2 {
        StageGrid { rows: 6, cols: 10, brick_w: 84, brick_h: 34, spacing_x: 10, spacing_y: 10, start_y: 90 }
    } else if stage == 3 {
        StageGrid { rows: 6, cols: 11, brick_w: 78, brick_h: 32, spacing_x: 8, spacing_y: 8, start_y: 85 }
    } else if stage == 4 {
        StageGrid { rows: 7, cols: 11, brick_w: 78, brick_h: 32, spacing_x: 8, spacing_y: 8, start_y: 80 }
    } else {
        StageGrid { rows: 7, cols: 12, brick_w: 72, brick_h: 30, spacing_x: 8, spacing_y: 8, start_y: 80 }
    }
}

/// The colour of the bricks of row `r` of stage 1.
pub open spec fn stage1_row_color(r: int) -> BrickType {
    if r % 5 == 0 {
        BrickType::ColorRed
    } else if r % 5 == 1 {
        BrickType::ColorOrange
    } else if r % 5 == 2 {
        BrickType::ColorYellow
    } else if r % 5 == 3 {
        BrickType::ColorGreen
    } else {
        BrickType::ColorBlue
    }
}

/// The kind of the brick at row `r`, column `c` of a stage.
pub open spec fn stage_brick_type(stage: u32, r: int, c: int) -> BrickType {
    if stage == 1 {
        if (r == 1 && c == 2) || (r == 3 && c == 7) {
            BrickType::Powerup
        } else if (r == 2 && c == 4) || (r == 2 && c == 5) {
            BrickType::ArmoredDark
        } else {
            stage1_row_color(r)
        }
    } else if stage == 2 {
        if (c == 0 || c == 9) && (r == 0 || r == 5) {
            BrickType::Unbreakable
        } else if (r == 2 && (c == 4 || c == 5)) || (r == 3 && (c == 4 || c == 5)) {
            BrickType::Explosive
        } else if r == 0 {
            BrickType::ArmoredGold
        } else if r == 1 {
            BrickType::ArmoredDark
        } else if (c + r) % 3 == 0 {
            BrickType::Powerup
        } else {
            BrickType::ColorPurple
        }
    } else if stage == 3 {
        if r == 2 && (c == 2 || c == 8) {
            BrickType::Portal
        } else if r == 1 && c % 2 == 1 {
            BrickType::Moving
        } else if r == 0 {
            BrickType::ArmoredGold
        } else if r == 3 {
            BrickType::ColorOrange
        } else if r == 4 {
            BrickType::ColorGreen
        } else {
            BrickType::ColorBlue
        }
    } else if stage == 4 {
        if c == 5 && (r == 1 || r == 3 || r == 5) {
            BrickType::Explosive
        } else if r == 0 || r == 6 {
            BrickType::ArmoredDark
        } else if c == 0 || c == 10 {
            BrickType::Unbreakable
        } else if (r + c) % 4 == 0 {
            BrickType::Powerup
        } else {
            BrickType::ColorRed
        }
    } else {
        if (c == 2 || c == 9) && (r == 2 || r == 4) {
            BrickType::Portal
        } else if (c == 3 || c == 8) && r == 3 {
            BrickType::Explosive
        } else if r == 0 || r == 1 {
            BrickType::ArmoredGold
        } else if (r + c) % 3 == 0 {
            BrickType::Powerup
        } else {
            BrickType::ColorPurple
        }
    }
}

pub open spec fn hazard(
    anchor: HazardAnchor,
    y: u32,
    size: u32,
    hazard_type: HazardType,
    shoot_delay_tenths: u32,
) -> HazardSpec {
    HazardSpec { anchor, y, w: size, h: size, hazard_type, shoot_delay_tenths }
}

/// The hazards a stage places, in order.
pub open spec fn stage_hazards(stage: u32) -> Seq<HazardSpec> {
    if stage == 1 {
        seq![]
    } else if stage == 2 {
        seq![
            hazard(HazardAnchor::ScreenPercent(25), 360, 50, HazardType::Bumper, 0),
            hazard(HazardAnchor::ScreenPercent(75), 360, 50, HazardType::Bumper, 0),
            hazard(HazardAnchor::ScreenPercent(50), 390, 55, HazardType::Mine, 0),
        ]
    } else if stage == 3 {
        seq![
            HazardSpec {
                anchor: HazardAnchor::ScreenPercent(50),
                y: 350,
                w: 120,
                h: 40,
                hazard_type: HazardType::Electric,
                shoot_delay_tenths: 0,
            },
        ]
    } else if stage == 4 {
        seq![
            hazard(HazardAnchor::FromLeft(150), 380, 60, HazardType::Turret, 15),
            hazard(HazardAnchor::FromRight(150), 380, 60, HazardType::Turret, 30),
        ]
    } else {
        seq![
            hazard(HazardAnchor::ScreenPercent(30), 370, 55, HazardType::Mine, 0),
            hazard(HazardAnchor::ScreenPercent(70), 370, 55, HazardType::Mine, 0),
            hazard(HazardAnchor::ScreenPercent(50), 400, 60, HazardType::Turret, 20),
        ]
    }
}

/// `slots` fill a grid of `rows` by `cols` cells of `stage` in row-major
/// order: slot `i` sits at the cell numbered `i`, carries id `i`, and holds
/// a fresh brick of the kind the stage puts there.
pub open spec fn fills_grid(slots: Seq<BrickSlot>, stage: u32, rows: int, cols: int) -> bool {
    &&& slots.len() == rows * cols
    &&& forall|i: int|
        #![trigger slots[i]]
        0 <= i < slots.len() ==> {
            &&& slots[i].row < rows
            &&& slots[i].col < cols
            &&& slots[i].row * cols + slots[i].col == i
            &&& slots[i].status == BrickStatus::fresh(
                i as usize,
                stage_brick_type(stage, slots[i].row as int, slots[i].col as int),
            )
        }
}

/// `layout` is stage `stage` exactly.
pub open spec fn is_stage(layout: LevelLayout, stage: u32) -> bool {
    &&& layout.name == stage_name(stage)
    &&& layout.grid == stage_grid(stage)
    &&& layout.hazards@ == stage_hazards(stage)
    &&& fills_grid(layout.bricks@, stage, stage_grid(stage).rows as int, stage_grid(stage).cols as int)
}

/// The kind of brick that stage `stage` puts at row `r`, column `c`.
fn brick_type_at(stage: u32, r: usize, c: usize) -> (t: BrickType)
    requires
        1 <= stage <= 5,
        r < 8,
        c < 16,
    ensures
        t == stage_brick_type(stage, r as int, c as int),
{
    if stage == 1 {
        let row_colors = [
            BrickType::ColorRed,
            BrickType::ColorOrange,
            BrickType::ColorYellow,
            BrickType::ColorGreen,
            BrickType::ColorBlue,
        ];
        let mut t = row_colors[r % 5];
        if (r == 1 && c == 2) || (r == 3 && c == 7) {
            t = BrickType::Powerup;
        } else if (r == 2 && c == 4) || (r == 2 && c == 5) {
            t = BrickType::ArmoredDark;
        }
        t
    } else if stage == 2 {
        if (c == 0 || c == 9) && (r == 0 || r == 5) {
            BrickType::Unbreakable
        } else if (r == 2 && (c == 4 || c == 5)) || (r == 3 && (c == 4 || c == 5)) {
            BrickType::Explosive
        } else if r == 0 {
            BrickType::ArmoredGold
        } else if r == 1 {
            BrickType::ArmoredDark
        } else if (c + r) % 3 == 0 {
            BrickType::Powerup
        } else {
            BrickType::ColorPurple
        }
    } else if stage == 3 {
        if r == 2 && (c == 2 || c == 8) {
            BrickType::Portal
        } else if r == 1 && c % 2 == 1 {
            BrickType::Moving
        } else if r == 0 {
            BrickType::ArmoredGold
        } else if r == 3 {
            BrickType::ColorOrange
        } else if r == 4 {
            BrickType::ColorGreen
        } else {
            BrickType::ColorBlue
        }
    } else if stage == 4 {
        if c == 5 && (r == 1 || r == 3 || r == 5) {
            BrickType::Explosive
        } else if r == 0 || r == 6 {
            BrickType::ArmoredDark
        } else if c == 0 || c == 10 {
            BrickType::Unbreakable
        } else if (r + c) % 4 == 0 {
            BrickType::Powerup
        } else {
            BrickType::ColorRed
        }
    } else {
        if (c == 2 || c == 9) && (r == 2 || r == 4) {
            BrickType::Portal
        } else if (c == 3 || c == 8) && r == 3 {
            BrickType::Explosive
        } else if r == 0 || r == 1 {
            BrickType::ArmoredGold
        } else if (r + c) % 3 == 0 {
            BrickType::Powerup
        } else {
            BrickType::ColorPurple
        }
    }
}

/// Lays out the bricks of `stage` row by row, numbering them from 0.
fn fill_stage_grid(stage: u32, rows: usize, cols: usize) -> (slots: Vec<BrickSlot>)
    requires
        1 <= stage <= 5,
        1 <= rows <= 7,
        1 <= cols <= 12,
    ensures
        fills_grid(slots@, stage, rows as int, cols as int),
{
    let mut slots: Vec<BrickSlot> = Vec::new();
    let mut r: usize = 0;
    while r < rows
        invariant
            1 <= stage <= 5,
            1 <= rows <= 7,
            1 <= cols <= 12,
            r <= rows,
            fills_grid(slots@, stage, r as int, cols as int),
        decreases rows - r,
    {
        let mut c: usize = 0;
        while c < cols
            invariant
                1 <= stage <= 5,
                1 <= rows <= 7,
                1 <= cols <= 12,
                r < rows,
                c <= cols,
                slots@.len() == r * cols + c,
                forall|i: int|
                    #![trigger slots@[i]]
                    0 <= i < slots@.len() ==> {
                        &&& slots@[i].row <= r
                        &&& slots@[i].col < cols
                        &&& slots@[i].row * cols + slots@[i].col == i
                        &&& slots@[i].status == BrickStatus::fresh(
                            i as usize,
                            stage_brick_type(
                                stage,
                                slots@[i].row as int,
                                slots@[i].col as int,
                            ),
                        )
                    },
            decreases cols - c,
        {
            assert(r * cols + c < 84) by (nonlinear_arith)
                requires
                    r < rows,
                    rows <= 7,
                    c < cols,
                    cols <= 12,
            ;
            let id = r * cols + c;
            let t = brick_type_at(stage, r, c);
            slots.push(BrickSlot { status: BrickStatus::new(id, t), row: r, col: c });
            c = c + 1;
        }
        assert((r + 1) * cols == r * cols + cols) by (nonlinear_arith);
        r = r + 1;
    }
    slots
}

/// Lays out stage `stage` from its grid, bricks and hazards.
fn build_stage(stage: u32) -> (layout: LevelLayout)
    requires
        1 <= stage <= 5,
    ensures
        is_stage(layout, stage),
{
    let (name, grid) = if stage == 1 {
        (
            "Stage 1: Neon Genesis Grid",
            StageGrid { rows: 5, cols: 10, brick_w: 84, brick_h: 34, spacing_x: 10, spacing_y: 10, start_y: 90 },
        )
    } else if stage == 2 {
        (
            "Stage 2: Explosive Citadel",
            StageGrid { rows: 6, cols: 10, brick_w: 84, brick_h: 34, spacing_x: 10, spacing_y: 10, start_y: 90 },
        )
    } else if stage == 3 {
        (
            "Stage 3: Quantum Warp Core",
            StageGrid { rows: 6, cols: 11, brick_w: 78, brick_h: 32, spacing_x: 8, spacing_y: 8, start_y: 85 },
        )
    } else if stage == 4 {
        (
            "Stage 4: Turret Fortress",
            StageGrid { rows: 7, cols: 11, brick_w: 78, brick_h: 32, spacing_x: 8, spacing_y: 8, start_y: 80 },
        )
    } else {
        (
            "Stage 5: Master Ballscape Omega",
            StageGrid { rows: 7, cols: 12, brick_w: 72, brick_h: 30, spacing_x: 8, spacing_y: 8, start_y: 80 },
        )
    };
    let bricks = fill_stage_grid(stage, grid.rows, grid.cols);
    let hazards = stage_hazard_list(stage);
    LevelLayout { name, grid, bricks, hazards }
}

fn square_hazard(
    anchor: HazardAnchor,
    y: u32,
    size: u32,
    hazard_type: HazardType,
    shoot_delay_tenths: u32,
) -> (h: HazardSpec)
    ensures
        h == hazard(anchor, y, size, hazard_type, shoot_delay_tenths),
{
    HazardSpec { anchor, y, w: size, h: size, hazard_type, shoot_delay_tenths }
}

/// The hazards of stage `stage`.
fn stage_hazard_list(stage: u32) -> (hazards: Vec<HazardSpec>)
    requires
        1 <= stage <= 5,
    ensures
        hazards@ == stage_hazards(stage),
{
    let mut hazards: Vec<HazardSpec> = Vec::new();
    if stage == 2 {
        hazards.push(square_hazard(HazardAnchor::ScreenPercent(25), 360, 50, HazardType::Bumper, 0));
        hazards.push(square_hazard(HazardAnchor::ScreenPercent(75), 360, 50, HazardType::Bumper, 0));
        hazards.push(square_hazard(HazardAnchor::ScreenPercent(50), 390, 55, HazardType::Mine, 0));
    } else if stage == 3 {
        hazards.push(
            HazardSpec {
                anchor: HazardAnchor::ScreenPercent(50),
                y: 350,
                w: 120,
                h: 40,
                hazard_type: HazardType::Electric,
                shoot_delay_tenths: 0,
            },
        );
    } else if stage == 4 {
        hazards.push(square_hazard(HazardAnchor::FromLeft(150), 380, 60, HazardType::Turret, 15));
        hazards.push(square_hazard(HazardAnchor::FromRight(150), 380, 60, HazardType::Turret, 30));
    } else if stage == 5 {
        hazards.push(square_hazard(HazardAnchor::ScreenPercent(30), 370, 55, HazardType::Mine, 0));
        hazards.push(square_hazard(HazardAnchor::ScreenPercent(70), 370, 55, HazardType::Mine, 0));
        hazards.push(square_hazard(HazardAnchor::ScreenPercent(50), 400, 60, HazardType::Turret, 20));
    }
    hazards
}

/// The layout of level `level_num`: stages 1 to 4 by their number, the
/// final stage 5 for any other number.
pub fn level_layout(level_num: u32) -> (layout: LevelLayout)
    ensures
        is_stage(layout, stage_of(level_num)),
{
    if 1 <= level_num && level_num <= 4 {
        build_stage(level_num)
    } else {
        build_stage(5)
    }
}

/// Stage 1, "Neon Genesis Grid", five rows of ten: the rows are red,
/// orange, yellow, green and blue from the top, except two power-up bricks
/// (row 1 column 2, row 3 column 7) and two dark-armoured bricks in the
/// middle of row 2 (columns 4 and 5).
pub proof fn lemma_stage_one(r: int, c: int)
    requires
        0 <= r < 5,
        0 <= c < 10,
    ensures
        (r == 1 && c == 2) || (r == 3 && c == 7) ==> stage_brick_type(1, r, c) == BrickType::Powerup,
        r == 2 && (c == 4 || c == 5) ==> stage_brick_type(1, r, c) == BrickType::ArmoredDark,
        !((r == 1 && c == 2) || (r == 3 && c == 7) || (r == 2 && (c == 4 || c == 5))) ==> {
            &&& r == 0 ==> stage_brick_type(1, r, c) == BrickType::ColorRed
            &&& r == 1 ==> stage_brick_type(1, r, c) == BrickType::ColorOrange
            &&& r == 2 ==> stage_brick_type(1, r, c) == BrickType::ColorYellow
            &&& r == 3 ==> stage_brick_type(1, r, c) == BrickType::ColorGreen
            &&& r == 4 ==> stage_brick_type(1, r, c) == BrickType::ColorBlue
        },
{
}

/// Stage 2, "Explosive Citadel", six rows of ten: unbreakable bricks in
/// the four corners, a two-by-two block of explosives in the middle (rows 2
/// and 3, columns 4 and 5), a gold-armoured top row and a dark-armoured
/// second row; below, power-up bricks where row plus column is a multiple
/// of three and purple bricks elsewhere.
pub proof fn lemma_stage_two(r: int, c: int)
    requires
        0 <= r < 6,
        0 <= c < 10,
    ensures
        (r == 0 || r == 5) && (c == 0 || c == 9) ==> stage_brick_type(2, r, c)
            == BrickType::Unbreakable,
        (r == 2 || r == 3) && (c == 4 || c == 5) ==> stage_brick_type(2, r, c)
            == BrickType::Explosive,
        r == 0 && 0 < c < 9 ==> stage_brick_type(2, r, c) == BrickType::ArmoredGold,
        r == 1 ==> stage_brick_type(2, r, c) == BrickType::ArmoredDark,
        2 <= r <= 5 && !((r == 2 || r == 3) && (c == 4 || c == 5)) && !(r == 5 && (c == 0 || c
            == 9)) ==> stage_brick_type(2, r, c) == (if (r + c) % 3 == 0 {
            BrickType::Powerup
        } else {
            BrickType::ColorPurple
        }),
{
}

/// Stage 3, "Quantum Warp Core", six rows of eleven: the whole top row is
/// gold armour; row 1 has moving bricks in the odd columns and blue ones in
/// the even; row 2 has two portals (columns 2 and 8) among blue bricks;
/// row 3 is orange, row 4 green and row 5 blue.
pub proof fn lemma_stage_three(r: int, c: int)
    requires
        0 <= r < 6,
        0 <= c < 11,
    ensures
        r == 0 ==> stage_brick_type(3, r, c) == BrickType::ArmoredGold,
        r == 1 ==> stage_brick_type(3, r, c) == (if c % 2 == 1 {
            BrickType::Moving
        } else {
            BrickType::ColorBlue
        }),
        r == 2 ==> stage_brick_type(3, r, c) == (if c == 2 || c == 8 {
            BrickType::Portal
        } else {
            BrickType::ColorBlue
        }),
        r == 3 ==> stage_brick_type(3, r, c) == BrickType::ColorOrange,
        r == 4 ==> stage_brick_type(3, r, c) == BrickType::ColorGreen,
        r == 5 ==> stage_brick_type(3, r, c) == BrickType::ColorBlue,
{
}

/// Stage 4, "Turret Fortress", seven rows of eleven: dark-armoured top and
/// bottom rows, explosives down the middle column in rows 1, 3 and 5,
/// unbreakable walls in the outer columns of rows 1 to 5, and inside, power-up
/// bricks where row plus column is a multiple of four and red bricks
/// elsewhere.
pub proof fn lemma_stage_four(r: int, c: int)
    requires
        0 <= r < 7,
        0 <= c < 11,
    ensures
        r == 0 || r == 6 ==> stage_brick_type(4, r, c) == BrickType::ArmoredDark,
        c == 5 && (r == 1 || r == 3 || r == 5) ==> stage_brick_type(4, r, c)
            == BrickType::Explosive,
        1 <= r <= 5 && (c == 0 || c == 10) ==> stage_brick_type(4, r, c)
            == BrickType::Unbreakable,
        1 <= r <= 5 && 1 <= c <= 9 && !(c == 5 && (r == 1 || r == 3 || r == 5)) ==> stage_brick_type(
            4,
            r,
            c,
        ) == (if (r + c) % 4 == 0 {
            BrickType::Powerup
        } else {
            BrickType::ColorRed
        }),
{
}

/// Stage 5, "Master Ballscape Omega", seven rows of twelve: four portals
/// (rows 2 and 4, columns 2 and 9), two explosives in row 3 (columns 3 and
/// 8), gold armour in the top two rows, and below, power-up bricks where row
/// plus column is a multiple of three and purple bricks elsewhere.
pub proof fn lemma_stage_five(r: int, c: int)
    requires
        0 <= r < 7,
        0 <= c < 12,
    ensures
        (r == 2 || r == 4) && (c == 2 || c == 9) ==> stage_brick_type(5, r, c)
            == BrickType::Portal,
        r == 3 && (c == 3 || c == 8) ==> stage_brick_type(5, r, c) == BrickType::Explosive,
        r == 0 || r == 1 ==> stage_brick_type(5, r, c) == BrickType::ArmoredGold,
        2 <= r && !((r == 2 || r == 4) && (c == 2 || c == 9)) && !(r == 3 && (c == 3 || c == 8))
            ==> stage_brick_type(5, r, c) == (if (r + c) % 3 == 0 {
            BrickType::Powerup
        } else {
            BrickType::ColorPurple
        }),
        stage_brick_type(5, r, c) != BrickType::Unbreakable,
{
}

/// The stages' titles and grids: rows by columns, brick size, spacing and
/// top edge, all in pixels; levels 1 to 4 play their own stage and every
/// other level number plays stage 5.
pub proof fn lemma_stage_titles_and_grids(level_num: u32)
    ensures
        stage_name(1) == "Stage 1: Neon Genesis Grid",
        stage_name(2) == "Stage 2: Explosive Citadel",
        stage_name(3) == "Stage 3: Quantum Warp Core",
        stage_name(4) == "Stage 4: Turret Fortress",
        stage_name(5) == "Stage 5: Master Ballscape Omega",
        stage_grid(1) == (StageGrid {
            rows: 5,
            cols: 10,
            brick_w: 84,
            brick_h: 34,
            spacing_x: 10,
            spacing_y: 10,
            start_y: 90,
        }),
        stage_grid(2) == (StageGrid {
            rows: 6,
            cols: 10,
            brick_w: 84,
            brick_h: 34,
            spacing_x: 10,
            spacing_y: 10,
            start_y: 90,
        }),
        stage_grid(3) == (StageGrid {
            rows: 6,
            cols: 11,
            brick_w: 78,
            brick_h: 32,
            spacing_x: 8,
            spacing_y: 8,
            start_y: 85,
        }),
        stage_grid(4) == (StageGrid {
            rows: 7,
            cols: 11,
            brick_w: 78,
            brick_h: 32,
            spacing_x: 8,
            spacing_y: 8,
            start_y: 80,
        }),
        stage_grid(5) == (StageGrid {
            rows: 7,
            cols: 12,
            brick_w: 72,
            brick_h: 30,
            spacing_x: 8,
            spacing_y: 8,
            start_y: 80,
        }),
        1 <= level_num <= 4 ==> stage_of(level_num) == level_num,
        level_num == 0 || level_num >= 5 ==> stage_of(level_num) == 5,
{
}

/// The stages' hazards: none on stage 1; two bumpers at a quarter and three
/// quarters across and a mine in the middle on stage 2; an electric fence
/// in the middle of stage 3; two turrets 150 pixels in from each side on
/// stage 4, firing first after 1.5 and 3 seconds; two mines at 30% and 70%
/// and a central turret firing first after 2 seconds on stage 5.
pub proof fn lemma_stage_hazards()
    ensures
        stage_hazards(1).len() == 0,
        stage_hazards(2) == seq![
            HazardSpec { anchor: HazardAnchor::ScreenPercent(25), y: 360, w: 50, h: 50, hazard_type: HazardType::Bumper, shoot_delay_tenths: 0 },
            HazardSpec { anchor: HazardAnchor::ScreenPercent(75), y: 360, w: 50, h: 50, hazard_type: HazardType::Bumper, shoot_delay_tenths: 0 },
            HazardSpec { anchor: HazardAnchor::ScreenPercent(50), y: 390, w: 55, h: 55, hazard_type: HazardType::Mine, shoot_delay_tenths: 0 },
        ],
        stage_hazards(3) == seq![
            HazardSpec { anchor: HazardAnchor::ScreenPercent(50), y: 350, w: 120, h: 40, hazard_type: HazardType::Electric, shoot_delay_tenths: 0 },
        ],
        stage_hazards(4) == seq![
            HazardSpec { anchor: HazardAnchor::FromLeft(150), y: 380, w: 60, h: 60, hazard_type: HazardType::Turret, shoot_delay_tenths: 15 },
            HazardSpec { anchor: HazardAnchor::FromRight(150), y: 380, w: 60, h: 60, hazard_type: HazardType::Turret, shoot_delay_tenths: 30 },
        ],
        stage_hazards(5) == seq![
            HazardSpec { anchor: HazardAnchor::ScreenPercent(30), y: 370, w: 55, h: 55, hazard_type: HazardType::Mine, shoot_delay_tenths: 0 },
            HazardSpec { anchor: HazardAnchor::ScreenPercent(70), y: 370, w: 55, h: 55, hazard_type: HazardType::Mine, shoot_delay_tenths: 0 },
            HazardSpec { anchor: HazardAnchor::ScreenPercent(50), y: 400, w: 60, h: 60, hazard_type: HazardType::Turret, shoot_delay_tenths: 20 },
        ],
{
}

} // verus!
