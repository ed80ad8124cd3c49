use vstd::prelude::*;
use crate::entities::{BrickStatus, BrickType, PowerUpType};
use crate::level::{level_layout, is_stage, stage_of, stage_name, LevelLayout};
use crate::random::{random_chance, random_index};

verus! {

/// Which game is being played.
#[derive(Debug, Clone, Copy, PartialEq, Eq, Structural)]
pub enum GameMode {
    Campaign,
    Endless,
    Editor,
}

/// The screen the game is on.
#[derive(Debug, Clone, Copy, PartialEq, Eq, Structural)]
pub enum GameState {
    Menu,
    Playing,
    Paused,
    GameOver,
    Victory,
    Shop,
}

/// The sound effects the game asks the synthesizer to play.
#[derive(Debug, Clone, Copy, PartialEq, Eq, Structural)]
pub enum SoundEvent {
    BouncePaddle,
    BounceWall,
    BrickDestroy,
    Explosion,
    LaserFire,
    PowerupPickup,
    Warp,
    GameOver,
    Victory,
}

/// The hangar shop's upgrade levels and the credits earned to buy them.
#[derive(Debug, Clone, Copy, PartialEq, Eq, Structural)]
pub struct Upgrades {
    pub paddle_speed_level: u32,
    pub laser_rate_level: u32,
    pub starting_lives_level: u32,
    pub magnet_beam_level: u32,
    pub credits: u32,
}

impl Default for Upgrades {
    fn default() -> (r: Self)
        ensures
            r == (Upgrades {
                paddle_speed_level: 0,
                laser_rate_level: 0,
                starting_lives_level: 0,
                magnet_beam_level: 0,
                credits: 100,
            }),
    {
        Upgrades {
            paddle_speed_level: 0,
            laser_rate_level: 0,
            starting_lives_level: 0,
            magnet_beam_level: 0,
            credits: 100,
        }
    }
}

impl Upgrades {
    /// Lives at the start of a game: three, plus one per upgrade level.
    pub open spec fn lives_at_start(self) -> int {
        3 + (self.starting_lives_level as i32)
    }

    /// Paddle speed in pixels per second: 650, plus 90 per upgrade level.
    pub fn paddle_speed(&self) -> (r: u64)
        ensures
            r == 650 + 90 * self.paddle_speed_level,
    {
        650 + 90 * (self.paddle_speed_level as u64)
    }

    /// Lives at the start of a game: three, plus one per upgrade level.
    pub fn starting_lives(&self) -> (r: i32)
        requires
            self.lives_at_start() <= i32::MAX,
        ensures
            r == self.lives_at_start(),
    {
        let extra = self.starting_lives_level as i32;
        3 + extra
    }

    /// How fast the magnet beam pulls capsules, in pixels per second: 150 per
    /// upgrade level.
    pub fn magnet_speed(&self) -> (r: u64)
        ensures
            r == 150 * self.magnet_beam_level,
    {
        150 * (self.magnet_beam_level as u64)
    }
}

/// The stage 5 mothership's health.
#[derive(Debug, Clone, Copy, PartialEq, Eq, Structural)]
pub struct BossHealth {
    pub hp: i32,
    pub max_hp: i32,
    pub phase: u32,
    pub is_active: bool,
}

/// What a laser bolt did to the boss.
#[derive(Debug, Clone, Copy, PartialEq, Eq, Structural)]
pub struct LaserHit {
    /// The hit brought the boss to half health and it entered phase 2.
    pub enraged: bool,
    /// The hit destroyed the boss.
    pub destroyed: bool,
}

/// Half of `x`, rounded toward zero as integer division in Rust rounds.
pub open spec fn half_toward_zero(x: i32) -> int {
    if x >= 0 {
        x / 2
    } else {
        -((-x) / 2)
    }
}

impl BossHealth {
    /// The boss as it arrives: 50 hit points, phase 1, active.
    pub open spec fn arriving() -> BossHealth {
        BossHealth { hp: 50, max_hp: 50, phase: 1, is_active: true }
    }

    /// The boss after a laser bolt: one hit point less; it enrages into
    /// phase 2 once at half health or below, and is destroyed at zero.
    pub open spec fn after_laser(self) -> BossHealth {
        let hp = self.hp - 1;
        BossHealth {
            hp: hp as i32,
            max_hp: self.max_hp,
            phase: if hp <= half_toward_zero(self.max_hp) && self.phase == 1 { 2 } else { self.phase },
            is_active: if hp <= 0 { false } else { self.is_active },
        }
    }

    /// The boss after a ball strikes it: two hit points less, destroyed at
    /// zero. A ball strike does not change the phase.
    pub open spec fn after_ball(self) -> BossHealth {
        let hp = self.hp - 2;
        BossHealth {
            hp: hp as i32,
            max_hp: self.max_hp,
            phase: self.phase,
            is_active: if hp <= 0 { false } else { self.is_active },
        }
    }

    pub fn new() -> (r: BossHealth)
        ensures
            r == BossHealth::arriving(),
    {
        BossHealth { hp: 50, max_hp: 50, phase: 1, is_active: true }
    }

    /// A laser bolt strikes the boss.
    pub fn laser_hit(&mut self) -> (r: LaserHit)
        requires
            old(self).hp > i32::MIN,
        ensures
            *final(self) == old(self).after_laser(),
            r.enraged <==> (old(self).hp - 1 <= half_toward_zero(old(self).max_hp) && old(self).phase == 1),
            r.destroyed <==> old(self).hp - 1 <= 0,
    {
        self.hp = self.hp - 1;
        let mut enraged = false;
        let mut destroyed = false;
        if self.hp <= self.max_hp / 2 && self.phase == 1 {
            self.phase = 2;
            enraged = true;
        }
        if self.hp <= 0 {
            self.is_active = false;
            destroyed = true;
        }
        LaserHit { enraged, destroyed }
    }

    /// Time between the boss's volleys, in tenths of a second: 1.5 seconds
    /// once enraged in phase 2, 2.5 seconds before.
    pub fn attack_interval_tenths(&self) -> (t: u32)
        ensures
            t == (if self.phase == 2 { 15u32 } else { 25u32 }),
    {
        if self.phase == 2 {
            15
        } else {
            25
        }
    }

    /// A ball strikes the boss. Returns whether the strike slew it.
    pub fn ball_hit(&mut self) -> (slain: bool)
        requires
            old(self).hp > i32::MIN + 1,
        ensures
            *final(self) == old(self).after_ball(),
            slain <==> old(self).hp - 2 <= 0,
    {
        self.hp = self.hp - 2;
        if self.hp <= 0 {
            self.is_active = false;
            true
        } else {
            false
        }
    }
}

/// The wave multiplier of the score: in endless horde mode the award is
/// multiplied by the wave number, so the score scales as the waves advance;
/// elsewhere it is 1.
pub open spec fn wave_factor(mode: GameMode, wave: u32) -> u32 {
    if mode == GameMode::Endless {
        wave
    } else {
        1
    }
}

/// Points for destroying a brick of kind `t` when the combo, counting this
/// brick, stands at `combo`: the brick's base score times the score
/// multiplier, times one more for every five bricks of the combo, times the
/// wave multiplier `wave`.
pub open spec fn brick_award(t: BrickType, multiplier: u32, combo: u32, wave: u32) -> int {
    t.score_value() * multiplier * (1 + combo / 5) * wave
}

/// The number of bricks of `bricks` still standing that can be destroyed.
pub open spec fn destructible_count(bricks: Seq<BrickStatus>) -> nat
    decreases bricks.len(),
{
    if bricks.len() == 0 {
        0
    } else {
        destructible_count(bricks.drop_last()) + if !bricks.last().is_destroyed
            && bricks.last().brick_type != BrickType::Unbreakable {
            1nat
        } else {
            0nat
        }
    }
}

/// Whether the brick is a portal still standing.
pub open spec fn is_open_portal(b: BrickStatus) -> bool {
    !b.is_destroyed && b.brick_type == BrickType::Portal
}

/// Counts the bricks still standing that can be destroyed; the campaign
/// stage is cleared when none are left.
pub fn remaining_destructible(bricks: &[BrickStatus]) -> (n: usize)
    ensures
        n == destructible_count(bricks@),
{
    let mut n: usize = 0;
    let mut i: usize = 0;
    while i < bricks.len()
        invariant
            i <= bricks@.len(),
            n == destructible_count(bricks@.take(i as int)),
            n <= i,
        decreases bricks@.len() - i,
    {
        assert(bricks@.take(i + 1).drop_last() =~= bricks@.take(i as int));
        if !bricks[i].is_destroyed && bricks[i].brick_type != BrickType::Unbreakable {
            n = n + 1;
        }
        i = i + 1;
    }
    assert(bricks@.take(bricks@.len() as int) =~= bricks@);
    n
}

/// Whether `b` is a standing portal other than the one with id `entered`,
/// which a ball entering portal `entered` may be warped to.
pub open spec fn is_exit_portal(b: BrickStatus, entered: usize) -> bool {
    is_open_portal(b) && b.id != entered
}

/// The exit portal for a ball that entered the portal with id `entered`: the
/// first standing portal other than that one, or none when there is no
/// other.
pub fn exit_portal(bricks: &[BrickStatus], entered: usize) -> (r: Option<usize>)
    ensures
        match r {
            Some(i) => i < bricks@.len() && is_exit_portal(bricks@[i as int], entered) && forall|j: int|
                0 <= j < i ==> !is_exit_portal(#[trigger] bricks@[j], entered),
            None => forall|j: int|
                0 <= j < bricks@.len() ==> !is_exit_portal(#[trigger] bricks@[j], entered),
        },
{
    let mut i: usize = 0;
    while i < bricks.len()
        invariant
            i <= bricks@.len(),
            forall|j: int| 0 <= j < i ==> !is_exit_portal(#[trigger] bricks@[j], entered),
        decreases bricks@.len() - i,
    {
        if !bricks[i].is_destroyed && bricks[i].brick_type == BrickType::Portal && bricks[i].id
            != entered {
            return Some(i);
        }
        i = i + 1;
    }
    None
}

/// How many bricks an endless wave adds.
pub const ENDLESS_WAVE_WIDTH: usize = 10;

/// How many brick kinds an endless wave draws from.
pub const ENDLESS_KIND_COUNT: usize = 8;

/// The brick kinds an endless wave draws from, by index.
pub open spec fn endless_kind(pick: int) -> BrickType {
    if pick == 0 {
        BrickType::ColorRed
    } else if pick == 1 {
        BrickType::ColorOrange
    } else if pick == 2 {
        BrickType::ColorYellow
    } else if pick == 3 {
        BrickType::ColorGreen
    } else if pick == 4 {
        BrickType::ColorBlue
    } else if pick == 5 {
        BrickType::ArmoredDark
    } else if pick == 6 {
        BrickType::Explosive
    } else {
        BrickType::Powerup
    }
}

/// Whether an endless wave may hold a brick of kind `t`.
pub open spec fn is_endless_kind(t: BrickType) -> bool {
    exists|pick: int| 0 <= pick < ENDLESS_KIND_COUNT && endless_kind(pick) == t
}

fn endless_kind_of(pick: usize) -> (t: BrickType)
    requires
        pick < ENDLESS_KIND_COUNT,
    ensures
        t == endless_kind(pick as int),
{
    let kinds = [
        BrickType::ColorRed,
        BrickType::ColorOrange,
        BrickType::ColorYellow,
        BrickType::ColorGreen,
        BrickType::ColorBlue,
        BrickType::ArmoredDark,
        BrickType::Explosive,
        BrickType::Powerup,
    ];
    kinds[pick]
}

/// The row of bricks an endless wave adds, given the kind drawn for each
/// column: column `c` holds a fresh brick with id `base_id + c` of kind
/// `picks[c]`.
pub fn endless_row_from_picks(base_id: usize, picks: &[usize]) -> (row: Vec<BrickStatus>)
    requires
        picks@.len() == ENDLESS_WAVE_WIDTH,
        forall|c: int| 0 <= c < picks@.len() ==> #[trigger] picks@[c] < ENDLESS_KIND_COUNT,
        base_id + ENDLESS_WAVE_WIDTH <= usize::MAX,
    ensures
        row@.len() == ENDLESS_WAVE_WIDTH,
        forall|c: int|
            0 <= c < ENDLESS_WAVE_WIDTH ==> #[trigger] row@[c] == BrickStatus::fresh(
                (base_id + c) as usize,
                endless_kind(picks@[c] as int),
            ),
{
    let mut row: Vec<BrickStatus> = Vec::new();
    let mut c: usize = 0;
    while c < ENDLESS_WAVE_WIDTH
        invariant
            c <= ENDLESS_WAVE_WIDTH,
            picks@.len() == ENDLESS_WAVE_WIDTH,
            forall|k: int| 0 <= k < picks@.len() ==> #[trigger] picks@[k] < ENDLESS_KIND_COUNT,
            base_id + ENDLESS_WAVE_WIDTH <= usize::MAX,
            row@.len() == c,
            forall|k: int|
                0 <= k < c ==> #[trigger] row@[k] == BrickStatus::fresh(
                    (base_id + k) as usize,
                    endless_kind(picks@[k] as int),
                ),
        decreases ENDLESS_WAVE_WIDTH - c,
    {
        let t = endless_kind_of(picks[c]);
        row.push(BrickStatus::new(base_id + c, t));
        c = c + 1;
    }
    row
}

/// A new endless wave: ten fresh bricks numbered on from `base_id`, each of
/// a kind drawn at random from the endless wave's eight kinds.
pub fn endless_wave_row(base_id: usize) -> (row: Vec<BrickStatus>)
    requires
        base_id + ENDLESS_WAVE_WIDTH <= usize::MAX,
    ensures
        row@.len() == ENDLESS_WAVE_WIDTH,
        forall|c: int|
            0 <= c < ENDLESS_WAVE_WIDTH ==> {
                &&& (#[trigger] row@[c]) == BrickStatus::fresh((base_id + c) as usize, row@[c].brick_type)
                &&& is_endless_kind(row@[c].brick_type)
            },
{
    let mut picks: Vec<usize> = Vec::new();
    let mut c: usize = 0;
    while c < ENDLESS_WAVE_WIDTH
        invariant
            c <= ENDLESS_WAVE_WIDTH,
            picks@.len() == c,
            forall|k: int| 0 <= k < c ==> #[trigger] picks@[k] < ENDLESS_KIND_COUNT,
        decreases ENDLESS_WAVE_WIDTH - c,
    {
        picks.push(random_index(ENDLESS_KIND_COUNT));
        c = c + 1;
    }
    let row = endless_row_from_picks(base_id, picks.as_slice());
    assert forall|c: int| 0 <= c < ENDLESS_WAVE_WIDTH implies is_endless_kind(
        #[trigger] row@[c].brick_type,
    ) by {
        assert(endless_kind(picks@[c] as int) == row@[c].brick_type);
    }
    row
}

/// How many capsule kinds a destroyed brick may drop.
pub const CAPSULE_KIND_COUNT: usize = 10;

/// The capsule kinds a destroyed brick may drop, by index.
pub open spec fn capsule_kind(pick: int) -> PowerUpType {
    if pick == 0 {
        PowerUpType::Multiball
    } else if pick == 1 {
        PowerUpType::ExtraLife
    } else if pick == 2 {
        PowerUpType::Expand
    } else if pick == 3 {
        PowerUpType::Shrink
    } else if pick == 4 {
        PowerUpType::Sticky
    } else if pick == 5 {
        PowerUpType::Laser
    } else if pick == 6 {
        PowerUpType::Fireball
    } else if pick == 7 {
        PowerUpType::Slow
    } else if pick == 8 {
        PowerUpType::Shield
    } else {
        PowerUpType::ScoreMultiplier
    }
}

/// The capsule that drops when the drop roll came out `dropped` and capsule
/// kind number `pick` was drawn.
pub open spec fn capsule_outcome(dropped: bool, pick: int) -> Option<PowerUpType> {
    if dropped {
        Some(capsule_kind(pick))
    } else {
        None
    }
}

/// The capsule a destroyed brick drops, given whether the drop roll
/// succeeded and which of the ten capsule kinds was drawn.
pub fn capsule_from_roll(dropped: bool, pick: usize) -> (r: Option<PowerUpType>)
    requires
        pick < CAPSULE_KIND_COUNT,
    ensures
        r == capsule_outcome(dropped, pick as int),
{
    if !dropped {
        return None;
    }
    let kinds = [
        PowerUpType::Multiball,
        PowerUpType::ExtraLife,
        PowerUpType::Expand,
        PowerUpType::Shrink,
        PowerUpType::Sticky,
        PowerUpType::Laser,
        PowerUpType::Fireball,
        PowerUpType::Slow,
        PowerUpType::Shield,
        PowerUpType::ScoreMultiplier,
    ];
    Some(kinds[pick])
}

/// The chance that a destroyed brick of kind `t` drops a capsule, as a
/// numerator and denominator: certain (100 in 100) for a power-up brick, 35
/// in 100 for any other.
pub open spec fn drop_odds(t: BrickType) -> (u32, u32) {
    if t == BrickType::Powerup {
        (100u32, 100u32)
    } else {
        (35u32, 100u32)
    }
}

/// The odds of a capsule drop for a brick of kind `t`.
pub fn capsule_drop_odds(t: BrickType) -> (o: (u32, u32))
    ensures
        o == drop_odds(t),
{
    if t == BrickType::Powerup {
        (100, 100)
    } else {
        (35, 100)
    }
}

/// Rolls for the capsule a destroyed brick of kind `t` drops: a coin with
/// the odds `capsule_drop_odds(t)` decides whether one drops, and its kind
/// is drawn uniformly from the `CAPSULE_KIND_COUNT` kinds; `capsule_from_roll`
/// turns the two draws into the result. A power-up brick always drops one.
pub fn roll_capsule_drop(t: BrickType) -> (r: Option<PowerUpType>)
    ensures
        t == BrickType::Powerup ==> r is Some,
        exists|dropped: bool, pick: int|
            0 <= pick < CAPSULE_KIND_COUNT && (drop_odds(t).0 == drop_odds(t).1 ==> dropped) && (
            drop_odds(t).0 == 0 ==> !dropped) && r == #[trigger] capsule_outcome(dropped, pick),
{
    let odds = capsule_drop_odds(t);
    let dropped = random_chance(odds.0, odds.1);
    let pick = random_index(CAPSULE_KIND_COUNT);
    let r = capsule_from_roll(dropped, pick);
    assert(r == capsule_outcome(dropped, pick as int));
    r
}

/// The discrete state of a game: which screen and mode it is in, the
/// campaign level, score, lives, combo and multiplier, the shop upgrades,
/// the boss's health and the queue of sound effects to play.
pub struct Session {
    pub state: GameState,
    pub mode: GameMode,
    pub current_level: u32,
    pub max_levels: u32,
    pub level_name: String,
    pub score: u32,
    pub lives: i32,
    pub combo: u32,
    pub score_multiplier: u32,
    pub floor_shield_active: bool,
    pub upgrades: Upgrades,
    pub editor_selected_brick: BrickType,
    pub endless_wave: u32,
    pub boss: Option<BossHealth>,
    pub sound_events: Vec<SoundEvent>,
}

impl Session {
    /// Whether no boss is fighting: there is none, or it is destroyed.
    pub open spec fn boss_cleared(self) -> bool {
        match self.boss {
            Some(b) => !b.is_active,
            None => true,
        }
    }

    /// A game on the menu, before any level is entered.
    pub fn new() -> (s: Session)
        ensures
            s.state == GameState::Menu,
            s.mode == GameMode::Campaign,
            s.current_level == 1,
            s.max_levels == 5,
            s.level_name@ == Seq::<char>::empty(),
            s.score == 0,
            s.lives == 3,
            s.combo == 0,
            s.score_multiplier == 1,
            !s.floor_shield_active,
            s.upgrades == (Upgrades {
                paddle_speed_level: 0,
                laser_rate_level: 0,
                starting_lives_level: 0,
                magnet_beam_level: 0,
                credits: 100,
            }),
            s.editor_selected_brick == BrickType::ColorRed,
            s.endless_wave == 1,
            s.boss is None,
            s.sound_events@ == Seq::<SoundEvent>::empty(),
    {
        Session {
            state: GameState::Menu,
            mode: GameMode::Campaign,
            current_level: 1,
            max_levels: 5,
            level_name: String::new(),
            score: 0,
            lives: 3,
            combo: 0,
            score_multiplier: 1,
            floor_shield_active: false,
            upgrades: Upgrades::default(),
            editor_selected_brick: BrickType::ColorRed,
            endless_wave: 1,
            boss: None,
            sound_events: Vec::new(),
        }
    }

    /// Queues a sound effect.
    pub fn play_sfx(&mut self, sfx: SoundEvent)
        ensures
            final(self).sound_events@ == old(self).sound_events@.push(sfx),
            final(self).state == old(self).state,
            final(self).mode == old(self).mode,
            final(self).current_level == old(self).current_level,
            final(self).max_levels == old(self).max_levels,
            final(self).level_name@ == old(self).level_name@,
            final(self).score == old(self).score,
            final(self).lives == old(self).lives,
            final(self).combo == old(self).combo,
            final(self).score_multiplier == old(self).score_multiplier,
            final(self).floor_shield_active == old(self).floor_shield_active,
            final(self).upgrades == old(self).upgrades,
            final(self).editor_selected_brick == old(self).editor_selected_brick,
            final(self).endless_wave == old(self).endless_wave,
            final(self).boss == old(self).boss,
    {
        self.sound_events.push(sfx);
    }

    /// Enters campaign level `level_num`: records the level and its title,
    /// brings in the boss on level 5 (and on no other), and returns the
    /// level's layout.
    pub fn enter_level(&mut self, level_num: u32) -> (layout: LevelLayout)
        ensures
            is_stage(layout, stage_of(level_num)),
            final(self).current_level == level_num,
            final(self).level_name@ == stage_name(stage_of(level_num))@,
            final(self).boss == (if level_num == 5 {
                Some(BossHealth::arriving())
            } else {
                None::<BossHealth>
            }),
            final(self).state == old(self).state,
            final(self).mode == old(self).mode,
            final(self).max_levels == old(self).max_levels,
            final(self).score == old(self).score,
            final(self).lives == old(self).lives,
            final(self).combo == old(self).combo,
            final(self).score_multiplier == old(self).score_multiplier,
            final(self).floor_shield_active == old(self).floor_shield_active,
            final(self).upgrades == old(self).upgrades,
            final(self).editor_selected_brick == old(self).editor_selected_brick,
            final(self).endless_wave == old(self).endless_wave,
            final(self).sound_events@ == old(self).sound_events@,
    {
        self.current_level = level_num;
        let layout = level_layout(level_num);
        self.level_name = crate::entities::owned_text(layout.name);
        if level_num == 5 {
            self.boss = Some(BossHealth::new());
        } else {
            self.boss = None;
        }
        layout
    }

    /// Starts a campaign from level 1: score, combo and multiplier reset,
    /// lives refilled from the upgrades, floor shield down. Returns the
    /// layout of level 1.
    pub fn start_game(&mut self) -> (layout: LevelLayout)
        requires
            old(self).upgrades.lives_at_start() <= i32::MAX,
        ensures
            is_stage(layout, 1),
            final(self).mode == GameMode::Campaign,
            final(self).state == GameState::Playing,
            final(self).score == 0,
            final(self).lives == old(self).upgrades.lives_at_start(),
            final(self).combo == 0,
            !final(self).floor_shield_active,
            final(self).score_multiplier == 1,
            final(self).current_level == 1,
            final(self).level_name@ == stage_name(1)@,
            final(self).boss is None,
            final(self).max_levels == old(self).max_levels,
            final(self).upgrades == old(self).upgrades,
            final(self).editor_selected_brick == old(self).editor_selected_brick,
            final(self).endless_wave == old(self).endless_wave,
            final(self).sound_events@ == old(self).sound_events@,
    {
        self.mode = GameMode::Campaign;
        self.score = 0;
        self.lives = self.upgrades.starting_lives();
        self.combo = 0;
        self.floor_shield_active = false;
        self.score_multiplier = 1;
        self.state = GameState::Playing;
        self.enter_level(1)
    }

    /// Starts endless horde mode: score reset, lives refilled from the
    /// upgrades, wave 1, no boss. The combo, multiplier and floor shield
    /// carry over as they were.
    pub fn start_endless_mode(&mut self)
        requires
            old(self).upgrades.lives_at_start() <= i32::MAX,
        ensures
            final(self).mode == GameMode::Endless,
            final(self).state == GameState::Playing,
            final(self).score == 0,
            final(self).lives == old(self).upgrades.lives_at_start(),
            final(self).endless_wave == 1,
            final(self).level_name@ == "Endless Horde Mode"@,
            final(self).boss is None,
            final(self).combo == old(self).combo,
            final(self).score_multiplier == old(self).score_multiplier,
            final(self).floor_shield_active == old(self).floor_shield_active,
            final(self).current_level == old(self).current_level,
            final(self).max_levels == old(self).max_levels,
            final(self).upgrades == old(self).upgrades,
            final(self).editor_selected_brick == old(self).editor_selected_brick,
            final(self).sound_events@ == old(self).sound_events@,
    {
        self.mode = GameMode::Endless;
        self.state = GameState::Playing;
        self.score = 0;
        self.lives = self.upgrades.starting_lives();
        self.endless_wave = 1;
        self.level_name = crate::entities::owned_text("Endless Horde Mode");
        self.boss = None;
    }

    /// Scores a destroyed brick of kind `t`: the combo grows by one, the
    /// brick's award is added to the score and a tenth of it to the credits,
    /// and the destruction sound is queued, followed by an explosion for an
    /// explosive brick. Returns the award.
    pub fn register_brick_destroyed(&mut self, t: BrickType) -> (points: u32)
        requires
            old(self).combo < u32::MAX,
            old(self).score + brick_award(
                t,
                old(self).score_multiplier,
                (old(self).combo + 1) as u32,
                wave_factor(old(self).mode, old(self).endless_wave),
            ) <= u32::MAX,
            old(self).upgrades.credits + brick_award(
                t,
                old(self).score_multiplier,
                (old(self).combo + 1) as u32,
                wave_factor(old(self).mode, old(self).endless_wave),
            ) / 10 <= u32::MAX,
        ensures
            final(self).combo == old(self).combo + 1,
            points == brick_award(
                t,
                old(self).score_multiplier,
                final(self).combo,
                wave_factor(old(self).mode, old(self).endless_wave),
            ),
            final(self).score == old(self).score + points,
            final(self).upgrades.credits == old(self).upgrades.credits + points / 10,
            final(self).sound_events@ == (if t == BrickType::Explosive {
                old(self).sound_events@.push(SoundEvent::BrickDestroy).push(SoundEvent::Explosion)
            } else {
                old(self).sound_events@.push(SoundEvent::BrickDestroy)
            }),
            final(self).upgrades.paddle_speed_level == old(self).upgrades.paddle_speed_level,
            final(self).upgrades.laser_rate_level == old(self).upgrades.laser_rate_level,
            final(self).upgrades.starting_lives_level == old(self).upgrades.starting_lives_level,
            final(self).upgrades.magnet_beam_level == old(self).upgrades.magnet_beam_level,
            final(self).state == old(self).state,
            final(self).mode == old(self).mode,
            final(self).current_level == old(self).current_level,
            final(self).max_levels == old(self).max_levels,
            final(self).level_name@ == old(self).level_name@,
            final(self).lives == old(self).lives,
            final(self).score_multiplier == old(self).score_multiplier,
            final(self).floor_shield_active == old(self).floor_shield_active,
            final(self).editor_selected_brick == old(self).editor_selected_brick,
            final(self).endless_wave == old(self).endless_wave,
            final(self).boss == old(self).boss,
    {
        self.combo = self.combo + 1;
        let base = t.points() as u128;
        let multiplier = self.score_multiplier as u128;
        let tier = 1 + (self.combo / 5) as u128;
        let wave: u128 = if self.mode == GameMode::Endless {
            self.endless_wave as u128
        } else {
            1
        };
        proof {
            assert(base * multiplier <= 500 * 0xFFFF_FFFFu128) by (nonlinear_arith)
                requires
                    base <= 500,
                    multiplier <= 0xFFFF_FFFFu128,
            ;
            assert(base * multiplier * tier <= 500 * 0xFFFF_FFFFu128 * 0x1_0000_0000u128)
                by (nonlinear_arith)
                requires
                    base * multiplier <= 500 * 0xFFFF_FFFFu128,
                    tier <= 0x1_0000_0000u128,
            ;
            assert(base * multiplier * tier * wave <= 500 * 0xFFFF_FFFFu128 * 0x1_0000_0000u128
                * 0xFFFF_FFFFu128) by (nonlinear_arith)
                requires
                    base * multiplier * tier <= 500 * 0xFFFF_FFFFu128 * 0x1_0000_0000u128,
                    wave <= 0xFFFF_FFFFu128,
            ;
        }
        let scaled = base * multiplier * tier * wave;
        let points = scaled as u32;
        self.score = self.score + points;
        self.upgrades.credits = self.upgrades.credits + points / 10;
        self.sound_events.push(SoundEvent::BrickDestroy);
        if t == BrickType::Explosive {
            self.sound_events.push(SoundEvent::Explosion);
        }
        points
    }

    /// Applies the part of a picked-up capsule that the session holds: the
    /// pick-up sound is queued; an extra life adds a life, a shield raises
    /// the floor shield, a score capsule sets the multiplier to two. (What a
    /// capsule does to the paddle and the balls is left to their owner; see
    /// `PowerUpType::paddle_shape`.)
    pub fn apply_powerup(&mut self, p: PowerUpType)
        requires
            p == PowerUpType::ExtraLife ==> old(self).lives < i32::MAX,
        ensures
            final(self).sound_events@ == old(self).sound_events@.push(SoundEvent::PowerupPickup),
            final(self).lives == (if p == PowerUpType::ExtraLife {
                old(self).lives + 1
            } else {
                old(self).lives as int
            }),
            final(self).floor_shield_active == (p == PowerUpType::Shield || old(
                self,
            ).floor_shield_active),
            final(self).score_multiplier == (if p == PowerUpType::ScoreMultiplier {
                2
            } else {
                old(self).score_multiplier
            }),
            final(self).state == old(self).state,
            final(self).mode == old(self).mode,
            final(self).current_level == old(self).current_level,
            final(self).max_levels == old(self).max_levels,
            final(self).level_name@ == old(self).level_name@,
            final(self).score == old(self).score,
            final(self).combo == old(self).combo,
            final(self).upgrades == old(self).upgrades,
            final(self).editor_selected_brick == old(self).editor_selected_brick,
            final(self).endless_wave == old(self).endless_wave,
            final(self).boss == old(self).boss,
    {
        self.sound_events.push(SoundEvent::PowerupPickup);
        match p {
            PowerUpType::ExtraLife => {
                self.lives = self.lives + 1;
            },
            PowerUpType::Shield => {
                self.floor_shield_active = true;
            },
            PowerUpType::ScoreMultiplier => {
                self.score_multiplier = 2;
            },
            _ => {},
        }
    }

    /// The combo, score-multiplier and floor-shield timers that ran out this
    /// frame end their effects: an expired combo resets to zero, an expired
    /// multiplier falls back to one, an expired shield drops.
    pub fn expire_timers(&mut self, combo_expired: bool, multiplier_expired: bool, shield_expired: bool)
        ensures
            final(self).combo == (if combo_expired { 0 } else { old(self).combo }),
            final(self).score_multiplier == (if multiplier_expired {
                1
            } else {
                old(self).score_multiplier
            }),
            final(self).floor_shield_active == (!shield_expired && old(self).floor_shield_active),
            final(self).state == old(self).state,
            final(self).endless_wave == old(self).endless_wave,
            final(self).mode == old(self).mode,
            final(self).current_level == old(self).current_level,
            final(self).max_levels == old(self).max_levels,
            final(self).level_name@ == old(self).level_name@,
            final(self).score == old(self).score,
            final(self).lives == old(self).lives,
            final(self).upgrades == old(self).upgrades,
            final(self).editor_selected_brick == old(self).editor_selected_brick,
            final(self).boss == old(self).boss,
            final(self).sound_events@ == old(self).sound_events@,
    {
        if combo_expired {
            self.combo = 0;
        }
        if multiplier_expired {
            self.score_multiplier = 1;
        }
        if shield_expired {
            self.floor_shield_active = false;
        }
    }

    /// The endless horde advances by a wave. When a standing brick has come
    /// down to the paddle (`reached_paddle`), the game is over.
    pub fn advance_endless_wave(&mut self, reached_paddle: bool)
        requires
            old(self).endless_wave < u32::MAX,
        ensures
            final(self).endless_wave == old(self).endless_wave + 1,
            final(self).state == (if reached_paddle {
                GameState::GameOver
            } else {
                old(self).state
            }),
            final(self).combo == old(self).combo,
            final(self).score_multiplier == old(self).score_multiplier,
            final(self).floor_shield_active == old(self).floor_shield_active,
            final(self).mode == old(self).mode,
            final(self).current_level == old(self).current_level,
            final(self).max_levels == old(self).max_levels,
            final(self).level_name@ == old(self).level_name@,
            final(self).score == old(self).score,
            final(self).lives == old(self).lives,
            final(self).upgrades == old(self).upgrades,
            final(self).editor_selected_brick == old(self).editor_selected_brick,
            final(self).boss == old(self).boss,
            final(self).sound_events@ == old(self).sound_events@,
    {
        self.endless_wave = self.endless_wave + 1;
        if reached_paddle {
            self.state = GameState::GameOver;
        }
    }

    /// Every ball has fallen: a life is lost. With none left the game is
    /// over and its sound is queued; otherwise returns true, and the paddle
    /// and a fresh ball are to be set up again.
    pub fn lose_life(&mut self) -> (resume: bool)
        requires
            old(self).lives > i32::MIN,
        ensures
            final(self).lives == old(self).lives - 1,
            resume <==> final(self).lives > 0,
            final(self).state == (if resume {
                old(self).state
            } else {
                GameState::GameOver
            }),
            final(self).sound_events@ == (if resume {
                old(self).sound_events@
            } else {
                old(self).sound_events@.push(SoundEvent::GameOver)
            }),
            final(self).mode == old(self).mode,
            final(self).current_level == old(self).current_level,
            final(self).max_levels == old(self).max_levels,
            final(self).level_name@ == old(self).level_name@,
            final(self).score == old(self).score,
            final(self).combo == old(self).combo,
            final(self).score_multiplier == old(self).score_multiplier,
            final(self).floor_shield_active == old(self).floor_shield_active,
            final(self).upgrades == old(self).upgrades,
            final(self).editor_selected_brick == old(self).editor_selected_brick,
            final(self).endless_wave == old(self).endless_wave,
            final(self).boss == old(self).boss,
    {
        self.lives = self.lives - 1;
        if self.lives <= 0 {
            self.state = GameState::GameOver;
            self.sound_events.push(SoundEvent::GameOver);
            false
        } else {
            true
        }
    }

    /// A player's laser bolt strikes the active boss. Destroying it is
    /// worth 5000 points.
    pub fn laser_hits_boss(&mut self) -> (r: LaserHit)
        requires
            old(self).boss matches Some(b) && b.is_active && b.hp > i32::MIN && (b.hp - 1 <= 0
                ==> old(self).score + 5000 <= u32::MAX),
        ensures
            final(self).boss == Some(old(self).boss->0.after_laser()),
            r.enraged <==> (old(self).boss->0.hp - 1 <= half_toward_zero(old(self).boss->0.max_hp)
                && old(self).boss->0.phase == 1),
            r.destroyed <==> old(self).boss->0.hp - 1 <= 0,
            final(self).score == (if r.destroyed {
                old(self).score + 5000
            } else {
                old(self).score as int
            }),
            final(self).state == old(self).state,
            final(self).mode == old(self).mode,
            final(self).current_level == old(self).current_level,
            final(self).max_levels == old(self).max_levels,
            final(self).level_name@ == old(self).level_name@,
            final(self).lives == old(self).lives,
            final(self).combo == old(self).combo,
            final(self).score_multiplier == old(self).score_multiplier,
            final(self).floor_shield_active == old(self).floor_shield_active,
            final(self).upgrades == old(self).upgrades,
            final(self).editor_selected_brick == old(self).editor_selected_brick,
            final(self).endless_wave == old(self).endless_wave,
            final(self).sound_events@ == old(self).sound_events@,
    {
        let mut boss = self.boss.unwrap();
        let r = boss.laser_hit();
        self.boss = Some(boss);
        if r.destroyed {
            self.score = self.score + 5000;
        }
        r
    }

    /// A ball strikes the active boss. Returns whether the strike slew it.
    pub fn ball_hits_boss(&mut self) -> (slain: bool)
        requires
            old(self).boss matches Some(b) && b.is_active && b.hp > i32::MIN + 1,
        ensures
            final(self).boss == Some(old(self).boss->0.after_ball()),
            slain <==> old(self).boss->0.hp - 2 <= 0,
            final(self).state == old(self).state,
            final(self).mode == old(self).mode,
            final(self).current_level == old(self).current_level,
            final(self).max_levels == old(self).max_levels,
            final(self).level_name@ == old(self).level_name@,
            final(self).score == old(self).score,
            final(self).lives == old(self).lives,
            final(self).combo == old(self).combo,
            final(self).score_multiplier == old(self).score_multiplier,
            final(self).floor_shield_active == old(self).floor_shield_active,
            final(self).upgrades == old(self).upgrades,
            final(self).editor_selected_brick == old(self).editor_selected_brick,
            final(self).endless_wave == old(self).endless_wave,
            final(self).sound_events@ == old(self).sound_events@,
    {
        let mut boss = self.boss.unwrap();
        let slain = boss.ball_hit();
        self.boss = Some(boss);
        slain
    }

    /// Checks a campaign stage for completion, given how many destructible
    /// bricks still stand. A stage is complete when none do and no boss is
    /// fighting; then the campaign moves on to the next level, whose layout
    /// is returned, or, after the last level, is won and the victory sound
    /// is queued. Nothing happens outside the campaign or before completion.
    pub fn check_stage_cleared(&mut self, remaining: usize) -> (next: Option<LevelLayout>)
        ensures
            ({
                let cleared = old(self).mode == GameMode::Campaign && remaining == 0
                    && old(self).boss_cleared();
                let won = cleared && old(self).current_level >= old(self).max_levels;
                &&& next is Some <==> cleared && !won
                &&& next matches Some(layout) ==> {
                    &&& final(self).current_level == old(self).current_level + 1
                    &&& is_stage(layout, stage_of(final(self).current_level))
                    &&& final(self).level_name@ == stage_name(stage_of(final(self).current_level))@
                    &&& final(self).boss == (if final(self).current_level == 5 {
                        Some(BossHealth::arriving())
                    } else {
                        None::<BossHealth>
                    })
                }
                &&& next is None ==> {
                    &&& final(self).current_level == old(self).current_level
                    &&& final(self).level_name@ == old(self).level_name@
                    &&& final(self).boss == old(self).boss
                }
                &&& final(self).state == (if won {
                    GameState::Victory
                } else {
                    old(self).state
                })
                &&& final(self).sound_events@ == (if won {
                    old(self).sound_events@.push(SoundEvent::Victory)
                } else {
                    old(self).sound_events@
                })
            }),
            final(self).mode == old(self).mode,
            final(self).max_levels == old(self).max_levels,
            final(self).score == old(self).score,
            final(self).lives == old(self).lives,
            final(self).combo == old(self).combo,
            final(self).score_multiplier == old(self).score_multiplier,
            final(self).floor_shield_active == old(self).floor_shield_active,
            final(self).upgrades == old(self).upgrades,
            final(self).editor_selected_brick == old(self).editor_selected_brick,
            final(self).endless_wave == old(self).endless_wave,
    {
        if self.mode != GameMode::Campaign {
            return None;
        }
        let boss_cleared = match &self.boss {
            Some(b) => !b.is_active,
            None => true,
        };
        if remaining == 0 && boss_cleared {
            if self.current_level >= self.max_levels {
                self.state = GameState::Victory;
                self.sound_events.push(SoundEvent::Victory);
                None
            } else {
                let next_level = self.current_level + 1;
                Some(self.enter_level(next_level))
            }
        } else {
            None
        }
    }
}

impl BossHealth {
    /// The boss after `k` laser bolts.
    pub open spec fn after_lasers(self, k: nat) -> BossHealth
        decreases k,
    {
        if k == 0 {
            self
        } else {
            self.after_lasers((k - 1) as nat).after_laser()
        }
    }

    /// The boss after `k` ball strikes.
    pub open spec fn after_balls(self, k: nat) -> BossHealth
        decreases k,
    {
        if k == 0 {
            self
        } else {
            self.after_balls((k - 1) as nat).after_ball()
        }
    }
}

/// The mothership takes 50 laser bolts: after `k` of them it has `50 - k`
/// hit points, it is enraged into phase 2 from the 25th bolt on, and it is
/// destroyed by the 50th.
pub proof fn lemma_boss_laser_fight(k: nat)
    requires
        k <= 50,
    ensures
        BossHealth::arriving().after_lasers(k).hp == 50 - k,
        BossHealth::arriving().after_lasers(k).max_hp == 50,
        BossHealth::arriving().after_lasers(k).phase == (if k >= 25 { 2u32 } else { 1u32 }),
        BossHealth::arriving().after_lasers(k).is_active <==> k < 50,
    decreases k,
{
    if k > 0 {
        lemma_boss_laser_fight((k - 1) as nat);
    }
}

/// Ball strikes take two hit points each: the mothership falls to its 25th
/// strike, and strikes never enrage it.
pub proof fn lemma_boss_ball_fight(k: nat)
    requires
        k <= 25,
    ensures
        BossHealth::arriving().after_balls(k).hp == 50 - 2 * k,
        BossHealth::arriving().after_balls(k).phase == 1,
        BossHealth::arriving().after_balls(k).is_active <==> k < 25,
    decreases k,
{
    if k > 0 {
        lemma_boss_ball_fight((k - 1) as nat);
    }
}

/// A longer combo never earns less for the same brick: every five bricks of
/// the combo add the brick's base score once more.
pub proof fn lemma_combo_never_lowers_award(
    t: BrickType,
    multiplier: u32,
    wave: u32,
    c1: u32,
    c2: u32,
)
    requires
        c1 <= c2,
    ensures
        brick_award(t, multiplier, c1, wave) <= brick_award(t, multiplier, c2, wave),
{
    let base = t.score_value() * multiplier;
    assert(c1 / 5 <= c2 / 5) by (nonlinear_arith)
        requires
            c1 <= c2,
    ;
    assert(base * (1 + c1 / 5) * wave <= base * (1 + c2 / 5) * wave) by (nonlinear_arith)
        requires
            base >= 0,
            wave >= 0,
            c1 / 5 <= c2 / 5,
    ;
}

/// Endless horde mode scales the score with the waves: the same brick, with
/// the same multiplier and combo, earns the base award times the wave
/// number, so a later wave never earns less, and earns strictly more for
/// any brick that scores at all.
pub proof fn lemma_endless_award_scales_with_wave(
    t: BrickType,
    multiplier: u32,
    combo: u32,
    w1: u32,
    w2: u32,
)
    requires
        w1 <= w2,
    ensures
        brick_award(t, multiplier, combo, wave_factor(GameMode::Endless, w2)) == brick_award(
            t,
            multiplier,
            combo,
            1,
        ) * w2,
        brick_award(t, multiplier, combo, wave_factor(GameMode::Endless, w1)) <= brick_award(
            t,
            multiplier,
            combo,
            wave_factor(GameMode::Endless, w2),
        ),
        w1 < w2 && brick_award(t, multiplier, combo, 1) > 0 ==> brick_award(
            t,
            multiplier,
            combo,
            wave_factor(GameMode::Endless, w1),
        ) < brick_award(t, multiplier, combo, wave_factor(GameMode::Endless, w2)),
{
    let v = t.score_value() as int;
    let m = multiplier as int;
    let k = 1 + combo / 5;
    let a = v * m * k;
    assert(a >= 0) by (nonlinear_arith)
        requires
            v >= 0,
            m >= 0,
            k >= 1,
            a == v * m * k,
    ;
    assert(a * w1 <= a * w2) by (nonlinear_arith)
        requires
            a >= 0,
            w1 <= w2,
    ;
    assert(a > 0 && w1 < w2 ==> a * w1 < a * w2) by (nonlinear_arith);
}

/// A brick that still stands and can be destroyed keeps the count of such
/// bricks above zero.
proof fn lemma_count_positive(bricks: Seq<BrickStatus>, i: int)
    requires
        0 <= i < bricks.len(),
        !bricks[i].is_destroyed,
        bricks[i].brick_type != BrickType::Unbreakable,
    ensures
        destructible_count(bricks) > 0,
    decreases bricks.len(),
{
    if i < bricks.len() - 1 {
        lemma_count_positive(bricks.drop_last(), i);
    }
}

/// No stage starts out cleared: every stage's layout holds a brick that
/// must be destroyed (the brick with id 1).
pub proof fn lemma_no_stage_starts_cleared(layout: LevelLayout, stage: u32)
    requires
        1 <= stage <= 5,
        is_stage(layout, stage),
    ensures
        destructible_count(layout.bricks@.map_values(|b: crate::level::BrickSlot| b.status)) > 0,
{
    let statuses = layout.bricks@.map_values(|b: crate::level::BrickSlot| b.status);
    let g = crate::level::stage_grid(stage);
    assert(g.rows >= 5 && g.cols >= 10);
    assert(g.rows * g.cols >= 50) by (nonlinear_arith)
        requires
            g.rows >= 5,
            g.cols >= 10,
    ;
    let slot = layout.bricks@[1];
    assert(slot.row * crate::level::stage_grid(stage).cols + slot.col == 1);
    assert(slot.row == 0 && slot.col == 1) by (nonlinear_arith)
        requires
            slot.row * crate::level::stage_grid(stage).cols + slot.col == 1,
            slot.col < crate::level::stage_grid(stage).cols,
            crate::level::stage_grid(stage).cols >= 10,
    ;
    assert(statuses[1] == slot.status);
    lemma_count_positive(statuses, 1);
}

/// A power-up brick always drops a capsule (100 in 100); every other kind
/// of brick drops one 35 times in 100.
pub proof fn lemma_drop_odds_by_kind(t: BrickType)
    ensures
        drop_odds(BrickType::Powerup) == (100u32, 100u32),
        t != BrickType::Powerup ==> drop_odds(t) == (35u32, 100u32),
        drop_odds(t).1 == 100,
        0 < drop_odds(t).0 <= drop_odds(t).1,
{
}

/// The ten capsule kinds in draw order: multi-ball, extra life, expand,
/// shrink, sticky, laser, fireball, slow, shield, score multiplier. Every
/// kind can be drawn, each by exactly one number below ten.
pub proof fn lemma_capsule_kinds(p: PowerUpType)
    ensures
        capsule_kind(0) == PowerUpType::Multiball,
        capsule_kind(1) == PowerUpType::ExtraLife,
        capsule_kind(2) == PowerUpType::Expand,
        capsule_kind(3) == PowerUpType::Shrink,
        capsule_kind(4) == PowerUpType::Sticky,
        capsule_kind(5) == PowerUpType::Laser,
        capsule_kind(6) == PowerUpType::Fireball,
        capsule_kind(7) == PowerUpType::Slow,
        capsule_kind(8) == PowerUpType::Shield,
        capsule_kind(9) == PowerUpType::ScoreMultiplier,
        exists|k: int| 0 <= k < CAPSULE_KIND_COUNT && capsule_kind(k) == p,
        forall|j: int, k: int|
            0 <= j < k < CAPSULE_KIND_COUNT ==> #[trigger] capsule_kind(j) != #[trigger] capsule_kind(k),
{
    let k: int = match p {
        PowerUpType::Multiball => 0,
        PowerUpType::ExtraLife => 1,
        PowerUpType::Expand => 2,
        PowerUpType::Shrink => 3,
        PowerUpType::Sticky => 4,
        PowerUpType::Laser => 5,
        PowerUpType::Fireball => 6,
        PowerUpType::Slow => 7,
        PowerUpType::Shield => 8,
        PowerUpType::ScoreMultiplier => 9,
    };
    assert(capsule_kind(k) == p);
}

/// The eight kinds an endless wave draws from, in draw order: red, orange,
/// yellow, green, blue, dark armour, explosive, power-up. Waves never hold
/// purple, gold-armoured, unbreakable, moving or portal bricks.
pub proof fn lemma_endless_kinds(t: BrickType)
    ensures
        endless_kind(0) == BrickType::ColorRed,
        endless_kind(1) == BrickType::ColorOrange,
        endless_kind(2) == BrickType::ColorYellow,
        endless_kind(3) == BrickType::ColorGreen,
        endless_kind(4) == BrickType::ColorBlue,
        endless_kind(5) == BrickType::ArmoredDark,
        endless_kind(6) == BrickType::Explosive,
        endless_kind(7) == BrickType::Powerup,
        is_endless_kind(t) <==> !(t == BrickType::ColorPurple || t == BrickType::ArmoredGold || t
            == BrickType::Unbreakable || t == BrickType::Moving || t == BrickType::Portal),
{
    if !(t == BrickType::ColorPurple || t == BrickType::ArmoredGold || t == BrickType::Unbreakable
        || t == BrickType::Moving || t == BrickType::Portal) {
        let k: int = match t {
            BrickType::ColorRed => 0,
            BrickType::ColorOrange => 1,
            BrickType::ColorYellow => 2,
            BrickType::ColorGreen => 3,
            BrickType::ColorBlue => 4,
            BrickType::ArmoredDark => 5,
            BrickType::Explosive => 6,
            _ => 7,
        };
        assert(endless_kind(k) == t);
    }
}

/// How a brick's award is built. With no combo bonus (the first four bricks
/// of a combo), multiplier 1 and no wave scaling, it is the brick's base
/// score; every fifth brick of the combo adds the base once more; the award
/// is proportional to the score multiplier and to the wave multiplier.
/// Outside endless mode the wave multiplier is 1 whatever the wave; in
/// endless mode it is the wave number.
pub proof fn lemma_award_structure(
    t: BrickType,
    multiplier: u32,
    combo: u32,
    wave: u32,
    mode: GameMode,
)
    ensures
        1 <= combo <= 4 ==> brick_award(t, 1, combo, 1) == t.score_value(),
        combo <= u32::MAX - 5 ==> brick_award(t, multiplier, (combo + 5) as u32, wave)
            == brick_award(t, multiplier, combo, wave) + t.score_value() * multiplier * wave,
        brick_award(t, multiplier, combo, wave) == brick_award(t, 1, combo, 1) * multiplier * wave,
        mode != GameMode::Endless ==> wave_factor(mode, wave) == 1,
        wave_factor(GameMode::Endless, wave) == wave,
{
    let v = t.score_value() as int;
    let m = multiplier as int;
    let w = wave as int;
    let k = 1 + combo / 5;
    if combo <= u32::MAX - 5 {
        let c2 = (combo + 5) as u32;
        assert(c2 / 5 == combo / 5 + 1);
        assert(v * m * (1 + c2 / 5) * w == v * m * k * w + v * m * w) by (nonlinear_arith)
            requires
                1 + c2 / 5 == k + 1,
        ;
    }
    assert(v * m * k * w == v * 1 * k * 1 * m * w) by (nonlinear_arith);
}

/// A game starts with three lives, and each level of the starting-lives
/// upgrade adds one.
pub proof fn lemma_starting_lives(u: Upgrades)
    requires
        u.starting_lives_level <= i32::MAX - 3,
    ensures
        u.lives_at_start() == 3 + u.starting_lives_level,
{
}

/// The mothership arrives with 50 of 50 hit points, in phase 1, active.
pub proof fn lemma_boss_arrives_fresh()
    ensures
        BossHealth::arriving().hp == 50,
        BossHealth::arriving().max_hp == 50,
        BossHealth::arriving().phase == 1,
        BossHealth::arriving().is_active,
{
}

/// Counting destructible bricks adds up over any split of the bricks: a
/// brick counts one when it stands and is not unbreakable, and zero when it
/// is destroyed or unbreakable.
pub proof fn lemma_destructible_count_adds_up(a: Seq<BrickStatus>, b: Seq<BrickStatus>, x: BrickStatus)
    ensures
        destructible_count(a + b) == destructible_count(a) + destructible_count(b),
        destructible_count(seq![x]) == (if !x.is_destroyed && x.brick_type != BrickType::Unbreakable {
            1nat
        } else {
            0nat
        }),
        destructible_count(a) <= a.len(),
    decreases b.len(),
{
    assert(seq![x].drop_last() =~= Seq::<BrickStatus>::empty());
    assert(destructible_count(Seq::<BrickStatus>::empty()) == 0);
    assert(seq![x].last() == x);
    assert(seq![x].len() == 1);
    lemma_count_at_most_len(a);
    if b.len() == 0 {
        assert(a + b =~= a);
    } else {
        lemma_destructible_count_adds_up(a, b.drop_last(), x);
        assert((a + b).drop_last() =~= a + b.drop_last());
        assert((a + b).last() == b.last());
    }
}

proof fn lemma_count_at_most_len(a: Seq<BrickStatus>)
    ensures
        destructible_count(a) <= a.len(),
    decreases a.len(),
{
    if a.len() > 0 {
        lemma_count_at_most_len(a.drop_last());
    }
}

} // verus!
