use vstd::prelude::*;

verus! {

/// The shapes a paddle can take.
#[derive(Debug, Clone, Copy, PartialEq, Eq, Structural)]
pub enum PaddleType {
    Normal,
    Short,
    Long,
    Sticky,
    Shielded,
    Laser,
}

impl PaddleType {
    /// The sprite file of this paddle shape.
    pub open spec fn sprite_file(self) -> &'static str {
        match self {
            PaddleType::Normal => "paddle_normal.png",
            PaddleType::Short => "paddle_short.png",
            PaddleType::Long => "paddle_long.png",
            PaddleType::Sticky => "paddle_sticky.png",
            PaddleType::Shielded => "paddle_shielded.png",
            PaddleType::Laser => "paddle_laser.png",
        }
    }

    /// Width and height of this paddle shape, in pixels.
    pub open spec fn size(self) -> (u32, u32) {
        match self {
            PaddleType::Normal => (160, 36),
            PaddleType::Short => (110, 34),
            PaddleType::Long => (220, 38),
            PaddleType::Sticky => (170, 42),
            PaddleType::Shielded => (170, 42),
            PaddleType::Laser => (165, 48),
        }
    }

    pub fn sprite_name(&self) -> (r: &'static str)
        ensures
            r == self.sprite_file(),
    {
        match self {
            PaddleType::Normal => "paddle_normal.png",
            PaddleType::Short => "paddle_short.png",
            PaddleType::Long => "paddle_long.png",
            PaddleType::Sticky => "paddle_sticky.png",
            PaddleType::Shielded => "paddle_shielded.png",
            PaddleType::Laser => "paddle_laser.png",
        }
    }

    /// Width and height of the paddle in whole pixels (every shape has
    /// integral dimensions).
    pub fn dimensions(&self) -> (r: (u32, u32))
        ensures
            r == self.size(),
    {
        match self {
            PaddleType::Normal => (160, 36),
            PaddleType::Short => (110, 34),
            PaddleType::Long => (220, 38),
            PaddleType::Sticky => (170, 42),
            PaddleType::Shielded => (170, 42),
            PaddleType::Laser => (165, 48),
        }
    }
}

/// The elemental kinds of ball.
#[derive(Debug, Clone, Copy, PartialEq, Eq, Structural)]
pub enum BallType {
    Normal,
    Fast,
    Fire,
    Ice,
    Electric,
}

impl BallType {
    pub open spec fn sprite_file(self) -> &'static str {
        match self {
            BallType::Normal => "ball_normal.png",
            BallType::Fast => "ball_fast.png",
            BallType::Fire => "ball_fire.png",
            BallType::Ice => "ball_ice.png",
            BallType::Electric => "ball_electric.png",
        }
    }

    /// Speed factor of this ball kind, in hundredths.
    pub open spec fn speed_percent(self) -> u32 {
        match self {
            BallType::Normal => 100,
            BallType::Fast => 145,
            BallType::Fire => 110,
            BallType::Ice => 90,
            BallType::Electric => 125,
        }
    }

    pub fn sprite_name(&self) -> (r: &'static str)
        ensures
            r == self.sprite_file(),
    {
        match self {
            BallType::Normal => "ball_normal.png",
            BallType::Fast => "ball_fast.png",
            BallType::Fire => "ball_fire.png",
            BallType::Ice => "ball_ice.png",
            BallType::Electric => "ball_electric.png",
        }
    }

    /// The speed factor of this ball kind, in hundredths: 100 is 1.0,
    /// 145 is 1.45.
    pub fn speed_multiplier(&self) -> (r: u32)
        ensures
            r == self.speed_percent(),
    {
        match self {
            BallType::Normal => 100,
            BallType::Fast => 145,
            BallType::Fire => 110,
            BallType::Ice => 90,
            BallType::Electric => 125,
        }
    }

    /// A fire ball melts through bricks without bouncing off them.
    pub fn is_piercing(&self) -> (r: bool)
        ensures
            r <==> *self == BallType::Fire,
    {
        match self {
            BallType::Fire => true,
            _ => false,
        }
    }
}

/// The kinds of brick.
#[derive(Debug, Clone, Copy, PartialEq, Eq, Structural)]
pub enum BrickType {
    ColorRed,
    ColorOrange,
    ColorYellow,
    ColorGreen,
    ColorBlue,
    ColorPurple,
    ArmoredDark,
    ArmoredGold,
    Unbreakable,
    Explosive,
    Powerup,
    Moving,
    Portal,
}

impl BrickType {
    /// Hit points of a fresh brick of this kind.
    pub open spec fn full_hp(self) -> i32 {
        match self {
            BrickType::ArmoredDark => 2,
            BrickType::ArmoredGold => 3,
            BrickType::Unbreakable => 9999,
            _ => 1,
        }
    }

    pub open spec fn sprite_file(self) -> &'static str {
        match self {
            BrickType::ColorRed => "brick_red.png",
            BrickType::ColorOrange => "brick_orange.png",
            BrickType::ColorYellow => "brick_yellow.png",
            BrickType::ColorGreen => "brick_green.png",
            BrickType::ColorBlue => "brick_blue.png",
            BrickType::ColorPurple => "brick_purple.png",
            BrickType::ArmoredDark => "brick_armored_dark.png",
            BrickType::ArmoredGold => "brick_armored_gold.png",
            BrickType::Unbreakable => "brick_unbreakable.png",
            BrickType::Explosive => "brick_explosive.png",
            BrickType::Powerup => "brick_powerup.png",
            BrickType::Moving => "brick_moving.png",
            BrickType::Portal => "brick_portal_exit.png",
        }
    }

    /// Base score for destroying a brick of this kind.
    pub open spec fn score_value(self) -> u32 {
        match self {
            BrickType::ColorRed => 100,
            BrickType::ColorOrange => 90,
            BrickType::ColorYellow => 80,
            BrickType::ColorGreen => 70,
            BrickType::ColorBlue => 60,
            BrickType::ColorPurple => 50,
            BrickType::ArmoredDark => 250,
            BrickType::ArmoredGold => 500,
            BrickType::Explosive => 200,
            BrickType::Powerup => 150,
            BrickType::Moving => 300,
            BrickType::Portal => 180,
            BrickType::Unbreakable => 0,
        }
    }

    /// The kind whose sprite file is named `name`; an unknown name reads as
    /// a red brick.
    pub open spec fn named(name: Seq<char>) -> BrickType {
        if name == "brick_red.png"@ {
            BrickType::ColorRed
        } else if name == "brick_orange.png"@ {
            BrickType::ColorOrange
        } else if name == "brick_yellow.png"@ {
            BrickType::ColorYellow
        } else if name == "brick_green.png"@ {
            BrickType::ColorGreen
        } else if name == "brick_blue.png"@ {
            BrickType::ColorBlue
        } else if name == "brick_purple.png"@ {
            BrickType::ColorPurple
        } else if name == "brick_armored_dark.png"@ {
            BrickType::ArmoredDark
        } else if name == "brick_armored_gold.png"@ {
            BrickType::ArmoredGold
        } else if name == "brick_unbreakable.png"@ {
            BrickType::Unbreakable
        } else if name == "brick_explosive.png"@ {
            BrickType::Explosive
        } else if name == "brick_powerup.png"@ {
            BrickType::Powerup
        } else if name == "brick_moving.png"@ {
            BrickType::Moving
        } else if name == "brick_portal_exit.png"@ {
            BrickType::Portal
        } else {
            BrickType::ColorRed
        }
    }

    pub fn max_hp(&self) -> (r: i32)
        ensures
            r == self.full_hp(),
    {
        match self {
            BrickType::ArmoredDark => 2,
            BrickType::ArmoredGold => 3,
            BrickType::Unbreakable => 9999,
            _ => 1,
        }
    }

    pub fn base_sprite_name(&self) -> (r: &'static str)
        ensures
            r == self.sprite_file(),
    {
        match self {
            BrickType::ColorRed => "brick_red.png",
            BrickType::ColorOrange => "brick_orange.png",
            BrickType::ColorYellow => "brick_yellow.png",
            BrickType::ColorGreen => "brick_green.png",
            BrickType::ColorBlue => "brick_blue.png",
            BrickType::ColorPurple => "brick_purple.png",
            BrickType::ArmoredDark => "brick_armored_dark.png",
            BrickType::ArmoredGold => "brick_armored_gold.png",
            BrickType::Unbreakable => "brick_unbreakable.png",
            BrickType::Explosive => "brick_explosive.png",
            BrickType::Powerup => "brick_powerup.png",
            BrickType::Moving => "brick_moving.png",
            BrickType::Portal => "brick_portal_exit.png",
        }
    }

    pub fn points(&self) -> (r: u32)
        ensures
            r == self.score_value(),
    {
        match self {
            BrickType::ColorRed => 100,
            BrickType::ColorOrange => 90,
            BrickType::ColorYellow => 80,
            BrickType::ColorGreen => 70,
            BrickType::ColorBlue => 60,
            BrickType::ColorPurple => 50,
            BrickType::ArmoredDark => 250,
            BrickType::ArmoredGold => 500,
            BrickType::Explosive => 200,
            BrickType::Powerup => 150,
            BrickType::Moving => 300,
            BrickType::Portal => 180,
            BrickType::Unbreakable => 0,
        }
    }

    /// Reads a brick kind back from its sprite file name, as a saved custom
    /// level stores it. An unknown name reads as a red brick.
    pub fn from_sprite_name(name: &str) -> (r: BrickType)
        ensures
            r == BrickType::named(name@),
    {
        let n = owned_text(name);
        if text_eq(&n, "brick_red.png") {
            BrickType::ColorRed
        } else if text_eq(&n, "brick_orange.png") {
            BrickType::ColorOrange
        } else if text_eq(&n, "brick_yellow.png") {
            BrickType::ColorYellow
        } else if text_eq(&n, "brick_green.png") {
            BrickType::ColorGreen
        } else if text_eq(&n, "brick_blue.png") {
            BrickType::ColorBlue
        } else if text_eq(&n, "brick_purple.png") {
            BrickType::ColorPurple
        } else if text_eq(&n, "brick_armored_dark.png") {
            BrickType::ArmoredDark
        } else if text_eq(&n, "brick_armored_gold.png") {
            BrickType::ArmoredGold
        } else if text_eq(&n, "brick_unbreakable.png") {
            BrickType::Unbreakable
        } else if text_eq(&n, "brick_explosive.png") {
            BrickType::Explosive
        } else if text_eq(&n, "brick_powerup.png") {
            BrickType::Powerup
        } else if text_eq(&n, "brick_moving.png") {
            BrickType::Moving
        } else if text_eq(&n, "brick_portal_exit.png") {
            BrickType::Portal
        } else {
            BrickType::ColorRed
        }
    }
}

/// An owned copy of `s`.
pub(crate) fn owned_text(s: &str) -> (r: String)
    ensures
        r@ == s@,
{
    let r = s.to_string();
    proof {
        vstd::string::to_string_from_display_ensures_for_str(s, r);
    }
    r
}

/// Whether `a` holds the text `b`.
pub(crate) fn text_eq(a: &String, b: &str) -> (r: bool)
    ensures
        r == (a@ == b@),
{
    let other = owned_text(b);
    *a == other
}

/// The power-up capsules a destroyed brick may drop.
#[derive(Debug, Clone, Copy, PartialEq, Eq, Structural)]
pub enum PowerUpType {
    Multiball,
    ExtraLife,
    Expand,
    Shrink,
    Sticky,
    Laser,
    Fireball,
    Slow,
    Shield,
    ScoreMultiplier,
}

impl PowerUpType {
    pub open spec fn sprite_file(self) -> &'static str {
        match self {
            PowerUpType::Multiball => "powerup_multiball.png",
            PowerUpType::ExtraLife => "powerup_extra_life.png",
            PowerUpType::Expand => "powerup_expand.png",
            PowerUpType::Shrink => "powerup_shrink.png",
            PowerUpType::Sticky => "powerup_sticky.png",
            PowerUpType::Laser => "powerup_laser.png",
            PowerUpType::Fireball => "powerup_fireball.png",
            PowerUpType::Slow => "powerup_slow.png",
            PowerUpType::Shield => "powerup_shield.png",
            PowerUpType::ScoreMultiplier => "powerup_score_x.png",
        }
    }

    /// The banner text shown when the capsule is picked up.
    pub open spec fn banner(self) -> &'static str {
        match self {
            PowerUpType::Multiball => "MULTI-BALL!",
            PowerUpType::ExtraLife => "EXTRA LIFE!",
            PowerUpType::Expand => "EXPAND PADDLE!",
            PowerUpType::Shrink => "SHRINK PADDLE!",
            PowerUpType::Sticky => "STICKY PADDLE!",
            PowerUpType::Laser => "LASER CANNONS!",
            PowerUpType::Fireball => "FIREBALL!",
            PowerUpType::Slow => "SLO-MO BALL!",
            PowerUpType::Shield => "SAFETY SHIELD!",
            PowerUpType::ScoreMultiplier => "SCORE 2X!",
        }
    }

    /// The paddle shape a capsule gives, if it changes the paddle.
    pub open spec fn paddle_change(self) -> Option<PaddleType> {
        match self {
            PowerUpType::Expand => Some(PaddleType::Long),
            PowerUpType::Shrink => Some(PaddleType::Short),
            PowerUpType::Sticky => Some(PaddleType::Sticky),
            PowerUpType::Laser => Some(PaddleType::Laser),
            _ => None,
        }
    }

    pub fn sprite_name(&self) -> (r: &'static str)
        ensures
            r == self.sprite_file(),
    {
        match self {
            PowerUpType::Multiball => "powerup_multiball.png",
            PowerUpType::ExtraLife => "powerup_extra_life.png",
            PowerUpType::Expand => "powerup_expand.png",
            PowerUpType::Shrink => "powerup_shrink.png",
            PowerUpType::Sticky => "powerup_sticky.png",
            PowerUpType::Laser => "powerup_laser.png",
            PowerUpType::Fireball => "powerup_fireball.png",
            PowerUpType::Slow => "powerup_slow.png",
            PowerUpType::Shield => "powerup_shield.png",
            PowerUpType::ScoreMultiplier => "powerup_score_x.png",
        }
    }

    pub fn label(&self) -> (r: &'static str)
        ensures
            r == self.banner(),
    {
        match self {
            PowerUpType::Multiball => "MULTI-BALL!",
            PowerUpType::ExtraLife => "EXTRA LIFE!",
            PowerUpType::Expand => "EXPAND PADDLE!",
            PowerUpType::Shrink => "SHRINK PADDLE!",
            PowerUpType::Sticky => "STICKY PADDLE!",
            PowerUpType::Laser => "LASER CANNONS!",
            PowerUpType::Fireball => "FIREBALL!",
            PowerUpType::Slow => "SLO-MO BALL!",
            PowerUpType::Shield => "SAFETY SHIELD!",
            PowerUpType::ScoreMultiplier => "SCORE 2X!",
        }
    }

    /// The paddle shape that picking up this capsule switches to, if any.
    pub fn paddle_shape(&self) -> (r: Option<PaddleType>)
        ensures
            r == self.paddle_change(),
    {
        match self {
            PowerUpType::Expand => Some(PaddleType::Long),
            PowerUpType::Shrink => Some(PaddleType::Short),
            PowerUpType::Sticky => Some(PaddleType::Sticky),
            PowerUpType::Laser => Some(PaddleType::Laser),
            _ => None,
        }
    }
}

/// The environmental hazards of a stage.
#[derive(Debug, Clone, Copy, PartialEq, Eq, Structural)]
pub enum HazardType {
    Spikes,
    Mine,
    Bumper,
    Electric,
    Turret,
}

impl HazardType {
    pub open spec fn sprite_file(self) -> &'static str {
        match self {
            HazardType::Spikes => "hazard_spikes.png",
            HazardType::Mine => "hazard_mine.png",
            HazardType::Bumper => "hazard_bumper.png",
            HazardType::Electric => "hazard_electric.png",
            HazardType::Turret => "hazard_turret.png",
        }
    }

    pub fn sprite_name(&self) -> (r: &'static str)
        ensures
            r == self.sprite_file(),
    {
        match self {
            HazardType::Spikes => "hazard_spikes.png",
            HazardType::Mine => "hazard_mine.png",
            HazardType::Bumper => "hazard_bumper.png",
            HazardType::Electric => "hazard_electric.png",
            HazardType::Turret => "hazard_turret.png",
        }
    }
}

/// How many past positions a ball's motion trail keeps.
pub const TRAIL_LENGTH: usize = 10;

/// The trail after a moving ball records `point`: the point is appended and,
/// once the trail is longer than `TRAIL_LENGTH`, its oldest point is dropped.
pub open spec fn trail_after<T>(trail: Seq<T>, point: T) -> Seq<T> {
    if trail.len() + 1 > TRAIL_LENGTH {
        trail.push(point).drop_first()
    } else {
        trail.push(point)
    }
}

/// Records a moving ball's position in its motion trail.
pub fn record_trail_point<T>(trail: &mut Vec<T>, point: T)
    ensures
        final(trail)@ == trail_after(old(trail)@, point),
{
    trail.push(point);
    if trail.len() > TRAIL_LENGTH {
        trail.remove(0);
    }
}

/// The trail never grows past `TRAIL_LENGTH` points: recording a point in a
/// trail within the bound keeps it within the bound.
pub proof fn lemma_trail_stays_bounded<T>(trail: Seq<T>, point: T)
    requires
        trail.len() <= TRAIL_LENGTH,
    ensures
        trail_after(trail, point).len() <= TRAIL_LENGTH,
        trail_after(trail, point).last() == point,
{
}

/// The health of one brick: what the rules read of a brick besides its
/// position and size.
#[derive(Debug, Clone, Copy, PartialEq, Eq, Structural)]
pub struct BrickStatus {
    pub id: usize,
    pub brick_type: BrickType,
    pub hp: i32,
    pub max_hp: i32,
    pub is_destroyed: bool,
}

impl BrickStatus {
    /// A brick as it is placed: at full health and standing.
    pub open spec fn fresh(id: usize, brick_type: BrickType) -> BrickStatus {
        BrickStatus {
            id,
            brick_type,
            hp: brick_type.full_hp(),
            max_hp: brick_type.full_hp(),
            is_destroyed: false,
        }
    }

    /// The brick after one hit: an unbreakable brick is untouched; any other
    /// loses a hit point and is destroyed once none are left.
    pub open spec fn after_hit(self) -> BrickStatus {
        if self.brick_type == BrickType::Unbreakable {
            self
        } else {
            BrickStatus {
                id: self.id,
                brick_type: self.brick_type,
                hp: (self.hp - 1) as i32,
                max_hp: self.max_hp,
                is_destroyed: self.is_destroyed || self.hp - 1 <= 0,
            }
        }
    }

    /// The brick after `k` hits.
    pub open spec fn after_hits(self, k: nat) -> BrickStatus
        decreases k,
    {
        if k == 0 {
            self
        } else {
            self.after_hits((k - 1) as nat).after_hit()
        }
    }

    /// How cracked a brick looks: 0 for single-hit, unbreakable or
    /// undamaged bricks; otherwise 1, 2 or 3 as the share of hit points left
    /// falls to 67% and then to 34%.
    pub open spec fn crack_level(self) -> int {
        if self.max_hp <= 1 || self.hp >= self.max_hp || self.brick_type == BrickType::Unbreakable {
            0
        } else if 100 * self.hp <= 34 * self.max_hp {
            3
        } else if 100 * self.hp <= 67 * self.max_hp {
            2
        } else {
            1
        }
    }

    /// The damage overlay sprite drawn over a brick at its crack level.
    pub open spec fn overlay(self) -> Option<&'static str> {
        if self.crack_level() == 3 {
            Some("brick_damage_3.png")
        } else if self.crack_level() == 2 {
            Some("brick_damage_2.png")
        } else if self.crack_level() == 1 {
            Some("brick_damage_1.png")
        } else {
            None
        }
    }

    pub fn new(id: usize, brick_type: BrickType) -> (r: BrickStatus)
        ensures
            r == BrickStatus::fresh(id, brick_type),
    {
        let max_hp = brick_type.max_hp();
        BrickStatus { id, brick_type, hp: max_hp, max_hp, is_destroyed: false }
    }

    /// Hits the brick once. Returns whether the hit took its last hit point
    /// (then the brick is destroyed).
    pub fn hit(&mut self) -> (broke: bool)
        requires
            old(self).brick_type != BrickType::Unbreakable ==> old(self).hp > i32::MIN,
        ensures
            *final(self) == old(self).after_hit(),
            broke <==> (old(self).brick_type != BrickType::Unbreakable && old(self).hp - 1 <= 0),
    {
        if self.brick_type == BrickType::Unbreakable {
            return false;
        }
        self.hp = self.hp - 1;
        if self.hp <= 0 {
            self.is_destroyed = true;
            true
        } else {
            false
        }
    }

    /// A blast set off by the explosive brick with id `blast_id` reaches this
    /// brick. Any other brick still standing that is not unbreakable is
    /// destroyed at once; returns whether it was.
    pub fn caught_in_blast(&mut self, blast_id: usize) -> (destroyed: bool)
        ensures
            destroyed <==> (!old(self).is_destroyed && old(self).id != blast_id
                && old(self).brick_type != BrickType::Unbreakable),
            *final(self) == (BrickStatus { is_destroyed: old(self).is_destroyed || destroyed, ..*old(self) }),
    {
        if !self.is_destroyed && self.id != blast_id && self.brick_type != BrickType::Unbreakable {
            self.is_destroyed = true;
            true
        } else {
            false
        }
    }

    /// The crack overlay to draw over this brick, if any. The thresholds
    /// compare the share of hit points left, `hp / max_hp`, with 0.34 and
    /// 0.67 exactly.
    pub fn damage_overlay(&self) -> (r: Option<&'static str>)
        ensures
            r == self.overlay(),
    {
        if self.max_hp <= 1 || self.hp >= self.max_hp || self.brick_type == BrickType::Unbreakable {
            return None;
        }
        let hp: i64 = self.hp as i64;
        let max_hp: i64 = self.max_hp as i64;
        if 100 * hp <= 34 * max_hp {
            Some("brick_damage_3.png")
        } else if 100 * hp <= 67 * max_hp {
            Some("brick_damage_2.png")
        } else {
            Some("brick_damage_1.png")
        }
    }
}

/// A breakable brick takes exactly as many hits as its kind has hit points:
/// after `k` hits it has `full_hp - k` left, and it is destroyed exactly
/// when `k` reaches its full hit points.
pub proof fn lemma_brick_breaks_after_full_hp_hits(id: usize, t: BrickType, k: nat)
    requires
        t != BrickType::Unbreakable,
        k <= t.full_hp(),
    ensures
        BrickStatus::fresh(id, t).after_hits(k).hp == t.full_hp() - k,
        BrickStatus::fresh(id, t).after_hits(k).is_destroyed <==> k == t.full_hp(),
        BrickStatus::fresh(id, t).after_hits(k).brick_type == t,
    decreases k,
{
    if k > 0 {
        lemma_brick_breaks_after_full_hp_hits(id, t, (k - 1) as nat);
    }
}

/// No number of hits destroys or damages an unbreakable brick.
pub proof fn lemma_unbreakable_never_breaks(id: usize, k: nat)
    ensures
        BrickStatus::fresh(id, BrickType::Unbreakable).after_hits(k) == BrickStatus::fresh(
            id,
            BrickType::Unbreakable,
        ),
    decreases k,
{
    if k > 0 {
        lemma_unbreakable_never_breaks(id, (k - 1) as nat);
    }
}

/// A brick at full health shows no crack overlay.
pub proof fn lemma_fresh_brick_has_no_overlay(id: usize, t: BrickType)
    ensures
        BrickStatus::fresh(id, t).overlay() is None,
{
}

/// Saving a brick kind by its sprite file name and reading the name back
/// gives the same kind, so a saved custom level keeps its bricks' kinds.
pub proof fn lemma_sprite_name_round_trip(t: BrickType)
    ensures
        BrickType::named(t.sprite_file()@) == t,
{
    reveal_strlit("brick_red.png");
    reveal_strlit("brick_orange.png");
    reveal_strlit("brick_yellow.png");
    reveal_strlit("brick_green.png");
    reveal_strlit("brick_blue.png");
    reveal_strlit("brick_purple.png");
    reveal_strlit("brick_armored_dark.png");
    reveal_strlit("brick_armored_gold.png");
    reveal_strlit("brick_unbreakable.png");
    reveal_strlit("brick_explosive.png");
    reveal_strlit("brick_powerup.png");
    reveal_strlit("brick_moving.png");
    reveal_strlit("brick_portal_exit.png");
    match t {
        BrickType::ColorRed => {
        },
        BrickType::ColorOrange => {
            assert("brick_orange.png"@.len() != "brick_red.png"@.len());
        },
        BrickType::ColorYellow => {
            assert("brick_yellow.png"@.len() != "brick_red.png"@.len());
            assert("brick_yellow.png"@[6] != "brick_orange.png"@[6]);
        },
        BrickType::ColorGreen => {
            assert("brick_green.png"@.len() != "brick_red.png"@.len());
            assert("brick_green.png"@.len() != "brick_orange.png"@.len());
            assert("brick_green.png"@.len() != "brick_yellow.png"@.len());
        },
        BrickType::ColorBlue => {
            assert("brick_blue.png"@.len() != "brick_red.png"@.len());
            assert("brick_blue.png"@.len() != "brick_orange.png"@.len());
            assert("brick_blue.png"@.len() != "brick_yellow.png"@.len());
            assert("brick_blue.png"@.len() != "brick_green.png"@.len());
        },
        BrickType::ColorPurple => {
            assert("brick_purple.png"@.len() != "brick_red.png"@.len());
            assert("brick_purple.png"@[6] != "brick_orange.png"@[6]);
            assert("brick_purple.png"@[6] != "brick_yellow.png"@[6]);
            assert("brick_purple.png"@.len() != "brick_green.png"@.len());
            assert("brick_purple.png"@.len() != "brick_blue.png"@.len());
        },
        BrickType::ArmoredDark => {
            assert("brick_armored_dark.png"@.len() != "brick_red.png"@.len());
            assert("brick_armored_dark.png"@.len() != "brick_orange.png"@.len());
            assert("brick_armored_dark.png"@.len() != "brick_yellow.png"@.len());
            assert("brick_armored_dark.png"@.len() != "brick_green.png"@.len());
            assert("brick_armored_dark.png"@.len() != "brick_blue.png"@.len());
            assert("brick_armored_dark.png"@.len() != "brick_purple.png"@.len());
        },
        BrickType::ArmoredGold => {
            assert("brick_armored_gold.png"@.len() != "brick_red.png"@.len());
            assert("brick_armored_gold.png"@.len() != "brick_orange.png"@.len());
            assert("brick_armored_gold.png"@.len() != "brick_yellow.png"@.len());
            assert("brick_armored_gold.png"@.len() != "brick_green.png"@.len());
            assert("brick_armored_gold.png"@.len() != "brick_blue.png"@.len());
            assert("brick_armored_gold.png"@.len() != "brick_purple.png"@.len());
            assert("brick_armored_gold.png"@[14] != "brick_armored_dark.png"@[14]);
        },
        BrickType::Unbreakable => {
            assert("brick_unbreakable.png"@.len() != "brick_red.png"@.len());
            assert("brick_unbreakable.png"@.len() != "brick_orange.png"@.len());
            assert("brick_unbreakable.png"@.len() != "brick_yellow.png"@.len());
            assert("brick_unbreakable.png"@.len() != "brick_green.png"@.len());
            assert("brick_unbreakable.png"@.len() != "brick_blue.png"@.len());
            assert("brick_unbreakable.png"@.len() != "brick_purple.png"@.len());
            assert("brick_unbreakable.png"@.len() != "brick_armored_dark.png"@.len());
            assert("brick_unbreakable.png"@.len() != "brick_armored_gold.png"@.len());
        },
        BrickType::Explosive => {
            assert("brick_explosive.png"@.len() != "brick_red.png"@.len());
            assert("brick_explosive.png"@.len() != "brick_orange.png"@.len());
            assert("brick_explosive.png"@.len() != "brick_yellow.png"@.len());
            assert("brick_explosive.png"@.len() != "brick_green.png"@.len());
            assert("brick_explosive.png"@.len() != "brick_blue.png"@.len());
            assert("brick_explosive.png"@.len() != "brick_purple.png"@.len());
            assert("brick_explosive.png"@.len() != "brick_armored_dark.png"@.len());
            assert("brick_explosive.png"@.len() != "brick_armored_gold.png"@.len());
            assert("brick_explosive.png"@.len() != "brick_unbreakable.png"@.len());
        },
        BrickType::Powerup => {
            assert("brick_powerup.png"@.len() != "brick_red.png"@.len());
            assert("brick_powerup.png"@.len() != "brick_orange.png"@.len());
            assert("brick_powerup.png"@.len() != "brick_yellow.png"@.len());
            assert("brick_powerup.png"@.len() != "brick_green.png"@.len());
            assert("brick_powerup.png"@.len() != "brick_blue.png"@.len());
            assert("brick_powerup.png"@.len() != "brick_purple.png"@.len());
            assert("brick_powerup.png"@.len() != "brick_armored_dark.png"@.len());
            assert("brick_powerup.png"@.len() != "brick_armored_gold.png"@.len());
            assert("brick_powerup.png"@.len() != "brick_unbreakable.png"@.len());
            assert("brick_powerup.png"@.len() != "brick_explosive.png"@.len());
        },
        BrickType::Moving => {
            assert("brick_moving.png"@.len() != "brick_red.png"@.len());
            assert("brick_moving.png"@[6] != "brick_orange.png"@[6]);
            assert("brick_moving.png"@[6] != "brick_yellow.png"@[6]);
            assert("brick_moving.png"@.len() != "brick_green.png"@.len());
            assert("brick_moving.png"@.len() != "brick_blue.png"@.len());
            assert("brick_moving.png"@[6] != "brick_purple.png"@[6]);
            assert("brick_moving.png"@.len() != "brick_armored_dark.png"@.len());
            assert("brick_moving.png"@.len() != "brick_armored_gold.png"@.len());
            assert("brick_moving.png"@.len() != "brick_unbreakable.png"@.len());
            assert("brick_moving.png"@.len() != "brick_explosive.png"@.len());
            assert("brick_moving.png"@.len() != "brick_powerup.png"@.len());
        },
        BrickType::Portal => {
            assert("brick_portal_exit.png"@.len() != "brick_red.png"@.len());
            assert("brick_portal_exit.png"@.len() != "brick_orange.png"@.len());
            assert("brick_portal_exit.png"@.len() != "brick_yellow.png"@.len());
            assert("brick_portal_exit.png"@.len() != "brick_green.png"@.len());
            assert("brick_portal_exit.png"@.len() != "brick_blue.png"@.len());
            assert("brick_portal_exit.png"@.len() != "brick_purple.png"@.len());
            assert("brick_portal_exit.png"@.len() != "brick_armored_dark.png"@.len());
            assert("brick_portal_exit.png"@.len() != "brick_armored_gold.png"@.len());
            assert("brick_portal_exit.png"@[6] != "brick_unbreakable.png"@[6]);
            assert("brick_portal_exit.png"@.len() != "brick_explosive.png"@.len());
            assert("brick_portal_exit.png"@.len() != "brick_powerup.png"@.len());
            assert("brick_portal_exit.png"@.len() != "brick_moving.png"@.len());
        },
    }
}

/// Cracks only deepen as a damaged brick loses hit points: of two states of
/// one brick, the one with fewer hit points left shows at least as heavy a
/// crack overlay.
pub proof fn lemma_cracks_deepen(b: BrickStatus, hp_after: i32)
    requires
        hp_after <= b.hp < b.max_hp,
    ensures
        (BrickStatus { hp: hp_after, ..b }).crack_level() >= b.crack_level(),
{
    if b.max_hp > 1 && b.brick_type != BrickType::Unbreakable {
        assert(100 * hp_after <= 100 * b.hp);
    }
}

/// Only armoured and unbreakable bricks take more than one hit: dark armour
/// takes 2, gold armour 3, an unbreakable brick has 9999 hit points, and
/// every other kind has a single hit point, so a fresh brick of such a kind
/// is destroyed by its first hit.
pub proof fn lemma_hit_points_by_kind(id: usize, t: BrickType)
    ensures
        t == BrickType::ArmoredDark ==> t.full_hp() == 2,
        t == BrickType::ArmoredGold ==> t.full_hp() == 3,
        t == BrickType::Unbreakable ==> t.full_hp() == 9999,
        t != BrickType::ArmoredDark && t != BrickType::ArmoredGold && t != BrickType::Unbreakable
            ==> t.full_hp() == 1 && BrickStatus::fresh(id, t).after_hit().is_destroyed,
        t != BrickType::Unbreakable ==> 1 <= t.full_hp() <= 3,
{
}

/// The base score of each brick kind. The six colour bricks fall by ten
/// points from red (100) to purple (50); dark armour is worth 250, gold
/// armour 500 (the most), explosive 200, power-up 150, moving 300, portal
/// 180; an unbreakable brick is worth nothing.
pub proof fn lemma_base_score_table(t: BrickType)
    ensures
        BrickType::ColorRed.score_value() == 100,
        BrickType::ColorOrange.score_value() == 90,
        BrickType::ColorYellow.score_value() == 80,
        BrickType::ColorGreen.score_value() == 70,
        BrickType::ColorBlue.score_value() == 60,
        BrickType::ColorPurple.score_value() == 50,
        BrickType::ArmoredDark.score_value() == 250,
        BrickType::ArmoredGold.score_value() == 500,
        BrickType::Explosive.score_value() == 200,
        BrickType::Powerup.score_value() == 150,
        BrickType::Moving.score_value() == 300,
        BrickType::Portal.score_value() == 180,
        BrickType::Unbreakable.score_value() == 0,
        t.score_value() <= BrickType::ArmoredGold.score_value(),
        t.score_value() == 0 <==> t == BrickType::Unbreakable,
        t.score_value() % 10 == 0,
{
}

/// The paddle shapes' sizes: normal 160×36, short 110×34 (the narrowest),
/// long 220×38 (the widest), sticky and shielded 170×42, laser 165×48 (the
/// tallest).
pub proof fn lemma_paddle_sizes(p: PaddleType)
    ensures
        PaddleType::Normal.size() == (160u32, 36u32),
        PaddleType::Short.size() == (110u32, 34u32),
        PaddleType::Long.size() == (220u32, 38u32),
        PaddleType::Sticky.size() == (170u32, 42u32),
        PaddleType::Shielded.size() == (170u32, 42u32),
        PaddleType::Laser.size() == (165u32, 48u32),
        PaddleType::Short.size().0 <= p.size().0 <= PaddleType::Long.size().0,
        p.size().1 <= PaddleType::Laser.size().1,
{
}

/// The balls' speed factors in hundredths: normal 100, fast 145 (the
/// fastest), fire 110, ice 90 (the only one slower than normal), electric
/// 125.
pub proof fn lemma_ball_speeds(b: BallType)
    ensures
        BallType::Normal.speed_percent() == 100,
        BallType::Fast.speed_percent() == 145,
        BallType::Fire.speed_percent() == 110,
        BallType::Ice.speed_percent() == 90,
        BallType::Electric.speed_percent() == 125,
        BallType::Ice.speed_percent() <= b.speed_percent() <= BallType::Fast.speed_percent(),
        b.speed_percent() < 100 <==> b == BallType::Ice,
{
}

/// The sprite files of every kind of paddle, ball, brick, capsule and
/// hazard.
pub proof fn lemma_sprite_files()
    ensures
        PaddleType::Normal.sprite_file() == "paddle_normal.png",
        PaddleType::Short.sprite_file() == "paddle_short.png",
        PaddleType::Long.sprite_file() == "paddle_long.png",
        PaddleType::Sticky.sprite_file() == "paddle_sticky.png",
        PaddleType::Shielded.sprite_file() == "paddle_shielded.png",
        PaddleType::Laser.sprite_file() == "paddle_laser.png",
        BallType::Normal.sprite_file() == "ball_normal.png",
        BallType::Fast.sprite_file() == "ball_fast.png",
        BallType::Fire.sprite_file() == "ball_fire.png",
        BallType::Ice.sprite_file() == "ball_ice.png",
        BallType::Electric.sprite_file() == "ball_electric.png",
        BrickType::ColorRed.sprite_file() == "brick_red.png",
        BrickType::ColorOrange.sprite_file() == "brick_orange.png",
        BrickType::ColorYellow.sprite_file() == "brick_yellow.png",
        BrickType::ColorGreen.sprite_file() == "brick_green.png",
        BrickType::ColorBlue.sprite_file() == "brick_blue.png",
        BrickType::ColorPurple.sprite_file() == "brick_purple.png",
        BrickType::ArmoredDark.sprite_file() == "brick_armored_dark.png",
        BrickType::ArmoredGold.sprite_file() == "brick_armored_gold.png",
        BrickType::Unbreakable.sprite_file() == "brick_unbreakable.png",
        BrickType::Explosive.sprite_file() == "brick_explosive.png",
        BrickType::Powerup.sprite_file() == "brick_powerup.png",
        BrickType::Moving.sprite_file() == "brick_moving.png",
        BrickType::Portal.sprite_file() == "brick_portal_exit.png",
        PowerUpType::Multiball.sprite_file() == "powerup_multiball.png",
        PowerUpType::ExtraLife.sprite_file() == "powerup_extra_life.png",
        PowerUpType::Expand.sprite_file() == "powerup_expand.png",
        PowerUpType::Shrink.sprite_file() == "powerup_shrink.png",
        PowerUpType::Sticky.sprite_file() == "powerup_sticky.png",
        PowerUpType::Laser.sprite_file() == "powerup_laser.png",
        PowerUpType::Fireball.sprite_file() == "powerup_fireball.png",
        PowerUpType::Slow.sprite_file() == "powerup_slow.png",
        PowerUpType::Shield.sprite_file() == "powerup_shield.png",
        PowerUpType::ScoreMultiplier.sprite_file() == "powerup_score_x.png",
        HazardType::Spikes.sprite_file() == "hazard_spikes.png",
        HazardType::Mine.sprite_file() == "hazard_mine.png",
        HazardType::Bumper.sprite_file() == "hazard_bumper.png",
        HazardType::Electric.sprite_file() == "hazard_electric.png",
        HazardType::Turret.sprite_file() == "hazard_turret.png",
{
}

/// What each capsule announces on pick-up, and which change the paddle:
/// expand makes it long, shrink short, sticky sticky and laser arms it; no
/// other capsule touches the paddle's shape.
pub proof fn lemma_capsule_banners_and_paddles(p: PowerUpType)
    ensures
        PowerUpType::Multiball.banner() == "MULTI-BALL!",
        PowerUpType::ExtraLife.banner() == "EXTRA LIFE!",
        PowerUpType::Expand.banner() == "EXPAND PADDLE!",
        PowerUpType::Shrink.banner() == "SHRINK PADDLE!",
        PowerUpType::Sticky.banner() == "STICKY PADDLE!",
        PowerUpType::Laser.banner() == "LASER CANNONS!",
        PowerUpType::Fireball.banner() == "FIREBALL!",
        PowerUpType::Slow.banner() == "SLO-MO BALL!",
        PowerUpType::Shield.banner() == "SAFETY SHIELD!",
        PowerUpType::ScoreMultiplier.banner() == "SCORE 2X!",
        PowerUpType::Expand.paddle_change() == Some(PaddleType::Long),
        PowerUpType::Shrink.paddle_change() == Some(PaddleType::Short),
        PowerUpType::Sticky.paddle_change() == Some(PaddleType::Sticky),
        PowerUpType::Laser.paddle_change() == Some(PaddleType::Laser),
        p != PowerUpType::Expand && p != PowerUpType::Shrink && p != PowerUpType::Sticky && p
            != PowerUpType::Laser ==> p.paddle_change() is None,
        p.paddle_change() != Some(PaddleType::Normal) && p.paddle_change() != Some(
            PaddleType::Shielded,
        ),
{
}

/// The crack overlay's sprite deepens from `brick_damage_1.png` to
/// `brick_damage_3.png`: a gold-armoured brick shows the middle crack after
/// one hit and the heaviest after two; a dark-armoured brick shows the
/// middle crack after its one survivable hit.
pub proof fn lemma_armour_cracks(id: usize)
    ensures
        BrickStatus::fresh(id, BrickType::ArmoredGold).after_hit().overlay() == Some(
            "brick_damage_2.png",
        ),
        BrickStatus::fresh(id, BrickType::ArmoredGold).after_hit().after_hit().overlay() == Some(
            "brick_damage_3.png",
        ),
        BrickStatus::fresh(id, BrickType::ArmoredDark).after_hit().overlay() == Some(
            "brick_damage_2.png",
        ),
{
}

/// A saved brick name that is no brick's sprite file reads as a red brick.
pub proof fn lemma_unknown_names_read_as_red(name: Seq<char>)
    requires
        forall|t: BrickType| #[trigger] t.sprite_file()@ != name,
    ensures
        BrickType::named(name) == BrickType::ColorRed,
{
    assert(BrickType::ColorRed.sprite_file()@ != name);
    assert(BrickType::ColorOrange.sprite_file()@ != name);
    assert(BrickType::ColorYellow.sprite_file()@ != name);
    assert(BrickType::ColorGreen.sprite_file()@ != name);
    assert(BrickType::ColorBlue.sprite_file()@ != name);
    assert(BrickType::ColorPurple.sprite_file()@ != name);
    assert(BrickType::ArmoredDark.sprite_file()@ != name);
    assert(BrickType::ArmoredGold.sprite_file()@ != name);
    assert(BrickType::Unbreakable.sprite_file()@ != name);
    assert(BrickType::Explosive.sprite_file()@ != name);
    assert(BrickType::Powerup.sprite_file()@ != name);
    assert(BrickType::Moving.sprite_file()@ != name);
    assert(BrickType::Portal.sprite_file()@ != name);
}

/// The crack thresholds, as shares of the brick's hit points: a damaged
/// brick with more than one hit point (and not unbreakable) shows the
/// heaviest crack once at most 17 in 50 (34%) of its hit points are left,
/// at least the middle crack once at most 67 in 100 are left, and the
/// lightest crack above that.
pub proof fn lemma_crack_thresholds(b: BrickStatus)
    requires
        b.max_hp > 1,
        b.hp < b.max_hp,
        b.brick_type != BrickType::Unbreakable,
    ensures
        b.crack_level() == 3 <==> b.hp * 50 <= b.max_hp * 17,
        b.crack_level() >= 2 <==> b.hp * 100 <= b.max_hp * 67,
        b.crack_level() >= 1,
{
}

} // verus!
