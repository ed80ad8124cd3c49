use vstd::prelude::*;
use crate::game::SoundEvent;

verus! {

/// How long each sound effect rings, in milliseconds.
pub open spec fn duration_of(sfx: SoundEvent) -> u32 {
    match sfx {
        SoundEvent::BouncePaddle | SoundEvent::BounceWall => 80,
        SoundEvent::LaserFire => 100,
        SoundEvent::BrickDestroy => 120,
        SoundEvent::Explosion => 300,
        SoundEvent::PowerupPickup => 200,
        SoundEvent::Warp => 350,
        SoundEvent::GameOver => 600,
        SoundEvent::Victory => 800,
    }
}

/// The step of the explosion's noise generator, a linear congruential
/// generator modulo 2^32.
pub open spec fn noise_step(seed: u32) -> int {
    (seed * 1664525 + 1013904223) % 0x1_0000_0000
}

/// How long a sound effect rings, in milliseconds.
pub fn sound_duration_ms(sfx: SoundEvent) -> (ms: u32)
    ensures
        ms == duration_of(sfx),
{
    match sfx {
        SoundEvent::BouncePaddle | SoundEvent::BounceWall => 80,
        SoundEvent::LaserFire => 100,
        SoundEvent::BrickDestroy => 120,
        SoundEvent::Explosion => 300,
        SoundEvent::PowerupPickup => 200,
        SoundEvent::Warp => 350,
        SoundEvent::GameOver => 600,
        SoundEvent::Victory => 800,
    }
}

/// The next state of the explosion's noise generator.
pub fn next_noise_seed(seed: u32) -> (next: u32)
    ensures
        next == noise_step(seed),
{
    let wide: u64 = seed as u64 * 1664525 + 1013904223;
    (wide % 0x1_0000_0000) as u32
}

/// How long each sound rings: bounces 80 ms, the laser 100 ms, a brick
/// breaking 120 ms, a pick-up 200 ms, an explosion 300 ms, a warp 350 ms,
/// game over 600 ms and victory 800 ms, the longest; every sound ends within
/// a second.
pub proof fn lemma_sound_durations(sfx: SoundEvent)
    ensures
        duration_of(SoundEvent::BouncePaddle) == 80,
        duration_of(SoundEvent::BounceWall) == 80,
        duration_of(SoundEvent::LaserFire) == 100,
        duration_of(SoundEvent::BrickDestroy) == 120,
        duration_of(SoundEvent::Explosion) == 300,
        duration_of(SoundEvent::PowerupPickup) == 200,
        duration_of(SoundEvent::Warp) == 350,
        duration_of(SoundEvent::GameOver) == 600,
        duration_of(SoundEvent::Victory) == 800,
        80 <= duration_of(sfx) <= duration_of(SoundEvent::Victory) < 1000,
{
}

/// The noise generator is the linear congruential generator with
/// multiplier 1664525 and increment 1013904223 modulo 2^32: from seed 0 it
/// steps to the increment, and two seeds' steps differ by the multiplier
/// times their difference, modulo 2^32.
pub proof fn lemma_noise_generator(a: u32, b: u32)
    ensures
        noise_step(0) == 1013904223,
        0 <= noise_step(a) < 0x1_0000_0000,
        (noise_step(a) - noise_step(b) - 1664525 * (a - b)) % 0x1_0000_0000 == 0,
{
    let m: int = 0x1_0000_0000;
    let pa = a * 1664525 + 1013904223;
    let pb = b * 1664525 + 1013904223;
    assert((pa % m - pb % m - 1664525 * (a - b)) % m == 0) by (nonlinear_arith)
        requires
            m == 0x1_0000_0000,
            pa == a * 1664525 + 1013904223,
            pb == b * 1664525 + 1013904223,
    ;
}

} // verus!
