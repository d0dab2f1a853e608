//! Sound effects that the rules ask for.
use vstd::prelude::*;

verus! {

/// A sound effect to play.
#[derive(Clone, Copy, Debug, PartialEq, Eq, Structural)]
pub enum SoundEvent {
    BallSpawn,
    FlipperPress,
    FlipperRelease,
    TowerHit,
    BallHitsEnd,
    BallHitsEnemy,
    BallHitsFoundation,
    BallHitsWall,
    EnemyReachEnd,
    TowerBuild,
    TowerUpgradeRange,
    TowerUpgradeDamage,
    CounterTick,
    BallStarterCharge,
    BallStarterFire,
    PbMenuFadeIn,
    PbMenuFadeOut,
    PbMenuActive,
    ExtraFieldHit,
    ExtraFieldFire,
}

/// Whether the sound has several recordings, one picked at random and
/// played at a random speed; the others have one recording played at
/// normal speed.
pub open spec fn spec_has_variants(ev: SoundEvent) -> bool {
    match ev {
        SoundEvent::FlipperPress | SoundEvent::FlipperRelease | SoundEvent::TowerHit
        | SoundEvent::BallHitsFoundation | SoundEvent::BallHitsWall
        | SoundEvent::CounterTick => true,
        _ => false,
    }
}

impl SoundEvent {
    pub fn has_variants(&self) -> (r: bool)
        ensures
            r == spec_has_variants(*self),
    {
        match self {
            SoundEvent::FlipperPress | SoundEvent::FlipperRelease | SoundEvent::TowerHit
            | SoundEvent::BallHitsFoundation | SoundEvent::BallHitsWall
            | SoundEvent::CounterTick => true,
            _ => false,
        }
    }
}

/// The flipper sounds, the tower hit, the ball hitting a foundation or a
/// wall and the counter tick have several recordings; every other sound
/// has one.
pub proof fn sounds_with_variants(ev: SoundEvent)
    ensures
        spec_has_variants(SoundEvent::FlipperPress),
        spec_has_variants(SoundEvent::FlipperRelease),
        spec_has_variants(SoundEvent::TowerHit),
        spec_has_variants(SoundEvent::BallHitsFoundation),
        spec_has_variants(SoundEvent::BallHitsWall),
        spec_has_variants(SoundEvent::CounterTick),
        ev != SoundEvent::FlipperPress && ev != SoundEvent::FlipperRelease && ev != SoundEvent::TowerHit
            && ev != SoundEvent::BallHitsFoundation && ev != SoundEvent::BallHitsWall && ev != SoundEvent::CounterTick
            ==> !spec_has_variants(ev),
{
}

/// The sounds to start this frame: all requested ones when the effect
/// volume (per mille) is above zero, none otherwise.
pub fn sounds_to_play(fx_volume: i64, evs: &Vec<SoundEvent>) -> (r: Vec<SoundEvent>)
    ensures
        fx_volume > 0 ==> r@ == evs@,
        fx_volume <= 0 ==> r@.len() == 0,
{
    if fx_volume > 0 {
        evs.clone()
    } else {
        Vec::new()
    }
}

} // verus!
