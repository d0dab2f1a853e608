//! Particle effects that show the active effects.
use vstd::prelude::*;
use super::ExtraFieldKind;
use super::effects::{ActiveEffects, spec_is_active};

verus! {

/// Whether the ball trail of `trail` shows at `now`: the insta-kill trail
/// while insta-kill is active, the double-damage trail while double damage
/// is active and insta-kill is not; no other trail.
pub fn trail_active(effects: &ActiveEffects, now: i64, trail: ExtraFieldKind) -> (r: bool)
    ensures
        r == match trail {
            ExtraFieldKind::InstaKill => spec_is_active(*effects, now, ExtraFieldKind::InstaKill),
            ExtraFieldKind::DoubleDamage => spec_is_active(*effects, now, ExtraFieldKind::DoubleDamage)
                && !spec_is_active(*effects, now, ExtraFieldKind::InstaKill),
            _ => false,
        },
{
    let insta = effects.is_active(now, ExtraFieldKind::InstaKill);
    let double = effects.is_active(now, ExtraFieldKind::DoubleDamage);
    match trail {
        ExtraFieldKind::InstaKill => insta,
        ExtraFieldKind::DoubleDamage => double && !insta,
        _ => false,
    }
}

/// Snow falls on the enemies while they are slowed down.
pub fn snow_active(effects: &ActiveEffects, now: i64) -> (r: bool)
    ensures
        r == spec_is_active(*effects, now, ExtraFieldKind::SlowDown),
{
    effects.is_active(now, ExtraFieldKind::SlowDown)
}

} // verus!
