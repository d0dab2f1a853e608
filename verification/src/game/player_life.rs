//! The player's life bar.
use vstd::prelude::*;
use crate::entity::EntityId;
use super::{GameState, EventState};
use super::health::{Health, HealthRecovery, HealthEmptyEvent};

verus! {

/// Full life of the player, milli points.
pub const LIFE: i64 = 100_000;
/// Life that comes back per second, milli points.
pub const LIFE_RECOVERY: i64 = 4_000;
/// Time after the last damage before life comes back, milliseconds.
pub const LIFE_RECOVERY_TIMEOUT: i64 = 6_000;

/// The health of a new life bar: full, recovering after a pause.
pub fn life_bar_health() -> (r: (Health, HealthRecovery))
    ensures
        r.0.wf(),
        r.0.spec_current() == LIFE && r.0.spec_max() == LIFE,
        r.1.spec_amount_per_second() == LIFE_RECOVERY,
        r.1.spec_timeout() == LIFE_RECOVERY_TIMEOUT,
        r.1.spec_time_next_recover() == 0,
{
    (Health::new(LIFE), HealthRecovery::new(LIFE_RECOVERY, LIFE_RECOVERY_TIMEOUT))
}

/// An empty life bar ends the match: game over, and game events stop.
pub fn on_game_over(evs: &Vec<HealthEmptyEvent>, life_bars: &Vec<EntityId>) -> (r: Option<(GameState, EventState)>)
    ensures
        r is Some <==> exists|i: int, j: int| 0 <= i < evs@.len() && 0 <= j < life_bars@.len()
            && #[trigger] evs@[i].0 == #[trigger] life_bars@[j],
        r matches Some(s) ==> s == (GameState::GameOver, EventState::Inactive),
{
    let mut i: usize = 0;
    while i < evs.len()
        invariant
            i <= evs@.len(),
            forall|a: int, b: int| 0 <= a < i && 0 <= b < life_bars@.len() ==> #[trigger] evs@[a].0 != #[trigger] life_bars@[b],
        decreases evs@.len() - i,
    {
        let id = evs[i].0;
        let mut j: usize = 0;
        while j < life_bars.len()
            invariant
                i < evs@.len(),
                j <= life_bars@.len(),
                id == evs@[i as int].0,
                forall|a: int, b: int| 0 <= a < i && 0 <= b < life_bars@.len() ==> #[trigger] evs@[a].0 != #[trigger] life_bars@[b],
                forall|b: int| 0 <= b < j ==> id != #[trigger] life_bars@[b],
            decreases life_bars@.len() - j,
        {
            if life_bars[j] == id {
                return Some((GameState::GameOver, EventState::Inactive));
            }
            j = j + 1;
        }
        i = i + 1;
    }
    None
}

} // verus!
