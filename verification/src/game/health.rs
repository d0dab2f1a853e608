//! Health of enemies and of the player's life bar, and its recovery.
use vstd::prelude::*;
use crate::entity::EntityId;
use crate::units::{PROGRESS_ONE, spec_clamp};

verus! {

/// Largest change of health (milli points) that `to_progress` takes.
pub const MAX_CHANGE: i64 = 12_000_000_000_000;

/// Health in milli points, between zero and the maximum.
#[derive(Clone, Copy, Debug, PartialEq, Eq, Structural)]
pub struct Health {
    current: i64,
    max: i64,
}

/// A change of the health of `id` by `amount` milli points.
#[derive(Clone, Copy, Debug, PartialEq, Eq, Structural)]
pub struct ChangeHealthEvent {
    id: EntityId,
    amount: i64,
}

impl ChangeHealthEvent {
    pub closed spec fn spec_id(self) -> EntityId {
        self.id
    }

    pub closed spec fn spec_amount(self) -> i64 {
        self.amount
    }

    pub fn new(id: EntityId, amount: i64) -> (r: Self)
        ensures
            r.spec_id() == id,
            r.spec_amount() == amount,
    {
        Self { id, amount }
    }

    pub fn id(&self) -> (r: EntityId)
        ensures
            r == self.spec_id(),
    {
        self.id
    }

    pub fn amount(&self) -> (r: i64)
        ensures
            r == self.spec_amount(),
    {
        self.amount
    }
}

/// `amount` as a share of `max`, in progress units, rounded toward zero.
pub open spec fn progress_of(amount: int, max: int) -> int {
    if amount < 0 {
        -((-amount) * PROGRESS_ONE / max)
    } else {
        amount * PROGRESS_ONE / max
    }
}

impl Health {
    pub closed spec fn spec_current(self) -> i64 {
        self.current
    }

    pub closed spec fn spec_max(self) -> i64 {
        self.max
    }

    /// Health stays between zero and its maximum.
    pub closed spec fn wf(self) -> bool {
        0 <= self.current <= self.max
    }

    /// Full health of `max` milli points.
    pub fn new(max: i64) -> (r: Self)
        requires
            max >= 0,
        ensures
            r.wf(),
            r.spec_current() == max,
            r.spec_max() == max,
    {
        Self { current: max, max }
    }

    pub fn current(&self) -> (r: i64)
        ensures
            r == self.spec_current(),
    {
        self.current
    }

    pub fn max(&self) -> (r: i64)
        ensures
            r == self.spec_max(),
    {
        self.max
    }

    /// A change of health as progress of a bar that shows this health.
    pub fn to_progress(&self, amount: i64) -> (r: i64)
        requires
            self.spec_max() > 0,
            -MAX_CHANGE <= amount <= MAX_CHANGE,
        ensures
            r == progress_of(amount as int, self.spec_max() as int),
    {
        let a: i128 = amount as i128;
        let m: i128 = self.max as i128;
        let one: i128 = PROGRESS_ONE as i128;
        if a < 0 {
            let q = (-a) * one / m;
            assert(((-a) as int) * (one as int) / (m as int) <= ((-a) as int) * (one as int)) by (nonlinear_arith)
                requires
                    -a >= 0,
                    one > 0,
                    m >= 1,
            ;
            -(q as i64)
        } else {
            let q = a * one / m;
            assert((a as int) * (one as int) / (m as int) <= (a as int) * (one as int)) by (nonlinear_arith)
                requires
                    a >= 0,
                    one > 0,
                    m >= 1,
            ;
            q as i64
        }
    }

    /// Adds `amount` (negative for damage); health stays within zero and
    /// its maximum.
    pub fn add(&mut self, amount: i64)
        requires
            old(self).wf(),
        ensures
            final(self).wf(),
            final(self).spec_max() == old(self).spec_max(),
            final(self).spec_current() == spec_clamp(old(self).spec_current() + amount, 0, old(self).spec_max() as int),
    {
        let sum: i128 = self.current as i128 + amount as i128;
        if sum < 0 {
            self.current = 0;
        } else if sum > self.max as i128 {
            self.current = self.max;
        } else {
            self.current = sum as i64;
        }
    }

    pub fn is_empty(&self) -> (r: bool)
        ensures
            r == (self.spec_current() <= 0),
    {
        self.current <= 0
    }

    pub fn is_full(&self) -> (r: bool)
        ensures
            r == (self.spec_current() >= self.spec_max()),
    {
        self.current >= self.max
    }

    /// The health left, as progress of a full bar.
    pub fn fraction(&self) -> (r: i64)
        requires
            self.wf(),
            self.spec_max() > 0,
        ensures
            r == (self.spec_current() as int) * (PROGRESS_ONE as int) / (self.spec_max() as int),
            0 <= r <= PROGRESS_ONE,
    {
        let c: i128 = self.current as i128;
        let m: i128 = self.max as i128;
        let one: i128 = PROGRESS_ONE as i128;
        assert(0 <= (c as int) * (one as int) / (m as int) <= one as int) by (nonlinear_arith)
            requires
                0 <= c <= m,
                m >= 1,
                one > 0,
        ;
        (c * one / m) as i64
    }
}

/// The health of the carried object is used up.
#[derive(Clone, Copy, Debug, PartialEq, Eq, Structural)]
pub struct HealthEmptyEvent(pub EntityId);

/// Changed health whose value is used up is reported.
pub fn health_empty(id: EntityId, health: &Health) -> (r: Option<HealthEmptyEvent>)
    ensures
        r == if health.spec_current() <= 0 { Some(HealthEmptyEvent(id)) } else { None::<HealthEmptyEvent> },
{
    if health.is_empty() {
        Some(HealthEmptyEvent(id))
    } else {
        None
    }
}

/// Health that comes back by itself some time after the last damage.
/// Amounts in milli points per second, times in milliseconds.
#[derive(Clone, Copy, Debug, PartialEq, Eq, Structural)]
pub struct HealthRecovery {
    amount_per_second: i64,
    timeout_after_damage: i64,
    time_next_recover: i64,
}

/// Largest recovery rate and timeout that `HealthRecovery` takes.
pub const MAX_RATE: i64 = 1_000_000_000;

impl HealthRecovery {
    pub closed spec fn spec_amount_per_second(self) -> i64 {
        self.amount_per_second
    }

    pub closed spec fn spec_timeout(self) -> i64 {
        self.timeout_after_damage
    }

    pub closed spec fn spec_time_next_recover(self) -> i64 {
        self.time_next_recover
    }

    pub fn new(amount_per_second: i64, timeout_last_damage: i64) -> (r: Self)
        ensures
            r.spec_amount_per_second() == amount_per_second,
            r.spec_timeout() == timeout_last_damage,
            r.spec_time_next_recover() == 0,
    {
        Self { amount_per_second, timeout_after_damage: timeout_last_damage, time_next_recover: 0 }
    }

    pub fn amount_per_second(&self) -> (r: i64)
        ensures
            r == self.spec_amount_per_second(),
    {
        self.amount_per_second
    }

    pub fn timeout(&self) -> (r: i64)
        ensures
            r == self.spec_timeout(),
    {
        self.timeout_after_damage
    }

    /// Damage at `ig_time` delays recovery by the timeout.
    pub fn set_time(&mut self, ig_time: i64)
        requires
            i64::MIN <= ig_time + old(self).spec_timeout() <= i64::MAX,
        ensures
            final(self).spec_time_next_recover() == ig_time + old(self).spec_timeout(),
            final(self).spec_amount_per_second() == old(self).spec_amount_per_second(),
            final(self).spec_timeout() == old(self).spec_timeout(),
    {
        self.time_next_recover = ig_time + self.timeout_after_damage;
    }

    pub fn can_recover(&self, ig_time: i64) -> (r: bool)
        ensures
            r == (self.spec_time_next_recover() <= ig_time),
    {
        self.time_next_recover <= ig_time
    }

    /// The health that comes back in `delta_ms` milliseconds, rounded
    /// toward zero.
    pub fn health(&self, delta_ms: i64) -> (r: i64)
        requires
            0 <= self.spec_amount_per_second() <= MAX_RATE,
            0 <= delta_ms <= MAX_RATE,
        ensures
            r == (self.spec_amount_per_second() as int) * (delta_ms as int) / 1000,
    {
        let a: i128 = self.amount_per_second as i128;
        let d: i128 = delta_ms as i128;
        assert(0 <= (a as int) * (d as int) <= 1_000_000_000_000_000_000) by (nonlinear_arith)
            requires
                0 <= a <= 1_000_000_000,
                0 <= d <= 1_000_000_000,
        ;
        let p: i128 = a * d;
        (p / 1000) as i64
    }
}

/// Applies a change to health: the health moves, its bar moves by the
/// change as a share of the maximum, and damage (a negative change)
/// postpones recovery. The result is the progress for the bar.
pub fn on_change_health(
    health: &mut Health,
    recovery: &mut Option<HealthRecovery>,
    amount: i64,
    ig_time: i64,
) -> (r: i64)
    requires
        old(health).wf(),
        old(health).spec_max() > 0,
        -MAX_CHANGE <= amount <= MAX_CHANGE,
        old(recovery).is_some() ==> i64::MIN <= ig_time + old(recovery).unwrap().spec_timeout() <= i64::MAX,
    ensures
        final(health).wf(),
        final(health).spec_max() == old(health).spec_max(),
        final(health).spec_current() == spec_clamp(old(health).spec_current() + amount, 0, old(health).spec_max() as int),
        r == progress_of(amount as int, old(health).spec_max() as int),
        old(recovery).is_some() == final(recovery).is_some(),
        old(recovery).is_some() ==> ({
            let rec = old(recovery).unwrap();
            let n = final(recovery).unwrap();
            &&& n.spec_amount_per_second() == rec.spec_amount_per_second()
            &&& n.spec_timeout() == rec.spec_timeout()
            &&& n.spec_time_next_recover() == if amount < 0 {
                ig_time + rec.spec_timeout()
            } else {
                rec.spec_time_next_recover() as int
            }
        }),
{
    health.add(amount);
    let p = health.to_progress(amount);
    match recovery {
        Some(rec) => {
            if amount < 0 {
                rec.set_time(ig_time);
            }
        },
        None => {},
    }
    p
}

/// Health that is not full recovers once the timeout after the last damage
/// has passed: the change to send for this frame of `delta_ms`.
pub fn health_recovery(id: EntityId, health: &Health, rec: &HealthRecovery, ig_time: i64, delta_ms: i64) -> (r: Option<ChangeHealthEvent>)
    requires
        0 <= rec.spec_amount_per_second() <= MAX_RATE,
        0 <= delta_ms <= MAX_RATE,
    ensures
        r is Some <==> (health.spec_current() < health.spec_max() && rec.spec_time_next_recover() <= ig_time),
        r matches Some(ev) ==> ev.spec_id() == id
            && ev.spec_amount() == (rec.spec_amount_per_second() as int) * (delta_ms as int) / 1000,
{
    if !health.is_full() && rec.can_recover(ig_time) {
        Some(ChangeHealthEvent::new(id, rec.health(delta_ms)))
    } else {
        None
    }
}

/// Health never leaves zero to its maximum, whatever change is added.
pub proof fn add_stays_in_bounds(current: int, max: int, amount: int)
    requires
        0 <= current <= max,
    ensures
        0 <= spec_clamp(current + amount, 0, max) <= max,
{
}

/// A change that covers the missing health fills it; one that covers the
/// remaining health empties it.
pub proof fn add_saturates(current: int, max: int, amount: int)
    requires
        0 <= current <= max,
    ensures
        amount >= max - current ==> spec_clamp(current + amount, 0, max) == max,
        amount <= -current ==> spec_clamp(current + amount, 0, max) == 0,
{
}

} // verus!
