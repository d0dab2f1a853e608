//! Mechanical counters on the table that show points and level, one
//! turning cylinder per decimal place.
use vstd::prelude::*;
use digits_iterator::DigitsExtension;
use crate::entity::EntityId;
use super::audio::SoundEvent;

verus! {

/// Sets the counter that belongs to `rel_id` to `number`.
#[derive(Clone, Copy, Debug, PartialEq, Eq, Structural)]
pub struct AnalogCounterSetEvent {
    rel_id: EntityId,
    number: u32,
}

impl AnalogCounterSetEvent {
    pub closed spec fn spec_rel_id(self) -> EntityId {
        self.rel_id
    }

    pub closed spec fn spec_number(self) -> u32 {
        self.number
    }

    pub fn new(rel_id: EntityId, number: u32) -> (r: Self)
        ensures
            r.spec_rel_id() == rel_id,
            r.spec_number() == number,
    {
        Self { rel_id, number }
    }

    pub fn rel_id(&self) -> (r: EntityId)
        ensures
            r == self.spec_rel_id(),
    {
        self.rel_id
    }

    pub fn number(&self) -> (r: u32)
        ensures
            r == self.spec_number(),
    {
        self.number
    }
}

/// The decimal digits of `n`, least significant first; zero has the one
/// digit zero.
pub open spec fn low_digits(n: nat) -> Seq<u8>
    decreases n,
{
    if n < 10 {
        seq![n as u8]
    } else {
        seq![(n % 10) as u8] + low_digits(n / 10)
    }
}

/// The digits of `n` from `digits_iterator`'s `DigitsExtension::digits`,
/// read from the back. The crate yields the decimal digits of `n` from the
/// most significant one, and the one digit zero for zero; read backwards
/// they are `low_digits(n)`.
#[verifier::external_body]
fn digits_low_first(n: u32) -> (r: Vec<u8>)
    ensures
        r@ == low_digits(n as nat),
{
    n.digits().rev().collect()
}

/// One turn of a cylinder, in angle units; each of the ten numbers takes
/// `NUMBER_ROT` of them.
pub const ROT_FULL: i64 = 10_000;

/// The angle between two numbers of a cylinder.
pub const NUMBER_ROT: i64 = 1_000;

/// How far past a number a cylinder may stand and still show it.
pub const ROT_TOLERANCE: i64 = 80;

/// Turn speed of a cylinder, angle units per millisecond (half a turn per
/// second).
pub const TURN_SPEED: i64 = 5;

/// Longest frame time that `turn_digits` takes, milliseconds.
pub const MAX_FRAME_MS: i64 = 1_000_000_000_000;

/// One cylinder of a counter: its decimal place (0 for the ones), the
/// number it turns to, its angle, and whether it is still turning.
#[derive(Clone, Copy, Debug, PartialEq, Eq, Structural)]
pub struct Digit {
    pub number: u8,
    pub position: u8,
    pub current_rot: i64,
    pub is_active: bool,
}

/// The angle of a cylinder is less than one turn.
pub open spec fn digit_wf(d: Digit) -> bool {
    0 <= d.current_rot < ROT_FULL
}

/// The number a cylinder shows, if it stands (within the tolerance) on
/// one.
pub open spec fn on_number(d: Digit) -> Option<u8> {
    if d.current_rot % NUMBER_ROT < ROT_TOLERANCE {
        Some((d.current_rot / NUMBER_ROT) as u8)
    } else {
        None
    }
}

/// The cylinder turned for `delta_ms` milliseconds.
pub open spec fn rotated(d: Digit, delta_ms: i64) -> Digit {
    Digit { current_rot: ((d.current_rot + TURN_SPEED * delta_ms) % (ROT_FULL as int)) as i64, ..d }
}

/// The cylinder set exactly on `number` and stopped.
pub open spec fn settled_on(d: Digit, number: u8) -> Digit {
    Digit { current_rot: ((number * NUMBER_ROT) % (ROT_FULL as int)) as i64, is_active: false, ..d }
}

impl Digit {
    pub fn new(place: u8) -> (r: Digit)
        ensures
            r == (Digit { number: 0, position: place, current_rot: 0, is_active: false }),
    {
        Digit { number: 0, position: place, current_rot: 0, is_active: false }
    }

    /// Starts turning to `number`.
    pub fn set_number(&mut self, number: u8)
        ensures
            *final(self) == (Digit { number, is_active: true, ..*old(self) }),
    {
        self.number = number;
        self.is_active = true;
    }

    /// Sets the cylinder exactly on `number` and stops it; the result is
    /// the angle to show, one turn less the cylinder's angle.
    pub fn set_rot_to(&mut self, number: u8) -> (r: i64)
        ensures
            *final(self) == settled_on(*old(self), number),
            r == ROT_FULL - final(self).current_rot,
            digit_wf(*final(self)),
    {
        let target: i64 = (number as i64 * NUMBER_ROT) % ROT_FULL;
        self.current_rot = target;
        self.is_active = false;
        ROT_FULL - target
    }

    /// Turns the cylinder for `delta_ms`; the result is the angle to add to
    /// what is shown.
    pub fn rotate(&mut self, delta_ms: i64) -> (r: i64)
        requires
            digit_wf(*old(self)),
            0 <= delta_ms <= MAX_FRAME_MS,
        ensures
            *final(self) == rotated(*old(self), delta_ms),
            digit_wf(*final(self)),
            r == -(TURN_SPEED * delta_ms),
    {
        let add: i64 = TURN_SPEED * delta_ms;
        self.current_rot = (self.current_rot + add) % ROT_FULL;
        -add
    }

    /// The number the cylinder shows, if it stands on one.
    pub fn is_on_number(&self) -> (r: Option<u8>)
        requires
            digit_wf(*self),
        ensures
            r == on_number(*self),
    {
        if self.current_rot % NUMBER_ROT < ROT_TOLERANCE {
            Some((self.current_rot / NUMBER_ROT) as u8)
        } else {
            None
        }
    }
}

/// A turning cylinder that stands on its number stops there.
pub open spec fn settles(d: Digit) -> bool {
    d.is_active && on_number(d) == Some(d.number)
}

/// A turning cylinder that passes another number ticks.
pub open spec fn ticks(d: Digit) -> bool {
    d.is_active && on_number(d) is Some && on_number(d) != Some(d.number)
}

/// One frame of the cylinders, in order: a cylinder that stops ends the
/// frame for those after it; the others turn, ticking as they pass a
/// number. The result is the cylinders, the ticks, and whether one stopped.
pub open spec fn turn_all(ds: Seq<Digit>, delta_ms: i64) -> (Seq<Digit>, nat, bool)
    decreases ds.len(),
{
    if ds.len() == 0 {
        (Seq::empty(), 0, false)
    } else {
        let (p, t, stopped) = turn_all(ds.drop_last(), delta_ms);
        let d = ds.last();
        if stopped {
            (p.push(d), t, true)
        } else if settles(d) {
            (p.push(settled_on(d, d.number)), t, true)
        } else if d.is_active {
            (p.push(rotated(d, delta_ms)), if ticks(d) { t + 1 } else { t }, false)
        } else {
            (p.push(d), t, false)
        }
    }
}

/// Once a cylinder stopped, the rest of the frame leaves the cylinders
/// after it as they are.
proof fn lemma_turn_all_stopped(ds: Seq<Digit>, delta_ms: i64, k: int, n: int)
    requires
        0 <= k <= n <= ds.len(),
        turn_all(ds.subrange(0, k), delta_ms).2,
    ensures
        turn_all(ds.subrange(0, n), delta_ms) == (
            turn_all(ds.subrange(0, k), delta_ms).0 + ds.subrange(k, n),
            turn_all(ds.subrange(0, k), delta_ms).1,
            true,
        ),
    decreases n - k,
{
    if n > k {
        lemma_turn_all_stopped(ds, delta_ms, k, n - 1);
        assert(ds.subrange(0, n).drop_last() =~= ds.subrange(0, n - 1));
        assert(turn_all(ds.subrange(0, k), delta_ms).0 + ds.subrange(k, n) =~= (turn_all(
            ds.subrange(0, k),
            delta_ms,
        ).0 + ds.subrange(k, n - 1)).push(ds[n - 1]));
    } else {
        assert(turn_all(ds.subrange(0, k), delta_ms).0 + ds.subrange(k, k) =~= turn_all(
            ds.subrange(0, k),
            delta_ms,
        ).0);
    }
}

/// One frame of the cylinders (see `turn_all`): a tick sound for each
/// number passed.
pub fn turn_digits(digits: &mut Vec<Digit>, delta_ms: i64) -> (r: Vec<SoundEvent>)
    requires
        forall|i: int| 0 <= i < old(digits)@.len() ==> digit_wf(#[trigger] old(digits)@[i]),
        0 <= delta_ms <= MAX_FRAME_MS,
    ensures
        final(digits)@ == turn_all(old(digits)@, delta_ms).0,
        r@.len() == turn_all(old(digits)@, delta_ms).1,
        forall|i: int| 0 <= i < r@.len() ==> r@[i] == SoundEvent::CounterTick,
{
    let ghost ds = digits@;
    let mut r: Vec<SoundEvent> = Vec::new();
    let mut i: usize = 0;
    while i < digits.len()
        invariant
            i <= digits@.len() == ds.len(),
            ds == old(digits)@,
            forall|j: int| 0 <= j < ds.len() ==> digit_wf(#[trigger] ds[j]),
            0 <= delta_ms <= MAX_FRAME_MS,
            !turn_all(ds.subrange(0, i as int), delta_ms).2,
            digits@.subrange(0, i as int) == turn_all(ds.subrange(0, i as int), delta_ms).0,
            digits@.subrange(i as int, ds.len() as int) == ds.subrange(i as int, ds.len() as int),
            r@.len() == turn_all(ds.subrange(0, i as int), delta_ms).1,
            forall|j: int| 0 <= j < r@.len() ==> r@[j] == SoundEvent::CounterTick,
        decreases ds.len() - i,
    {
        assert(ds.subrange(0, i + 1).drop_last() =~= ds.subrange(0, i as int));
        let mut d = digits[i];
        assert(d == ds[i as int]) by {
            assert(digits@.subrange(i as int, ds.len() as int)[0] == digits@[i as int]);
        }
        if d.is_active {
            match d.is_on_number() {
                Some(n) => {
                    if n == d.number {
                        let _ = d.set_rot_to(n);
                        let ghost before = digits@;
                        digits.set(i, d);
                        proof {
                            let p = turn_all(ds.subrange(0, i + 1), delta_ms);
                            assert(p.0 =~= turn_all(ds.subrange(0, i as int), delta_ms).0.push(d));
                            lemma_turn_all_stopped(ds, delta_ms, i + 1, ds.len() as int);
                            assert(ds.subrange(0, ds.len() as int) =~= ds);
                            assert(ds.subrange(i + 1, ds.len() as int) =~= ds.subrange(
                                i as int,
                                ds.len() as int,
                            ).drop_first());
                            assert(before.subrange(i + 1, ds.len() as int) =~= before.subrange(
                                i as int,
                                ds.len() as int,
                            ).drop_first());
                            assert(forall|j: int|
                                0 <= j < i ==> #[trigger] digits@[j] == before.subrange(0, i as int)[j]);
                            assert(forall|j: int|
                                i < j < ds.len() ==> #[trigger] digits@[j] == before.subrange(
                                    i + 1,
                                    ds.len() as int,
                                )[j - i - 1]);
                            assert(digits@ =~= p.0 + ds.subrange(i + 1, ds.len() as int));
                        }
                        return r;
                    }
                    r.push(SoundEvent::CounterTick);
                },
                None => {},
            }
            let _ = d.rotate(delta_ms);
        }
        let ghost before = digits@;
        digits.set(i, d);
        proof {
            assert(digits@.subrange(0, i as int) =~= before.subrange(0, i as int));
            assert(digits@.subrange(0, i + 1) =~= digits@.subrange(0, i as int).push(d));
            assert(digits@.subrange(i + 1, ds.len() as int) =~= before.subrange(i as int, ds.len() as int).drop_first());
            assert(ds.subrange(i + 1, ds.len() as int) =~= ds.subrange(i as int, ds.len() as int).drop_first());
        }
        i = i + 1;
    }
    assert(ds.subrange(0, ds.len() as int) =~= ds);
    assert(digits@ =~= digits@.subrange(0, ds.len() as int));
    r
}

/// The cylinder of the counter `counter` at place `place`, if any: the first
/// one in `digits` (pairs of owning counter and cylinder).
pub open spec fn find_digit(digits: Seq<(EntityId, Digit)>, counter: EntityId, place: int) -> Option<int>
    decreases digits.len(),
{
    if digits.len() == 0 {
        None
    } else {
        match find_digit(digits.drop_last(), counter, place) {
            Some(i) => Some(i),
            None => if digits.last().0 == counter && digits.last().1.position == place {
                Some(digits.len() - 1)
            } else {
                None
            },
        }
    }
}

proof fn lemma_find_digit_prefix(digits: Seq<(EntityId, Digit)>, counter: EntityId, place: int, n: int)
    requires
        0 <= n <= digits.len(),
    ensures
        find_digit(digits.subrange(0, n), counter, place) matches Some(i) ==> 0 <= i < n
            && digits[i].0 == counter && digits[i].1.position == place,
    decreases n,
{
    if n > 0 {
        assert(digits.subrange(0, n).drop_last() =~= digits.subrange(0, n - 1));
        lemma_find_digit_prefix(digits, counter, place, n - 1);
    }
}

fn find_digit_exec(digits: &Vec<(EntityId, Digit)>, counter: EntityId, place: usize) -> (r: Option<usize>)
    ensures
        match r {
            Some(i) => find_digit(digits@, counter, place as int) == Some(i as int),
            None => find_digit(digits@, counter, place as int) is None,
        },
{
    let mut i: usize = 0;
    while i < digits.len()
        invariant
            i <= digits@.len(),
            find_digit(digits@.subrange(0, i as int), counter, place as int) is None,
        decreases digits@.len() - i,
    {
        assert(digits@.subrange(0, i + 1).drop_last() =~= digits@.subrange(0, i as int));
        let (c, d) = digits[i];
        if c == counter && d.position as usize == place {
            assert(find_digit(digits@.subrange(0, i + 1), counter, place as int) == Some(i as int));
            proof { lemma_find_prefix_stable(digits@, counter, place as int, i as int + 1); }
            return Some(i);
        }
        i = i + 1;
    }
    assert(digits@.subrange(0, digits@.len() as int) =~= digits@);
    None
}

/// A hit found in a prefix is the hit of the whole sequence.
proof fn lemma_find_prefix_stable(digits: Seq<(EntityId, Digit)>, counter: EntityId, place: int, n: int)
    requires
        0 <= n <= digits.len(),
        find_digit(digits.subrange(0, n), counter, place) is Some,
    ensures
        find_digit(digits, counter, place) == find_digit(digits.subrange(0, n), counter, place),
    decreases digits.len() - n,
{
    if n < digits.len() {
        assert(digits.subrange(0, n + 1).drop_last() =~= digits.subrange(0, n));
        lemma_find_prefix_stable(digits, counter, place, n + 1);
    } else {
        assert(digits.subrange(0, n) =~= digits);
    }
}

/// The cylinders after the counter `counter` was set to the digits `ds`
/// (least significant first): cylinder `k` of the counter takes digit `k`.
pub open spec fn set_digits(digits: Seq<(EntityId, Digit)>, counter: EntityId, ds: Seq<u8>) -> Seq<(EntityId, Digit)>
    decreases ds.len(),
{
    if ds.len() == 0 {
        digits
    } else {
        let prev = set_digits(digits, counter, ds.drop_last());
        match find_digit(prev, counter, ds.len() - 1) {
            Some(i) => prev.update(i, (prev[i].0, Digit { number: ds.last(), is_active: true, ..prev[i].1 })),
            None => prev,
        }
    }
}

/// Turns the cylinders of the counter `counter` to the decimal digits of
/// `number`, place by place; a place without a cylinder is left out.
pub fn on_set(number: u32, counter: EntityId, digits: &mut Vec<(EntityId, Digit)>)
    ensures
        final(digits)@ == set_digits(old(digits)@, counter, low_digits(number as nat)),
{
    let ds = digits_low_first(number);
    let mut k: usize = 0;
    while k < ds.len()
        invariant
            k <= ds@.len(),
            ds@ == low_digits(number as nat),
            digits@ == set_digits(old(digits)@, counter, ds@.subrange(0, k as int)),
        decreases ds@.len() - k,
    {
        assert(ds@.subrange(0, k + 1).drop_last() =~= ds@.subrange(0, k as int));
        match find_digit_exec(digits, counter, k) {
            Some(i) => {
                proof {
                    lemma_find_digit_prefix(digits@, counter, k as int, digits@.len() as int);
                    assert(digits@.subrange(0, digits@.len() as int) =~= digits@);
                }
                let (c, mut d) = digits[i];
                d.set_number(ds[k]);
                digits.set(i, (c, d));
            },
            None => {},
        }
        k = k + 1;
    }
    assert(ds@.subrange(0, ds@.len() as int) =~= ds@);
}

/// The first counter (pairs of counter and the object it shows) that shows
/// `rel_id`.
pub open spec fn counter_of(counters: Seq<(EntityId, EntityId)>, rel_id: EntityId) -> Option<EntityId>
    decreases counters.len(),
{
    if counters.len() == 0 {
        None
    } else {
        match counter_of(counters.drop_last(), rel_id) {
            Some(c) => Some(c),
            None => if counters.last().1 == rel_id {
                Some(counters.last().0)
            } else {
                None
            },
        }
    }
}

/// Sets the counter that shows the event's object, if there is one, to the
/// event's number.
pub fn on_set_event(
    ev: &AnalogCounterSetEvent,
    counters: &Vec<(EntityId, EntityId)>,
    digits: &mut Vec<(EntityId, Digit)>,
)
    ensures
        final(digits)@ == match counter_of(counters@, ev.spec_rel_id()) {
            Some(c) => set_digits(old(digits)@, c, low_digits(ev.spec_number() as nat)),
            None => old(digits)@,
        },
{
    let rel_id = ev.rel_id();
    let mut i: usize = 0;
    while i < counters.len()
        invariant
            i <= counters@.len(),
            rel_id == ev.spec_rel_id(),
            counter_of(counters@.subrange(0, i as int), rel_id) is None,
            digits@ == old(digits)@,
        decreases counters@.len() - i,
    {
        assert(counters@.subrange(0, i + 1).drop_last() =~= counters@.subrange(0, i as int));
        let (c, rel) = counters[i];
        if rel == rel_id {
            proof {
                lemma_counter_prefix_stable(counters@, rel_id, i + 1);
            }
            on_set(ev.number(), c, digits);
            return;
        }
        i = i + 1;
    }
    assert(counters@.subrange(0, counters@.len() as int) =~= counters@);
}

/// A counter found in a prefix is the one found in the whole list.
proof fn lemma_counter_prefix_stable(counters: Seq<(EntityId, EntityId)>, rel_id: EntityId, n: int)
    requires
        0 <= n <= counters.len(),
        counter_of(counters.subrange(0, n), rel_id) is Some,
    ensures
        counter_of(counters, rel_id) == counter_of(counters.subrange(0, n), rel_id),
    decreases counters.len() - n,
{
    if n < counters.len() {
        assert(counters.subrange(0, n + 1).drop_last() =~= counters.subrange(0, n));
        lemma_counter_prefix_stable(counters, rel_id, n + 1);
    } else {
        assert(counters.subrange(0, n) =~= counters);
    }
}

/// A cylinder set on a number shows that number.
pub proof fn settled_shows_number(d: Digit, n: u8)
    requires
        n < 10,
    ensures
        digit_wf(settled_on(d, n)),
        on_number(settled_on(d, n)) == Some(n),
{
    let r = settled_on(d, n).current_rot;
    assert(r == n * 1000 && r % 1000 == 0 && r / 1000 == n) by (nonlinear_arith)
        requires
            r == (n * 1000) % 10000,
            0 <= n < 10,
    ;
}

/// The number that digits (least significant first) stand for.
pub open spec fn decimal_value(ds: Seq<u8>) -> int
    decreases ds.len(),
{
    if ds.len() == 0 {
        0
    } else {
        ds[0] + 10 * decimal_value(ds.drop_first())
    }
}

/// A counter's cylinders get decimal digits, and together they stand for
/// the number that was set.
pub proof fn low_digits_are_decimal(n: nat)
    ensures
        forall|i: int| 0 <= i < low_digits(n).len() ==> #[trigger] low_digits(n)[i] < 10,
        decimal_value(low_digits(n)) == n,
    decreases n,
{
    if n >= 10 {
        low_digits_are_decimal(n / 10);
        let ds = low_digits(n);
        assert(ds.drop_first() =~= low_digits(n / 10));
        assert(n == n % 10 + 10 * (n / 10));
        assert(ds[0] == n % 10);
        assert(decimal_value(ds) == ds[0] + 10 * decimal_value(ds.drop_first()));
        assert forall|i: int| 0 <= i < ds.len() implies #[trigger] ds[i] < 10 by {
            if i > 0 {
                assert(ds[i] == low_digits(n / 10)[i - 1]);
            }
        }
    } else {
        assert(low_digits(n).drop_first() =~= Seq::<u8>::empty());
        assert(decimal_value(low_digits(n)) == low_digits(n)[0] + 10 * decimal_value(
            low_digits(n).drop_first(),
        ));
        assert(decimal_value(Seq::<u8>::empty()) == 0);
    }
}

/// Same owners and places, in the same order.
pub open spec fn same_keys(a: Seq<(EntityId, Digit)>, b: Seq<(EntityId, Digit)>) -> bool {
    &&& a.len() == b.len()
    &&& forall|i: int| 0 <= i < a.len() ==> #[trigger] a[i].0 == b[i].0 && a[i].1.position == b[i].1.position
}

proof fn lemma_find_digit_keys(a: Seq<(EntityId, Digit)>, b: Seq<(EntityId, Digit)>, counter: EntityId, place: int)
    requires
        same_keys(a, b),
    ensures
        find_digit(a, counter, place) == find_digit(b, counter, place),
    decreases a.len(),
{
    if a.len() > 0 {
        assert(same_keys(a.drop_last(), b.drop_last()));
        lemma_find_digit_keys(a.drop_last(), b.drop_last(), counter, place);
        assert(a.last().0 == b.last().0 && a.last().1.position == b.last().1.position) by {
            assert(a[a.len() - 1].0 == b[a.len() - 1].0);
        }
    }
}

proof fn lemma_find_digit_hit(digits: Seq<(EntityId, Digit)>, counter: EntityId, place: int)
    ensures
        find_digit(digits, counter, place) matches Some(i) ==> 0 <= i < digits.len()
            && digits[i].0 == counter && digits[i].1.position == place,
{
    lemma_find_digit_prefix(digits, counter, place, digits.len() as int);
    assert(digits.subrange(0, digits.len() as int) =~= digits);
}

proof fn lemma_set_digits_keys(digits: Seq<(EntityId, Digit)>, counter: EntityId, ds: Seq<u8>)
    ensures
        same_keys(set_digits(digits, counter, ds), digits),
    decreases ds.len(),
{
    if ds.len() > 0 {
        lemma_set_digits_keys(digits, counter, ds.drop_last());
        let prev = set_digits(digits, counter, ds.drop_last());
        lemma_find_digit_hit(prev, counter, ds.len() - 1);
    }
}

/// After a counter is set, each of its places that has a cylinder turns
/// to the digit of that place (least significant first), and the
/// cylinders keep their owners and places.
pub proof fn set_digits_shows_each_place(digits: Seq<(EntityId, Digit)>, counter: EntityId, ds: Seq<u8>, k: int)
    requires
        0 <= k < ds.len(),
        find_digit(digits, counter, k) is Some,
    ensures
        ({
            let i = find_digit(digits, counter, k)->0;
            &&& set_digits(digits, counter, ds)[i].1.number == ds[k]
            &&& set_digits(digits, counter, ds)[i].1.is_active
        }),
        same_keys(set_digits(digits, counter, ds), digits),
    decreases ds.len(),
{
    lemma_set_digits_keys(digits, counter, ds);
    let i = find_digit(digits, counter, k)->0;
    lemma_find_digit_hit(digits, counter, k);
    let prev = set_digits(digits, counter, ds.drop_last());
    lemma_set_digits_keys(digits, counter, ds.drop_last());
    lemma_find_digit_keys(prev, digits, counter, k);
    lemma_find_digit_hit(prev, counter, ds.len() - 1);
    if k < ds.len() - 1 {
        set_digits_shows_each_place(digits, counter, ds.drop_last(), k);
        match find_digit(prev, counter, ds.len() - 1) {
            Some(j) => {
                assert(prev[i].0 == digits[i].0);
                assert(prev[i].1.position == k);
                assert(j != i);
            },
            None => {},
        }
    } else {
        assert(find_digit(prev, counter, ds.len() - 1) == Some(i));
    }
}

/// Setting a counter shows the number: every place of the number that has
/// a cylinder turns to that decimal digit of the number.
pub proof fn on_set_shows_number(digits: Seq<(EntityId, Digit)>, counter: EntityId, number: u32, k: int)
    requires
        0 <= k < low_digits(number as nat).len(),
        find_digit(digits, counter, k) is Some,
    ensures
        set_digits(digits, counter, low_digits(number as nat))[find_digit(digits, counter, k)->0].1.number
            == low_digits(number as nat)[k],
        decimal_value(low_digits(number as nat)) == number,
{
    set_digits_shows_each_place(digits, counter, low_digits(number as nat), k);
    low_digits_are_decimal(number as nat);
}

} // verus!
