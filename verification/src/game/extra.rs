//! Extra fields: targets on the table that charge up when the ball hits
//! them and fire an effect when full.
pub mod charge;
pub mod effects;
pub mod field;
pub mod fx;

use vstd::prelude::*;

verus! {

/// The four kinds of extra field.
#[derive(Clone, Copy, Debug, PartialEq, Eq, Structural)]
pub enum ExtraFieldKind {
    ExtraBall,
    SlowDown,
    DoubleDamage,
    InstaKill,
}

pub const SLOW_DOWN_HITS: u32 = 4;
pub const DOUBLE_DAMAGE_HITS: u32 = 8;
pub const EXTRA_BALL_HITS: u32 = 12;
pub const INSTA_KILL_HITS: u32 = 16;

pub open spec fn spec_hits_needed(kind: ExtraFieldKind) -> u32 {
    match kind {
        ExtraFieldKind::ExtraBall => EXTRA_BALL_HITS,
        ExtraFieldKind::SlowDown => SLOW_DOWN_HITS,
        ExtraFieldKind::DoubleDamage => DOUBLE_DAMAGE_HITS,
        ExtraFieldKind::InstaKill => INSTA_KILL_HITS,
    }
}

pub open spec fn spec_label(kind: ExtraFieldKind) -> Seq<char> {
    match kind {
        ExtraFieldKind::ExtraBall => "EXTRA BALL FIELD"@,
        ExtraFieldKind::SlowDown => "SLOW-DOWN FIELD"@,
        ExtraFieldKind::DoubleDamage => "DOUBLE-DAMAGE FIELD"@,
        ExtraFieldKind::InstaKill => "INSTA-KILL FIELD"@,
    }
}

/// The kinds in table order: the field at place `i` has kind `spec_kind_at(i)`.
pub open spec fn spec_kind_at(i: int) -> ExtraFieldKind {
    if i == 0 {
        ExtraFieldKind::ExtraBall
    } else if i == 1 {
        ExtraFieldKind::SlowDown
    } else if i == 2 {
        ExtraFieldKind::DoubleDamage
    } else {
        ExtraFieldKind::InstaKill
    }
}

/// All kinds, in table order.
pub fn all_kinds() -> (r: [ExtraFieldKind; 4])
    ensures
        forall|i: int| 0 <= i < 4 ==> #[trigger] r@[i] == spec_kind_at(i),
{
    [
        ExtraFieldKind::ExtraBall,
        ExtraFieldKind::SlowDown,
        ExtraFieldKind::DoubleDamage,
        ExtraFieldKind::InstaKill,
    ]
}

/// The fields lie on the table in the order extra ball, slow-down, double
/// damage, insta kill, each kind once, and each is labelled by its name.
pub proof fn field_order_and_labels()
    ensures
        spec_kind_at(0) == ExtraFieldKind::ExtraBall,
        spec_kind_at(1) == ExtraFieldKind::SlowDown,
        spec_kind_at(2) == ExtraFieldKind::DoubleDamage,
        spec_kind_at(3) == ExtraFieldKind::InstaKill,
        spec_label(ExtraFieldKind::ExtraBall) == "EXTRA BALL FIELD"@,
        spec_label(ExtraFieldKind::SlowDown) == "SLOW-DOWN FIELD"@,
        spec_label(ExtraFieldKind::DoubleDamage) == "DOUBLE-DAMAGE FIELD"@,
        spec_label(ExtraFieldKind::InstaKill) == "INSTA-KILL FIELD"@,
{
}

/// The stronger a field's effect, the more hits it needs: slow-down
/// 4, double damage 8, extra ball 12, insta kill 16; each needs a
/// multiple of what slow-down needs.
pub proof fn stronger_fields_need_more_hits(k: ExtraFieldKind)
    ensures
        spec_hits_needed(ExtraFieldKind::SlowDown) == 4,
        spec_hits_needed(ExtraFieldKind::DoubleDamage) == 8,
        spec_hits_needed(ExtraFieldKind::ExtraBall) == 12,
        spec_hits_needed(ExtraFieldKind::InstaKill) == 16,
        spec_hits_needed(ExtraFieldKind::SlowDown) < spec_hits_needed(ExtraFieldKind::DoubleDamage)
            < spec_hits_needed(ExtraFieldKind::ExtraBall) < spec_hits_needed(ExtraFieldKind::InstaKill),
        spec_hits_needed(k) % spec_hits_needed(ExtraFieldKind::SlowDown) == 0,
{
}

impl ExtraFieldKind {
    /// Ball hits that charge a field of this kind completely.
    pub fn hits_needed(self) -> (r: u32)
        ensures
            r == spec_hits_needed(self),
            self == ExtraFieldKind::SlowDown ==> r == 4,
            self == ExtraFieldKind::DoubleDamage ==> r == 8,
            self == ExtraFieldKind::ExtraBall ==> r == 12,
            self == ExtraFieldKind::InstaKill ==> r == 16,
    {
        match self {
            Self::ExtraBall => EXTRA_BALL_HITS,
            Self::SlowDown => SLOW_DOWN_HITS,
            Self::DoubleDamage => DOUBLE_DAMAGE_HITS,
            Self::InstaKill => INSTA_KILL_HITS,
        }
    }

    /// The text shown for a field of this kind.
    pub fn label(self) -> (r: &'static str)
        ensures
            r@ == spec_label(self),
    {
        match self {
            Self::ExtraBall => "EXTRA BALL FIELD",
            Self::SlowDown => "SLOW-DOWN FIELD",
            Self::DoubleDamage => "DOUBLE-DAMAGE FIELD",
            Self::InstaKill => "INSTA-KILL FIELD",
        }
    }
}

/// A field on the table; its kind is fixed when it is placed.
pub struct ExtraField {
    kind: ExtraFieldKind,
}

impl ExtraField {
    pub fn new(kind: ExtraFieldKind) -> (r: ExtraField)
        ensures
            r.spec_kind() == kind,
    {
        ExtraField { kind }
    }

    pub closed spec fn spec_kind(&self) -> ExtraFieldKind {
        self.kind
    }

    pub fn kind(&self) -> (r: ExtraFieldKind)
        ensures
            r == self.spec_kind(),
    {
        self.kind
    }
}

/// A full field fires its effect.
#[derive(Clone, Copy, Debug, PartialEq, Eq, Structural)]
pub struct ExtraFieldFireEvent(pub ExtraFieldKind);

/// A field became active on the table.
#[derive(Clone, Copy, Debug, PartialEq, Eq, Structural)]
pub struct ExtraFieldUnlockEvent(pub ExtraFieldKind);

} // verus!
