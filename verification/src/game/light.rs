//! Lights on the table: they light up when the ball touches their object
//! and flash while a selection or an effect lasts.
use vstd::prelude::*;
use crate::entity::EntityId;

verus! {

/// Brightness of a lit contact light.
pub const LIGHT_INTENSITY: i64 = 48000;

/// Whether an object is drawn.
#[derive(Clone, Copy, Debug, PartialEq, Eq, Structural)]
pub enum Visibility {
    Inherited,
    Hidden,
    Visible,
}

/// A contact light: the object it belongs to, whether it shows, its
/// brightness, and whether it flashes.
#[derive(Clone, Copy, Debug, PartialEq, Eq, Structural)]
pub struct ContactLight {
    pub parent: EntityId,
    pub visibility: Visibility,
    pub intensity: i64,
    pub flashing: bool,
}

/// Which contact lights of a parent a lookup considers.
#[derive(Clone, Copy, Debug, PartialEq, Eq, Structural)]
pub enum LightFilter {
    Any,
    NotFlashing,
    Flashing,
}

pub open spec fn selected(l: ContactLight, parent: EntityId, f: LightFilter) -> bool {
    l.parent == parent && match f {
        LightFilter::Any => true,
        LightFilter::NotFlashing => !l.flashing,
        LightFilter::Flashing => l.flashing,
    }
}

/// The index of the first light of `parent` that `f` considers.
pub open spec fn first_of_parent(lights: Seq<ContactLight>, parent: EntityId, f: LightFilter) -> Option<int>
    decreases lights.len(),
{
    if lights.len() == 0 {
        None
    } else {
        match first_of_parent(lights.drop_last(), parent, f) {
            Some(i) => Some(i),
            None => if selected(lights.last(), parent, f) { Some(lights.len() - 1) } else { None },
        }
    }
}

proof fn lemma_first_of_parent(lights: Seq<ContactLight>, parent: EntityId, f: LightFilter, n: int)
    requires
        0 <= n <= lights.len(),
        forall|j: int| 0 <= j < n ==> !selected(#[trigger] lights[j], parent, f),
    ensures
        first_of_parent(lights.subrange(0, n), parent, f) is None,
    decreases n,
{
    if n > 0 {
        assert(lights.subrange(0, n).drop_last() =~= lights.subrange(0, n - 1));
        lemma_first_of_parent(lights, parent, f, n - 1);
    }
}

proof fn lemma_first_of_parent_hit(lights: Seq<ContactLight>, parent: EntityId, f: LightFilter, n: int)
    requires
        0 <= n < lights.len(),
        forall|j: int| 0 <= j < n ==> !selected(#[trigger] lights[j], parent, f),
        selected(lights[n], parent, f),
    ensures
        first_of_parent(lights, parent, f) == Some(n),
    decreases lights.len(),
{
    if n < lights.len() - 1 {
        assert forall|j: int| 0 <= j < n implies !selected(#[trigger] lights.drop_last()[j], parent, f) by {
            assert(lights.drop_last()[j] == lights[j]);
        }
        assert(lights.drop_last()[n] == lights[n]);
        lemma_first_of_parent_hit(lights.drop_last(), parent, f, n);
    } else {
        lemma_first_of_parent(lights, parent, f, n);
        assert(lights.drop_last() =~= lights.subrange(0, n));
    }
}

proof fn lemma_first_of_parent_present(lights: Seq<ContactLight>, parent: EntityId, f: LightFilter, j: int)
    requires
        0 <= j < lights.len(),
        selected(lights[j], parent, f),
    ensures
        first_of_parent(lights, parent, f) is Some,
    decreases lights.len(),
{
    if j < lights.len() - 1 {
        assert(lights.drop_last()[j] == lights[j]);
        lemma_first_of_parent_present(lights.drop_last(), parent, f, j);
    }
}

fn find_light(lights: &Vec<ContactLight>, parent: EntityId, f: LightFilter) -> (r: Option<usize>)
    ensures
        match r {
            Some(i) => i < lights@.len() && first_of_parent(lights@, parent, f) == Some(i as int)
                && selected(lights@[i as int], parent, f),
            None => first_of_parent(lights@, parent, f) is None,
        },
{
    let mut i: usize = 0;
    while i < lights.len()
        invariant
            i <= lights@.len(),
            forall|j: int| 0 <= j < i ==> !selected(#[trigger] lights@[j], parent, f),
        decreases lights@.len() - i,
    {
        let l = lights[i];
        let hit = l.parent == parent && match f {
            LightFilter::Any => true,
            LightFilter::NotFlashing => !l.flashing,
            LightFilter::Flashing => l.flashing,
        };
        if hit {
            proof { lemma_first_of_parent_hit(lights@, parent, f, i as int); }
            return Some(i);
        }
        i = i + 1;
    }
    proof { lemma_first_of_parent(lights@, parent, f, lights@.len() as int); }
    assert(lights@.subrange(0, lights@.len() as int) =~= lights@);
    None
}

/// The first contact light of `parent` that is not flashing turns on at
/// full brightness.
pub fn light_on_by_parent(parent: EntityId, lights: &mut Vec<ContactLight>)
    ensures
        final(lights)@ == match first_of_parent(old(lights)@, parent, LightFilter::NotFlashing) {
            Some(i) => old(lights)@.update(i, ContactLight {
                visibility: Visibility::Inherited,
                intensity: LIGHT_INTENSITY,
                ..old(lights)@[i]
            }),
            None => old(lights)@,
        },
{
    match find_light(lights, parent, LightFilter::NotFlashing) {
        Some(i) => {
            let l = lights[i];
            lights.set(i, ContactLight { visibility: Visibility::Inherited, intensity: LIGHT_INTENSITY, ..l });
        },
        None => {},
    }
}

/// The flashing light of `parent` stops flashing and is hidden; the result
/// is that light. A field whose effect ends has such a light.
pub fn disable_flash_light(parent: EntityId, lights: &mut Vec<ContactLight>) -> (r: usize)
    requires
        exists|j: int| 0 <= j < old(lights)@.len() && selected(#[trigger] old(lights)@[j], parent, LightFilter::Flashing),
    ensures
        first_of_parent(old(lights)@, parent, LightFilter::Flashing) == Some(r as int),
        final(lights)@ == old(lights)@.update(r as int, ContactLight {
            visibility: Visibility::Hidden,
            flashing: false,
            ..old(lights)@[r as int]
        }),
{
    match find_light(lights, parent, LightFilter::Flashing) {
        Some(i) => {
            let l = lights[i];
            lights.set(i, ContactLight { visibility: Visibility::Hidden, flashing: false, ..l });
            i
        },
        None => {
            proof {
                let j = choose|j: int| 0 <= j < lights@.len() && selected(#[trigger] lights@[j], parent, LightFilter::Flashing);
                lemma_first_of_parent_present(lights@, parent, LightFilter::Flashing, j);
            }
            0
        },
    }
}

/// The first contact light of a newly selected `parent` starts flashing and
/// shows; the result is that light. Every selectable parent has a contact
/// light.
pub fn add_flash_light(parent: EntityId, lights: &mut Vec<ContactLight>) -> (r: usize)
    requires
        exists|j: int| 0 <= j < old(lights)@.len() && selected(#[trigger] old(lights)@[j], parent, LightFilter::Any),
    ensures
        first_of_parent(old(lights)@, parent, LightFilter::Any) == Some(r as int),
        final(lights)@ == old(lights)@.update(r as int, ContactLight {
            visibility: Visibility::Inherited,
            flashing: true,
            ..old(lights)@[r as int]
        }),
{
    match find_light(lights, parent, LightFilter::Any) {
        Some(i) => {
            let l = lights[i];
            lights.set(i, ContactLight { visibility: Visibility::Inherited, flashing: true, ..l });
            i
        },
        None => {
            proof {
                let j = choose|j: int| 0 <= j < lights@.len() && selected(#[trigger] lights@[j], parent, LightFilter::Any);
                lemma_first_of_parent_present(lights@, parent, LightFilter::Any, j);
            }
            0
        },
    }
}

/// When the effect of a field starts, its first contact light that is not
/// flashing yet starts flashing and shows; the result is that light, or
/// `None` when the field has no such light and nothing changes.
pub fn flash_idle_light(parent: EntityId, lights: &mut Vec<ContactLight>) -> (r: Option<usize>)
    ensures
        r == match first_of_parent(old(lights)@, parent, LightFilter::NotFlashing) {
            Some(i) => Some(i as usize),
            None => None::<usize>,
        },
        final(lights)@ == match first_of_parent(old(lights)@, parent, LightFilter::NotFlashing) {
            Some(i) => old(lights)@.update(i, ContactLight {
                visibility: Visibility::Inherited,
                flashing: true,
                ..old(lights)@[i]
            }),
            None => old(lights)@,
        },
{
    match find_light(lights, parent, LightFilter::NotFlashing) {
        Some(i) => {
            let l = lights[i];
            lights.set(i, ContactLight { visibility: Visibility::Inherited, flashing: true, ..l });
            Some(i)
        },
        None => None,
    }
}

/// A found light is one of `parent` that `f` considers.
proof fn lemma_first_of_parent_selected(lights: Seq<ContactLight>, parent: EntityId, f: LightFilter)
    ensures
        first_of_parent(lights, parent, f) matches Some(i) ==> 0 <= i < lights.len() && selected(lights[i], parent, f),
    decreases lights.len(),
{
    if lights.len() > 0 {
        lemma_first_of_parent_selected(lights.drop_last(), parent, f);
        if first_of_parent(lights.drop_last(), parent, f) is Some {
            let i = first_of_parent(lights.drop_last(), parent, f)->0;
            assert(lights.drop_last()[i] == lights[i]);
        }
    }
}

/// Where no light is found, no light of `parent` is one that `f` considers.
proof fn lemma_first_of_parent_absent(lights: Seq<ContactLight>, parent: EntityId, f: LightFilter)
    requires
        first_of_parent(lights, parent, f) is None,
    ensures
        forall|j: int| 0 <= j < lights.len() ==> !selected(#[trigger] lights[j], parent, f),
{
    if exists|j: int| 0 <= j < lights.len() && selected(#[trigger] lights[j], parent, f) {
        let j = choose|j: int| 0 <= j < lights.len() && selected(#[trigger] lights[j], parent, f);
        lemma_first_of_parent_present(lights, parent, f, j);
    }
}

/// The light flashed when an effect of `parent` starts is the one turned
/// off when the effect ends, when no other light of `parent` flashed
/// before: afterwards it is as it was, but hidden.
pub proof fn flash_ends_on_the_same_light(lights: Seq<ContactLight>, parent: EntityId)
    requires
        first_of_parent(lights, parent, LightFilter::Flashing) is None,
        first_of_parent(lights, parent, LightFilter::NotFlashing) is Some,
    ensures
        ({
            let i = first_of_parent(lights, parent, LightFilter::NotFlashing)->0;
            let lit = lights.update(i, ContactLight { visibility: Visibility::Inherited, flashing: true, ..lights[i] });
            &&& first_of_parent(lit, parent, LightFilter::Flashing) == Some(i)
            &&& lit.update(i, ContactLight { visibility: Visibility::Hidden, flashing: false, ..lit[i] })
                == lights.update(i, ContactLight { visibility: Visibility::Hidden, ..lights[i] })
        }),
{
    let i = first_of_parent(lights, parent, LightFilter::NotFlashing)->0;
    lemma_first_of_parent_selected(lights, parent, LightFilter::NotFlashing);
    lemma_first_of_parent_absent(lights, parent, LightFilter::Flashing);
    let lit = lights.update(i, ContactLight { visibility: Visibility::Inherited, flashing: true, ..lights[i] });
    assert forall|j: int| 0 <= j < i implies !selected(#[trigger] lit[j], parent, LightFilter::Flashing) by {
        assert(lit[j] == lights[j]);
        assert(!selected(lights[j], parent, LightFilter::Flashing));
    }
    lemma_first_of_parent_hit(lit, parent, LightFilter::Flashing, i);
    assert(lit.update(i, ContactLight { visibility: Visibility::Hidden, flashing: false, ..lit[i] })
        =~= lights.update(i, ContactLight { visibility: Visibility::Hidden, ..lights[i] }));
}

/// A visible light that is not flashing fades: it loses `LIGHT_INTENSITY`
/// per second and hides once dark.
pub fn fade_out(light: &mut ContactLight, delta_ms: i64)
    requires
        0 <= delta_ms <= 1_000_000_000,
        0 <= old(light).intensity,
    ensures
        old(light).visibility == Visibility::Hidden || old(light).flashing ==> *final(light) == *old(light),
        old(light).visibility != Visibility::Hidden && !old(light).flashing ==> {
            let left = old(light).intensity - delta_ms * LIGHT_INTENSITY / 1000;
            &&& left <= 0 ==> final(light).intensity == 0 && final(light).visibility == Visibility::Hidden
            &&& left > 0 ==> final(light).intensity == left && final(light).visibility == old(light).visibility
            &&& final(light).parent == old(light).parent
            &&& final(light).flashing == old(light).flashing
        },
{
    if light.visibility != Visibility::Hidden && !light.flashing {
        let step = delta_ms * LIGHT_INTENSITY / 1000;
        let left = light.intensity - step;
        if left <= 0 {
            light.intensity = 0;
            light.visibility = Visibility::Hidden;
        } else {
            light.intensity = left;
        }
    }
}

} // verus!
