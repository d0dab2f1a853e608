//! What happens when an animation of an object ends.
use vstd::prelude::*;
use crate::game::pinball_menu::PinballMenuEvent;

verus! {

/// The follow-up an animated object asks for.
#[derive(Clone, Copy, Debug, PartialEq, Eq, Structural)]
pub enum AfterTween {
    DeleteEntity,
    ActivatePinballMenu,
    DespawnPinballMenu,
    ActivateTower,
}

/// The work for a finished animation.
#[derive(Clone, Copy, Debug, PartialEq, Eq, Structural)]
pub struct TweenFollowUp {
    /// Remove the animation's entity.
    pub despawn_anim: bool,
    /// Request to the pinball menu.
    pub menu: Option<PinballMenuEvent>,
    /// Mark the animated tower as ready.
    pub tower_ready: bool,
    /// Remove the follow-up marker from the animated object (unless it was
    /// the removed entity itself).
    pub remove_marker: bool,
}

/// The follow-up of a finished animation of an object marked `after`;
/// `same_entity` says whether the animation entity is the animated object.
pub fn on_tween_completed(after: AfterTween, same_entity: bool) -> (r: TweenFollowUp)
    ensures
        r == match after {
            AfterTween::DeleteEntity => TweenFollowUp { despawn_anim: true, menu: None, tower_ready: false, remove_marker: !same_entity },
            AfterTween::ActivatePinballMenu => TweenFollowUp { despawn_anim: false, menu: Some(PinballMenuEvent::SetReady), tower_ready: false, remove_marker: true },
            AfterTween::DespawnPinballMenu => TweenFollowUp { despawn_anim: false, menu: Some(PinballMenuEvent::Disable), tower_ready: false, remove_marker: true },
            AfterTween::ActivateTower => TweenFollowUp { despawn_anim: false, menu: None, tower_ready: true, remove_marker: true },
        },
{
    match after {
        AfterTween::DeleteEntity => TweenFollowUp { despawn_anim: true, menu: None, tower_ready: false, remove_marker: !same_entity },
        AfterTween::ActivatePinballMenu => TweenFollowUp { despawn_anim: false, menu: Some(PinballMenuEvent::SetReady), tower_ready: false, remove_marker: true },
        AfterTween::DespawnPinballMenu => TweenFollowUp { despawn_anim: false, menu: Some(PinballMenuEvent::Disable), tower_ready: false, remove_marker: true },
        AfterTween::ActivateTower => TweenFollowUp { despawn_anim: false, menu: None, tower_ready: true, remove_marker: true },
    }
}

} // verus!
