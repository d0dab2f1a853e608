//! Events that general engine events are turned into.
pub mod collision;
pub mod tween_completed;
