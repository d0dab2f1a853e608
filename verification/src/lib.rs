//! Rules of the pinball tower-defense game: points and levels, extra fields,
//! ball starter, flippers, controls, progress bars, health and the state
//! machines that drive a match. Continuous quantities are fixed point
//! integers; see `units`.
pub mod entity;
pub mod units;
pub mod geometry;
pub mod ball;
pub mod ball_starter;
pub mod collision_handler;
pub mod events;
pub mod flipper;
pub mod game;
