pub mod analog_counter;
pub mod audio;
pub mod ball;
pub mod ball_starter;
pub mod camera;
pub mod controls;
pub mod enemy;
pub mod enemy_animation;
pub mod events;
pub mod extra;
pub mod flipper;
pub mod extra_field;
pub mod extra_field_effects;
pub mod health;
pub mod level;
pub mod light;
pub mod player_life;
pub mod pinball_menu;
pub mod progress;
pub mod progress_bar;

use vstd::prelude::*;

verus! {

/// Where a match stands.
#[derive(Clone, Copy, Debug, PartialEq, Eq, Structural)]
pub enum GameState {
    NoMatch,
    Init,
    Ingame,
    Pause,
    GameOver,
}

impl Default for GameState {
    fn default() -> (r: Self)
        ensures
            r == GameState::NoMatch,
    {
        GameState::NoMatch
    }
}

/// Whether game events are handled.
#[derive(Clone, Copy, Debug, PartialEq, Eq, Structural)]
pub enum EventState {
    Inactive,
    Active,
}

impl Default for EventState {
    fn default() -> (r: Self)
        ensures
            r == EventState::Inactive,
    {
        EventState::Inactive
    }
}

/// What the heads-up display shows.
#[derive(Clone, Copy, Debug, PartialEq, Eq, Structural)]
pub enum UiState {
    Hidden,
    Controls,
}

/// The player asks to pause.
#[derive(Clone, Copy, Debug, PartialEq, Eq, Structural)]
pub struct PauseGameEvent;

/// The player asks to go on.
#[derive(Clone, Copy, Debug, PartialEq, Eq, Structural)]
pub struct ResumeGameEvent;

/// Time spent in the match, milliseconds.
#[derive(Clone, Copy, Debug, PartialEq, Eq, Structural)]
pub struct IngameTime(pub i64);

impl Default for IngameTime {
    fn default() -> (r: Self)
        ensures
            r.0 == 0,
    {
        IngameTime(0)
    }
}

/// Advances the match time by the frame time.
pub fn tick_ingame_timer(t: &mut IngameTime, delta_ms: i64)
    requires
        0 <= delta_ms,
        old(t).0 + delta_ms <= i64::MAX,
    ensures
        final(t).0 == old(t).0 + delta_ms,
{
    t.0 = t.0 + delta_ms;
}

/// Whether the physics clock and the virtual clock are paused.
#[derive(Clone, Copy, Debug, PartialEq, Eq, Structural)]
pub struct Clocks {
    pub physics_paused: bool,
    pub virtual_paused: bool,
}

/// Stops both clocks.
pub fn pause_times(clocks: &mut Clocks)
    ensures
        final(clocks).physics_paused && final(clocks).virtual_paused,
{
    clocks.physics_paused = true;
    clocks.virtual_paused = true;
}

/// Runs both clocks.
pub fn resume_times(clocks: &mut Clocks)
    ensures
        !final(clocks).physics_paused && !final(clocks).virtual_paused,
{
    clocks.physics_paused = false;
    clocks.virtual_paused = false;
}

/// Entering the game starts a new match.
pub fn init_game() -> (r: GameState)
    ensures
        r == GameState::Init,
{
    GameState::Init
}

/// A started match: its states and fresh match time.
#[derive(Clone, Copy, Debug, PartialEq, Eq, Structural)]
pub struct MatchStart {
    pub game: GameState,
    pub events: EventState,
    pub ui: UiState,
    pub time: IngameTime,
}

/// Starting a match: it is running, events are handled, the controls are
/// shown and the match time starts at zero.
pub fn start_game() -> (r: MatchStart)
    ensures
        r == (MatchStart {
            game: GameState::Ingame,
            events: EventState::Active,
            ui: UiState::Controls,
            time: IngameTime(0),
        }),
{
    MatchStart {
        game: GameState::Ingame,
        events: EventState::Active,
        ui: UiState::Controls,
        time: IngameTime::default(),
    }
}

/// A pause request pauses the match and stops the clocks.
pub fn on_set_pause(requested: bool, clocks: &mut Clocks) -> (r: Option<GameState>)
    ensures
        requested ==> r == Some(GameState::Pause) && final(clocks).physics_paused && final(clocks).virtual_paused,
        !requested ==> r is None && *final(clocks) == *old(clocks),
{
    if requested {
        pause_times(clocks);
        Some(GameState::Pause)
    } else {
        None
    }
}

/// A resume request lets the match go on and runs the clocks.
pub fn on_resume_game(requested: bool, clocks: &mut Clocks) -> (r: Option<GameState>)
    ensures
        requested ==> r == Some(GameState::Ingame) && !final(clocks).physics_paused && !final(clocks).virtual_paused,
        !requested ==> r is None && *final(clocks) == *old(clocks),
{
    if requested {
        resume_times(clocks);
        Some(GameState::Ingame)
    } else {
        None
    }
}

/// At game over the clocks stop.
pub fn pause_on_game_over(clocks: &mut Clocks)
    ensures
        final(clocks).physics_paused && final(clocks).virtual_paused,
{
    pause_times(clocks);
}

/// Leaving the game over screen clears the table and runs the clocks.
pub fn reset(clocks: &mut Clocks)
    ensures
        !final(clocks).physics_paused && !final(clocks).virtual_paused,
{
    resume_times(clocks);
}

/// Leaving the game: no match, clocks running.
pub fn clean_up_on_exit_game(clocks: &mut Clocks) -> (r: GameState)
    ensures
        r == GameState::NoMatch,
        !final(clocks).physics_paused && !final(clocks).virtual_paused,
{
    resume_times(clocks);
    GameState::NoMatch
}

} // verus!
