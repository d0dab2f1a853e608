//! Keyboard and gamepad controls: which requests a frame's input makes.
use vstd::prelude::*;
use super::{GameState, UiState};
use super::ball_starter::BallStarterState;
use super::flipper::{FlipperStatus, FlipperType};

verus! {

/// The input device used last.
#[derive(Clone, Copy, Debug, PartialEq, Eq, Structural)]
pub enum InputKind {
    Gamepad,
    Keyboard,
}

impl Default for InputKind {
    fn default() -> (r: Self)
        ensures
            r == InputKind::Gamepad,
    {
        InputKind::Gamepad
    }
}

/// A key press switches to keyboard hints, otherwise a gamepad button to
/// gamepad hints.
pub fn track_input_kind(key_pressed: bool, gamepad_event: bool, kind: &mut InputKind)
    ensures
        key_pressed ==> *final(kind) == InputKind::Keyboard,
        !key_pressed && gamepad_event ==> *final(kind) == InputKind::Gamepad,
        !key_pressed && !gamepad_event ==> *final(kind) == *old(kind),
{
    if key_pressed {
        *kind = InputKind::Keyboard;
    } else if gamepad_event {
        *kind = InputKind::Gamepad;
    }
}

/// The keys the game reads.
#[derive(Clone, Copy, Debug, PartialEq, Eq, Structural)]
pub enum Key {
    Escape,
    KeyA,
    KeyD,
    KeyK,
    KeyN,
    KeyP,
    KeyU,
    Space,
    ControlLeft,
    Other,
}

/// The key bindings.
#[derive(Clone, Copy, Debug, PartialEq, Eq, Structural)]
pub struct KeyboardControls {
    pub menu: Key,
    pub flipper_left: Key,
    pub flipper_right: Key,
    pub charge_ball_starter: Key,
    pub pause: Key,
    pub toggle_key_ui: Key,
    pub nudge: Key,
}

impl Default for KeyboardControls {
    fn default() -> (r: Self)
        ensures
            r == (KeyboardControls {
                menu: Key::Escape,
                flipper_left: Key::KeyA,
                flipper_right: Key::KeyD,
                charge_ball_starter: Key::Space,
                pause: Key::KeyP,
                toggle_key_ui: Key::KeyK,
                nudge: Key::KeyN,
            }),
    {
        KeyboardControls {
            menu: Key::Escape,
            flipper_left: Key::KeyA,
            flipper_right: Key::KeyD,
            charge_ball_starter: Key::Space,
            pause: Key::KeyP,
            toggle_key_ui: Key::KeyK,
            nudge: Key::KeyN,
        }
    }
}

pub open spec fn has_key(keys: Seq<Key>, k: Key) -> bool {
    exists|i: int| 0 <= i < keys.len() && keys[i] == k
}

fn contains_key(keys: &Vec<Key>, k: Key) -> (r: bool)
    ensures
        r == has_key(keys@, k),
{
    let mut i: usize = 0;
    while i < keys.len()
        invariant
            i <= keys@.len(),
            forall|j: int| 0 <= j < i ==> keys@[j] != k,
        decreases keys@.len() - i,
    {
        if keys[i] == k {
            return true;
        }
        i = i + 1;
    }
    false
}

/// The requests of one frame of keyboard input while playing.
#[derive(Clone, Copy, Debug, PartialEq, Eq, Structural)]
pub struct KeyActions {
    /// New state of the heads-up display.
    pub ui: Option<UiState>,
    /// Jump to game over (a test key).
    pub game_over: bool,
    /// Open the pause menu: free the cursor, park the camera.
    pub open_menu: bool,
    /// Put a ball at the spawn point (a test key).
    pub spawn_ball: bool,
    /// New state of the ball starter.
    pub ball_starter: Option<BallStarterState>,
    /// New status of each flipper.
    pub left: Option<FlipperStatus>,
    pub right: Option<FlipperStatus>,
    /// Pause requests sent.
    pub pause_events: u8,
}

/// What a frame of keys asks for while playing. A key both pressed and
/// released in the frame ends released: the starter fires and the flipper
/// falls back.
pub open spec fn spec_key_actions(c: KeyboardControls, pressed: Seq<Key>, released: Seq<Key>, ui: UiState) -> KeyActions {
    KeyActions {
        ui: if has_key(pressed, c.toggle_key_ui) {
            Some(if ui == UiState::Hidden { UiState::Controls } else { UiState::Hidden })
        } else {
            None
        },
        game_over: has_key(pressed, Key::KeyU),
        open_menu: has_key(pressed, c.menu),
        spawn_ball: has_key(pressed, Key::ControlLeft),
        ball_starter: if has_key(released, c.charge_ball_starter) {
            Some(BallStarterState::Fire)
        } else if has_key(pressed, c.charge_ball_starter) {
            Some(BallStarterState::Charge)
        } else {
            None
        },
        left: if has_key(released, c.flipper_left) {
            Some(FlipperStatus::Idle)
        } else if has_key(pressed, c.flipper_left) {
            Some(FlipperStatus::Pushed)
        } else {
            None
        },
        right: if has_key(released, c.flipper_right) {
            Some(FlipperStatus::Idle)
        } else if has_key(pressed, c.flipper_right) {
            Some(FlipperStatus::Pushed)
        } else {
            None
        },
        pause_events: ((if has_key(pressed, c.menu) { 1int } else { 0 }) + (if has_key(pressed, c.pause) { 1int } else { 0 })) as u8,
    }
}

/// What keys ask for: a released flipper key lets its flipper fall back
/// (even when it was pressed in the same frame), a pressed one pushes it,
/// and an untouched one leaves it; the ball starter fires on release and
/// charges on press; the menu and pause keys each ask for a pause, the menu
/// key also opens the menu; the UI key toggles the key help.
pub proof fn keys_drive_flippers_and_starter(c: KeyboardControls, pressed: Seq<Key>, released: Seq<Key>, ui: UiState)
    ensures
        ({
            let r = spec_key_actions(c, pressed, released, ui);
            &&& has_key(released, c.flipper_left) ==> r.left == Some(FlipperStatus::Idle)
            &&& !has_key(released, c.flipper_left) && has_key(pressed, c.flipper_left) ==> r.left == Some(FlipperStatus::Pushed)
            &&& !has_key(released, c.flipper_left) && !has_key(pressed, c.flipper_left) ==> r.left is None
            &&& has_key(released, c.flipper_right) ==> r.right == Some(FlipperStatus::Idle)
            &&& !has_key(released, c.flipper_right) && has_key(pressed, c.flipper_right) ==> r.right == Some(FlipperStatus::Pushed)
            &&& !has_key(released, c.flipper_right) && !has_key(pressed, c.flipper_right) ==> r.right is None
            &&& has_key(released, c.charge_ball_starter) ==> r.ball_starter == Some(BallStarterState::Fire)
            &&& !has_key(released, c.charge_ball_starter) && has_key(pressed, c.charge_ball_starter)
            ==> r.ball_starter == Some(BallStarterState::Charge)
            &&& !has_key(released, c.charge_ball_starter) && !has_key(pressed, c.charge_ball_starter) ==> r.ball_starter is None
            &&& r.open_menu == has_key(pressed, c.menu)
            &&& r.game_over == has_key(pressed, Key::KeyU)
            &&& r.spawn_ball == has_key(pressed, Key::ControlLeft)
            &&& r.pause_events == (if has_key(pressed, c.menu) { 1int } else { 0 }) + (if has_key(pressed, c.pause) { 1int } else { 0 })
            &&& has_key(pressed, c.toggle_key_ui) && ui == UiState::Hidden ==> r.ui == Some(UiState::Controls)
            &&& has_key(pressed, c.toggle_key_ui) && ui != UiState::Hidden ==> r.ui == Some(UiState::Hidden)
            &&& !has_key(pressed, c.toggle_key_ui) ==> r.ui is None
        }),
{
}

/// The requests of one frame of keys just pressed and just released.
pub fn key_system(c: &KeyboardControls, pressed: &Vec<Key>, released: &Vec<Key>, ui: UiState) -> (r: KeyActions)
    ensures
        r == spec_key_actions(*c, pressed@, released@, ui),
        has_key(released@, c.flipper_left) ==> r.left == Some(FlipperStatus::Idle),
        !has_key(released@, c.flipper_left) && has_key(pressed@, c.flipper_left) ==> r.left == Some(FlipperStatus::Pushed),
        !has_key(released@, c.flipper_left) && !has_key(pressed@, c.flipper_left) ==> r.left is None,
        has_key(released@, c.flipper_right) ==> r.right == Some(FlipperStatus::Idle),
        !has_key(released@, c.flipper_right) && has_key(pressed@, c.flipper_right) ==> r.right == Some(FlipperStatus::Pushed),
        !has_key(released@, c.flipper_right) && !has_key(pressed@, c.flipper_right) ==> r.right is None,
        has_key(released@, c.charge_ball_starter) ==> r.ball_starter == Some(BallStarterState::Fire),
        !has_key(released@, c.charge_ball_starter) && has_key(pressed@, c.charge_ball_starter)
            ==> r.ball_starter == Some(BallStarterState::Charge),
        !has_key(released@, c.charge_ball_starter) && !has_key(pressed@, c.charge_ball_starter) ==> r.ball_starter is None,
        r.open_menu == has_key(pressed@, c.menu),
        r.game_over == has_key(pressed@, Key::KeyU),
        r.spawn_ball == has_key(pressed@, Key::ControlLeft),
        r.pause_events == (if has_key(pressed@, c.menu) { 1int } else { 0 }) + (if has_key(pressed@, c.pause) { 1int } else { 0 }),
        has_key(pressed@, c.toggle_key_ui) && ui == UiState::Hidden ==> r.ui == Some(UiState::Controls),
        has_key(pressed@, c.toggle_key_ui) && ui != UiState::Hidden ==> r.ui == Some(UiState::Hidden),
        !has_key(pressed@, c.toggle_key_ui) ==> r.ui is None,
{
    let r = key_actions(c, pressed, released, ui);
    proof {
        keys_drive_flippers_and_starter(*c, pressed@, released@, ui);
    }
    r
}

fn key_actions(c: &KeyboardControls, pressed: &Vec<Key>, released: &Vec<Key>, ui: UiState) -> (r: KeyActions)
    ensures
        r == spec_key_actions(*c, pressed@, released@, ui),
{
    let mut a = KeyActions {
        ui: None,
        game_over: false,
        open_menu: false,
        spawn_ball: false,
        ball_starter: None,
        left: None,
        right: None,
        pause_events: 0,
    };
    if contains_key(pressed, c.toggle_key_ui) {
        a.ui = Some(if ui == UiState::Hidden { UiState::Controls } else { UiState::Hidden });
    }
    if contains_key(pressed, Key::KeyU) {
        a.game_over = true;
    }
    if contains_key(pressed, c.menu) {
        a.open_menu = true;
        a.pause_events = a.pause_events + 1;
    }
    if contains_key(pressed, Key::ControlLeft) {
        a.spawn_ball = true;
    }
    if contains_key(pressed, c.charge_ball_starter) {
        a.ball_starter = Some(BallStarterState::Charge);
    }
    if contains_key(released, c.charge_ball_starter) {
        a.ball_starter = Some(BallStarterState::Fire);
    }
    if contains_key(pressed, c.flipper_left) {
        a.left = Some(FlipperStatus::Pushed);
    }
    if contains_key(pressed, c.flipper_right) {
        a.right = Some(FlipperStatus::Pushed);
    }
    if contains_key(released, c.flipper_left) {
        a.left = Some(FlipperStatus::Idle);
    }
    if contains_key(released, c.flipper_right) {
        a.right = Some(FlipperStatus::Idle);
    }
    if contains_key(pressed, c.pause) {
        a.pause_events = a.pause_events + 1;
    }
    a
}

/// The requests of one frame of keys in the pause menu.
#[derive(Clone, Copy, Debug, PartialEq, Eq, Structural)]
pub struct PauseKeyActions {
    pub left_idle: bool,
    pub right_idle: bool,
    pub fire: bool,
    /// Close the menu and go on.
    pub resume: bool,
}

/// While paused, released flipper and charge keys still take effect, and
/// the menu key or P ends the pause.
pub fn pause_key_system(c: &KeyboardControls, pressed: &Vec<Key>, released: &Vec<Key>) -> (r: PauseKeyActions)
    ensures
        r == (PauseKeyActions {
            left_idle: has_key(released@, c.flipper_left),
            right_idle: has_key(released@, c.flipper_right),
            fire: has_key(released@, c.charge_ball_starter),
            resume: has_key(pressed@, c.menu) || has_key(pressed@, Key::KeyP),
        }),
{
    PauseKeyActions {
        left_idle: contains_key(released, c.flipper_left),
        right_idle: contains_key(released, c.flipper_right),
        fire: contains_key(released, c.charge_ball_starter),
        resume: contains_key(pressed, c.menu) || contains_key(pressed, Key::KeyP),
    }
}

/// Sets the status of the first flipper of type `flipper_type`.
pub fn set_flipper_status(flipper_type: FlipperType, status: FlipperStatus, flippers: &mut Vec<(FlipperStatus, FlipperType)>)
    ensures
        final(flippers)@.len() == old(flippers)@.len(),
        (forall|j: int| 0 <= j < old(flippers)@.len() ==> #[trigger] old(flippers)@[j].1 != flipper_type)
            ==> final(flippers)@ == old(flippers)@,
        forall|i: int| 0 <= i < old(flippers)@.len() && old(flippers)@[i].1 == flipper_type
            && (forall|j: int| 0 <= j < i ==> #[trigger] old(flippers)@[j].1 != flipper_type)
            ==> final(flippers)@ == old(flippers)@.update(i, (status, flipper_type)),
{
    let mut i: usize = 0;
    while i < flippers.len()
        invariant
            i <= flippers@.len(),
            flippers@ == old(flippers)@,
            forall|j: int| 0 <= j < i ==> #[trigger] flippers@[j].1 != flipper_type,
        decreases flippers@.len() - i,
    {
        if flippers[i].1 == flipper_type {
            proof {
                assert forall|k: int| 0 <= k < old(flippers)@.len() && old(flippers)@[k].1 == flipper_type
                    && (forall|j: int| 0 <= j < k ==> #[trigger] old(flippers)@[j].1 != flipper_type)
                    implies k == i as int by {
                    if k < i as int {
                    } else if k > i as int {
                        assert(old(flippers)@[i as int].1 != flipper_type);
                    }
                }
            }
            flippers.set(i, (status, flipper_type));
            return;
        }
        i = i + 1;
    }
}

/// Gamepad buttons the game reads.
#[derive(Clone, Copy, Debug, PartialEq, Eq, Structural)]
pub enum GamepadButton {
    LeftTrigger,
    RightTrigger,
    South,
    East,
    Start,
    Other,
}

/// A gamepad button change: the button, whether it is now pressed, and its
/// analog value (per mille).
#[derive(Clone, Copy, Debug, PartialEq, Eq, Structural)]
pub struct GamepadButtonChanged {
    pub button: GamepadButton,
    pub pressed: bool,
    pub value: i64,
}

/// A request from the gamepad.
#[derive(Clone, Copy, Debug, PartialEq, Eq, Structural)]
pub enum GamepadAction {
    SetFlipper(FlipperType, FlipperStatus),
    SetBallStarter(BallStarterState),
    SpawnBall,
    /// Pause and open the pause menu.
    Pause,
}

/// The request of one button change while playing, if any.
pub open spec fn gamepad_action(ev: GamepadButtonChanged, game: GameState, starter: BallStarterState) -> Option<GamepadAction> {
    match ev.button {
        GamepadButton::LeftTrigger => Some(GamepadAction::SetFlipper(FlipperType::Left,
            if ev.value < 500 { FlipperStatus::Idle } else { FlipperStatus::Pushed })),
        GamepadButton::RightTrigger => Some(GamepadAction::SetFlipper(FlipperType::Right,
            if ev.value < 500 { FlipperStatus::Idle } else { FlipperStatus::Pushed })),
        GamepadButton::South => if ev.pressed {
            Some(GamepadAction::SetBallStarter(BallStarterState::Charge))
        } else if starter == BallStarterState::Charge {
            Some(GamepadAction::SetBallStarter(BallStarterState::Fire))
        } else {
            None
        },
        GamepadButton::East => if ev.pressed && ev.value > 0 { Some(GamepadAction::SpawnBall) } else { None },
        GamepadButton::Start => if ev.pressed && game == GameState::Ingame { Some(GamepadAction::Pause) } else { None },
        GamepadButton::Other => None,
    }
}

pub open spec fn gamepad_actions(evs: Seq<GamepadButtonChanged>, game: GameState, starter: BallStarterState) -> Seq<GamepadAction>
    decreases evs.len(),
{
    if evs.len() == 0 {
        Seq::empty()
    } else {
        let prev = gamepad_actions(evs.drop_last(), game, starter);
        match gamepad_action(evs.last(), game, starter) {
            Some(a) => prev.push(a),
            None => prev,
        }
    }
}

/// The requests of the frame's button changes while playing, in order;
/// changes left over from before a change of game state are dropped.
pub fn on_btn_changed(
    evs: &Vec<GamepadButtonChanged>,
    game_state_changed: bool,
    game: GameState,
    starter: BallStarterState,
) -> (r: Vec<GamepadAction>)
    ensures
        game_state_changed ==> r@.len() == 0,
        !game_state_changed ==> r@ == gamepad_actions(evs@, game, starter),
{
    let mut r: Vec<GamepadAction> = Vec::new();
    if game_state_changed {
        return r;
    }
    let mut i: usize = 0;
    while i < evs.len()
        invariant
            i <= evs@.len(),
            r@ == gamepad_actions(evs@.subrange(0, i as int), game, starter),
        decreases evs@.len() - i,
    {
        assert(evs@.subrange(0, i + 1).drop_last() =~= evs@.subrange(0, i as int));
        let ev = evs[i];
        match ev.button {
            GamepadButton::LeftTrigger => {
                r.push(GamepadAction::SetFlipper(FlipperType::Left, FlipperStatus::by_value(ev.value)));
            },
            GamepadButton::RightTrigger => {
                r.push(GamepadAction::SetFlipper(FlipperType::Right, FlipperStatus::by_value(ev.value)));
            },
            GamepadButton::South => {
                if ev.pressed {
                    r.push(GamepadAction::SetBallStarter(BallStarterState::Charge));
                } else if starter == BallStarterState::Charge {
                    r.push(GamepadAction::SetBallStarter(BallStarterState::Fire));
                }
            },
            GamepadButton::East => {
                if ev.pressed && ev.value > 0 {
                    r.push(GamepadAction::SpawnBall);
                }
            },
            GamepadButton::Start => {
                if ev.pressed && game == GameState::Ingame {
                    r.push(GamepadAction::Pause);
                }
            },
            GamepadButton::Other => {},
        }
        i = i + 1;
    }
    assert(evs@.subrange(0, evs@.len() as int) =~= evs@);
    r
}

pub open spec fn resumes(evs: Seq<GamepadButtonChanged>, game: GameState) -> nat
    decreases evs.len(),
{
    if evs.len() == 0 {
        0
    } else {
        resumes(evs.drop_last(), game) + if evs.last().button == GamepadButton::Start && evs.last().pressed
            && game == GameState::Pause { 1nat } else { 0nat }
    }
}

/// In the pause menu each press of Start closes the menu and resumes; the
/// result counts the resume requests. Changes from before a change of game
/// state are dropped.
pub fn pause_btn_changed(evs: &Vec<GamepadButtonChanged>, game_state_changed: bool, game: GameState) -> (r: usize)
    ensures
        game_state_changed ==> r == 0,
        !game_state_changed ==> r == resumes(evs@, game),
{
    if game_state_changed {
        return 0;
    }
    let mut n: usize = 0;
    let mut i: usize = 0;
    while i < evs.len()
        invariant
            i <= evs@.len(),
            n == resumes(evs@.subrange(0, i as int), game),
            n <= i,
        decreases evs@.len() - i,
    {
        assert(evs@.subrange(0, i + 1).drop_last() =~= evs@.subrange(0, i as int));
        let ev = evs[i];
        if ev.button == GamepadButton::Start && ev.pressed && game == GameState::Pause {
            n = n + 1;
        }
        i = i + 1;
    }
    assert(evs@.subrange(0, evs@.len() as int) =~= evs@);
    n
}

/// The gamepad the player uses.
#[derive(Clone, Copy, Debug, PartialEq, Eq, Structural)]
pub struct MyGamepad(pub u64);

/// A newly connected gamepad is taken when none is in use; losing the one in
/// use frees it.
pub fn gamepad_connection(connected: bool, id: u64, current: Option<MyGamepad>) -> (r: Option<MyGamepad>)
    ensures
        connected ==> r == if current is None { Some(MyGamepad(id)) } else { current },
        !connected ==> r == if current == Some(MyGamepad(id)) { None } else { current },
{
    if connected {
        match current {
            None => Some(MyGamepad(id)),
            Some(g) => Some(g),
        }
    } else {
        match current {
            Some(g) => if g.0 == id { None } else { Some(g) },
            None => None,
        }
    }
}

} // verus!
