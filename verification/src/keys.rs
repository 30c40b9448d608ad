//! The keys and buttons that steer the simulator.
//!
//! bevy collects what is held and what was struck in the current frame in
//! [`bevy::input::ButtonInput`]. The functions marked as trusted ask that collection; what they claim
//! of it is all that is believed here without proof.
use bevy::input::keyboard::KeyCode;
use bevy::input::mouse::MouseButton;
use bevy::input::ButtonInput;
use core::hash::Hash;
use vstd::prelude::*;

verus! {

/// bevy's collection of held, struck and released keys.
#[verifier::external_type_specification]
#[verifier::external_body]
#[verifier::reject_recursive_types(T)]
pub struct ExButtonInput<T: Clone + Eq + Hash + Send + Sync + 'static>(ButtonInput<T>);

/// bevy's name of a key.
#[verifier::external_type_specification]
#[verifier::external_body]
pub struct ExKeyCode(KeyCode);

/// bevy's name of a mouse button.
#[verifier::external_type_specification]
#[verifier::external_body]
pub struct ExMouseButton(MouseButton);

/// The letters that act while they are held.
#[derive(Debug, Clone, Copy, PartialEq, Eq, Structural)]
pub enum Letter {
    W,
    A,
    S,
    D,
    I,
    J,
    K,
    L,
    C,
    B,
    F,
    V,
    N,
}

/// The other keys that act while they are held.
#[derive(Debug, Clone, Copy, PartialEq, Eq, Structural)]
pub enum Control {
    ArrowLeft,
    ArrowRight,
    ArrowUp,
    ArrowDown,
    ShiftLeft,
    ShiftRight,
    Space,
    BracketLeft,
    BracketRight,
    Semicolon,
    Quote,
}

/// All keys that act while they are held.
#[derive(Debug, Clone, Copy, PartialEq, Eq, Structural)]
pub enum Held {
    Letter(Letter),
    Control(Control),
}

/// The keys that act when they are struck.
#[derive(Debug, Clone, Copy, PartialEq, Eq, Structural)]
pub enum Strike {
    C,
    G,
    Q,
    U,
    Tab,
    F3,
    F5,
    Escape,
}

/// The mouse buttons that act.
#[derive(Debug, Clone, Copy, PartialEq, Eq, Structural)]
pub enum Button {
    Left,
    Right,
}

/// Which of the keys are held.
pub uninterp spec fn keys_held(input: ButtonInput<KeyCode>) -> Set<Held>;

/// Which of the keys were struck in this frame.
pub uninterp spec fn keys_struck(input: ButtonInput<KeyCode>) -> Set<Strike>;

/// Which of the mouse buttons are held.
pub uninterp spec fn buttons_held(input: ButtonInput<MouseButton>) -> Set<Button>;

/// Which of the mouse buttons were struck in this frame.
pub uninterp spec fn buttons_struck(input: ButtonInput<MouseButton>) -> Set<Button>;

/// Calls `ButtonInput::pressed` for a letter. Believed: it answers whether the letter is among the
/// held ones, and looks at nothing else.
#[verifier::external_body]
fn letter_held(input: &ButtonInput<KeyCode>, key: Letter) -> (r: bool)
    ensures
        r == keys_held(*input).contains(Held::Letter(key)),
{
    input.pressed(match key {
        Letter::W => KeyCode::KeyW, Letter::A => KeyCode::KeyA,
        Letter::S => KeyCode::KeyS, Letter::D => KeyCode::KeyD,
        Letter::I => KeyCode::KeyI, Letter::J => KeyCode::KeyJ,
        Letter::K => KeyCode::KeyK, Letter::L => KeyCode::KeyL,
        Letter::C => KeyCode::KeyC, Letter::B => KeyCode::KeyB,
        Letter::F => KeyCode::KeyF, Letter::V => KeyCode::KeyV,
        Letter::N => KeyCode::KeyN,
    })
}

/// Calls `ButtonInput::pressed` for a key that is no letter. Believed: it answers whether the key is
/// among the held ones, and looks at nothing else.
#[verifier::external_body]
fn control_held(input: &ButtonInput<KeyCode>, key: Control) -> (r: bool)
    ensures
        r == keys_held(*input).contains(Held::Control(key)),
{
    input.pressed(match key {
        Control::ArrowLeft => KeyCode::ArrowLeft, Control::ArrowRight => KeyCode::ArrowRight,
        Control::ArrowUp => KeyCode::ArrowUp, Control::ArrowDown => KeyCode::ArrowDown,
        Control::ShiftLeft => KeyCode::ShiftLeft, Control::ShiftRight => KeyCode::ShiftRight,
        Control::BracketLeft => KeyCode::BracketLeft, Control::Space => KeyCode::Space,
        Control::BracketRight => KeyCode::BracketRight, Control::Quote => KeyCode::Quote,
        Control::Semicolon => KeyCode::Semicolon,
    })
}

/// Calls `ButtonInput::just_pressed` for a key. Believed: it answers whether the key is among those
/// struck in this frame, and looks at nothing else.
#[verifier::external_body]
fn key_struck(input: &ButtonInput<KeyCode>, key: Strike) -> (r: bool)
    ensures
        r == keys_struck(*input).contains(key),
{
    input.just_pressed(match key {
        Strike::C => KeyCode::KeyC, Strike::G => KeyCode::KeyG,
        Strike::Q => KeyCode::KeyQ, Strike::U => KeyCode::KeyU,
        Strike::Tab => KeyCode::Tab, Strike::F3 => KeyCode::F3,
        Strike::F5 => KeyCode::F5, Strike::Escape => KeyCode::Escape,
    })
}

/// Calls `ButtonInput::pressed` for a mouse button. Believed: it answers whether the button is among
/// the held ones, and looks at nothing else.
#[verifier::external_body]
fn button_held(input: &ButtonInput<MouseButton>, button: Button) -> (r: bool)
    ensures
        r == buttons_held(*input).contains(button),
{
    input.pressed(match button {
        Button::Left => MouseButton::Left,
        Button::Right => MouseButton::Right,
    })
}

/// Calls `ButtonInput::just_pressed` for a mouse button. Believed: it answers whether the button is
/// among those struck in this frame, and looks at nothing else.
#[verifier::external_body]
fn button_struck(input: &ButtonInput<MouseButton>, button: Button) -> (r: bool)
    ensures
        r == buttons_struck(*input).contains(button),
{
    input.just_pressed(match button {
        Button::Left => MouseButton::Left,
        Button::Right => MouseButton::Right,
    })
}

/// Calls `ButtonInput::release` for a mouse button. Believed: the button is no longer among the held
/// ones, the others are as before, and so are those that were struck.
#[verifier::external_body]
fn release_button(input: &mut ButtonInput<MouseButton>, button: Button)
    ensures
        buttons_held(*final(input)) == buttons_held(*old(input)).remove(button),
        buttons_struck(*final(input)) == buttons_struck(*old(input)),
{
    input.release(match button {
        Button::Left => MouseButton::Left,
        Button::Right => MouseButton::Right,
    })
}

/// What the keyboard says in one frame.
#[derive(Debug, Clone, Copy, PartialEq, Eq, Structural)]
pub struct KeyFrame {
    pub w: bool,
    pub a: bool,
    pub s: bool,
    pub d: bool,
    pub i: bool,
    pub j: bool,
    pub k: bool,
    pub l: bool,
    pub c: bool,
    pub b: bool,
    pub f: bool,
    pub v: bool,
    pub n: bool,
    pub arrow_left: bool,
    pub arrow_right: bool,
    pub arrow_up: bool,
    pub arrow_down: bool,
    pub shift_left: bool,
    pub shift_right: bool,
    pub space: bool,
    pub bracket_left: bool,
    pub bracket_right: bool,
    pub semicolon: bool,
    pub quote: bool,
    pub c_struck: bool,
    pub g_struck: bool,
    pub q_struck: bool,
    pub u_struck: bool,
    pub tab_struck: bool,
    pub f3_struck: bool,
    pub f5_struck: bool,
    pub escape_struck: bool,
}

/// What the mouse buttons say in one frame.
#[derive(Debug, Clone, Copy, PartialEq, Eq, Structural)]
pub struct ButtonFrame {
    pub left: bool,
    pub right: bool,
    pub right_struck: bool,
}

/// What the keyboard says in this frame.
pub open spec fn keys_of(input: ButtonInput<KeyCode>) -> KeyFrame {
    let held = keys_held(input);
    let struck = keys_struck(input);
    KeyFrame {
        w: held.contains(Held::Letter(Letter::W)),
        a: held.contains(Held::Letter(Letter::A)),
        s: held.contains(Held::Letter(Letter::S)),
        d: held.contains(Held::Letter(Letter::D)),
        i: held.contains(Held::Letter(Letter::I)),
        j: held.contains(Held::Letter(Letter::J)),
        k: held.contains(Held::Letter(Letter::K)),
        l: held.contains(Held::Letter(Letter::L)),
        c: held.contains(Held::Letter(Letter::C)),
        b: held.contains(Held::Letter(Letter::B)),
        f: held.contains(Held::Letter(Letter::F)),
        v: held.contains(Held::Letter(Letter::V)),
        n: held.contains(Held::Letter(Letter::N)),
        arrow_left: held.contains(Held::Control(Control::ArrowLeft)),
        arrow_right: held.contains(Held::Control(Control::ArrowRight)),
        arrow_up: held.contains(Held::Control(Control::ArrowUp)),
        arrow_down: held.contains(Held::Control(Control::ArrowDown)),
        shift_left: held.contains(Held::Control(Control::ShiftLeft)),
        shift_right: held.contains(Held::Control(Control::ShiftRight)),
        space: held.contains(Held::Control(Control::Space)),
        bracket_left: held.contains(Held::Control(Control::BracketLeft)),
        bracket_right: held.contains(Held::Control(Control::BracketRight)),
        semicolon: held.contains(Held::Control(Control::Semicolon)),
        quote: held.contains(Held::Control(Control::Quote)),
        c_struck: struck.contains(Strike::C),
        g_struck: struck.contains(Strike::G),
        q_struck: struck.contains(Strike::Q),
        u_struck: struck.contains(Strike::U),
        tab_struck: struck.contains(Strike::Tab),
        f3_struck: struck.contains(Strike::F3),
        f5_struck: struck.contains(Strike::F5),
        escape_struck: struck.contains(Strike::Escape),
    }
}

/// What the mouse buttons say in this frame.
pub open spec fn buttons_of(input: ButtonInput<MouseButton>) -> ButtonFrame {
    ButtonFrame {
        left: buttons_held(input).contains(Button::Left),
        right: buttons_held(input).contains(Button::Right),
        right_struck: buttons_struck(input).contains(Button::Right),
    }
}

/// Reads the keyboard.
pub fn read_keys(input: &ButtonInput<KeyCode>) -> (r: KeyFrame)
    ensures
        r == keys_of(*input),
{
    KeyFrame {
        w: letter_held(input, Letter::W),
        a: letter_held(input, Letter::A),
        s: letter_held(input, Letter::S),
        d: letter_held(input, Letter::D),
        i: letter_held(input, Letter::I),
        j: letter_held(input, Letter::J),
        k: letter_held(input, Letter::K),
        l: letter_held(input, Letter::L),
        c: letter_held(input, Letter::C),
        b: letter_held(input, Letter::B),
        f: letter_held(input, Letter::F),
        v: letter_held(input, Letter::V),
        n: letter_held(input, Letter::N),
        arrow_left: control_held(input, Control::ArrowLeft),
        arrow_right: control_held(input, Control::ArrowRight),
        arrow_up: control_held(input, Control::ArrowUp),
        arrow_down: control_held(input, Control::ArrowDown),
        shift_left: control_held(input, Control::ShiftLeft),
        shift_right: control_held(input, Control::ShiftRight),
        space: control_held(input, Control::Space),
        bracket_left: control_held(input, Control::BracketLeft),
        bracket_right: control_held(input, Control::BracketRight),
        semicolon: control_held(input, Control::Semicolon),
        quote: control_held(input, Control::Quote),
        c_struck: key_struck(input, Strike::C),
        g_struck: key_struck(input, Strike::G),
        q_struck: key_struck(input, Strike::Q),
        u_struck: key_struck(input, Strike::U),
        tab_struck: key_struck(input, Strike::Tab),
        f3_struck: key_struck(input, Strike::F3),
        f5_struck: key_struck(input, Strike::F5),
        escape_struck: key_struck(input, Strike::Escape),
    }
}

/// Reads the mouse buttons.
pub fn read_buttons(input: &ButtonInput<MouseButton>) -> (r: ButtonFrame)
    ensures
        r == buttons_of(*input),
{
    ButtonFrame {
        left: button_held(input, Button::Left),
        right: button_held(input, Button::Right),
        right_struck: button_struck(input, Button::Right),
    }
}

/// Lets both mouse buttons go, so that holding them has to begin anew.
pub fn release_buttons(input: &mut ButtonInput<MouseButton>)
    ensures
        buttons_held(*final(input)) == buttons_held(*old(input)).remove(Button::Right).remove(
            Button::Left,
        ),
        buttons_struck(*final(input)) == buttons_struck(*old(input)),
        !buttons_of(*final(input)).left && !buttons_of(*final(input)).right,
{
    release_button(input, Button::Right);
    release_button(input, Button::Left);
}

/// Each entry of what the keyboard says goes by its own key, and by no other.
pub proof fn law_each_entry_goes_by_its_key(input: ButtonInput<KeyCode>)
    ensures
        ({
            let r = keys_of(input);
            let held = keys_held(input);
            let struck = keys_struck(input);
            &&& r.w <==> held.contains(Held::Letter(Letter::W))
            &&& r.a <==> held.contains(Held::Letter(Letter::A))
            &&& r.s <==> held.contains(Held::Letter(Letter::S))
            &&& r.d <==> held.contains(Held::Letter(Letter::D))
            &&& r.i <==> held.contains(Held::Letter(Letter::I))
            &&& r.j <==> held.contains(Held::Letter(Letter::J))
            &&& r.k <==> held.contains(Held::Letter(Letter::K))
            &&& r.l <==> held.contains(Held::Letter(Letter::L))
            &&& r.c <==> held.contains(Held::Letter(Letter::C))
            &&& r.b <==> held.contains(Held::Letter(Letter::B))
            &&& r.f <==> held.contains(Held::Letter(Letter::F))
            &&& r.v <==> held.contains(Held::Letter(Letter::V))
            &&& r.n <==> held.contains(Held::Letter(Letter::N))
            &&& r.arrow_left <==> held.contains(Held::Control(Control::ArrowLeft))
            &&& r.arrow_right <==> held.contains(Held::Control(Control::ArrowRight))
            &&& r.arrow_up <==> held.contains(Held::Control(Control::ArrowUp))
            &&& r.arrow_down <==> held.contains(Held::Control(Control::ArrowDown))
            &&& r.shift_left <==> held.contains(Held::Control(Control::ShiftLeft))
            &&& r.shift_right <==> held.contains(Held::Control(Control::ShiftRight))
            &&& r.space <==> held.contains(Held::Control(Control::Space))
            &&& r.bracket_left <==> held.contains(Held::Control(Control::BracketLeft))
            &&& r.bracket_right <==> held.contains(Held::Control(Control::BracketRight))
            &&& r.semicolon <==> held.contains(Held::Control(Control::Semicolon))
            &&& r.quote <==> held.contains(Held::Control(Control::Quote))
            &&& r.c_struck <==> struck.contains(Strike::C)
            &&& r.g_struck <==> struck.contains(Strike::G)
            &&& r.q_struck <==> struck.contains(Strike::Q)
            &&& r.u_struck <==> struck.contains(Strike::U)
            &&& r.tab_struck <==> struck.contains(Strike::Tab)
            &&& r.f3_struck <==> struck.contains(Strike::F3)
            &&& r.f5_struck <==> struck.contains(Strike::F5)
            &&& r.escape_struck <==> struck.contains(Strike::Escape)
        }),
{
}

/// Each entry of what the mouse says goes by its own button.
pub proof fn law_each_entry_goes_by_its_button(input: ButtonInput<MouseButton>)
    ensures
        ({
            let r = buttons_of(input);
            &&& r.left <==> buttons_held(input).contains(Button::Left)
            &&& r.right <==> buttons_held(input).contains(Button::Right)
            &&& r.right_struck <==> buttons_struck(input).contains(Button::Right)
        }),
{
}

/// Reading the keyboard and the mouse tells of each key and button whether it is held or was
/// struck; letting the buttons go leaves neither held and forgets no strike.
pub proof fn law_calls_of_the_readers(
    keyboard: ButtonInput<KeyCode>,
    keys: KeyFrame,
    mouse: ButtonInput<MouseButton>,
    buttons: ButtonFrame,
    released: &mut ButtonInput<MouseButton>,
    r: (),
)
    requires
        call_ensures(read_keys, (&keyboard,), keys),
        call_ensures(read_buttons, (&mouse,), buttons),
        call_ensures(release_buttons, (released,), r),
    ensures
        keys == keys_of(keyboard),
        keys.w <==> keys_held(keyboard).contains(Held::Letter(Letter::W)),
        keys.space <==> keys_held(keyboard).contains(Held::Control(Control::Space)),
        keys.g_struck <==> keys_struck(keyboard).contains(Strike::G),
        keys.escape_struck <==> keys_struck(keyboard).contains(Strike::Escape),
        buttons.left <==> buttons_held(mouse).contains(Button::Left),
        buttons.right <==> buttons_held(mouse).contains(Button::Right),
        buttons.right_struck <==> buttons_struck(mouse).contains(Button::Right),
        !buttons_held(*final(released)).contains(Button::Left),
        !buttons_held(*final(released)).contains(Button::Right),
        buttons_struck(*final(released)) == buttons_struck(*old(released)),
{
}

} // verus!
