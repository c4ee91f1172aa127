//! Translation of raw platform keyboard input into the small logical
//! key set the engine distinguishes.

use vstd::prelude::*;

verus! {

/// The virtual key the platform reported with a raw event, narrowed
/// to the keys the engine ever inspects; everything else is `Other`.
#[derive(Clone, Copy, Debug, PartialEq, Eq, Structural)]
pub enum VirtualKey {
    W,
    A,
    S,
    D,
    Escape,
    Other,
}

/// Press or release, as reported by the platform.
#[derive(Clone, Copy, Debug, PartialEq, Eq, Structural)]
pub enum ElementState {
    Pressed,
    Released,
}

/// The logical key codes gameplay reads: the movement keys, and
/// `Return` as the defined fallback for everything unrecognized.
#[derive(Clone, Copy, Debug, PartialEq, Eq, Structural)]
pub enum KeyCode {
    W,
    A,
    S,
    D,
    Return,
}

/// A raw platform key event: scan code, the recognized virtual key if
/// any, and press or release state.
#[derive(Clone, Copy, Debug, PartialEq, Eq, Structural)]
pub struct RawKeyboardInput {
    pub scan_code: u32,
    pub virtual_keycode: Option<VirtualKey>,
    pub state: ElementState,
}

/// An engine-neutral keyboard event.
#[derive(Clone, Copy, Debug, PartialEq, Eq, Structural)]
pub struct KeyboardInput {
    pub scan_code: u32,
    pub key_code: Option<KeyCode>,
    pub state: ElementState,
}

/// The logical key for a recognized virtual key: the four movement
/// keys map to themselves, everything else to the fallback.
pub open spec fn spec_translate_key(vk: VirtualKey) -> KeyCode {
    match vk {
        VirtualKey::W => KeyCode::W,
        VirtualKey::A => KeyCode::A,
        VirtualKey::S => KeyCode::S,
        VirtualKey::D => KeyCode::D,
        _ => KeyCode::Return,
    }
}

/// What conversion yields: the scan code and state carried over, and
/// the logical key always present, with the fallback standing in for
/// an absent or unrecognized virtual key.
pub open spec fn spec_convert(raw: RawKeyboardInput) -> KeyboardInput {
    KeyboardInput {
        scan_code: raw.scan_code,
        key_code: Some(
            match raw.virtual_keycode {
                Some(vk) => spec_translate_key(vk),
                None => KeyCode::Return,
            },
        ),
        state: raw.state,
    }
}

/// Converts a raw platform key event into the engine's keyboard
/// event.  Total: unrecognized keys become the fallback code rather
/// than an error, by design.
pub fn convert_winit_keyboard_input(input: &RawKeyboardInput) -> (r: KeyboardInput)
    ensures
        r == spec_convert(*input),
        r.key_code is Some,
{
    let key_code = match input.virtual_keycode {
        Some(VirtualKey::W) => KeyCode::W,
        Some(VirtualKey::A) => KeyCode::A,
        Some(VirtualKey::S) => KeyCode::S,
        Some(VirtualKey::D) => KeyCode::D,
        Some(VirtualKey::Escape) => KeyCode::Return,
        Some(VirtualKey::Other) => KeyCode::Return,
        None => KeyCode::Return,
    };
    KeyboardInput { scan_code: input.scan_code, key_code: Some(key_code), state: input.state }
}

/// True exactly for the event that requests shutdown: the escape key
/// going down.
pub fn is_exit_request(input: &RawKeyboardInput) -> (r: bool)
    ensures
        r == (input.state == ElementState::Pressed && input.virtual_keycode == Some(
            VirtualKey::Escape,
        )),
{
    match (input.state, input.virtual_keycode) {
        (ElementState::Pressed, Some(VirtualKey::Escape)) => true,
        _ => false,
    }
}

} // verus!
