use rendercore::events::KeyboardEvents;
use rendercore::input::{
    convert_winit_keyboard_input, is_exit_request, ElementState, KeyCode, KeyboardInput,
    RawKeyboardInput, VirtualKey,
};

fn raw(vk: Option<VirtualKey>, state: ElementState) -> RawKeyboardInput {
    RawKeyboardInput { scan_code: 17, virtual_keycode: vk, state }
}

#[test]
fn movement_keys_map_to_themselves() {
    let pairs = [
        (VirtualKey::W, KeyCode::W),
        (VirtualKey::A, KeyCode::A),
        (VirtualKey::S, KeyCode::S),
        (VirtualKey::D, KeyCode::D),
    ];
    for (vk, kc) in pairs {
        let e = convert_winit_keyboard_input(&raw(Some(vk), ElementState::Pressed));
        assert_eq!(e.key_code, Some(kc));
        assert_eq!(e.scan_code, 17);
        assert_eq!(e.state, ElementState::Pressed);
    }
}

#[test]
fn unrecognized_keys_fall_back_without_failing() {
    let e = convert_winit_keyboard_input(&raw(Some(VirtualKey::Other), ElementState::Released));
    assert_eq!(e.key_code, Some(KeyCode::Return));
    assert_eq!(e.state, ElementState::Released);
    let none = convert_winit_keyboard_input(&raw(None, ElementState::Pressed));
    assert_eq!(none.key_code, Some(KeyCode::Return));
}

#[test]
fn escape_press_requests_exit() {
    assert!(is_exit_request(&raw(Some(VirtualKey::Escape), ElementState::Pressed)));
    assert!(!is_exit_request(&raw(Some(VirtualKey::Escape), ElementState::Released)));
    assert!(!is_exit_request(&raw(Some(VirtualKey::W), ElementState::Pressed)));
    assert!(!is_exit_request(&raw(None, ElementState::Pressed)));
}

#[test]
fn events_are_visible_for_exactly_one_frame() {
    let mut q = KeyboardEvents::new();
    let e = KeyboardInput {
        scan_code: 1,
        key_code: Some(KeyCode::W),
        state: ElementState::Pressed,
    };
    q.send(e);
    q.send(e);
    assert_eq!(q.visible().len(), 0);
    q.rotate();
    assert_eq!(q.visible().len(), 2);
    q.rotate();
    assert_eq!(q.visible().len(), 0);
}

#[test]
fn sends_during_a_frame_stay_pending() {
    let mut q = KeyboardEvents::new();
    q.rotate();
    let e = KeyboardInput {
        scan_code: 30,
        key_code: Some(KeyCode::A),
        state: ElementState::Released,
    };
    q.send(e);
    assert_eq!(q.visible().len(), 0);
    assert_eq!(q.pending.len(), 1);
    q.rotate();
    assert_eq!(q.visible().len(), 1);
    assert_eq!(q.visible()[0], e);
}
