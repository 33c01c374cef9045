use fate::input::{
    key_bindings, process_key_binding, Action, Binding, InputEvent, InputState, InputSystem,
    Modifiers, MouseButton,
};

fn key(text: &str, pressed: bool) -> InputEvent {
    InputEvent::Keyboard { text: Some(text.to_string()), pressed, synthetic: false }
}

#[test]
fn bindings_need_exactly_control() {
    assert_eq!(process_key_binding("W", &Modifiers::control()), Some(Action::ControlW));
    assert_eq!(process_key_binding("D", &Modifiers::control()), Some(Action::ControlD));
    assert_eq!(process_key_binding("W", &Modifiers::empty()), None);
    let ctrl_shift = Modifiers { shift: true, control: true, alt: false, logo: false };
    assert_eq!(process_key_binding("W", &ctrl_shift), None);
    assert_eq!(process_key_binding("w", &Modifiers::control()), None);
    assert_eq!(process_key_binding("Q", &Modifiers::control()), None);
    assert_eq!(process_key_binding("WW", &Modifiers::control()), None);
}

#[test]
fn binding_table() {
    let b = key_bindings();
    assert_eq!(b.len(), 4);
    assert_eq!(b[2], Binding::new('S', Modifiers::control(), Action::ControlS));
    assert!(b[0].is_triggered_by("W", &Modifiers::control()));
    assert!(!b[0].is_triggered_by("A", &Modifiers::control()));
}

#[test]
fn control_w_press_and_release() {
    let mut s = InputSystem::default();
    s = s.update(&InputEvent::ModifiersChanged(Modifiers::control()));
    s = s.update(&key("w", true));
    assert!(s.is_control_w_clicked());
    assert!(!s.is_control_s_clicked());
    s = s.update(&key("s", true));
    assert!(s.is_control_s_clicked());
    s = s.update(&key("w", false));
    assert!(!s.is_control_w_clicked());
    assert!(s.is_control_s_clicked());
}

#[test]
fn keys_without_control_or_synthetic_do_nothing() {
    let mut s = InputSystem::default();
    s = s.update(&key("w", true));
    assert!(!s.is_control_w_clicked());
    s = s.update(&InputEvent::ModifiersChanged(Modifiers::control()));
    s = s.update(&InputEvent::Keyboard { text: Some("a".to_string()), pressed: true, synthetic: true });
    assert!(!s._is_control_a_clicked());
    s = s.update(&InputEvent::Keyboard { text: None, pressed: true, synthetic: false });
    assert!(!s._is_control_a_clicked());
    s = s.update(&key("d", true));
    assert!(s._is_control_d_clicked());
}

#[test]
fn mouse_buttons_follow_press_and_release() {
    let mut s = InputSystem::default();
    s = s.update(&InputEvent::MouseInput { button: MouseButton::Left, pressed: true });
    assert!(s.is_left_clicked());
    assert!(!s.is_right_clicked());
    s = s.update(&InputEvent::NewEvents);
    assert!(s.is_left_clicked());
    s = s.update(&InputEvent::MouseInput { button: MouseButton::Right, pressed: true });
    s = s.update(&InputEvent::MouseInput { button: MouseButton::Left, pressed: false });
    assert!(!s.is_left_clicked());
    assert!(s.is_right_clicked());
    s = s.update(&InputEvent::MouseInput { button: MouseButton::Other, pressed: false });
    assert!(s.is_right_clicked());
}

#[test]
fn camera_input_state() {
    let mut s = InputState::default();
    assert!(!s.mouse_left_clicked());
    s = s.update(&InputEvent::MouseInput { button: MouseButton::Right, pressed: true });
    assert!(s.mouse_right_clicked());
    s = s.update(&InputEvent::Other);
    assert!(s.mouse_right_clicked());
    s = s.update(&InputEvent::MouseInput { button: MouseButton::Right, pressed: false });
    assert!(!s.mouse_right_clicked());
}
