use phoenix_engine::engine::input::{
    string_to_key, string_to_mouse_button, InputAction, InputBindings, InputEvent, InputModifiers,
    InputState, Key, KeyBinding, MouseBinding, MouseButton,
};

#[test]
fn key_names() {
    assert_eq!(string_to_key("A"), Some(Key::A));
    assert_eq!(string_to_key("Z"), Some(Key::Z));
    assert_eq!(string_to_key("0"), Some(Key::Num0));
    assert_eq!(string_to_key("9"), Some(Key::Num9));
    assert_eq!(string_to_key("Space"), Some(Key::Space));
    assert_eq!(string_to_key("ArrowLeft"), Some(Key::ArrowLeft));
    assert_eq!(string_to_key("F1"), Some(Key::F1));
    assert_eq!(string_to_key("F12"), Some(Key::F12));
    assert_eq!(string_to_key("a"), None);
    assert_eq!(string_to_key("space"), None);
    assert_eq!(string_to_key("F13"), None);
    assert_eq!(string_to_key(""), None);
}

#[test]
fn mouse_button_names_ignore_case() {
    assert_eq!(string_to_mouse_button("left"), Some(MouseButton::Primary));
    assert_eq!(string_to_mouse_button("PRIMARY"), Some(MouseButton::Primary));
    assert_eq!(string_to_mouse_button("Right"), Some(MouseButton::Secondary));
    assert_eq!(string_to_mouse_button("secondary"), Some(MouseButton::Secondary));
    assert_eq!(string_to_mouse_button("MiDdLe"), Some(MouseButton::Middle));
    assert_eq!(string_to_mouse_button("back"), None);
}

#[test]
fn default_actions() {
    let mut b = InputBindings::new();
    b.setup_default_actions();
    let none = InputModifiers::default();
    let shift = InputModifiers { ctrl: false, shift: true, alt: false };
    assert!(b.is_action_triggered("jump", &[Key::Space], &[], none));
    assert!(!b.is_action_triggered("jump", &[Key::J], &[], none));
    assert!(b.is_action_triggered("attack", &[Key::J], &[], none));
    assert!(b.is_action_triggered("attack", &[], &[MouseButton::Primary], none));
    assert!(!b.is_action_triggered("attack", &[], &[MouseButton::Secondary], none));
    assert!(b.is_action_triggered("dash", &[Key::K], &[], none));
    assert!(!b.is_action_triggered("dash", &[Key::Space], &[], none));
    assert!(b.is_action_triggered("dash", &[Key::Space], &[], shift));
    assert!(b.is_action_triggered("interact", &[Key::E], &[], shift));
    assert!(b.is_action_triggered("pause", &[Key::Escape], &[], none));
    assert!(!b.is_action_triggered("fly", &[Key::Space], &[], none));
    assert_eq!(b.action("dash").unwrap().keys.len(), 2);
}

#[test]
fn modifiers_must_be_held() {
    let mut b = InputBindings::new();
    b.register_action(InputAction {
        name: "save".to_string(),
        keys: vec![KeyBinding {
            key: "S".to_string(),
            modifiers: InputModifiers { ctrl: true, shift: false, alt: false },
        }],
        mouse_buttons: vec![MouseBinding { button: "wheel".to_string() }],
    });
    assert!(!b.is_action_triggered("save", &[Key::S], &[], InputModifiers::default()));
    let ctrl_shift = InputModifiers { ctrl: true, shift: true, alt: false };
    assert!(b.is_action_triggered("save", &[Key::S, Key::A], &[], ctrl_shift));
    assert!(!b.is_action_triggered("save", &[], &[MouseButton::Middle], ctrl_shift));
}

#[test]
fn default_inventory_action_and_exact_keys() {
    let mut b = InputBindings::new();
    b.setup_default_actions();
    let none = InputModifiers::default();
    assert!(b.is_action_triggered("inventory", &[Key::I], &[], none));
    assert!(b.is_action_triggered("inventory", &[Key::Tab], &[], none));
    assert!(!b.is_action_triggered("jump", &[Key::Enter], &[], none));
    assert_eq!(b.action("jump").unwrap().keys[0].key, "Space");
    assert_eq!(b.action("attack").unwrap().mouse_buttons[0].button, "left");
}

#[test]
fn setup_keeps_other_actions() {
    let mut b = InputBindings::new();
    b.register_action(InputAction {
        name: "fly".to_string(),
        keys: vec![KeyBinding { key: "F".to_string(), modifiers: InputModifiers::default() }],
        mouse_buttons: vec![],
    });
    b.setup_default_actions();
    assert!(b.is_action_triggered("fly", &[Key::F], &[], InputModifiers::default()));
}

#[test]
fn press_hold_release_bookkeeping() {
    let mut b = InputBindings::new();
    b.setup_default_actions();
    let none = InputModifiers::default();
    let mut st = InputState::new();
    st.begin_frame();
    st.apply(InputEvent::Key { key: Key::Space, pressed: true });
    assert!(st.is_key_down(Key::Space) && st.is_key_pressed(Key::Space));
    assert!(st.is_action_pressed(&b, "jump", none));
    assert!(st.is_action_down(&b, "jump", none));
    st.begin_frame();
    // a repeated press of a held key is not a new press
    st.apply(InputEvent::Key { key: Key::Space, pressed: true });
    assert!(st.is_key_down(Key::Space) && !st.is_key_pressed(Key::Space));
    assert!(!st.is_action_pressed(&b, "jump", none));
    assert!(st.is_action_down(&b, "jump", none));
    st.apply(InputEvent::Key { key: Key::Space, pressed: false });
    assert!(!st.is_key_down(Key::Space) && st.is_key_released(Key::Space));
    st.begin_frame();
    assert!(!st.is_key_released(Key::Space));
    // releasing a key that is not held changes nothing
    st.apply(InputEvent::Key { key: Key::J, pressed: false });
    assert!(!st.is_key_released(Key::J));
    st.apply(InputEvent::Button { button: MouseButton::Primary, pressed: true });
    assert!(st.is_button_down(MouseButton::Primary) && st.is_button_pressed(MouseButton::Primary));
    assert!(st.is_action_pressed(&b, "attack", none));
    st.apply(InputEvent::Button { button: MouseButton::Primary, pressed: false });
    assert!(!st.is_button_down(MouseButton::Primary) && st.is_button_released(MouseButton::Primary));
    st.apply(InputEvent::Key { key: Key::Other(7), pressed: true });
    assert!(st.is_key_down(Key::Other(7)));
}
