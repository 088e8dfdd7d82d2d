use adze::app::App;
use adze::input::{InputState, MouseButton, MouseState, KEY_COUNT};

#[test]
fn key_press_reports_repeat() {
    let mut input = InputState::new();
    assert!(!input.is_key_pressed(10));
    assert!(!input.press_key(10));
    assert!(input.is_key_pressed(10));
    assert!(input.press_key(10));
    input.release_key(10);
    assert!(!input.is_key_pressed(10));
    assert!(!input.press_key(10));
}

#[test]
fn keys_are_independent() {
    let mut input = InputState::new();
    input.press_key(0);
    input.press_key(KEY_COUNT - 1);
    assert!(input.is_key_pressed(0));
    assert!(input.is_key_pressed(KEY_COUNT - 1));
    assert!(!input.is_key_pressed(1));
}

#[test]
fn mouse_buttons() {
    let mut input = InputState::new();
    assert!(!input.is_mouse_button_pressed(MouseButton::Left));
    input.set_mouse_button(MouseButton::Left, true);
    input.set_mouse_button(MouseButton::Middle, true);
    input.set_mouse_button(MouseButton::Other(7), true);
    assert!(input.is_mouse_button_pressed(MouseButton::Left));
    assert!(!input.is_mouse_button_pressed(MouseButton::Right));
    assert!(input.is_mouse_button_pressed(MouseButton::Middle));
    assert!(!input.is_mouse_button_pressed(MouseButton::Other(7)));
    input.set_mouse_button(MouseButton::Left, false);
    assert!(!input.is_mouse_button_pressed(MouseButton::Left));

    let mut m = MouseState::new();
    m.set_button(MouseButton::Right, true);
    assert!(m.is_pressed(MouseButton::Right));
    assert!(!m.is_pressed(MouseButton::Left));
}

#[test]
fn app_keeps_settings_and_layer_order() {
    let mut app: App<&str> = App::new("sandbox", 800, 600);
    assert_eq!(app.title(), "sandbox");
    assert_eq!((app.width(), app.height()), (800, 600));
    assert!(app.layers().is_empty());
    app.push_layer("world");
    app.push_layer("overlay");
    assert_eq!(app.layers(), &vec!["world", "overlay"]);
    assert_eq!(app.into_layer_stack(), vec!["world", "overlay"]);
}
