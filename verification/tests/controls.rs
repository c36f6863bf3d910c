use particle_trails::controls::{Controls, Input, Key, Route, TURN_BUTTON};

fn key(key: Key, pressed: bool) -> Input {
    Input::Key { key, pressed }
}

#[test]
fn controls_start_running() {
    let c = Controls::new();
    assert!(!c.paused());
    assert!(!c.mouse_pressed());
    let mut c = c;
    assert!(!c.take_screenshot());
}

#[test]
fn space_toggles_pause_on_press_only() {
    let mut c = Controls::new();
    assert_eq!(c.input(key(Key::Space, true)), Route::Done);
    assert!(c.paused());
    assert_eq!(c.input(key(Key::Space, false)), Route::Done);
    assert!(c.paused());
    assert_eq!(c.input(key(Key::Space, true)), Route::Done);
    assert!(!c.paused());
    assert_eq!(c.input(key(Key::Space, false)), Route::Done);
    assert!(!c.paused());
}

#[test]
fn return_asks_for_one_screenshot() {
    let mut c = Controls::new();
    assert_eq!(c.input(key(Key::Return, false)), Route::Done);
    assert!(!c.take_screenshot());
    assert_eq!(c.input(key(Key::Return, true)), Route::Done);
    assert_eq!(c.input(key(Key::Return, true)), Route::Done);
    assert_eq!(c.input(key(Key::Space, true)), Route::Done);
    assert_eq!(c.input(Input::Motion), Route::Done);
    assert!(c.take_screenshot());
    assert!(!c.take_screenshot());
    assert!(c.paused());
}

#[test]
fn other_keys_go_to_the_camera() {
    let mut c = Controls::new();
    assert_eq!(c.input(key(Key::Other, true)), Route::CameraKey);
    assert_eq!(c.input(key(Key::Other, false)), Route::CameraKey);
    assert_eq!(c.input(key(Key::Unnamed, true)), Route::Unused);
    assert_eq!(c.input(Input::Wheel), Route::CameraScroll);
    assert_eq!(c.input(Input::Other), Route::Unused);
    assert_eq!(c, Controls::new());
}

#[test]
fn mouse_turns_the_camera_while_held() {
    let mut c = Controls::new();
    assert_eq!(TURN_BUTTON, 1);
    assert_eq!(c.input(Input::Motion), Route::Done);
    assert_eq!(
        c.input(Input::Button {
            button: 1,
            pressed: true
        }),
        Route::Done
    );
    assert!(c.mouse_pressed());
    assert_eq!(c.input(Input::Motion), Route::CameraTurn);
    assert_eq!(
        c.input(Input::Button {
            button: 2,
            pressed: false
        }),
        Route::Unused
    );
    assert!(c.mouse_pressed());
    assert_eq!(c.input(Input::Motion), Route::CameraTurn);
    assert_eq!(
        c.input(Input::Button {
            button: 1,
            pressed: false
        }),
        Route::Done
    );
    assert!(!c.mouse_pressed());
    assert_eq!(c.input(Input::Motion), Route::Done);
    assert_eq!(
        c.input(Input::Button {
            button: 0,
            pressed: true
        }),
        Route::Unused
    );
    assert!(!c.mouse_pressed());
}
