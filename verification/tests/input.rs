use pandix::input;
use pandix::input::Input;
use pandix::keyboard::Action;
use pandix::keyboard::Button;
use pandix::keyboard::Key;
use pandix::keyboard::Modifier;

#[test]
fn input_is_key_hold() {
    let mut input = Input::new();

    input::update(
        &mut input,
        Key::A,
        Button::new(Key::A, Action::Press, Modifier::Unknown),
    );

    assert!(input.is_key_hold(Key::A));

    input::update(
        &mut input,
        Key::A,
        Button::new(Key::A, Action::Repeat, Modifier::Unknown),
    );

    assert!(input.is_key_hold(Key::A));

    input::update(
        &mut input,
        Key::A,
        Button::new(Key::A, Action::Release, Modifier::Unknown),
    );

    assert!(!input.is_key_hold(Key::A));
}

#[test]
fn input_is_key_pressed() {
    let mut input = Input::new();

    input::update(
        &mut input,
        Key::A,
        Button::new(Key::A, Action::Press, Modifier::Unknown),
    );

    assert!(input.is_key_pressed(Key::A));

    input::update(
        &mut input,
        Key::A,
        Button::new(Key::A, Action::Repeat, Modifier::Unknown),
    );

    assert!(!input.is_key_pressed(Key::A));

    input::update(
        &mut input,
        Key::A,
        Button::new(Key::A, Action::Release, Modifier::Unknown),
    );

    assert!(!input.is_key_pressed(Key::A));
}

#[test]
fn input_is_key_released() {
    let mut input = Input::new();

    input::update(
        &mut input,
        Key::A,
        Button::new(Key::A, Action::Press, Modifier::Unknown),
    );

    assert!(!input.is_key_released(Key::A));

    input::update(
        &mut input,
        Key::A,
        Button::new(Key::A, Action::Repeat, Modifier::Unknown),
    );

    assert!(!input.is_key_released(Key::A));

    input::update(
        &mut input,
        Key::A,
        Button::new(Key::A, Action::Release, Modifier::Unknown),
    );

    assert!(input.is_key_released(Key::A));

    input::update(
        &mut input,
        Key::A,
        Button::new(Key::A, Action::Press, Modifier::Unknown),
    );

    assert!(!input.is_key_released(Key::A));

    input::update(
        &mut input,
        Key::A,
        Button::new(Key::A, Action::Release, Modifier::Unknown),
    );

    assert!(input.is_key_released(Key::A));
}

#[test]
fn input_is_key_pressed_only_one_frame() {
    let mut input = Input::new();

    // Key should not be pressed
    assert!(!input.is_key_pressed(Key::A));

    // one frame later
    input::clean_up(&mut input);

    // context updates input system
    input::update(
        &mut input,
        Key::A,
        Button::new(Key::A, Action::Press, Modifier::Unknown),
    );

    // key should be pressed in this frame
    assert!(input.is_key_pressed(Key::A));

    // one frame later
    input::clean_up(&mut input);

    // key should be not pressed anymore. its state should be repeat
    assert!(!input.is_key_pressed(Key::A));
}

#[test]
fn input_is_key_released_only_one_frame() {
    let mut input = Input::new();

    // Key should not be released
    assert!(!input.is_key_released(Key::A));

    // one frame later
    input::clean_up(&mut input);

    // context updates input system
    input::update(
        &mut input,
        Key::A,
        Button::new(Key::A, Action::Press, Modifier::Unknown),
    );

    // Key should still not be released
    assert!(!input.is_key_released(Key::A));

    input::clean_up(&mut input);

    // Key should still not be released
    assert!(!input.is_key_released(Key::A));

    input::clean_up(&mut input);

    input::update(
        &mut input,
        Key::A,
        Button::new(Key::A, Action::Release, Modifier::Unknown),
    );

    // Key should be released
    assert!(input.is_key_released(Key::A));

    input::clean_up(&mut input);

    // Key should not be released
    assert!(!input.is_key_released(Key::A));
}

#[test]
fn other_keys_are_untouched_by_an_event() {
    let mut input = Input::new();

    input::update(
        &mut input,
        Key::W,
        Button::new(Key::W, Action::Press, Modifier::Unknown),
    );

    assert!(input.is_key_hold(Key::W));
    assert!(!input.is_key_hold(Key::S));
    assert!(!input.is_key_pressed(Key::S));
    assert!(!input.is_key_released(Key::S));
}

#[test]
fn default_input_matches_new() {
    let fresh = Input::default();
    assert!(!fresh.is_key_hold(Key::A));
    assert!(!fresh.is_key_pressed(Key::A));
    assert!(!fresh.is_key_released(Key::A));
}

#[test]
fn hold_survives_frame_advances() {
    let mut input = Input::new();

    input::update(
        &mut input,
        Key::Space,
        Button::new(Key::Space, Action::Press, Modifier::Unknown),
    );
    assert!(input.is_key_hold(Key::Space));

    input::clean_up(&mut input);
    assert!(input.is_key_hold(Key::Space));

    input::clean_up(&mut input);
    assert!(input.is_key_hold(Key::Space));

    input::update(
        &mut input,
        Key::Space,
        Button::new(Key::Space, Action::Release, Modifier::Unknown),
    );
    assert!(!input.is_key_hold(Key::Space));
}
