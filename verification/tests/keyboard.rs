use pandix::canvas::CanvasError;
use pandix::graphic::Program;
use pandix::graphic::Shader;
use pandix::graphic::Texture;
use pandix::graphic::TextureFormat;
use pandix::keyboard::Action;
use pandix::keyboard::Button;
use pandix::keyboard::Key;
use pandix::keyboard::Modifier;
use pandix::keyboard::KEY_COUNT;

#[test]
fn button_keeps_what_it_was_built_from() {
    let button = Button::new(Key::A, Action::Press, Modifier::Shift);

    assert_eq!(*button.key(), Key::A);
    assert_eq!(*button.action(), Action::Press);
    assert_eq!(*button.modifier(), Modifier::Shift);
}

#[test]
fn button_setters_replace_one_field_each() {
    let mut button = Button::new(Key::A, Action::Press, Modifier::Shift);

    button.set_key(Key::B);
    assert_eq!(*button.key(), Key::B);
    assert_eq!(*button.action(), Action::Press);

    button.set_action(Action::Release);
    assert_eq!(*button.action(), Action::Release);
    assert_eq!(*button.modifier(), Modifier::Shift);

    button.set_modifier(Modifier::Control);
    assert_eq!(*button.modifier(), Modifier::Control);
    assert_eq!(*button.key(), Key::B);
}

#[test]
fn default_button_is_neutral() {
    let button = Button::default();

    assert_eq!(*button.key(), Key::Unknown);
    assert_eq!(*button.action(), Action::Release);
    assert_eq!(*button.modifier(), Modifier::Unknown);
}

#[test]
fn key_indices_stay_inside_the_tables() {
    assert_eq!(Key::Space.index(), 0);
    assert_eq!(Key::Unknown.index(), KEY_COUNT - 1);
    assert!(Key::A.index() < KEY_COUNT);
    assert!(Key::W.index() != Key::S.index());
}

#[test]
fn texture_formats_carry_their_gpu_codes() {
    assert_eq!(TextureFormat::RED.code(), 0x1903);
    assert_eq!(TextureFormat::RG.code(), 0x8227);
    assert_eq!(TextureFormat::RGB.code(), 0x1907);
    assert_eq!(TextureFormat::RGBA.code(), 0x1908);
}

#[test]
fn gpu_handles_keep_their_names() {
    assert_eq!(Program::from_raw(4).id(), 4);
    assert_eq!(Shader::from_raw(5).id(), 5);
    assert_eq!(Texture::from_raw(6).id(), 6);
}

#[test]
fn canvas_errors_tell_the_failed_step_apart() {
    assert_ne!(CanvasError::CreatingWindowFailed, CanvasError::CreatingContextFailed);
    assert_ne!(CanvasError::CreatingContextFailed, CanvasError::CreatingEventHandlerFailed);
}
