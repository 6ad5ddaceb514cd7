use pandix::engine::Engine;
use pandix::engine::EngineError;
use pandix::engine::EngineResource;
use pandix::engine::FramePhase;
use pandix::engine::INPUT_RESOURCE_ID;
use pandix::engine::SELECTOR_RESOURCE_ID;
use pandix::keyboard::Action;
use pandix::keyboard::Button;
use pandix::keyboard::Key;
use pandix::keyboard::Modifier;
use pandix::resource_store::Acquire;
use pandix::resource_store::ResourceStore;
use pandix::scene::System;

/// A system that appends its tag to the world, so a test can observe the
/// order systems ran in.
struct Recorder(&'static str);

type Log = Vec<&'static str>;

impl System<Log, EngineResource<u8>> for Recorder {
    fn run(&self, world: &mut Log, _resources: &mut ResourceStore<EngineResource<u8>>) {
        world.push(self.0);
    }
}

fn press(key: Key) -> (Key, Button) {
    (key, Button::new(key, Action::Press, Modifier::Unknown))
}

fn release(key: Key) -> (Key, Button) {
    (key, Button::new(key, Action::Release, Modifier::Unknown))
}

fn key_pressed(engine: &Engine<Log, Recorder, u8>, key: Key) -> bool {
    match engine.resources().peek(INPUT_RESOURCE_ID) {
        Some(EngineResource::Input(input)) => input.is_key_pressed(key),
        _ => panic!("the input machine must be registered"),
    }
}

fn key_released(engine: &Engine<Log, Recorder, u8>, key: Key) -> bool {
    match engine.resources().peek(INPUT_RESOURCE_ID) {
        Some(EngineResource::Input(input)) => input.is_key_released(key),
        _ => panic!("the input machine must be registered"),
    }
}

fn key_hold(engine: &Engine<Log, Recorder, u8>, key: Key) -> bool {
    match engine.resources().peek(INPUT_RESOURCE_ID) {
        Some(EngineResource::Input(input)) => input.is_key_hold(key),
        _ => panic!("the input machine must be registered"),
    }
}

#[test]
fn first_created_scene_becomes_active() {
    let mut engine: Engine<Log, Recorder, u8> = Engine::new(Recorder("render"));

    assert_eq!(engine.active_key(), Ok(-1));
    engine.create_scene(0, Vec::new()).unwrap();
    assert_eq!(engine.active_key(), Ok(0));
}

#[test]
fn later_scenes_do_not_steal_the_active_slot() {
    let mut engine: Engine<Log, Recorder, u8> = Engine::new(Recorder("render"));

    engine.create_scene(3, Vec::new()).unwrap();
    assert_eq!(engine.active_key(), Ok(3));

    engine.create_scene(7, Vec::new()).unwrap();
    assert_eq!(engine.active_key(), Ok(3));
}

#[test]
fn duplicate_scene_keys_are_refused() {
    let mut engine: Engine<Log, Recorder, u8> = Engine::new(Recorder("render"));

    engine.create_scene(0, Vec::new()).unwrap();
    assert_eq!(
        engine.create_scene(0, Vec::new()),
        Err(EngineError::SceneAlreadyExists)
    );
}

#[test]
fn registering_a_system_on_an_unknown_scene_is_an_error() {
    let mut engine: Engine<Log, Recorder, u8> = Engine::new(Recorder("render"));

    assert_eq!(
        engine.add_scene_system(4, Recorder("scene")),
        Err(EngineError::UnknownSceneKey)
    );
}

#[test]
fn reserved_resource_identities_are_refused() {
    let mut engine: Engine<Log, Recorder, u8> = Engine::new(Recorder("render"));

    assert_eq!(
        engine.add_resource(INPUT_RESOURCE_ID, 1),
        Err(EngineError::ReservedResourceId)
    );
    assert_eq!(
        engine.add_resource(SELECTOR_RESOURCE_ID, 1),
        Err(EngineError::ReservedResourceId)
    );
    assert_eq!(engine.add_resource(2, 1), Ok(()));
    assert!(matches!(
        engine.resources().peek(2),
        Some(EngineResource::User(1))
    ));
}

#[test]
fn a_frame_without_an_active_scene_is_fatal() {
    let mut engine: Engine<Log, Recorder, u8> = Engine::new(Recorder("render"));

    assert_eq!(engine.run_frame(), Err(EngineError::NoActiveScene));
}

#[test]
fn a_held_engine_resource_is_reported() {
    let mut engine: Engine<Log, Recorder, u8> = Engine::new(Recorder("render"));
    engine.create_scene(0, Vec::new()).unwrap();

    assert_eq!(engine.resources_mut().acquire(INPUT_RESOURCE_ID), Acquire::Granted);
    assert_eq!(
        engine.process_events(&Vec::new()),
        Err(EngineError::ResourceUnavailable)
    );
    assert_eq!(engine.end_frame(), Err(EngineError::ResourceUnavailable));

    engine.resources_mut().release(INPUT_RESOURCE_ID);
    assert_eq!(engine.process_events(&Vec::new()), Ok(()));

    assert_eq!(engine.resources_mut().acquire(SELECTOR_RESOURCE_ID), Acquire::Granted);
    assert_eq!(engine.create_scene(1, Vec::new()), Err(EngineError::ResourceUnavailable));
    engine.resources_mut().release(SELECTOR_RESOURCE_ID);
    assert_eq!(engine.create_scene(1, Vec::new()), Ok(()));
}

#[test]
fn scene_execution_order() {
    let mut engine: Engine<Log, Recorder, u8> = Engine::new(Recorder("render"));

    engine.create_scene(0, Vec::new()).unwrap();
    engine.add_system(Recorder("global"));
    engine.add_scene_system(0, Recorder("scene")).unwrap();

    engine.process_events(&Vec::new()).unwrap();
    engine.run_frame().unwrap();
    engine.end_frame().unwrap();

    let scene = engine.scenes.get(&0).unwrap();
    assert_eq!(scene.world, vec!["global", "scene", "render"]);
    assert_eq!(
        engine.frame_trace(),
        &vec![FramePhase::Global(0), FramePhase::Scene(0), FramePhase::Render]
    );
}

#[test]
fn press_is_visible_for_the_frame_of_the_event_only() {
    let mut engine: Engine<Log, Recorder, u8> = Engine::new(Recorder("render"));
    engine.create_scene(0, Vec::new()).unwrap();

    engine.process_events(&vec![press(Key::W)]).unwrap();
    assert!(key_pressed(&engine, Key::W));

    engine.run_frame().unwrap();
    engine.end_frame().unwrap();

    assert!(!key_pressed(&engine, Key::W));
    assert!(key_hold(&engine, Key::W));
}

#[test]
fn release_is_visible_for_the_frame_of_the_event_only() {
    let mut engine: Engine<Log, Recorder, u8> = Engine::new(Recorder("render"));
    engine.create_scene(0, Vec::new()).unwrap();

    engine.process_events(&vec![press(Key::W)]).unwrap();
    engine.run_frame().unwrap();
    engine.end_frame().unwrap();

    engine.process_events(&vec![release(Key::W)]).unwrap();
    assert!(key_released(&engine, Key::W));

    engine.run_frame().unwrap();
    engine.end_frame().unwrap();

    assert!(!key_released(&engine, Key::W));
    assert!(!key_hold(&engine, Key::W));
}
