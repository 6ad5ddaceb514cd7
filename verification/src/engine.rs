//! The engine orchestrator: owns the resource store, the scene registry, the
//! global systems and the render system, and drives one frame at a time. The
//! host runs the outer loop — it polls its windowing backend, translates raw
//! key events, clears and presents frames — and calls the frame phases here
//! in order: [`Engine::process_events`], then [`Engine::run_frame`], then
//! [`Engine::end_frame`].

use vstd::prelude::*;

use std::collections::HashMap;

use crate::input::advance_view;
use crate::input::apply_events;
use crate::input::Input;
use crate::input::InputView;
use crate::keyboard::Button;
use crate::keyboard::Key;
use crate::resource_store::unchanged_except;
use crate::resource_store::AcquireMut;
use crate::resource_store::CellModel;
use crate::resource_store::ResourceStore;
use crate::scene::Scene;
use crate::scene::SceneModel;
use crate::scene::System;
use crate::scene_management::SceneManagement;
use crate::scene_management::NO_SCENE;

verus! {

broadcast use vstd::std_specs::hash::group_hash_axioms;

/// The store identity of the input state machine.
pub const INPUT_RESOURCE_ID: u64 = 0;

/// The store identity of the scene selector.
pub const SELECTOR_RESOURCE_ID: u64 = 1;

/// The smallest identity free for host resources; everything below is the
/// engine's.
pub const FIRST_USER_RESOURCE_ID: u64 = 2;

/// What the engine's resource store holds: the two resources the engine
/// itself owns, and whatever the host registers.
#[derive(Debug)]
pub enum EngineResource<U> {
    /// The input state machine, stored under [`INPUT_RESOURCE_ID`].
    Input(Input),
    /// The scene selector, stored under [`SELECTOR_RESOURCE_ID`].
    Selector(SceneManagement),
    /// A resource of the host's, stored under an identity of its choosing.
    User(U),
}

/// Everything that can go wrong in the orchestrator. Conflicting handles and
/// misregistered resources are programming errors; the host is expected to
/// stop on them, not to continue.
#[derive(Copy, Clone, PartialEq, Eq, Structural, Debug)]
pub enum EngineError {
    /// The frame ran with no scene selected, or the selected key has no
    /// scene: a fatal configuration error.
    NoActiveScene,
    /// A registration named a scene key that has no scene.
    UnknownSceneKey,
    /// A scene was created under a key that already has one.
    SceneAlreadyExists,
    /// A host resource was registered under one of the engine's reserved
    /// identities.
    ReservedResourceId,
    /// An engine-owned resource was missing, held by a live handle, or
    /// registered under the wrong identity — a logic error in system
    /// composition.
    ResourceUnavailable,
}

/// One entry of the frame trace: which system ran, in the order the frame
/// ran them.
#[derive(Copy, Clone, PartialEq, Eq, Structural, Debug)]
pub enum FramePhase {
    /// The global system with this position in the engine's list.
    Global(usize),
    /// The active scene's system with this position in the scene's list.
    Scene(usize),
    /// The render system.
    Render,
}

/// The trace every completed frame leaves behind: all global systems in
/// order, then all of the active scene's systems in order, then the render
/// system.
pub open spec fn frame_plan(globals: nat, scene_systems: nat) -> Seq<FramePhase> {
    Seq::new(globals, |i: int| FramePhase::Global(i as usize)) + Seq::new(
        scene_systems,
        |i: int| FramePhase::Scene(i as usize),
    ) + seq![FramePhase::Render]
}

/// The orchestrator.
pub struct Engine<W, S, U> {
    /// The scene registry: every scene the engine owns, by key.
    pub scenes: HashMap<i16, Scene<W, S>>,
    systems: Vec<S>,
    render_system: S,
    resources: ResourceStore<EngineResource<U>>,
    frame_trace: Vec<FramePhase>,
}

impl<W, S, U> Engine<W, S, U> {
    /// The scene registry as a map from key to scene model.
    pub closed spec fn spec_scenes(self) -> Map<i16, SceneModel<W, S>> {
        Map::new(|k: i16| self.scenes@.contains_key(k), |k: i16| self.scenes@[k]@)
    }

    /// The global systems, in execution order.
    pub closed spec fn spec_globals(self) -> Seq<S> {
        self.systems@
    }

    /// The render system.
    pub closed spec fn spec_render(self) -> S {
        self.render_system
    }

    /// The resource store.
    pub closed spec fn spec_resources(self) -> ResourceStore<EngineResource<U>> {
        self.resources
    }

    /// The trace of the frame most recently completed.
    pub closed spec fn spec_trace(self) -> Seq<FramePhase> {
        self.frame_trace@
    }

    /// The engine's one structural invariant: its store is well-formed.
    pub open spec fn wf(self) -> bool {
        self.spec_resources().wf()
    }

    /// Whether the scene selector can be looked at: present under its
    /// identity, of the right kind, and not held exclusively.
    pub open spec fn selector_readable(self) -> bool {
        &&& self.spec_resources().spec_contains(SELECTOR_RESOURCE_ID)
        &&& !self.spec_resources().spec_exclusive(SELECTOR_RESOURCE_ID)
        &&& self.spec_resources()@[SELECTOR_RESOURCE_ID].value matches Some(
            EngineResource::Selector(_),
        )
    }

    /// Whether the scene selector can be taken exclusively: readable and
    /// with no shared handle live either.
    pub open spec fn selector_free(self) -> bool {
        self.selector_readable() && self.spec_resources().spec_shared(SELECTOR_RESOURCE_ID) == 0
    }

    /// The key of the active scene, read out of the selector resource.
    pub open spec fn spec_active(self) -> i16 {
        match self.spec_resources()@[SELECTOR_RESOURCE_ID].value {
            Some(EngineResource::Selector(mgr)) => mgr.spec_current(),
            _ => NO_SCENE,
        }
    }

    /// Whether the input machine can be taken exclusively and used: present
    /// under its identity, of the right kind and shape, with no handle live.
    pub open spec fn input_free(self) -> bool {
        &&& self.spec_resources().spec_contains(INPUT_RESOURCE_ID)
        &&& !self.spec_resources().spec_borrowed(INPUT_RESOURCE_ID)
        &&& match self.spec_resources()@[INPUT_RESOURCE_ID].value {
            Some(EngineResource::Input(input)) => input@.wf(),
            _ => false,
        }
    }

    /// The input machine's state, read out of the input resource.
    pub open spec fn spec_input(self) -> InputView {
        match self.spec_resources()@[INPUT_RESOURCE_ID].value {
            Some(EngineResource::Input(input)) => input@,
            _ => InputView::start(),
        }
    }

    /// A fresh engine: no scenes, no global systems, an empty frame trace,
    /// and a store holding exactly the engine's own two resources — the
    /// input machine in its start state and a selector with no scene
    /// selected.
    pub fn new(render_system: S) -> (r: Self)
        ensures
            r.wf(),
            r.spec_scenes() == Map::<i16, SceneModel<W, S>>::empty(),
            r.spec_globals() == Seq::<S>::empty(),
            r.spec_render() == render_system,
            r.spec_trace() == Seq::<FramePhase>::empty(),
            r.selector_free(),
            r.spec_active() == NO_SCENE,
            r.input_free(),
            r.spec_input() == InputView::start(),
            forall|id: u64|
                id != INPUT_RESOURCE_ID && id != SELECTOR_RESOURCE_ID
                    ==> !r.spec_resources().spec_contains(id),
    {
        let mut resources = ResourceStore::new();
        resources.insert(SELECTOR_RESOURCE_ID, EngineResource::Selector(SceneManagement::new()));
        resources.insert(INPUT_RESOURCE_ID, EngineResource::Input(Input::new()));
        let r = Engine {
            scenes: HashMap::new(),
            systems: Vec::new(),
            render_system,
            resources,
            frame_trace: Vec::new(),
        };
        proof {
            assert(r.spec_scenes() =~= Map::<i16, SceneModel<W, S>>::empty());
        }
        r
    }

    /// Appends a global system; global systems run before any scene system,
    /// in the order they were added.
    pub fn add_system(&mut self, system: S)
        requires
            old(self).wf(),
        ensures
            final(self).wf(),
            final(self).spec_globals() == old(self).spec_globals().push(system),
            final(self).spec_scenes() == old(self).spec_scenes(),
            final(self).spec_render() == old(self).spec_render(),
            final(self).spec_resources() == old(self).spec_resources(),
            final(self).spec_trace() == old(self).spec_trace(),
    {
        self.systems.push(system);
    }

    /// Creates the scene for `key` over the given world. A key that already
    /// has a scene is refused, so no live scene is ever replaced. The first
    /// scene ever created becomes the active one.
    pub fn create_scene(&mut self, key: u8, world: W) -> (r: Result<(), EngineError>)
        requires
            old(self).wf(),
        ensures
            final(self).wf(),
            final(self).spec_globals() == old(self).spec_globals(),
            final(self).spec_render() == old(self).spec_render(),
            final(self).spec_trace() == old(self).spec_trace(),
            old(self).spec_scenes().contains_key(key as i16) ==> {
                &&& r == Err::<(), EngineError>(EngineError::SceneAlreadyExists)
                &&& final(self).spec_scenes() == old(self).spec_scenes()
                &&& final(self).spec_resources()@ == old(self).spec_resources()@
            },
            !old(self).spec_scenes().contains_key(key as i16) && !old(self).selector_free() ==> {
                &&& r == Err::<(), EngineError>(EngineError::ResourceUnavailable)
                &&& final(self).spec_scenes() == old(self).spec_scenes()
                &&& final(self).spec_resources()@ == old(self).spec_resources()@
            },
            !old(self).spec_scenes().contains_key(key as i16) && old(self).selector_free() ==> {
                &&& r == Ok::<(), EngineError>(())
                &&& final(self).spec_scenes() == old(self).spec_scenes().insert(
                    key as i16,
                    SceneModel { world, systems: Seq::<S>::empty() },
                )
                &&& final(self).selector_free()
                &&& final(self).spec_active() == (if old(self).spec_active() == NO_SCENE {
                    key as i16
                } else {
                    old(self).spec_active()
                })
                &&& unchanged_except(
                    old(self).spec_resources()@,
                    final(self).spec_resources()@,
                    SELECTOR_RESOURCE_ID,
                )
            },
    {
        let k = key as i16;
        if self.scenes.contains_key(&k) {
            return Err(EngineError::SceneAlreadyExists);
        }
        match self.resources.acquire_mut(SELECTOR_RESOURCE_ID) {
            AcquireMut::Granted(selector) => {
                match selector {
                    EngineResource::Selector(mut mgr) => {
                        if mgr.current() == NO_SCENE {
                            mgr.change(key);
                        }
                        self.resources.release_mut(
                            SELECTOR_RESOURCE_ID,
                            EngineResource::Selector(mgr),
                        );
                        self.scenes.insert(k, Scene::new(world));
                        proof {
                            assert(final(self).spec_scenes() =~= old(self).spec_scenes().insert(
                                key as i16,
                                SceneModel { world, systems: Seq::<S>::empty() },
                            ));
                        }
                        Ok(())
                    },
                    other => {
                        self.resources.release_mut(SELECTOR_RESOURCE_ID, other);
                        proof {
                            assert(final(self).spec_resources()@ =~= old(self).spec_resources()@);
                        }
                        Err(EngineError::ResourceUnavailable)
                    },
                }
            },
            AcquireMut::Missing => Err(EngineError::ResourceUnavailable),
            AcquireMut::Conflict => Err(EngineError::ResourceUnavailable),
        }
    }

    /// Appends a system to the scene for `key`; a key with no scene is an
    /// explicit error, never a silent drop.
    pub fn add_scene_system(&mut self, scene: u8, system: S) -> (r: Result<(), EngineError>)
        requires
            old(self).wf(),
        ensures
            final(self).wf(),
            final(self).spec_globals() == old(self).spec_globals(),
            final(self).spec_render() == old(self).spec_render(),
            final(self).spec_trace() == old(self).spec_trace(),
            final(self).spec_resources() == old(self).spec_resources(),
            old(self).spec_scenes().contains_key(scene as i16) ==> {
                &&& r == Ok::<(), EngineError>(())
                &&& final(self).spec_scenes() == old(self).spec_scenes().insert(
                    scene as i16,
                    SceneModel {
                        world: old(self).spec_scenes()[scene as i16].world,
                        systems: old(self).spec_scenes()[scene as i16].systems.push(system),
                    },
                )
            },
            !old(self).spec_scenes().contains_key(scene as i16) ==> {
                &&& r == Err::<(), EngineError>(EngineError::UnknownSceneKey)
                &&& final(self).spec_scenes() == old(self).spec_scenes()
            },
    {
        let k = scene as i16;
        match self.scenes.remove(&k) {
            Some(mut sc) => {
                sc.add_system(system);
                self.scenes.insert(k, sc);
                proof {
                    assert(final(self).spec_scenes() =~= old(self).spec_scenes().insert(
                        scene as i16,
                        SceneModel {
                            world: old(self).spec_scenes()[scene as i16].world,
                            systems: old(self).spec_scenes()[scene as i16].systems.push(system),
                        },
                    ));
                }
                Ok(())
            },
            None => {
                proof {
                    assert(final(self).spec_scenes() =~= old(self).spec_scenes());
                }
                Err(EngineError::UnknownSceneKey)
            },
        }
    }

    /// Registers a host resource under `id`, replacing any previous instance
    /// there. The engine's own identities are refused, and so is an identity
    /// with a live handle.
    pub fn add_resource(&mut self, id: u64, value: U) -> (r: Result<(), EngineError>)
        requires
            old(self).wf(),
        ensures
            final(self).wf(),
            final(self).spec_globals() == old(self).spec_globals(),
            final(self).spec_render() == old(self).spec_render(),
            final(self).spec_trace() == old(self).spec_trace(),
            final(self).spec_scenes() == old(self).spec_scenes(),
            (id == INPUT_RESOURCE_ID || id == SELECTOR_RESOURCE_ID) ==> {
                &&& r == Err::<(), EngineError>(EngineError::ReservedResourceId)
                &&& final(self).spec_resources() == old(self).spec_resources()
            },
            id >= FIRST_USER_RESOURCE_ID && old(self).spec_resources().spec_borrowed(id) ==> {
                &&& r == Err::<(), EngineError>(EngineError::ResourceUnavailable)
                &&& final(self).spec_resources() == old(self).spec_resources()
            },
            id >= FIRST_USER_RESOURCE_ID && !old(self).spec_resources().spec_borrowed(id) ==> {
                &&& r == Ok::<(), EngineError>(())
                &&& final(self).spec_resources()@ == old(self).spec_resources()@.insert(
                    id,
                    CellModel {
                        shared: 0,
                        exclusive: false,
                        value: Some(EngineResource::User(value)),
                    },
                )
            },
    {
        if id == INPUT_RESOURCE_ID || id == SELECTOR_RESOURCE_ID {
            return Err(EngineError::ReservedResourceId);
        }
        if self.resources.is_exclusive(id) || self.resources.shared_count(id) > 0 {
            return Err(EngineError::ResourceUnavailable);
        }
        self.resources.insert(id, EngineResource::User(value));
        Ok(())
    }

    /// The key of the active scene, read from the selector resource; asking
    /// while the selector is held exclusively or misregistered is an error.
    pub fn active_key(&self) -> (r: Result<i16, EngineError>)
        requires
            self.wf(),
        ensures
            self.selector_readable() ==> r == Ok::<i16, EngineError>(self.spec_active()),
            !self.selector_readable() ==> r == Err::<i16, EngineError>(
                EngineError::ResourceUnavailable,
            ),
    {
        if self.resources.is_exclusive(SELECTOR_RESOURCE_ID) {
            return Err(EngineError::ResourceUnavailable);
        }
        match self.resources.peek(SELECTOR_RESOURCE_ID) {
            Some(EngineResource::Selector(mgr)) => Ok(mgr.current()),
            Some(_) => Err(EngineError::ResourceUnavailable),
            None => Err(EngineError::ResourceUnavailable),
        }
    }

    /// The resource store, read-only.
    pub fn resources(&self) -> (r: &ResourceStore<EngineResource<U>>)
        ensures
            *r == self.spec_resources(),
    {
        &self.resources
    }

    /// The resource store, for the host to keep its own resources current
    /// between frame phases.
    pub fn resources_mut(&mut self) -> (r: &mut ResourceStore<EngineResource<U>>)
        ensures
            *r == old(self).spec_resources(),
            final(self).spec_resources() == *final(r),
            final(self).spec_scenes() == old(self).spec_scenes(),
            final(self).spec_globals() == old(self).spec_globals(),
            final(self).spec_render() == old(self).spec_render(),
            final(self).spec_trace() == old(self).spec_trace(),
    {
        &mut self.resources
    }

    /// The trace of the frame most recently completed by
    /// [`Engine::run_frame`].
    pub fn frame_trace(&self) -> (r: &Vec<FramePhase>)
        ensures
            r@ == self.spec_trace(),
    {
        &self.frame_trace
    }

    /// Frame phase one: records a batch of raw key events against the input
    /// machine, in the order the backend delivered them. Nothing else is
    /// touched; an input machine that is missing, held or misregistered is
    /// an explicit error.
    pub fn process_events(&mut self, events: &Vec<(Key, Button)>) -> (r: Result<(), EngineError>)
        requires
            old(self).wf(),
        ensures
            final(self).wf(),
            final(self).spec_scenes() == old(self).spec_scenes(),
            final(self).spec_globals() == old(self).spec_globals(),
            final(self).spec_render() == old(self).spec_render(),
            final(self).spec_trace() == old(self).spec_trace(),
            !old(self).input_free() ==> {
                &&& r == Err::<(), EngineError>(EngineError::ResourceUnavailable)
                &&& final(self).spec_resources()@ == old(self).spec_resources()@
            },
            old(self).input_free() ==> {
                &&& r == Ok::<(), EngineError>(())
                &&& final(self).input_free()
                &&& final(self).spec_input() == apply_events(old(self).spec_input(), events@)
                &&& unchanged_except(
                    old(self).spec_resources()@,
                    final(self).spec_resources()@,
                    INPUT_RESOURCE_ID,
                )
            },
    {
        match self.resources.acquire_mut(INPUT_RESOURCE_ID) {
            AcquireMut::Granted(resource) => {
                match resource {
                    EngineResource::Input(mut input) => {
                        if !input.is_well_formed() {
                            self.resources.release_mut(
                                INPUT_RESOURCE_ID,
                                EngineResource::Input(input),
                            );
                            proof {
                                assert(self.spec_resources()@ =~= old(self).spec_resources()@);
                            }
                            return Err(EngineError::ResourceUnavailable);
                        }
                        let ghost v0 = input@;
                        let mut i: usize = 0;
                        while i < events.len()
                            invariant
                                i <= events@.len(),
                                input@.wf(),
                                input@ == apply_events(v0, events@.take(i as int)),
                            decreases events@.len() - i,
                        {
                            let (key, button) = events[i];
                            crate::input::update(&mut input, key, button);
                            proof {
                                assert(events@.take(i + 1).drop_last() =~= events@.take(i as int));
                                assert(events@.take(i + 1).last() == events@[i as int]);
                            }
                            i = i + 1;
                        }
                        proof {
                            assert(events@.take(events@.len() as int) =~= events@);
                        }
                        self.resources.release_mut(INPUT_RESOURCE_ID, EngineResource::Input(input));
                        Ok(())
                    },
                    other => {
                        self.resources.release_mut(INPUT_RESOURCE_ID, other);
                        proof {
                            assert(self.spec_resources()@ =~= old(self).spec_resources()@);
                        }
                        Err(EngineError::ResourceUnavailable)
                    },
                }
            },
            AcquireMut::Missing => Err(EngineError::ResourceUnavailable),
            AcquireMut::Conflict => Err(EngineError::ResourceUnavailable),
        }
    }

    /// Frame phase three: advances the input machine by one frame, after
    /// every system of the frame has had its chance to observe the
    /// edge-triggered state. An input machine that is missing, held or
    /// misregistered is an explicit error.
    pub fn end_frame(&mut self) -> (r: Result<(), EngineError>)
        requires
            old(self).wf(),
        ensures
            final(self).wf(),
            final(self).spec_scenes() == old(self).spec_scenes(),
            final(self).spec_globals() == old(self).spec_globals(),
            final(self).spec_render() == old(self).spec_render(),
            final(self).spec_trace() == old(self).spec_trace(),
            !old(self).input_free() ==> {
                &&& r == Err::<(), EngineError>(EngineError::ResourceUnavailable)
                &&& final(self).spec_resources()@ == old(self).spec_resources()@
            },
            old(self).input_free() ==> {
                &&& r == Ok::<(), EngineError>(())
                &&& final(self).input_free()
                &&& final(self).spec_input() == advance_view(old(self).spec_input())
                &&& unchanged_except(
                    old(self).spec_resources()@,
                    final(self).spec_resources()@,
                    INPUT_RESOURCE_ID,
                )
            },
    {
        match self.resources.acquire_mut(INPUT_RESOURCE_ID) {
            AcquireMut::Granted(resource) => {
                match resource {
                    EngineResource::Input(mut input) => {
                        if !input.is_well_formed() {
                            self.resources.release_mut(
                                INPUT_RESOURCE_ID,
                                EngineResource::Input(input),
                            );
                            proof {
                                assert(self.spec_resources()@ =~= old(self).spec_resources()@);
                            }
                            return Err(EngineError::ResourceUnavailable);
                        }
                        crate::input::clean_up(&mut input);
                        self.resources.release_mut(INPUT_RESOURCE_ID, EngineResource::Input(input));
                        Ok(())
                    },
                    other => {
                        self.resources.release_mut(INPUT_RESOURCE_ID, other);
                        proof {
                            assert(self.spec_resources()@ =~= old(self).spec_resources()@);
                        }
                        Err(EngineError::ResourceUnavailable)
                    },
                }
            },
            AcquireMut::Missing => Err(EngineError::ResourceUnavailable),
            AcquireMut::Conflict => Err(EngineError::ResourceUnavailable),
        }
    }
}

impl<W, S, U> Engine<W, S, U> where S: System<W, EngineResource<U>> {
    /// Whether a frame can run: the selector can be read, a scene is
    /// selected, and the selected key has a scene.
    pub open spec fn frame_ready(self) -> bool {
        &&& self.selector_readable()
        &&& self.spec_active() != NO_SCENE
        &&& self.spec_scenes().contains_key(self.spec_active())
    }

    /// Whether a frame that could not run left the engine exactly as it
    /// found it: registry, store and trace untouched.
    pub open spec fn untouched(pre: Self, post: Self) -> bool {
        &&& post.spec_scenes() == pre.spec_scenes()
        &&& post.spec_resources()@ == pre.spec_resources()@
        &&& post.spec_trace() == pre.spec_trace()
    }

    /// What a completed frame may do to the scene registry: no scene comes
    /// or goes, only the active scene's world changes, and even the active
    /// scene keeps its systems.
    pub open spec fn scenes_after_frame(pre: Self, post: Self) -> bool {
        &&& forall|k: i16|
            post.spec_scenes().contains_key(k) == pre.spec_scenes().contains_key(k)
        &&& forall|k: i16|
            k != pre.spec_active() && pre.spec_scenes().contains_key(k)
                ==> (#[trigger] post.spec_scenes()[k]) == pre.spec_scenes()[k]
        &&& post.spec_scenes()[pre.spec_active()].systems
            == pre.spec_scenes()[pre.spec_active()].systems
    }

    /// Frame phase two: resolves the active scene and runs the frame's
    /// systems against its world and the shared store — every global system
    /// in order, then every system of the active scene in order, then the
    /// render system — leaving the order on record in the frame trace.
    /// Running with no scene selected, or with the selector pointing at a
    /// key that has no scene, is a fatal configuration error.
    pub fn run_frame(&mut self) -> (r: Result<(), EngineError>)
        requires
            old(self).wf(),
        ensures
            final(self).wf(),
            final(self).spec_globals() == old(self).spec_globals(),
            final(self).spec_render() == old(self).spec_render(),
            !old(self).selector_readable() ==> r == Err::<(), EngineError>(
                EngineError::ResourceUnavailable,
            ) && Self::untouched(*old(self), *final(self)),
            old(self).selector_readable() && !old(self).frame_ready() ==> r == Err::<
                (),
                EngineError,
            >(EngineError::NoActiveScene) && Self::untouched(*old(self), *final(self)),
            old(self).frame_ready() ==> r == Ok::<(), EngineError>(()) && final(self).spec_trace()
                == frame_plan(
                old(self).spec_globals().len(),
                old(self).spec_scenes()[old(self).spec_active()].systems.len(),
            ) && Self::scenes_after_frame(*old(self), *final(self)),
    {
        let active = match self.active_key() {
            Ok(a) => a,
            Err(e) => {
                return Err(e);
            },
        };
        if active == NO_SCENE {
            return Err(EngineError::NoActiveScene);
        }
        let mut scene = match self.scenes.remove(&active) {
            Some(s) => s,
            None => {
                proof {
                    assert(self.spec_scenes() =~= old(self).spec_scenes());
                }
                return Err(EngineError::NoActiveScene);
            },
        };
        let ghost scene_systems = scene@.systems;
        self.frame_trace = Vec::new();

        let mut i: usize = 0;
        while i < self.systems.len()
            invariant
                old(self).wf(),
                i <= self.systems@.len(),
                self.resources.wf(),
                self.systems@ == old(self).spec_globals(),
                self.render_system == old(self).spec_render(),
                self.scenes@ == old(self).scenes@.remove(active),
                scene@.systems == scene_systems,
                self.frame_trace@ == Seq::new(
                    i as nat,
                    |k: int| FramePhase::Global(k as usize),
                ),
            decreases self.systems@.len() - i,
        {
            self.frame_trace.push(FramePhase::Global(i));
            let system = &self.systems[i];
            system.run(&mut scene.world, &mut self.resources);
            proof {
                assert(self.frame_trace@ =~= Seq::new(
                    (i + 1) as nat,
                    |k: int| FramePhase::Global(k as usize),
                ));
            }
            i = i + 1;
        }

        let ghost globals_trace = self.frame_trace@;
        let mut j: usize = 0;
        while j < scene.systems.len()
            invariant
                old(self).wf(),
                j <= scene.systems@.len(),
                self.resources.wf(),
                self.systems@ == old(self).spec_globals(),
                self.render_system == old(self).spec_render(),
                self.scenes@ == old(self).scenes@.remove(active),
                scene@.systems == scene_systems,
                globals_trace == Seq::new(
                    old(self).spec_globals().len(),
                    |k: int| FramePhase::Global(k as usize),
                ),
                self.frame_trace@ == globals_trace + Seq::new(
                    j as nat,
                    |k: int| FramePhase::Scene(k as usize),
                ),
            decreases scene.systems@.len() - j,
        {
            self.frame_trace.push(FramePhase::Scene(j));
            let system = &scene.systems[j];
            system.run(&mut scene.world, &mut self.resources);
            proof {
                assert(self.frame_trace@ =~= globals_trace + Seq::new(
                    (j + 1) as nat,
                    |k: int| FramePhase::Scene(k as usize),
                ));
            }
            j = j + 1;
        }

        self.frame_trace.push(FramePhase::Render);
        self.render_system.run(&mut scene.world, &mut self.resources);
        self.scenes.insert(active, scene);
        proof {
            assert(self.frame_trace@ =~= frame_plan(
                old(self).spec_globals().len(),
                scene_systems.len(),
            ));
            assert forall|k: i16|
                self.spec_scenes().contains_key(k) == old(self).spec_scenes().contains_key(
                    k,
                ) by {}
            assert forall|k: i16|
                k != old(self).spec_active() && old(self).spec_scenes().contains_key(
                    k,
                ) implies self.spec_scenes()[k] == old(self).spec_scenes()[k] by {}
        }
        Ok(())
    }
}

/// Scene execution order: in the trace of every completed frame, each global
/// system stands before each scene system, each scene system before the
/// render pass, and the render pass closes the frame — so global logic
/// observes pre-scene state, scene logic then mutates it, and rendering sees
/// the frame's final state.
pub proof fn lemma_frame_order(globals: nat, scene_systems: nat)
    ensures
        frame_plan(globals, scene_systems).len() == globals + scene_systems + 1,
        forall|i: int|
            0 <= i < globals ==> (#[trigger] frame_plan(globals, scene_systems)[i]) == (
            FramePhase::Global(i as usize)),
        forall|i: int|
            globals <= i < globals + scene_systems ==> (#[trigger] frame_plan(
                globals,
                scene_systems,
            )[i]) == (FramePhase::Scene((i - globals) as usize)),
        frame_plan(globals, scene_systems).last() == FramePhase::Render,
        forall|i: int, j: int|
            {
                &&& 0 <= i < frame_plan(globals, scene_systems).len()
                &&& 0 <= j < frame_plan(globals, scene_systems).len()
                &&& (#[trigger] frame_plan(globals, scene_systems)[i]) is Global
                &&& (#[trigger] frame_plan(globals, scene_systems)[j]) is Scene
            } ==> i < j,
        forall|i: int|
            0 <= i < frame_plan(globals, scene_systems).len() && (#[trigger] frame_plan(
                globals,
                scene_systems,
            )[i]) is Render ==> i == globals + scene_systems,
{
    let plan = frame_plan(globals, scene_systems);
    assert forall|i: int| 0 <= i < plan.len() implies (if i < globals {
        plan[i] == (FramePhase::Global(i as usize))
    } else if i < globals + scene_systems {
        plan[i] == (FramePhase::Scene((i - globals) as usize))
    } else {
        plan[i] == FramePhase::Render
    }) by {}
}

} // verus!
