//! The scene selector: the resource that names which scene the frame loop
//! drives. Scene keys are small unsigned integers; the selector widens them
//! so that one sentinel value below every key can say that no scene has been
//! selected yet.

use vstd::prelude::*;

verus! {

/// The selector value meaning that no scene is selected.
pub const NO_SCENE: i16 = -1;

/// The scene selector resource: the key of the active scene, or [`NO_SCENE`].
#[derive(PartialEq, Eq, Structural, Debug)]
pub struct SceneManagement {
    current_scene: i16,
}

impl SceneManagement {
    /// The key of the active scene, or [`NO_SCENE`].
    pub closed spec fn spec_current(self) -> i16 {
        self.current_scene
    }

    /// A selector with no scene selected.
    pub fn new() -> (r: Self)
        ensures
            r.spec_current() == NO_SCENE,
    {
        Self { current_scene: NO_SCENE }
    }

    /// Selects the scene with the given key.
    pub fn change(&mut self, scene: u8)
        ensures
            final(self).spec_current() == scene as i16,
    {
        self.current_scene = scene as i16;
    }

    /// The key of the active scene, or [`NO_SCENE`].
    pub fn current(&self) -> (r: i16)
        ensures
            r == self.spec_current(),
    {
        self.current_scene
    }
}

/// The same selector state as a plain record, for hosts that keep the active
/// key themselves rather than going through [`SceneManagement`]'s methods.
#[derive(PartialEq, Eq, Structural, Debug)]
pub struct SceneState {
    pub current_scene: i16,
}

impl SceneState {
    /// No scene selected.
    pub fn new() -> (r: Self)
        ensures
            r.current_scene == NO_SCENE,
    {
        Self { current_scene: NO_SCENE }
    }
}

impl Default for SceneState {
    /// Same state as [`SceneState::new`].
    fn default() -> (r: Self)
        ensures
            r.current_scene == NO_SCENE,
    {
        Self::new()
    }
}

} // verus!
