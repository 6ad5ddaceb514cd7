//! A scene: one entity/component world plus the ordered list of systems
//! scoped to it. The world's type is the host's — an external
//! entity/component library supplies it — and this core only carries it
//! between the systems that work on it.

use vstd::prelude::*;

use crate::resource_store::ResourceStore;

verus! {

/// One unit of per-frame logic, supplied by the host: it may read and write
/// the world and go through the resource store's interface at will.
///
/// The one promise asked of an implementation is that it leaves the store
/// well-formed; every implementation keeps it automatically, because the
/// store's state can only be changed through its public interface, each of
/// whose operations preserves well-formedness.
pub trait System<W, R> {
    /// Runs the system once against the world and the shared resource store.
    fn run(&self, world: &mut W, resources: &mut ResourceStore<R>)
        requires
            old(resources).wf(),
        ensures
            final(resources).wf(),
    ;
}

/// Model of a scene: its world and its systems in execution order.
#[verifier::ext_equal]
pub struct SceneModel<W, S> {
    pub world: W,
    pub systems: Seq<S>,
}

/// A scene: one world and the systems that run against it, in the order they
/// were added.
pub struct Scene<W, S> {
    pub world: W,
    pub systems: Vec<S>,
}

impl<W, S> View for Scene<W, S> {
    type V = SceneModel<W, S>;

    open spec fn view(&self) -> SceneModel<W, S> {
        SceneModel { world: self.world, systems: self.systems@ }
    }
}

impl<W, S> Scene<W, S> {
    /// A scene over the given world, with no systems yet.
    pub fn new(world: W) -> (r: Self)
        ensures
            r@ == (SceneModel { world, systems: Seq::<S>::empty() }),
    {
        let r = Scene { world, systems: Vec::new() };
        proof {
            assert(r@ =~= (SceneModel { world, systems: Seq::<S>::empty() }));
        }
        r
    }

    /// The scene's world.
    pub fn world(&self) -> (r: &W)
        ensures
            *r == self@.world,
    {
        &self.world
    }

    /// The scene's world, for the host to fill with entities.
    pub fn world_mut(&mut self) -> (r: &mut W)
        ensures
            *r == old(self)@.world,
            final(self)@ == (SceneModel { world: *final(r), systems: old(self)@.systems }),
    {
        &mut self.world
    }

    /// Appends a system; systems run in the order they were added.
    pub fn add_system(&mut self, system: S)
        ensures
            final(self)@ == (SceneModel {
                world: old(self)@.world,
                systems: old(self)@.systems.push(system),
            }),
    {
        self.systems.push(system);
    }

    /// Runs the scene's systems in the order they were added, each against
    /// the scene's world and the shared resource store.
    pub fn execute_systems<R>(&mut self, resources: &mut ResourceStore<R>) where S: System<W, R>
        requires
            old(resources).wf(),
        ensures
            final(resources).wf(),
            final(self)@.systems == old(self)@.systems,
    {
        let mut i: usize = 0;
        while i < self.systems.len()
            invariant
                resources.wf(),
                self@.systems == old(self)@.systems,
                i <= self.systems.len(),
            decreases self.systems.len() - i,
        {
            let system = &self.systems[i];
            system.run(&mut self.world, resources);
            i = i + 1;
        }
    }
}

} // verus!
