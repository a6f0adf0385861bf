//! The per-frame scheduler: a world of systems, each advanced once per tick
//! in the order in which it was added, and the arena tracker system.
use vstd::prelude::*;

verus! {

/// Width and height of the viewport in pixels, as the host read them for
/// this tick.
#[derive(Debug, Clone, Copy, PartialEq, Eq, Structural)]
pub struct Extent {
    pub width: u32,
    pub height: u32,
}

/// A unit of work that the world advances once per tick. The host reads the
/// viewport before the tick and hands its extent to every system.
pub trait System: Sized {
    /// The system's state after one tick on `viewport`.
    spec fn processed(&self, viewport: Extent) -> Self;

    fn process(&mut self, viewport: Extent)
        ensures
            *final(self) == old(self).processed(viewport),
    ;
}

/// The arena's current dimensions.
#[derive(Debug, Clone, Copy, PartialEq, Eq, Structural)]
pub struct Arena {
    pub width: u32,
    pub height: u32,
}

impl Arena {
    pub fn new(height: u32, width: u32) -> (r: Arena)
        ensures
            r.height == height,
            r.width == width,
    {
        Arena { height, width }
    }

    /// Takes on the viewport's dimensions and returns them as
    /// `(width, height)`. A tick of the world and a resize notice both come
    /// here.
    pub fn refresh(&mut self, viewport: Extent) -> (r: (u32, u32))
        ensures
            final(self).width == viewport.width,
            final(self).height == viewport.height,
            r == (viewport.width, viewport.height),
    {
        self.width = viewport.width;
        self.height = viewport.height;
        (self.width, self.height)
    }
}

impl System for Arena {
    open spec fn processed(&self, viewport: Extent) -> Arena {
        Arena { width: viewport.width, height: viewport.height }
    }

    fn process(&mut self, viewport: Extent) {
        self.refresh(viewport);
    }
}

/// An ordered collection of systems. Insertion order is execution order;
/// systems are never removed.
pub struct World<S: System> {
    pub systems: Vec<S>,
}

impl<S: System> World<S> {
    pub fn new() -> (r: World<S>)
        ensures
            r.systems@.len() == 0,
    {
        World { systems: Vec::new() }
    }

    /// Adds `system` after every system already in the world.
    pub fn add_system(&mut self, system: S)
        ensures
            final(self).systems@ == old(self).systems@.push(system),
    {
        self.systems.push(system);
    }

    /// One tick: processes every system exactly once, in insertion order.
    pub fn update(&mut self, viewport: Extent)
        ensures
            final(self).systems@ == old(self).systems@.map_values(
                |s: S| s.processed(viewport),
            ),
    {
        let ghost start = self.systems@;
        let n = self.systems.len();
        let mut i: usize = 0;
        while i < n
            invariant
                n == start.len(),
                i <= n,
                self.systems@.len() == n,
                forall|k: int| 0 <= k < i ==> self.systems@[k] == start[k].processed(viewport),
                forall|k: int| i <= k < n ==> self.systems@[k] == start[k],
            decreases n - i,
        {
            self.systems[i].process(viewport);
            i = i + 1;
        }
        assert(self.systems@ =~= start.map_values(|s: S| s.processed(viewport)));
    }
}

} // verus!
