//! Entity identifiers and per-entity component storage.
use vstd::prelude::*;

verus! {

/// An entity identifier. Identifiers come from an [`EntityCounter`] and are
/// never reused.
#[derive(Debug, Clone, Copy, PartialEq, Eq, Structural)]
pub struct Entity(pub u64);

/// The single allocator of entity identifiers: it hands out `0, 1, 2, ...`
/// in order. The host keeps one for the whole process.
#[derive(Debug)]
pub struct EntityCounter {
    next: u64,
}

impl View for EntityCounter {
    type V = nat;

    /// The identifier that the next allocation returns.
    closed spec fn view(&self) -> nat {
        self.next as nat
    }
}

impl EntityCounter {
    /// A counter whose first identifier is 0.
    pub fn new() -> (r: EntityCounter)
        ensures
            r@ == 0,
    {
        EntityCounter { next: 0 }
    }

    /// Whether `n` more identifiers can be allocated.
    pub fn has_room(&self, n: u64) -> (r: bool)
        ensures
            r == (self@ + n <= u64::MAX),
    {
        n <= u64::MAX - self.next
    }

    /// Allocates the next identifier: the counter's value before the call.
    pub fn next_id(&mut self) -> (r: Entity)
        requires
            old(self)@ < u64::MAX,
        ensures
            r.0 == old(self)@,
            final(self)@ == old(self)@ + 1,
    {
        let id = self.next;
        self.next = self.next + 1;
        Entity(id)
    }
}

/// A column of component values, one pushed per entity that is given one.
pub struct Components<T> {
    pub components: Vec<T>,
}

/// A freshly allocated entity together with the component column that its
/// values go into. It borrows the column until it is dropped.
pub struct EntityComponents<'d, T> {
    pub entity: Entity,
    pub data: &'d mut Components<T>,
}

impl<'d, T> EntityComponents<'d, T> {
    /// Appends `value` to the column and hands the builder back for further
    /// values.
    pub fn add(self, value: T) -> (r: EntityComponents<'d, T>)
        ensures
            r.entity == self.entity,
            (*r.data).components@ == (*old(self.data)).components@.push(value),
            *final(self.data) == *final(r.data),
    {
        let mut this = self;
        this.data.components.push(value);
        this
    }
}

impl<T> Components<T> {
    pub fn new() -> (r: Components<T>)
        ensures
            r.components@.len() == 0,
    {
        Components { components: Vec::new() }
    }

    /// Allocates a new entity and returns it with a borrow of this column,
    /// through which values are added.
    pub fn add<'d>(&'d mut self, ids: &mut EntityCounter) -> (r: EntityComponents<'d, T>)
        requires
            old(ids)@ < u64::MAX,
        ensures
            r.entity.0 == old(ids)@,
            final(ids)@ == old(ids)@ + 1,
            *r.data == *old(self),
            *final(self) == *final(r.data),
    {
        let entity = ids.next_id();
        EntityComponents { entity, data: self }
    }
}

/// The identifiers that `count` allocations return from a counter that
/// stands at `start`: the counter's value at each call, which then advances
/// by one.
pub open spec fn issued(start: nat, count: nat) -> Seq<nat> {
    Seq::new(count, |i: int| (start + i) as nat)
}

/// Identifiers are unique and strictly increasing over any sequence of
/// allocations on one counter: a run of `a` allocations followed by a run of
/// `b` more issues exactly the identifiers of one run of `a + b`, and those
/// strictly increase.
pub proof fn lemma_ids_strictly_increase(start: nat, a: nat, b: nat)
    ensures
        issued(start, a) + issued(start + a, b) == issued(start, a + b),
        forall|i: int, j: int|
            0 <= i < j < a + b ==> #[trigger] issued(start, a + b)[i] < #[trigger] issued(
                start,
                a + b,
            )[j],
{
    assert(issued(start, a) + issued(start + a, b) =~= issued(start, a + b));
}

} // verus!
