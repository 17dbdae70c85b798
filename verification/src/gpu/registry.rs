//! Shared ownership with explicit teardown: an arena of resources indexed
//! by stable keys. Components hold keys instead of copies of their parents'
//! resources; the orchestrator releases keys in reverse dependency order,
//! and no slot can be read or released again once it has been released.
use vstd::prelude::*;

verus! {

/// An arena of resources of one kind. A key is the index a resource was
/// inserted at; it stays valid until the resource is explicitly released,
/// and is never reused afterwards.
pub struct Registry<T> {
    slots: Vec<Option<T>>,
}

impl<T> View for Registry<T> {
    type V = Seq<Option<T>>;

    closed spec fn view(&self) -> Seq<Option<T>> {
        self.slots@
    }
}

impl<T> Registry<T> {
    /// A key that has been issued and not yet released.
    pub open spec fn live(self, key: int) -> bool {
        0 <= key < self@.len() && self@[key] is Some
    }

    /// The resource behind a live key.
    pub open spec fn value(self, key: int) -> T
        recommends
            self.live(key),
    {
        self@[key]->0
    }

    pub fn new() -> (r: Registry<T>)
        ensures
            r@ == Seq::<Option<T>>::empty(),
    {
        let r = Registry { slots: Vec::new() };
        proof {
            assert(r@ =~= Seq::<Option<T>>::empty());
        }
        r
    }

    pub fn len(&self) -> (n: usize)
        ensures
            n == self@.len(),
    {
        self.slots.len()
    }

    pub fn is_live(&self, key: usize) -> (r: bool)
        ensures
            r == self.live(key as int),
    {
        key < self.slots.len() && self.slots[key].is_some()
    }

    /// Registers a resource and issues its key. Keys of other resources,
    /// live or released, are untouched.
    pub fn insert(&mut self, value: T) -> (key: usize)
        ensures
            key == old(self)@.len(),
            final(self)@ == old(self)@.push(Some(value)),
            final(self).live(key as int),
            final(self).value(key as int) == value,
    {
        let key = self.slots.len();
        self.slots.push(Some(value));
        key
    }

    /// Borrows the resource behind a live key; a released key is refused.
    pub fn get(&self, key: usize) -> (r: &T)
        requires
            self.live(key as int),
        ensures
            *r == self.value(key as int),
    {
        self.slots[key].as_ref().unwrap()
    }

    /// Exclusive access to the resource behind a live key: at most one
    /// writer at a time, enforced by the borrow itself.
    pub fn get_mut(&mut self, key: usize) -> (r: &mut T)
        requires
            old(self).live(key as int),
        ensures
            *r == old(self).value(key as int),
            final(self)@ == old(self)@.update(key as int, Some(*final(r))),
    {
        match &mut self.slots[key] {
            Some(value) => value,
            None => {
                proof {
                    assert(false);
                }
                unreached()
            },
        }
    }

    /// Releases a live key. The slot is emptied for good: any later `get`
    /// or `release` of the same key is refused, so a resource can neither
    /// be used after its teardown nor be torn down twice.
    pub fn release(&mut self, key: usize)
        requires
            old(self).live(key as int),
        ensures
            final(self)@ == old(self)@.update(key as int, None),
            !final(self).live(key as int),
    {
        self.slots.set(key, None);
    }
}

} // verus!
