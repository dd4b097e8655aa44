//! Owned handles to objects that release their own backing memory.
use vstd::prelude::*;

verus! {

/// A buffer lent out by a host controller.
pub trait RemoteBuffer {
    /// The bytes of the buffer.
    fn get(&self) -> &[u8];
}

/// An object that releases its own backing memory.
pub trait RemoteFree {
    /// Release the backing memory; the object is not used again.
    fn free_self(&mut self);
}

/// Sole owner of an object that releases itself: releasing the handle
/// releases the object.
pub struct Handle<T: RemoteFree> {
    inner: Box<T>,
}

impl<T: RemoteFree> Handle<T> {
    /// Take ownership of `v`.
    pub fn new(v: Box<T>) -> (r: Handle<T>)
        ensures
            *r.view_inner() == *v,
    {
        Handle { inner: v }
    }

    /// The owned object.
    pub closed spec fn view_inner(&self) -> Box<T> {
        self.inner
    }

    /// The owned object.
    pub fn get(&self) -> (r: &T)
        ensures
            *r == *self.view_inner(),
    {
        &*self.inner
    }

    /// Release the object.
    pub fn release(self) {
        let mut b = self.inner;
        b.free_self();
    }
}

} // verus!
