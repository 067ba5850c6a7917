//! A shared-cell shim: the single-threaded core accesses its cells
//! through a closure-passing interface, so an embedding that checks
//! concurrent interleavings can substitute an instrumented cell without
//! touching the call sites.

use vstd::prelude::*;

verus! {

/// A cell accessed through closures.
pub struct UnsafeCell<T>(pub T);

impl<T> UnsafeCell<T> {
    /// Wraps a value.
    pub fn new(t: T) -> (r: UnsafeCell<T>)
        ensures
            r.0 == t,
    {
        UnsafeCell(t)
    }

    /// Applies a closure to the contents.
    pub fn with<R, F: FnOnce(&T) -> R>(&self, f: F) -> (r: R)
        requires
            call_requires(f, (&self.0,)),
        ensures
            call_ensures(f, (&self.0,), r),
    {
        f(&self.0)
    }

    /// Applies a transforming closure to the contents, replacing them
    /// with what it returns.
    pub fn with_mut<R, F: FnOnce(T) -> (T, R)>(self, f: F) -> (r: (UnsafeCell<T>, R))
        requires
            call_requires(f, (self.0,)),
        ensures
            call_ensures(f, (self.0,), ((r.0).0, r.1)),
    {
        let (t, out) = f(self.0);
        (UnsafeCell(t), out)
    }
}

} // verus!
