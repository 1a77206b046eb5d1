//! The typed accessor handed to generated implementation bodies.

use crate::slot::Slot;
use vstd::prelude::*;

verus! {

/// A typed read-capability for a context slot.
///
/// An accessor owns no state: it is a cheap, copyable token that resolves
/// through the slot it is applied to. Generated implementation bodies hold
/// one instead of receiving host state as an ordinary parameter, and call
/// [`HostState::with`] whenever they need the state. Many accessors of the
/// same type may exist at once; all of them read whatever installation is
/// currently topmost.
#[verifier::reject_recursive_types(T)]
pub struct HostState<T> {
    _marker: core::marker::PhantomData<T>,
}

impl<T> Clone for HostState<T> {
    fn clone(&self) -> (c: HostState<T>) {
        HostState { _marker: core::marker::PhantomData }
    }
}

impl<T> Copy for HostState<T> {
}

impl<T> HostState<T> {
    /// Creates an accessor. Safe by construction here: the slot carries the
    /// state's type, so an accessor can never reinterpret an installed value
    /// as anything but what was installed.
    pub fn new() -> (s: HostState<T>) {
        HostState { _marker: core::marker::PhantomData }
    }

    /// Applies `f` to the currently installed state and hands back its
    /// result unchanged. An active installation is demanded up front:
    /// reading an empty slot is a contract violation of the binding layer,
    /// not a recoverable condition.
    pub fn with<R, F: FnOnce(&T) -> R>(&self, slot: &Slot<T>, f: F) -> (r: R)
        requires
            slot@ is Some,
            call_requires(f, (&slot@->0,)),
        ensures
            call_ensures(f, (&slot@->0,), r),
    {
        let v: &T = slot.read();
        f(v)
    }
}

} // verus!
