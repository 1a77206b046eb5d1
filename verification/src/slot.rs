//! The context slot: storage for at most one currently installed state value.

use vstd::prelude::*;

verus! {

/// A context slot. One slot serves as a single logical context channel: it
/// holds either nothing, or the state value currently installed for the
/// resumption step that is underway.
///
/// The slot itself enforces no discipline; [`crate::future::HostFuture`]
/// brackets every resumption step with [`Slot::install`] and
/// [`Slot::restore`], so that outside the extent of an active installation
/// the slot's contents equal whatever the enclosing installation (or none)
/// left them as.
pub struct Slot<T> {
    value: Option<T>,
}

impl<T> View for Slot<T> {
    type V = Option<T>;

    closed spec fn view(&self) -> Option<T> {
        self.value
    }
}

impl<T> Slot<T> {
    /// Creates an empty slot: no state is installed until a wrapper's first
    /// resumption step installs some.
    pub fn new() -> (s: Slot<T>)
        ensures
            s@ is None,
    {
        Slot { value: None }
    }

    /// Installs `v` as the slot's contents, handing back the previous
    /// contents so that the caller can restore them when its extent ends.
    pub fn install(&mut self, v: T) -> (prev: Option<T>)
        ensures
            final(self)@ == Some(v),
            prev == old(self)@,
    {
        let mut tmp: Option<T> = Some(v);
        core::mem::swap(&mut self.value, &mut tmp);
        tmp
    }

    /// Puts back contents previously captured by [`Slot::install`], ending
    /// the installation that captured them.
    pub fn restore(&mut self, prev: Option<T>)
        ensures
            final(self)@ == prev,
    {
        self.value = prev;
    }

    /// Borrows the currently installed value. Reading an empty slot means
    /// the install/restore discipline was bypassed — a bug in the binding
    /// layer, not a caller input error — so an installation is demanded
    /// up front rather than reported as a recoverable failure.
    pub fn read(&self) -> (r: &T)
        requires
            self@ is Some,
        ensures
            *r == self@->0,
    {
        match &self.value {
            Some(v) => v,
            None => vstd::pervasive::unreached(),
        }
    }

    /// Whether an installation is currently active.
    pub fn is_installed(&self) -> (r: bool)
        ensures
            r == (self@ is Some),
    {
        match &self.value {
            Some(_) => true,
            None => false,
        }
    }
}

} // verus!
