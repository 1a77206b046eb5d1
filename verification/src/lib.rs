//! Scoped context installation for suspendable host calls.
//!
//! A host-exposed function body runs as a suspendable computation and needs
//! access to externally owned host state without that state being threaded
//! through every generated signature. The pieces here provide that access:
//!
//! - [`slot::Slot`]: the context slot, a cell holding at most one currently
//!   installed state value;
//! - [`state::HostState`]: the typed accessor handed to generated
//!   implementation bodies, which reads whatever the slot currently holds;
//! - [`future::HostFuture`]: the wrapper that installs its state value into
//!   the slot around each resumption step of an inner computation and
//!   restores the slot's prior contents on the way out, giving strict LIFO
//!   layering under nesting;
//! - [`demo`]: small inner computations exercising the mechanism.

pub mod demo;
pub mod future;
pub mod slot;
pub mod state;
