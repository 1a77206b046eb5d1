//! Small inner computations that exercise the mechanism the way generated
//! implementation bodies do: they never receive host state as a parameter,
//! only read it through the typed accessor while their step runs.

use crate::future::{HostFuture, Step, Suspendable};
use crate::slot::Slot;
use crate::state::HostState;
use vstd::prelude::*;

verus! {

/// Reads the installed state value out of the accessor's callback.
fn value_of(x: &u32) -> (res: u32)
    ensures
        res == *x,
{
    *x
}

/// Doubles the installed state value inside the accessor's callback.
fn double_of(x: &u32) -> (res: u64)
    ensures
        res == 2 * ((*x) as u64),
{
    2 * (*x as u64)
}

/// Completes on its first step with twice the installed state value.
pub struct Doubler {
}

impl Suspendable<u32> for Doubler {
    type Output = u64;

    open spec fn resumable(&self) -> bool {
        true
    }

    open spec fn stepped(
        &self,
        prev: Self,
        slot_in: Option<u32>,
        slot_out: Option<u32>,
        r: Step<u64>,
    ) -> bool {
        &&& slot_out == slot_in
        &&& (slot_in matches Some(v) ==> (r matches Step::Ready(o) && o == 2 * (v as u64)))
    }

    proof fn pending_keeps_resumable(
        &self,
        prev: Self,
        slot_in: Option<u32>,
        slot_out: Option<u32>,
        r: Step<u64>,
    ) {
    }

    fn step(&mut self, slot: &mut Slot<u32>) -> (r: Step<u64>) {
        let accessor: HostState<u32> = HostState::new();
        let doubled = accessor.with(slot, double_of);
        Step::Ready(doubled)
    }
}

/// Pauses on its first step; on a later step, completes with the state
/// value installed for that step.
pub struct TwoStep {
    pub started: bool,
}

impl Suspendable<u32> for TwoStep {
    type Output = u32;

    open spec fn resumable(&self) -> bool {
        true
    }

    open spec fn stepped(
        &self,
        prev: Self,
        slot_in: Option<u32>,
        slot_out: Option<u32>,
        r: Step<u32>,
    ) -> bool {
        &&& slot_out == slot_in
        &&& self.started
        &&& if prev.started {
            slot_in matches Some(v) ==> (r matches Step::Ready(o) && o == v)
        } else {
            r is Pending
        }
    }

    proof fn pending_keeps_resumable(
        &self,
        prev: Self,
        slot_in: Option<u32>,
        slot_out: Option<u32>,
        r: Step<u32>,
    ) {
    }

    fn step(&mut self, slot: &mut Slot<u32>) -> (r: Step<u32>) {
        if !self.started {
            self.started = true;
            return Step::Pending;
        }
        let accessor: HostState<u32> = HostState::new();
        let v = accessor.with(slot, value_of);
        Step::Ready(v)
    }
}

/// Reads the enclosing installation, drives a nested wrapper (with its own
/// state value) on the same slot to completion, then reads the enclosing
/// installation again. Its completion value records, in order: the state
/// seen before the nested drive, the nested wrapper's completion value, and
/// the state seen after — so a completed probe exhibits the LIFO layering
/// of nested installations.
pub struct NestedProbe {
    pub sub: HostFuture<u32, Doubler>,
    pub done: bool,
}

impl Suspendable<u32> for NestedProbe {
    type Output = (u32, u64, u32);

    open spec fn resumable(&self) -> bool {
        self.done || (self.sub.wf() && !(self.sub.status_spec() is Completed))
    }

    open spec fn stepped(
        &self,
        prev: Self,
        slot_in: Option<u32>,
        slot_out: Option<u32>,
        r: Step<(u32, u64, u32)>,
    ) -> bool {
        &&& slot_out == slot_in
        &&& if prev.done {
            r is Pending && *self == prev
        } else {
            &&& self.done
            &&& (slot_in matches Some(outer) ==> (r matches Step::Ready(o) && o.0 == outer
                && o.1 == 2 * (prev.sub.state_spec() as u64) && o.2 == outer))
        }
    }

    proof fn pending_keeps_resumable(
        &self,
        prev: Self,
        slot_in: Option<u32>,
        slot_out: Option<u32>,
        r: Step<(u32, u64, u32)>,
    ) {
    }

    fn step(&mut self, slot: &mut Slot<u32>) -> (r: Step<(u32, u64, u32)>) {
        if self.done {
            return Step::Pending;
        }
        let accessor: HostState<u32> = HostState::new();
        let before = accessor.with(slot, value_of);
        let sub_outcome = self.sub.poll(slot);
        let after = accessor.with(slot, value_of);
        self.done = true;
        match sub_outcome {
            Step::Ready(v) => Step::Ready((before, v, after)),
            // The nested computation completes on its first step, so its
            // wrapper's contract rules this outcome out.
            Step::Pending => Step::Pending,
        }
    }
}

} // verus!
