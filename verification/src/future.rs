//! The suspendable-operation wrapper: installs its state value around each
//! resumption step of an inner computation and restores the slot afterwards.

use crate::slot::Slot;
use vstd::prelude::*;

verus! {

/// The outcome of one resumption step: the computation either paused again
/// or completed with a value.
#[derive(Debug, PartialEq, Eq)]
pub enum Step<O> {
    /// The computation elected to pause; a later step may resume it.
    Pending,
    /// The computation finished with this value; no further step is valid.
    Ready(O),
}

/// Where a wrapper stands across its repeated resumption steps.
#[derive(Clone, Copy, Debug, PartialEq, Eq, Structural)]
pub enum Status {
    /// No resumption step has been taken yet.
    NotStarted,
    /// The last step returned [`Step::Pending`]; another step may follow.
    Suspended,
    /// A step returned [`Step::Ready`]; this is terminal.
    Completed,
}

/// An inner suspendable computation, driven one resumption step at a time.
///
/// Implementors are the generated implementation bodies (or computations
/// composed from them). Each implementor describes its own steps through two
/// spec functions: `resumable` says when a further step is valid — a
/// computation that has completed is not obliged to accept another step,
/// matching the inner computation's own contract — and `stepped` relates the
/// computation before and after a step, the slot contents the step saw at
/// entry and left at exit, and the step's outcome.
pub trait Suspendable<T>: Sized {
    /// What the computation completes with.
    type Output;

    /// When a resumption step may be taken.
    spec fn resumable(&self) -> bool;

    /// What one resumption step did: `self` is the computation after the
    /// step, `prev` the computation before it, `slot_in` and `slot_out` the
    /// slot contents at entry and exit, and `r` the outcome.
    spec fn stepped(
        &self,
        prev: Self,
        slot_in: Option<T>,
        slot_out: Option<T>,
        r: Step<Self::Output>,
    ) -> bool;

    /// A step that pauses leaves the computation resumable, so the wrapper
    /// may lawfully be driven again after reporting [`Step::Pending`].
    proof fn pending_keeps_resumable(
        &self,
        prev: Self,
        slot_in: Option<T>,
        slot_out: Option<T>,
        r: Step<Self::Output>,
    )
        requires
            self.stepped(prev, slot_in, slot_out, r),
            r is Pending,
        ensures
            self.resumable(),
    ;

    /// Advances the computation by one resumption step. The wrapper only
    /// ever calls this under an active installation, so implementations may
    /// read the accessor freely.
    fn step(&mut self, slot: &mut Slot<T>) -> (r: Step<Self::Output>)
        requires
            old(self).resumable(),
            old(slot)@ is Some,
        ensures
            final(self).stepped(*old(self), old(slot)@, final(slot)@, r),
    ;
}

/// The suspendable-operation wrapper: an inner computation together with the
/// state value to install for it.
///
/// Each call to [`HostFuture::poll`] installs the held state value into the
/// slot, resumes the inner computation exactly once, and unconditionally
/// restores the slot's prior contents before returning — so nested wrappers
/// driven on the same slot bracket their installations in strict LIFO order,
/// and nothing leaks across suspension points.
pub struct HostFuture<T, F> {
    state: T,
    inner: F,
    status: Status,
}

/// What one resumption step of a wrapper guarantees, stated over the
/// wrapper before (`pre`) and after (`post`) the step, the slot contents
/// before (`slot_pre`) and after (`slot_post`), and the outcome `r`:
///
/// - the slot's contents after the step equal its contents immediately
///   before it, whatever the inner computation did (the restore invariant);
/// - the outcome is exactly an outcome the inner computation's own step
///   relation admits for a step begun under the wrapper's installation —
///   the wrapper adds no transformation;
/// - the wrapper's status tracks the outcome, and completion is terminal.
pub open spec fn step_brackets<T, F: Suspendable<T>>(
    pre: HostFuture<T, F>,
    post: HostFuture<T, F>,
    slot_pre: Option<T>,
    slot_post: Option<T>,
    r: Step<F::Output>,
) -> bool {
    &&& slot_post == slot_pre
    &&& post.state_spec() == pre.state_spec()
    &&& (exists|mid: Option<T>|
        post.inner_spec().stepped(pre.inner_spec(), Some(pre.state_spec()), mid, r))
    &&& (r is Pending ==> post.status_spec() is Suspended)
    &&& (r is Ready ==> post.status_spec() is Completed)
    &&& post.wf()
}

impl<T, F: Suspendable<T>> HostFuture<T, F> {
    /// The state value this wrapper installs for each of its steps.
    pub closed spec fn state_spec(&self) -> T {
        self.state
    }

    /// The inner computation this wrapper drives.
    pub closed spec fn inner_spec(&self) -> F {
        self.inner
    }

    /// Where this wrapper stands across its resumption steps.
    pub closed spec fn status_spec(&self) -> Status {
        self.status
    }

    /// Well-formedness: as long as the wrapper has not completed, its inner
    /// computation accepts a further step.
    pub open spec fn wf(&self) -> bool {
        !(self.status_spec() is Completed) ==> self.inner_spec().resumable()
    }

    /// Wraps `inner`, to be driven with `state` installed for each step.
    pub fn new(state: T, inner: F) -> (w: HostFuture<T, F>)
        requires
            inner.resumable(),
        ensures
            w.state_spec() == state,
            w.inner_spec() == inner,
            w.status_spec() is NotStarted,
            w.wf(),
    {
        HostFuture { state, inner, status: Status::NotStarted }
    }

    /// Where this wrapper stands.
    pub fn status(&self) -> (s: Status)
        ensures
            s == self.status_spec(),
    {
        self.status
    }
}

impl<T: Copy, F: Suspendable<T>> HostFuture<T, F> {
    /// One resumption step: installs the held state value, capturing the
    /// slot's prior contents; resumes the inner computation exactly once,
    /// forwarding its outcome unchanged; and restores the captured contents
    /// before returning. Completion is terminal: a completed wrapper may
    /// not be polled again.
    pub fn poll(&mut self, slot: &mut Slot<T>) -> (r: Step<F::Output>)
        requires
            old(self).wf(),
            !(old(self).status_spec() is Completed),
        ensures
            step_brackets(*old(self), *final(self), old(slot)@, final(slot)@, r),
    {
        let prev = slot.install(self.state);
        let r = self.inner.step(slot);
        let ghost mid: Option<T> = slot@;
        slot.restore(prev);
        match &r {
            Step::Pending => {
                proof {
                    self.inner.pending_keeps_resumable(
                        old(self).inner_spec(),
                        Some(old(self).state_spec()),
                        mid,
                        r,
                    );
                }
                self.status = Status::Suspended;
            },
            Step::Ready(_) => {
                self.status = Status::Completed;
            },
        }
        proof {
            assert(self.inner_spec().stepped(
                old(self).inner_spec(),
                Some(old(self).state_spec()),
                mid,
                r,
            ));
        }
        r
    }
}

/// Restore invariant: however a resumption step ends, the slot's contents
/// after the step equal its contents immediately before the step began.
pub proof fn lemma_restore_invariant<T, F: Suspendable<T>>(
    pre: HostFuture<T, F>,
    post: HostFuture<T, F>,
    slot_pre: Option<T>,
    slot_post: Option<T>,
    r: Step<F::Output>,
)
    requires
        step_brackets(pre, post, slot_pre, slot_post, r),
    ensures
        slot_post == slot_pre,
{
}

/// Helper for [`lemma_restore_across_run`]: up to any point of a run of
/// resumption steps, the slot's contents equal what they were at the start.
proof fn lemma_slots_constant_upto<T, F: Suspendable<T>>(
    wrappers: Seq<HostFuture<T, F>>,
    slots: Seq<Option<T>>,
    outcomes: Seq<Step<F::Output>>,
    i: int,
)
    requires
        slots.len() == outcomes.len() + 1,
        wrappers.len() == outcomes.len() + 1,
        forall|j: int|
            0 <= j < outcomes.len() ==> step_brackets(
                wrappers[j],
                wrappers[j + 1],
                slots[j],
                slots[j + 1],
                outcomes[j],
            ),
        0 <= i <= outcomes.len(),
    ensures
        slots[i] == slots[0],
    decreases i,
{
    if i > 0 {
        lemma_slots_constant_upto(wrappers, slots, outcomes, i - 1);
        assert(step_brackets(wrappers[i - 1], wrappers[i], slots[i - 1], slots[i], outcomes[i
            - 1]));
    }
}

/// Restore invariant over a whole run: for any sequence of resumption steps
/// of a wrapper — `slots[j]` the slot contents immediately before step `j`,
/// `slots[j + 1]` the contents after it — the slot's contents after every
/// step equal its contents before that step began, and hence equal what the
/// run started from.
pub proof fn lemma_restore_across_run<T, F: Suspendable<T>>(
    wrappers: Seq<HostFuture<T, F>>,
    slots: Seq<Option<T>>,
    outcomes: Seq<Step<F::Output>>,
)
    requires
        slots.len() == outcomes.len() + 1,
        wrappers.len() == outcomes.len() + 1,
        forall|j: int|
            0 <= j < outcomes.len() ==> step_brackets(
                wrappers[j],
                wrappers[j + 1],
                slots[j],
                slots[j + 1],
                outcomes[j],
            ),
    ensures
        forall|j: int| 0 <= j <= outcomes.len() ==> #[trigger] slots[j] == slots[0],
{
    assert forall|j: int| 0 <= j <= outcomes.len() implies #[trigger] slots[j] == slots[0] by {
        lemma_slots_constant_upto(wrappers, slots, outcomes, j);
    }
}

/// Transparent result propagation: the outcome a step reports is exactly an
/// outcome the inner computation's own step relation admits for that step,
/// taken under the wrapper's installation — the wrapper adds no
/// transformation of its own.
pub proof fn lemma_transparent_outcome<T, F: Suspendable<T>>(
    pre: HostFuture<T, F>,
    post: HostFuture<T, F>,
    slot_pre: Option<T>,
    slot_post: Option<T>,
    r: Step<F::Output>,
)
    requires
        step_brackets(pre, post, slot_pre, slot_post, r),
    ensures
        exists|mid: Option<T>|
            post.inner_spec().stepped(pre.inner_spec(), Some(pre.state_spec()), mid, r),
{
}

/// LIFO nesting: when an enclosing step has its own state value installed
/// and a nested wrapper on the same slot takes a step inside it, the slot
/// holds the enclosing value again immediately after the nested step, while
/// the nested inner computation ran under the nested wrapper's own value.
pub proof fn lemma_lifo_nesting<T, F: Suspendable<T>>(
    outer_state: T,
    pre: HostFuture<T, F>,
    post: HostFuture<T, F>,
    slot_pre: Option<T>,
    slot_post: Option<T>,
    r: Step<F::Output>,
)
    requires
        slot_pre == Some(outer_state),
        step_brackets(pre, post, slot_pre, slot_post, r),
    ensures
        slot_post == Some(outer_state),
        exists|mid: Option<T>|
            post.inner_spec().stepped(pre.inner_spec(), Some(pre.state_spec()), mid, r),
{
}

/// No leak across suspension points: a step taken while no enclosing
/// installation is active leaves the slot empty again, so nothing remains
/// installed between one resumption call and the next.
pub proof fn lemma_no_leak<T, F: Suspendable<T>>(
    pre: HostFuture<T, F>,
    post: HostFuture<T, F>,
    slot_pre: Option<T>,
    slot_post: Option<T>,
    r: Step<F::Output>,
)
    requires
        slot_pre is None,
        step_brackets(pre, post, slot_pre, slot_post, r),
    ensures
        slot_post is None,
{
}

} // verus!
