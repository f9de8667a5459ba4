use vstd::prelude::*;
use crate::stack::Stack;

verus! {

/// What a wake-up delivers to a generator body.
pub enum StepInput<A> {
    /// An ordinary resumption, carrying whatever the input slot held when the
    /// caller switched in. The slot is consumed by the wake-up: the body sees
    /// the value exactly once.
    Resume(Option<A>),
    /// A cancellation request: the body is expected to unwind its local state
    /// and answer with the cancellation payload, though the engine copes with
    /// any answer.
    Cancel,
}

/// A panic payload as the engine classifies it. Every `Err` a lifecycle
/// operation returns stands for an unwind of the resuming caller with this
/// payload.
#[derive(Clone, Copy, PartialEq, Eq, Structural, Debug)]
pub enum PanicPayload {
    /// The internal cancellation signal: expected control flow, never an
    /// error, and never propagated to the caller.
    Cancel,
    /// `send` demanded a value and the generator produced none: a contract
    /// violation at the call site.
    NoValue,
    /// The generator's stack region was fully consumed, so memory past it can
    /// no longer be trusted.
    StackErr,
    /// Any other payload a body failed with, identified by a code.
    Other(u64),
}

/// How one wake-up of a generator body ended.
pub enum BodyStep<T> {
    /// The body suspended at a yield point, producing a value.
    Yielded(T),
    /// The body ran to completion, producing its final value. It must not be
    /// woken again.
    Complete(T),
    /// The body unwound with the given payload before reaching a yield point
    /// or its end.
    Panicked(PanicPayload),
}

/// A generator body: the user code a generator runs, seen as what it does
/// between two suspension points. Each wake-up of the generator runs exactly
/// one step; the value keeps its own progress between steps, which is what a
/// dedicated call stack keeps for a native body.
///
/// Each implementor states its behaviour in `step_post` and proves `step`
/// against it; the engine assumes nothing beyond that.
pub trait GenBody<A, T>: Sized {
    /// What one step of this body does: relates the body and its stack before
    /// and after the step, the delivered input, and the outcome.
    spec fn step_post(
        pre: Self,
        post: Self,
        stack_pre: Stack,
        stack_post: Stack,
        input: StepInput<A>,
        out: BodyStep<T>,
    ) -> bool;

    /// Run the body from its last suspension point until it yields, returns
    /// or unwinds, recording any stack consumption on `stack`.
    fn step(&mut self, stack: &mut Stack, input: StepInput<A>) -> (out: BodyStep<T>)
        ensures
            Self::step_post(*old(self), *final(self), *old(stack), *final(stack), input, out),
    ;
}

} // verus!
