use vstd::prelude::*;
use crate::stack::Stack;
use crate::body::{BodyStep, GenBody, PanicPayload, StepInput};

verus! {

/// The sentinel a bounded Fibonacci generator returns once its sequence is
/// exhausted.
pub const FIB_FINISHED: u64 = 0xffff_ffff_ffff_ffff;

/// A body that yields `n - 1` counter values `0, 1, ..., n - 2` and then
/// completes with `n`: with `n > 0` it is woken exactly `n` times and
/// produces a value each time. Woken with the cancellation signal it unwinds
/// at once.
pub struct CountBody {
    /// How many wake-ups in all produce a value.
    pub n: u64,
    /// The next counter value to yield.
    pub i: u64,
}

impl CountBody {
    /// A counter that produces `n` values in all.
    pub fn new(n: u64) -> (b: CountBody)
        ensures
            b.n == n,
            b.i == 0,
    {
        CountBody { n, i: 0 }
    }
}

impl<A> GenBody<A, u64> for CountBody {
    open spec fn step_post(
        pre: Self,
        post: Self,
        stack_pre: Stack,
        stack_post: Stack,
        input: StepInput<A>,
        out: BodyStep<u64>,
    ) -> bool {
        &&& stack_post == stack_pre
        &&& match input {
            StepInput::Cancel => post == pre && out == BodyStep::<u64>::Panicked(PanicPayload::Cancel),
            StepInput::Resume(_) => if pre.n > 0 && pre.i < pre.n - 1 {
                &&& out == BodyStep::<u64>::Yielded(pre.i)
                &&& post.n == pre.n
                &&& post.i == pre.i + 1
            } else {
                &&& out == BodyStep::<u64>::Complete(pre.n)
                &&& post == pre
            },
        }
    }

    fn step(&mut self, stack: &mut Stack, input: StepInput<A>) -> (out: BodyStep<u64>) {
        match input {
            StepInput::Cancel => BodyStep::Panicked(PanicPayload::Cancel),
            StepInput::Resume(_) => {
                if self.n > 0 && self.i < self.n - 1 {
                    let v = self.i;
                    self.i = self.i + 1;
                    BodyStep::Yielded(v)
                } else {
                    BodyStep::Complete(self.n)
                }
            },
        }
    }
}

/// A body that yields back exactly the value each `send` delivered: woken
/// with `Some(x)` it yields `x`, woken with no input it completes with `0`.
pub struct EchoBody {
}

impl EchoBody {
    /// A fresh echo body.
    pub fn new() -> (b: EchoBody) {
        EchoBody {  }
    }
}

impl GenBody<u64, u64> for EchoBody {
    open spec fn step_post(
        pre: Self,
        post: Self,
        stack_pre: Stack,
        stack_post: Stack,
        input: StepInput<u64>,
        out: BodyStep<u64>,
    ) -> bool {
        &&& stack_post == stack_pre
        &&& post == pre
        &&& match input {
            StepInput::Cancel => out == BodyStep::<u64>::Panicked(PanicPayload::Cancel),
            StepInput::Resume(Some(x)) => out == BodyStep::<u64>::Yielded(x),
            StepInput::Resume(None) => out == BodyStep::<u64>::Complete(0u64),
        }
    }

    fn step(&mut self, stack: &mut Stack, input: StepInput<u64>) -> (out: BodyStep<u64>) {
        match input {
            StepInput::Cancel => BodyStep::Panicked(PanicPayload::Cancel),
            StepInput::Resume(Some(x)) => BodyStep::Yielded(x),
            StepInput::Resume(None) => BodyStep::Complete(0u64),
        }
    }
}

/// A body that takes no input and yields the Fibonacci sequence, bounded to
/// `bound` values; once they are out it completes with `FIB_FINISHED`. A sum
/// that would not fit in a word restarts the sequence at zero, so the body is
/// total in every state.
pub struct FibBody {
    /// The value the next wake-up yields.
    pub a: u64,
    /// The value after that.
    pub b: u64,
    /// How many values have been yielded so far.
    pub emitted: u64,
    /// How many values are yielded before the sentinel.
    pub bound: u64,
}

impl FibBody {
    /// A Fibonacci body that yields `bound` values starting `0, 1, 1, 2, ...`.
    pub fn new(bound: u64) -> (b: FibBody)
        ensures
            b.a == 0,
            b.b == 1,
            b.emitted == 0,
            b.bound == bound,
    {
        FibBody { a: 0, b: 1, emitted: 0, bound }
    }
}

impl GenBody<(), u64> for FibBody {
    open spec fn step_post(
        pre: Self,
        post: Self,
        stack_pre: Stack,
        stack_post: Stack,
        input: StepInput<()>,
        out: BodyStep<u64>,
    ) -> bool {
        &&& stack_post == stack_pre
        &&& match input {
            StepInput::Cancel => post == pre && out == BodyStep::<u64>::Panicked(PanicPayload::Cancel),
            StepInput::Resume(_) => if pre.emitted < pre.bound {
                &&& out == BodyStep::<u64>::Yielded(pre.a)
                &&& post.a == pre.b
                &&& post.b == if pre.a + pre.b <= u64::MAX {
                    (pre.a + pre.b) as u64
                } else {
                    0u64
                }
                &&& post.emitted == pre.emitted + 1
                &&& post.bound == pre.bound
            } else {
                &&& out == BodyStep::<u64>::Complete(FIB_FINISHED)
                &&& post == pre
            },
        }
    }

    fn step(&mut self, stack: &mut Stack, input: StepInput<()>) -> (out: BodyStep<u64>) {
        match input {
            StepInput::Cancel => BodyStep::Panicked(PanicPayload::Cancel),
            StepInput::Resume(_) => {
                if self.emitted < self.bound {
                    let v = self.a;
                    let next = if self.a <= u64::MAX - self.b {
                        self.a + self.b
                    } else {
                        0u64
                    };
                    self.a = self.b;
                    self.b = next;
                    self.emitted = self.emitted + 1;
                    BodyStep::Yielded(v)
                } else {
                    BodyStep::Complete(FIB_FINISHED)
                }
            },
        }
    }
}

/// A body that fails at once: every ordinary wake-up unwinds with the stored
/// payload code, never the cancellation signal.
pub struct PanicBody {
    /// The code carried by the payload this body fails with.
    pub code: u64,
}

impl PanicBody {
    /// A body that unwinds with `PanicPayload::Other(code)` when woken.
    pub fn new(code: u64) -> (b: PanicBody)
        ensures
            b.code == code,
    {
        PanicBody { code }
    }
}

impl<A> GenBody<A, u64> for PanicBody {
    open spec fn step_post(
        pre: Self,
        post: Self,
        stack_pre: Stack,
        stack_post: Stack,
        input: StepInput<A>,
        out: BodyStep<u64>,
    ) -> bool {
        &&& stack_post == stack_pre
        &&& post == pre
        &&& match input {
            StepInput::Cancel => out == BodyStep::<u64>::Panicked(PanicPayload::Cancel),
            StepInput::Resume(_) => out == BodyStep::<u64>::Panicked(PanicPayload::Other(pre.code)),
        }
    }

    fn step(&mut self, stack: &mut Stack, input: StepInput<A>) -> (out: BodyStep<u64>) {
        match input {
            StepInput::Cancel => BodyStep::Panicked(PanicPayload::Cancel),
            StepInput::Resume(_) => BodyStep::Panicked(PanicPayload::Other(self.code)),
        }
    }
}

/// A body that touches a chosen number of words of its stack on its first
/// wake-up and then completes: what a deliberately deep or overflowing body
/// looks like to the accounting.
pub struct StackEatBody {
    /// How many words of the stack the body touches.
    pub words: usize,
}

impl StackEatBody {
    /// A body that consumes `words` words of its stack.
    pub fn new(words: usize) -> (b: StackEatBody)
        ensures
            b.words == words,
    {
        StackEatBody { words }
    }
}

impl GenBody<(), u64> for StackEatBody {
    open spec fn step_post(
        pre: Self,
        post: Self,
        stack_pre: Stack,
        stack_post: Stack,
        input: StepInput<()>,
        out: BodyStep<u64>,
    ) -> bool {
        &&& post == pre
        &&& match input {
            StepInput::Cancel => stack_post == stack_pre && out == BodyStep::<u64>::Panicked(PanicPayload::Cancel),
            StepInput::Resume(_) => {
                &&& stack_post.size_spec() == stack_pre.size_spec()
                &&& stack_post.used_spec() == if pre.words > stack_pre.used_spec() {
                    pre.words
                } else {
                    stack_pre.used_spec()
                }
                &&& out == BodyStep::<u64>::Complete(0u64)
            },
        }
    }

    fn step(&mut self, stack: &mut Stack, input: StepInput<()>) -> (out: BodyStep<u64>) {
        match input {
            StepInput::Cancel => BodyStep::Panicked(PanicPayload::Cancel),
            StepInput::Resume(_) => {
                stack.record_usage(self.words);
                BodyStep::Complete(0u64)
            },
        }
    }
}

} // verus!
